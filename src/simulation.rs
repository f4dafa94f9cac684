use vstd::prelude::*;

verus! {

/// The interval between ticks when none is given, in milliseconds.
pub const DEFAULT_TICK_MS: u64 = 1000;

/// Where the simulation loop stands.
#[derive(PartialEq, Eq, Structural, Debug, Clone, Copy)]
pub enum LoopPhase {
    /// Constructed, not yet started.
    Idle,
    /// Ticking.
    Running,
    /// Stopped for good.
    Stopped,
}

/// What the driver of the loop does next.
#[derive(PartialEq, Eq, Structural, Debug, Clone, Copy)]
pub enum LoopAction {
    /// Nothing is due yet: the loop has not been started.
    Wait,
    /// Run one tick on the registry.
    Tick,
    /// Sleep for the given number of milliseconds.
    Sleep(u64),
    /// Leave the loop; no further delivery may follow.
    Exit,
}

/// The decisions of the simulation loop, apart from the sleeping and the
/// ticking themselves: a driver asks `next_action`, performs it, and asks
/// again. A stop request is seen at the next tick boundary.
pub struct SimulationLoop {
    pub phase: LoopPhase,
    pub interval_ms: u64,
    /// Whether a tick is due before the next sleep.
    pub tick_due: bool,
}

impl SimulationLoop {
    /// An idle loop that will tick every `interval_ms` milliseconds.
    pub fn new(interval_ms: u64) -> (r: SimulationLoop)
        ensures
            r.phase == LoopPhase::Idle,
            r.interval_ms == interval_ms,
            r.tick_due,
    {
        SimulationLoop { phase: LoopPhase::Idle, interval_ms, tick_due: true }
    }

    /// An idle loop with the default interval.
    pub fn with_default_interval() -> (r: SimulationLoop)
        ensures
            r.phase == LoopPhase::Idle,
            r.interval_ms == DEFAULT_TICK_MS,
            r.tick_due,
    {
        SimulationLoop::new(DEFAULT_TICK_MS)
    }

    /// Moves an idle loop to `Running`, with a tick due at once. Returns
    /// whether it did; a running or stopped loop is left as it is.
    pub fn start(&mut self) -> (r: bool)
        ensures
            r == (old(self).phase == LoopPhase::Idle),
            r ==> *final(self) == (SimulationLoop {
                phase: LoopPhase::Running,
                tick_due: true,
                ..*old(self)
            }),
            !r ==> *final(self) == *old(self),
    {
        if self.phase == LoopPhase::Idle {
            self.phase = LoopPhase::Running;
            self.tick_due = true;
            true
        } else {
            false
        }
    }

    /// Requests the loop to stop; from now on it only ever exits.
    pub fn stop(&mut self)
        ensures
            *final(self) == (SimulationLoop { phase: LoopPhase::Stopped, ..*old(self) }),
    {
        self.phase = LoopPhase::Stopped;
    }

    /// The next action of the loop. A running loop alternates one tick and
    /// one sleep of the interval; a stopped loop exits; an idle one waits.
    pub fn next_action(&mut self) -> (r: LoopAction)
        ensures
            final(self).phase == old(self).phase,
            final(self).interval_ms == old(self).interval_ms,
            old(self).phase == LoopPhase::Idle ==> r == LoopAction::Wait && *final(self) == *old(
                self,
            ),
            old(self).phase == LoopPhase::Stopped ==> r == LoopAction::Exit && *final(self)
                == *old(self),
            old(self).phase == LoopPhase::Running ==> if old(self).tick_due {
                r == LoopAction::Tick && !final(self).tick_due
            } else {
                r == LoopAction::Sleep(old(self).interval_ms) && final(self).tick_due
            },
    {
        match self.phase {
            LoopPhase::Idle => LoopAction::Wait,
            LoopPhase::Stopped => LoopAction::Exit,
            LoopPhase::Running => {
                if self.tick_due {
                    self.tick_due = false;
                    LoopAction::Tick
                } else {
                    self.tick_due = true;
                    LoopAction::Sleep(self.interval_ms)
                }
            },
        }
    }
}

} // verus!
