//! The liveness monitor: counts probes that no answer has followed.

use vstd::prelude::*;
use crate::constants::MAX_MISSED_PONGS;

verus! {

/// What the monitor decides after a probe.
#[derive(Debug, Clone, Copy, PartialEq, Eq, Structural)]
pub enum HeartbeatStep {
    /// The probe is counted; the next one is due after the interval.
    Probed,
    /// The probe is counted and more probes are unanswered than the threshold
    /// allows: the monitor has stopped. The monitor closes nothing itself;
    /// whoever owns the session is expected to disconnect it.
    Expired,
    /// The monitor is not running: nothing is counted and no probe is due.
    Halted,
}

/// Mathematical view of [`HeartbeatMonitor`].
pub struct HeartbeatView {
    /// Probes sent since the last answer.
    pub missed_pongs: nat,
    /// Whether probes are being scheduled.
    pub running: bool,
}

impl HeartbeatView {
    /// A monitor that has never run.
    pub open spec fn idle() -> HeartbeatView {
        HeartbeatView { missed_pongs: 0, running: false }
    }

    /// The monitor as a connection starts it.
    pub open spec fn started(self) -> HeartbeatView {
        HeartbeatView { missed_pongs: 0, running: true }
    }

    /// The monitor after an answer of the server has been seen.
    pub open spec fn answered(self) -> HeartbeatView {
        HeartbeatView { missed_pongs: 0, ..self }
    }

    /// The monitor after it has been told to stop.
    pub open spec fn halted(self) -> HeartbeatView {
        HeartbeatView { running: false, ..self }
    }

    /// What the monitor decides after a probe has been sent.
    pub open spec fn step(self) -> HeartbeatStep {
        if !self.running {
            HeartbeatStep::Halted
        } else if self.missed_pongs + 1 > MAX_MISSED_PONGS {
            HeartbeatStep::Expired
        } else {
            HeartbeatStep::Probed
        }
    }

    /// The monitor after a probe has been sent: a running monitor counts it,
    /// and stops once the count exceeds the threshold.
    pub open spec fn probed(self) -> HeartbeatView {
        if !self.running {
            self
        } else {
            HeartbeatView {
                missed_pongs: self.missed_pongs + 1,
                running: self.missed_pongs + 1 <= MAX_MISSED_PONGS,
            }
        }
    }

    /// The monitor after `count` probes in a row, none of them answered.
    pub open spec fn probed_times(self, count: nat) -> HeartbeatView
        decreases count,
    {
        if count == 0 {
            self
        } else {
            self.probed_times((count - 1) as nat).probed()
        }
    }
}

/// Counts the liveness probes sent since the last answer of the server.
#[derive(Debug)]
pub struct HeartbeatMonitor {
    missed_pongs: u32,
    running: bool,
}

impl View for HeartbeatMonitor {
    type V = HeartbeatView;

    closed spec fn view(&self) -> HeartbeatView {
        HeartbeatView { missed_pongs: self.missed_pongs as nat, running: self.running }
    }
}

impl HeartbeatMonitor {
    /// The count never passes the threshold by more than one, and a running
    /// monitor has not passed it.
    #[verifier::type_invariant]
    pub closed spec fn bounded(&self) -> bool {
        &&& self.missed_pongs <= MAX_MISSED_PONGS + 1
        &&& self.running ==> self.missed_pongs <= MAX_MISSED_PONGS
    }

    /// A monitor that has never run.
    pub fn new() -> (monitor: Self)
        ensures
            monitor@ == HeartbeatView::idle(),
    {
        Self { missed_pongs: 0, running: false }
    }

    /// Probes sent since the last answer.
    pub fn missed_pongs(&self) -> (count: u32)
        ensures
            count == self@.missed_pongs,
            count <= MAX_MISSED_PONGS + 1,
            self@.running ==> count <= MAX_MISSED_PONGS,
    {
        proof {
            use_type_invariant(self);
        }
        self.missed_pongs
    }

    /// Whether probes are being scheduled.
    pub fn is_running(&self) -> (running: bool)
        ensures
            running == self@.running,
    {
        self.running
    }

    /// Starts the monitor with nothing counted.
    pub fn start(&mut self)
        ensures
            final(self)@ == old(self)@.started(),
    {
        *self = Self { missed_pongs: 0, running: true };
    }

    /// Counts a probe that has been sent, and says what follows.
    pub fn record_probe(&mut self) -> (step: HeartbeatStep)
        ensures
            final(self)@ == old(self)@.probed(),
            step == old(self)@.step(),
    {
        proof {
            use_type_invariant(&*self);
        }
        if !self.running {
            HeartbeatStep::Halted
        } else {
            let missed_pongs = self.missed_pongs + 1;
            if missed_pongs > MAX_MISSED_PONGS {
                *self = Self { missed_pongs, running: false };
                HeartbeatStep::Expired
            } else {
                *self = Self { missed_pongs, running: true };
                HeartbeatStep::Probed
            }
        }
    }

    /// Notes an answer of the server: nothing is unanswered any more.
    pub fn record_pong(&mut self)
        ensures
            final(self)@ == old(self)@.answered(),
    {
        let running = self.running;
        *self = Self { missed_pongs: 0, running };
    }

    /// Stops the monitor.
    pub fn halt(&mut self)
        ensures
            final(self)@ == old(self)@.halted(),
    {
        proof {
            use_type_invariant(&*self);
        }
        let missed_pongs = self.missed_pongs;
        *self = Self { missed_pongs, running: false };
    }
}

} // verus!
