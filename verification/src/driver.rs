use vstd::prelude::*;

verus! {

/// Where the send loop stands: not yet started, inside the loop, or past the
/// deadline.
#[derive(Debug, Clone, Copy, PartialEq, Eq, Structural)]
pub enum DriverPhase {
    Idle,
    Running,
    Completed,
}

/// What the caller of the loop must do next: send one request, or stop.
#[derive(Debug, Clone, Copy, PartialEq, Eq, Structural)]
pub enum DriverAction {
    SendRequest,
    Finish,
}

/// The send loop as a state machine over milliseconds of wall clock. The
/// surrounding task feeds it the current time and each request's outcome;
/// the machine decides, so that the loop sends strictly before the deadline
/// and completes exactly when a poll sees the deadline reached. The deadline
/// is only ever checked between requests: a request in flight when it passes
/// still counts, so a run may exceed its duration by one request's latency.
#[derive(Debug)]
pub struct LoadDriver {
    pub phase: DriverPhase,
    pub deadline_ms: u64,
}

impl LoadDriver {
    /// A driver that has not started.
    pub fn new() -> (d: Self)
        ensures
            d.phase is Idle,
    {
        LoadDriver { phase: DriverPhase::Idle, deadline_ms: 0 }
    }

    /// Starts the run: the deadline is the start instant plus the requested
    /// duration in seconds.
    pub fn start(&mut self, now_ms: u64, duration_s: u64)
        requires
            old(self).phase is Idle,
            now_ms + duration_s * 1000 <= u64::MAX,
        ensures
            final(self).phase is Running,
            final(self).deadline_ms == now_ms + duration_s * 1000,
    {
        self.deadline_ms = now_ms + duration_s * 1000;
        self.phase = DriverPhase::Running;
    }

    /// One deadline check at the top of the loop: strictly before the
    /// deadline the loop sends another request and keeps running; at or past
    /// it the loop finishes and the driver completes, never to send again.
    pub fn poll(&mut self, now_ms: u64) -> (a: DriverAction)
        requires
            old(self).phase is Running,
        ensures
            final(self).deadline_ms == old(self).deadline_ms,
            now_ms < old(self).deadline_ms ==> a is SendRequest && final(self).phase is Running,
            now_ms >= old(self).deadline_ms ==> a is Finish && final(self).phase is Completed,
    {
        if now_ms < self.deadline_ms {
            DriverAction::SendRequest
        } else {
            self.phase = DriverPhase::Completed;
            DriverAction::Finish
        }
    }
}

} // verus!
