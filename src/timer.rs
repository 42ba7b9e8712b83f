//! The sleep primitive: `unstarted -> waiting -> fired`.

use vstd::prelude::*;
use core::time::Duration;
use crossbeam_channel::{Receiver, Sender};
use crate::channel::{signal_channel, try_take_signal};

verus! {

/// Where a timer stands in its life.
pub enum TimerPhase {
    Unstarted,
    Waiting,
    Fired,
}

/// What the driver of a timer must do after advancing it.
pub enum TimerPoll {
    /// Start the background thread: it sleeps for the timer's duration, then
    /// sends one signal on this sender and wakes the timer's task. The timer
    /// is pending.
    Start(Sender<()>),
    /// Still waiting for the signal.
    Pending,
    /// The signal has come: the timer is complete.
    Ready,
}

/// A timer that completes once a background thread has slept for its duration.
pub struct SimpleTimer {
    duration: Duration,
    receiver: Option<Receiver<()>>,
    fired: bool,
}

impl SimpleTimer {
    pub closed spec fn phase(&self) -> TimerPhase {
        if self.receiver is None {
            TimerPhase::Unstarted
        } else if !self.fired {
            TimerPhase::Waiting
        } else {
            TimerPhase::Fired
        }
    }

    pub closed spec fn spec_duration(&self) -> Duration {
        self.duration
    }

    /// A timer fires only after it has started.
    pub closed spec fn wf(&self) -> bool {
        self.fired ==> self.receiver is Some
    }

    pub fn duration(&self) -> (r: Duration)
        ensures
            r == self.spec_duration(),
    {
        self.duration
    }

    pub fn is_fired(&self) -> (r: bool)
        requires
            self.wf(),
        ensures
            r == (self.phase() is Fired),
    {
        self.fired
    }

    /// Advances the timer once. The first advance starts it, and it stays
    /// pending then; a later one completes it once the signal is there. A
    /// background thread is started at most once per timer.
    pub fn advance(&mut self) -> (r: TimerPoll)
        requires
            old(self).wf(),
        ensures
            final(self).wf(),
            final(self).spec_duration() == old(self).spec_duration(),
            old(self).phase() is Unstarted ==> r is Start && final(self).phase() is Waiting,
            old(self).phase() is Waiting ==> (
                (r is Pending && final(self).phase() is Waiting)
                || (r is Ready && final(self).phase() is Fired)),
            old(self).phase() is Fired ==> r is Ready && final(self).phase() is Fired,
    {
        if self.receiver.is_none() {
            let (sender, receiver) = signal_channel();
            self.receiver = Some(receiver);
            return TimerPoll::Start(sender);
        }
        if self.fired {
            return TimerPoll::Ready;
        }
        let signal = match &self.receiver {
            Some(receiver) => try_take_signal(receiver),
            None => false,
        };
        self.observe(signal)
    }

    /// Advances a waiting timer, given whether the background thread's
    /// signal has arrived: it completes exactly when it has.
    pub fn observe(&mut self, signal: bool) -> (r: TimerPoll)
        requires
            old(self).wf(),
            old(self).phase() is Waiting,
        ensures
            final(self).wf(),
            final(self).spec_duration() == old(self).spec_duration(),
            signal ==> r is Ready && final(self).phase() is Fired,
            !signal ==> r is Pending && final(self).phase() is Waiting,
    {
        self.fired = signal;
        if signal {
            TimerPoll::Ready
        } else {
            TimerPoll::Pending
        }
    }
}

/// A timer for `duration`, not yet started: its thread starts on the first
/// advance, so the time is measured from then.
pub fn sleep(duration: Duration) -> (r: SimpleTimer)
    ensures
        r.wf(),
        r.phase() is Unstarted,
        r.spec_duration() == duration,
{
    SimpleTimer { duration, receiver: None, fired: false }
}

} // verus!
