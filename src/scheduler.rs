//! The ad-window scheduler: decides when splice-out and splice-in sections are
//! issued, assigns their identifiers and keeps ad windows from overlapping.
//!
//! The scheduler does no I/O. Its caller reads the pipeline clock and passes
//! the reading in (`None` when the pipeline has no running time yet),
//! dispatches the returned sections, and arms the one-shot timer that a
//! successful splice-out asks for.
use vstd::prelude::*;

use crate::section::{build_splice_in, build_splice_out, SpliceEvent};
use crate::sequencer::EventId;

verus! {

/// Whether an ad break is currently running on the signaling stream.
#[derive(Clone, Copy, Debug, PartialEq, Eq, Structural)]
pub enum AdWindow {
    Idle,
    /// Opened by the splice-out with id `start_event_id`; the break was
    /// announced to end at `armed_end_time` (running time, nanoseconds).
    Active { start_event_id: u32, armed_end_time: u64 },
}

/// Why a splice-out request was skipped. A skipped request changes nothing.
#[derive(Clone, Copy, Debug, PartialEq, Eq, Structural)]
pub enum Rejection {
    /// The pipeline has no running time yet.
    ClockUnavailable,
    /// An ad window is already open.
    AdActive,
    /// The requested duration is negative.
    InvalidDuration,
    /// The target or end time does not fit in 64 bits of nanoseconds.
    TimeOutOfRange,
    /// Fewer than two event identifiers are left for the splice pair.
    IdsExhausted,
}

/// What the caller does after an accepted splice-out request: dispatch
/// `section` now, and after `arm_after` nanoseconds report the timer of
/// window `window_id` through `on_splice_in_due`.
#[derive(Clone, Copy, Debug, PartialEq, Eq, Structural)]
pub struct SpliceOutPlan {
    pub section: SpliceEvent,
    pub window_id: u32,
    pub arm_after: u64,
}

/// The target time `now + ahead`, when it fits in 64 bits.
pub open spec fn target_time(now: u64, ahead: u64) -> Option<u64> {
    if now + ahead <= u64::MAX {
        Some((now + ahead) as u64)
    } else {
        None
    }
}

/// The decisions of one signaling stream: its identifier sequencer and its
/// ad window.
pub struct SpliceScheduler {
    ids: EventId,
    window: AdWindow,
}

impl SpliceScheduler {
    /// The current ad window.
    pub closed spec fn window(&self) -> AdWindow {
        self.window
    }

    /// The identifier most recently issued on this stream (0 before any).
    pub closed spec fn last_id(&self) -> nat {
        self.ids.last()
    }

    /// An open window was opened by an issued identifier, and one more
    /// identifier is left for the splice-in that closes it.
    pub closed spec fn wf(&self) -> bool {
        &&& self.ids.last() <= u32::MAX as nat
        &&& match self.window {
            AdWindow::Idle => true,
            AdWindow::Active { start_event_id, .. } => {
                &&& 1 <= start_event_id as nat <= self.ids.last()
                &&& self.ids.last() < u32::MAX as nat
            },
        }
    }

    /// What a splice-out request answers, given the clock reading `now`, the
    /// lead time `ahead` and the break `duration` (all nanoseconds).
    pub open spec fn splice_out_outcome(self, now: Option<u64>, ahead: u64, duration: i64) -> Result<
        SpliceOutPlan,
        Rejection,
    > {
        match now {
            None => Err(Rejection::ClockUnavailable),
            Some(t) => {
                if self.window() is Active {
                    Err(Rejection::AdActive)
                } else if duration < 0 {
                    Err(Rejection::InvalidDuration)
                } else if t + ahead + duration > u64::MAX {
                    Err(Rejection::TimeOutOfRange)
                } else if self.last_id() + 2 > u32::MAX {
                    Err(Rejection::IdsExhausted)
                } else {
                    Ok(
                        SpliceOutPlan {
                            section: SpliceEvent::SpliceOut {
                                id: (self.last_id() + 1) as u32,
                                time: (t + ahead) as u64,
                                duration: Some(duration as u64),
                            },
                            window_id: (self.last_id() + 1) as u32,
                            arm_after: duration as u64,
                        },
                    )
                }
            },
        }
    }

    /// The state after a splice-out request.
    pub closed spec fn step_splice_out(self, now: Option<u64>, ahead: u64, duration: i64) -> SpliceScheduler {
        match self.splice_out_outcome(now, ahead, duration) {
            Ok(plan) => SpliceScheduler {
                ids: self.ids.after_next(),
                window: AdWindow::Active {
                    start_event_id: plan.window_id,
                    armed_end_time: (now->Some_0 + ahead + duration) as u64,
                },
            },
            Err(_) => self,
        }
    }

    /// What the timer of window `window_id` answers when it fires with clock
    /// reading `now`: the splice-in that closes the window, timed at `now`, or
    /// at the announced end time when the clock cannot be read. A timer of a
    /// window that is no longer open answers nothing.
    pub open spec fn splice_in_outcome(self, window_id: u32, now: Option<u64>) -> Option<SpliceEvent> {
        match self.window() {
            AdWindow::Active { start_event_id, armed_end_time } if start_event_id == window_id => {
                Some(
                    SpliceEvent::SpliceIn {
                        id: (self.last_id() + 1) as u32,
                        time: match now {
                            Some(t) => t,
                            None => armed_end_time,
                        },
                    },
                )
            },
            _ => None,
        }
    }

    /// The state after the timer of window `window_id` fires.
    pub closed spec fn step_splice_in(self, window_id: u32, now: Option<u64>) -> SpliceScheduler {
        match self.splice_in_outcome(window_id, now) {
            Some(_) => SpliceScheduler { ids: self.ids.after_next(), window: AdWindow::Idle },
            None => self,
        }
    }

    /// A scheduler with no identifier issued and no ad window open.
    pub fn new() -> (r: SpliceScheduler)
        ensures
            r.wf(),
            r.window() == AdWindow::Idle,
            r.last_id() == 0,
    {
        SpliceScheduler { ids: EventId::new(), window: AdWindow::Idle }
    }

    /// The current ad window.
    pub fn ad_window(&self) -> (r: AdWindow)
        ensures
            r == self.window(),
    {
        self.window
    }

    /// Whether an ad window is open.
    pub fn is_ad_active(&self) -> (r: bool)
        ensures
            r == (self.window() is Active),
    {
        match self.window {
            AdWindow::Idle => false,
            AdWindow::Active { .. } => true,
        }
    }

    /// Handles a splice-out request from any trigger source.
    ///
    /// With a clock reading, an idle window, a non-negative duration, times
    /// that fit and two identifiers left, it allocates the next identifier,
    /// builds the splice-out at `now + ahead` with break `duration`, and opens
    /// the ad window until `now + ahead + duration`. Otherwise it changes
    /// nothing and says why.
    pub fn on_splice_out_requested(&mut self, now: Option<u64>, ahead: u64, duration: i64) -> (r:
        Result<SpliceOutPlan, Rejection>)
        requires
            old(self).wf(),
        ensures
            final(self).wf(),
            r == old(self).splice_out_outcome(now, ahead, duration),
            *final(self) == old(self).step_splice_out(now, ahead, duration),
            r is Ok ==> final(self).window() == (AdWindow::Active {
                start_event_id: r->Ok_0.window_id,
                armed_end_time: (now->Some_0 + ahead + duration) as u64,
            }) && final(self).last_id() == old(self).last_id() + 1,
            r is Err ==> *final(self) == *old(self),
    {
        let t = match now {
            None => {
                return Err(Rejection::ClockUnavailable);
            },
            Some(t) => t,
        };
        if self.is_ad_active() {
            return Err(Rejection::AdActive);
        }
        if duration < 0 {
            return Err(Rejection::InvalidDuration);
        }
        let d = duration as u64;
        if ahead > u64::MAX - t || d > u64::MAX - t - ahead {
            return Err(Rejection::TimeOutOfRange);
        }
        if self.ids.remaining() < 2 {
            return Err(Rejection::IdsExhausted);
        }
        let target = t + ahead;
        let section = match build_splice_out(self.ids.last_issued() + 1, target, Some(duration)) {
            Ok(s) => s,
            Err(_) => {
                return Err(Rejection::InvalidDuration);
            },
        };
        let id = self.ids.next();
        self.window = AdWindow::Active { start_event_id: id, armed_end_time: target + d };
        Ok(SpliceOutPlan { section, window_id: id, arm_after: d })
    }

    /// Handles the firing of the timer armed for window `window_id`, with the
    /// clock reading `now`.
    ///
    /// When that window is open it allocates the next identifier, closes the
    /// window and returns the splice-in to dispatch; otherwise it changes
    /// nothing and returns `None`.
    pub fn on_splice_in_due(&mut self, window_id: u32, now: Option<u64>) -> (r: Option<SpliceEvent>)
        requires
            old(self).wf(),
        ensures
            final(self).wf(),
            r == old(self).splice_in_outcome(window_id, now),
            *final(self) == old(self).step_splice_in(window_id, now),
            r is Some ==> final(self).window() == AdWindow::Idle && final(self).last_id()
                == old(self).last_id() + 1,
            r is None ==> *final(self) == *old(self),
    {
        match self.window {
            AdWindow::Active { start_event_id, armed_end_time } => {
                if start_event_id != window_id {
                    return None;
                }
                let time = match now {
                    Some(t) => t,
                    None => armed_end_time,
                };
                let id = self.ids.next();
                self.window = AdWindow::Idle;
                Some(build_splice_in(id, time))
            },
            AdWindow::Idle => None,
        }
    }
}

/// A splice-out requested while an ad window is open is rejected: it issues
/// no section and leaves the scheduler, armed end time included, unchanged.
pub proof fn lemma_no_splice_out_while_active(s: SpliceScheduler, now: Option<u64>, ahead: u64, duration: i64)
    requires
        s.wf(),
        s.window() is Active,
    ensures
        s.splice_out_outcome(now, ahead, duration) is Err,
        s.step_splice_out(now, ahead, duration) == s,
        s.step_splice_out(now, ahead, duration).window() == s.window(),
{
}

/// Every accepted splice-out with id `N` is closed by exactly one splice-in:
/// the first firing of its timer issues a splice-in with an id greater than
/// `N` and returns the window to idle; any later firing of that timer issues
/// nothing. Splice-out requests in between are rejected and change nothing.
pub proof fn lemma_splice_out_paired_with_one_splice_in(
    s: SpliceScheduler,
    now: Option<u64>,
    ahead: u64,
    duration: i64,
    now_between: Option<u64>,
    ahead_between: u64,
    duration_between: i64,
    now_fire: Option<u64>,
    now_again: Option<u64>,
)
    requires
        s.wf(),
        s.splice_out_outcome(now, ahead, duration) is Ok,
    ensures
        ({
            let plan = s.splice_out_outcome(now, ahead, duration)->Ok_0;
            let opened = s.step_splice_out(now, ahead, duration);
            let fired = opened.splice_in_outcome(plan.window_id, now_fire);
            let closed = opened.step_splice_in(plan.window_id, now_fire);
            &&& plan.section is SpliceOut
            &&& plan.window_id == plan.section.spec_id()
            &&& opened.wf()
            &&& opened.splice_out_outcome(now_between, ahead_between, duration_between) is Err
            &&& opened.step_splice_out(now_between, ahead_between, duration_between) == opened
            &&& fired is Some
            &&& fired->Some_0 is SpliceIn
            &&& fired->Some_0.spec_id() > plan.section.spec_id()
            &&& closed.wf()
            &&& closed.window() == AdWindow::Idle
            &&& closed.splice_in_outcome(plan.window_id, now_again) is None
        }),
{
    s.ids.lemma_after_next();
    let opened = s.step_splice_out(now, ahead, duration);
    opened.ids.lemma_after_next();
    lemma_no_splice_out_while_active(opened, now_between, ahead_between, duration_between);
}

} // verus!
