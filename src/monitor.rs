use vstd::prelude::*;

use crate::ratio::Ratio;
use crate::throttle::{alert_due, should_push};
use crate::usage::ReadError;

verus! {

/// What the monitor carries from one cycle to the next: the last ratio that
/// was observed successfully.
#[derive(Clone, Copy, Debug)]
pub struct MonitorState {
    pub previous: Ratio,
}

impl MonitorState {
    pub open spec fn wf(self) -> bool {
        self.previous.wf()
    }

    /// The state before the first observation: a ratio of one, so that the
    /// first observation below the threshold is alerted.
    pub fn new() -> (s: MonitorState)
        ensures
            s.wf(),
            s.previous == (Ratio { part: 1, whole: 1 }),
    {
        MonitorState { previous: Ratio { part: 1, whole: 1 } }
    }
}

/// Carries out the decision part of one monitoring cycle.
///
/// `reading` is the outcome of reading the free-space ratio. A failed read
/// leaves the state as it was and asks for no alert. A successful read is
/// recorded as the new previous ratio, whether or not it is alerted, and the
/// ratio to alert on is returned when an alert is due.
pub fn check_disk_usage(
    state: &mut MonitorState,
    treshold: Ratio,
    reading: Result<Ratio, ReadError>,
) -> (alert: Option<Ratio>)
    requires
        old(state).wf(),
        treshold.wf(),
        0 < treshold.part,
        reading matches Ok(current) ==> current.wf(),
    ensures
        final(state).wf(),
        match reading {
            Ok(current) => {
                &&& final(state).previous == current
                &&& alert == (if alert_due(current, treshold, old(state).previous) {
                    Some(current)
                } else {
                    None::<Ratio>
                })
            },
            Err(_) => {
                &&& *final(state) == *old(state)
                &&& alert is None
            },
        },
{
    match reading {
        Ok(current) => {
            let push = should_push(current, treshold, state.previous);
            state.previous = current;
            if push {
                Some(current)
            } else {
                None
            }
        },
        Err(_) => None,
    }
}

} // verus!
