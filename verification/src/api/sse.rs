//! Turning a bus subscription into an event stream: which observations a reader is sent, and
//! how a reader that fell behind is told so.
//!
//! Taps and the log stream are two filters over one bus and differ in nothing else, so the
//! step from what the subscription handed over to what the stream sends is decided once, here.
use vstd::prelude::*;
use crate::api::logs::{on_log, LogFilter};
use crate::api::taps::{on_tap, tap_passes};
use crate::observe::{lagged, well_named, Observation, Tap, What};

verus! {

/// Which observations a stream carries.
#[derive(Debug, Clone, PartialEq, Eq)]
pub enum Filter {
    /// A tap's: what the tapped connection's source emits on the tapped port.
    Tap(Tap),
    /// The log stream's, filtered by service and instance.
    Logs(LogFilter),
}

/// Whether `observation` belongs on a stream filtered by `filter`.
pub open spec fn filter_admits(filter: Filter, observation: Observation) -> bool {
    match filter {
        Filter::Tap(tap) => on_tap(tap, observation),
        Filter::Logs(logs) => on_log(logs, observation),
    }
}

impl Filter {
    /// Whether `observation` belongs on this stream (see [`filter_admits`]).
    pub fn admits(&self, observation: &Observation) -> (admitted: bool)
        ensures
            admitted == filter_admits(*self, *observation),
    {
        match self {
            Filter::Tap(tap) => tap_passes(tap, observation),
            Filter::Logs(logs) => logs.passes(observation),
        }
    }
}

/// What one wait on a bus subscription handed over.
#[derive(Debug, Clone, PartialEq, Eq)]
pub enum Received {
    /// The next observation.
    Observed(Observation),
    /// The reader fell behind, and this many observations it will never see went past.
    Lagged(u64),
    /// The bus is gone: the node is going down.
    Closed,
}

/// What the stream does with it.
#[derive(Debug, Clone, PartialEq, Eq)]
pub enum Step {
    /// Sends this observation, under its own event name.
    Emit(Observation),
    /// Sends nothing, and waits again.
    Skip,
    /// Ends the stream.
    End,
}

/// `report` tells a reader that it missed exactly `missed` observations: a `lagged`
/// observation from no service, instance or port.
pub open spec fn is_lag_report(report: Observation, missed: u64) -> bool {
    &&& well_named(report)
    &&& report.what == (What::Lagged { missed })
    &&& report.service@.len() == 0
    &&& report.instance@.len() == 0
    &&& report.port is None
}

/// The stream's step for what its subscription handed over.
///
/// An observation the filter admits is sent as it is, and one it does not is skipped. Lag is
/// reported rather than hidden: a reader that fell behind is sent how many it missed, since a
/// debugging stream that quietly showed a subset would be worse than one that shows less and
/// says so. The stream ends when the bus does, and at no other time.
pub fn stream_step(filter: &Filter, received: Received) -> (step: Step)
    ensures
        match received {
            Received::Observed(observation) => if filter_admits(*filter, observation) {
                step == Step::Emit(observation)
            } else {
                step == Step::Skip
            },
            Received::Lagged(missed) => step matches Step::Emit(report) && is_lag_report(report, missed),
            Received::Closed => step == Step::End,
        },
{
    match received {
        Received::Observed(observation) => {
            if filter.admits(&observation) {
                Step::Emit(observation)
            } else {
                Step::Skip
            }
        },
        Received::Lagged(missed) => Step::Emit(lagged(missed)),
        Received::Closed => Step::End,
    }
}

} // verus!
