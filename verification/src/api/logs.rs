//! `GET /logs/stream`: the node's log, live and filtered.
//!
//! The same bus taps read, carrying `log` observations. Filtering is by `service` and
//! `instance`, the two identities a log line has.
use vstd::prelude::*;
use crate::observe::{Observation, LOG};
use crate::text::str_eq;

verus! {

/// What `GET /logs/stream` filters by.
#[derive(Debug, Clone, PartialEq, Eq)]
pub struct LogFilter {
    /// Only lines from this service. `None` for every service.
    pub service: Option<String>,
    /// Only lines from this instance id. `None` for every instance. An id means nothing
    /// outside its service, so this is worth pairing with `service`.
    pub instance: Option<String>,
}

/// `value` is what `wanted` asks for, or `wanted` asks for nothing.
pub open spec fn admits(wanted: Option<String>, value: Seq<char>) -> bool {
    match wanted {
        Some(w) => w@ == value,
        None => true,
    }
}

/// Whether an observation belongs on the log stream under `filter`: a log line, from the
/// service and instance asked for.
pub open spec fn on_log(filter: LogFilter, observation: Observation) -> bool {
    &&& observation.event@ == LOG@
    &&& admits(filter.service, observation.service@)
    &&& admits(filter.instance, observation.instance@)
}

/// Whether `value` is what `wanted` asks for.
fn allows(wanted: &Option<String>, value: &String) -> (yes: bool)
    ensures
        yes == admits(*wanted, value@),
{
    match wanted {
        Some(w) => str_eq(w.as_str(), value.as_str()),
        None => true,
    }
}

impl LogFilter {
    /// Whether `observation` belongs on the log stream (see [`on_log`]).
    pub fn passes(&self, observation: &Observation) -> (passes: bool)
        ensures
            passes == on_log(*self, *observation),
    {
        str_eq(observation.event, LOG) && allows(&self.service, &observation.service) && allows(
            &self.instance,
            &observation.instance,
        )
    }
}

} // verus!
