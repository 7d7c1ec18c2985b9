//! One sampling tick: the timestamp of the moment and the process names that
//! were observed then. A tick is made only by sampling, so the names of a tick
//! are always distinct.
use vstd::prelude::*;
use crate::clock::{format_timestamp, timestamp_of};
use crate::sampler::{distinct_unignored, lemma_kept_once, list_all_unique_running_apps};
use crate::store::{entries_of, entry_views, log_entries, LogEntry};

verus! {

/// What a tick is, as plain mathematical values.
pub struct TickView {
    pub timestamp: Seq<char>,
    pub observed: Seq<Seq<char>>,
}

/// The snapshot of one tick. It does not change after it was made.
pub struct SampleTick {
    timestamp: String,
    observed: Vec<String>,
}

impl View for SampleTick {
    type V = TickView;

    closed spec fn view(&self) -> TickView {
        TickView { timestamp: self.timestamp@, observed: self.observed.deep_view() }
    }
}

impl SampleTick {
    #[verifier::type_invariant]
    spec fn names_are_distinct(self) -> bool {
        self.observed.deep_view().no_duplicates()
    }

    /// The tick with the given timestamp for the raw names that the host's
    /// enumeration gave and the ignore list: it observes the names of `raw` that
    /// are not ignored, each once, in the order of first sighting.
    pub fn observe(timestamp: String, raw: &Vec<String>, apps_to_ignore: &Vec<String>) -> (tick:
        SampleTick)
        ensures
            tick@ == (TickView {
                timestamp: timestamp@,
                observed: distinct_unignored(raw.deep_view(), apps_to_ignore.deep_view().to_set()),
            }),
    {
        let observed = list_all_unique_running_apps(raw, apps_to_ignore);
        proof {
            lemma_kept_once(raw.deep_view(), apps_to_ignore.deep_view().to_set());
        }
        SampleTick { timestamp, observed }
    }

    /// The tick of the instant `secs` seconds after the Unix epoch, or `None`
    /// where that instant has no timestamp.
    pub fn observe_at(secs: i64, raw: &Vec<String>, apps_to_ignore: &Vec<String>) -> (tick: Option<
        SampleTick,
    >)
        ensures
            tick is Some <==> timestamp_of(secs) is Some,
            tick is Some ==> tick->0@ == (TickView {
                timestamp: timestamp_of(secs)->0,
                observed: distinct_unignored(raw.deep_view(), apps_to_ignore.deep_view().to_set()),
            }),
    {
        match format_timestamp(secs) {
            Some(timestamp) => Some(SampleTick::observe(timestamp, raw, apps_to_ignore)),
            None => None,
        }
    }

    /// The timestamp of the tick.
    pub fn timestamp(&self) -> (timestamp: &String)
        ensures
            timestamp@ == self@.timestamp,
    {
        &self.timestamp
    }

    /// The names that the tick observed: no name occurs twice.
    pub fn observed(&self) -> (observed: &Vec<String>)
        ensures
            observed.deep_view() == self@.observed,
            observed.deep_view().no_duplicates(),
    {
        proof {
            use_type_invariant(self);
        }
        &self.observed
    }

    /// The rows that the tick contributes to the log: one for each observed
    /// name, in order, all with the timestamp of the tick.
    pub fn rows(&self) -> (rows: Vec<LogEntry>)
        ensures
            entry_views(rows@) == entries_of(self@.timestamp, self@.observed),
    {
        log_entries(&self.timestamp, &self.observed)
    }
}

} // verus!
