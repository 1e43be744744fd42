//! Total time spent in each plugin action.

use vstd::prelude::*;
use crate::strmap::StrMap;

verus! {

/// The largest duration std can hold, in nanoseconds
/// (`u64::MAX` seconds and 999 999 999 nanoseconds).
pub const MAX_DURATION_NANOS: u128 = 18446744073709551615999999999;

/// The total recorded for `name`, or zero.
pub open spec fn total_or_zero(m: Map<Seq<char>, u128>, name: Seq<char>) -> u128 {
    if m.contains_key(name) {
        m[name]
    } else {
        0
    }
}

/// Accumulates the time spent in each named action. Durations are
/// counted in nanoseconds.
pub struct Timer {
    name: String,
    durations: StrMap<u128>,
}

impl Timer {
    /// The timer's name.
    pub closed spec fn name_view(&self) -> Seq<char> {
        self.name@
    }

    /// The total per action name.
    pub closed spec fn totals(&self) -> Map<Seq<char>, u128> {
        self.durations@
    }

    /// A timer with nothing recorded.
    pub fn new(name: String) -> (r: Self)
        ensures
            r.name_view() == name@,
            r.totals() == Map::<Seq<char>, u128>::empty(),
    {
        Timer { name, durations: StrMap::new() }
    }

    /// Adds `duration_nanos` to the total of `action_name`.
    pub fn record_action(&mut self, action_name: &str, duration_nanos: u128)
        requires
            total_or_zero(old(self).totals(), action_name@) + duration_nanos <= MAX_DURATION_NANOS,
        ensures
            final(self).name_view() == old(self).name_view(),
            final(self).totals() == after_record(old(self).totals(), action_name@, duration_nanos),
    {
        let previous = match self.durations.get(action_name) {
            Some(d) => *d,
            None => 0,
        };
        self.durations.insert(action_name.to_owned(), previous + duration_nanos);
    }

    /// The timer's name.
    pub fn name(&self) -> (r: &String)
        ensures
            r@ == self.name_view(),
    {
        &self.name
    }

    /// The totals, by action name.
    pub fn durations(&self) -> (r: &StrMap<u128>)
        ensures
            r@ == self.totals(),
    {
        &self.durations
    }
}

/// The totals after recording `d` for `name`.
pub open spec fn after_record(m: Map<Seq<char>, u128>, name: Seq<char>, d: u128) -> Map<
    Seq<char>,
    u128,
> {
    m.insert(name, (total_or_zero(m, name) + d) as u128)
}

/// Recorded times accumulate: recording `d1` then `d2` for the same
/// action adds both to its total, and leaves other actions alone.
pub proof fn law_record_accumulates(m: Map<Seq<char>, u128>, name: Seq<char>, d1: u128, d2: u128)
    requires
        total_or_zero(m, name) + d1 + d2 <= MAX_DURATION_NANOS,
    ensures
        total_or_zero(after_record(after_record(m, name, d1), name, d2), name) == total_or_zero(
            m,
            name,
        ) + d1 + d2,
        forall|k: Seq<char>|
            k != name ==> total_or_zero(after_record(after_record(m, name, d1), name, d2), k)
                == total_or_zero(m, k),
{
}

} // verus!
