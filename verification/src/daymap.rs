//! A map keyed by calendar dates, held in a `HashMap` keyed by day number.

use vstd::prelude::*;
use std::collections::HashMap;
use crate::date::Date;

verus! {

broadcast use vstd::std_specs::hash::group_hash_axioms;

/// A map from dates to values.  Each entry is stored under its date's day
/// number, together with the date itself.
#[derive(Debug, Clone)]
pub struct DayMap<V> {
    pub map: HashMap<i32, (Date, V)>,
}

impl<V> DayMap<V> {
    /// Every entry holds a valid date, stored under that date's day number.
    pub open spec fn wf(self) -> bool {
        forall|k: i32| #[trigger] self.map@.contains_key(k) ==> self.map@[k].0.valid() && self.map@[k].0.days() == k
    }

    /// The dates present.
    pub open spec fn has(self, d: Date) -> bool {
        self.map@.contains_key(d.days() as i32) && self.map@[d.days() as i32].0 == d
    }

    /// The value for a present date.
    pub open spec fn value_at(self, d: Date) -> V {
        self.map@[d.days() as i32].1
    }

    /// The map's contents.
    pub open spec fn spec_get(self, d: Date) -> Option<V> {
        if self.has(d) { Some(self.value_at(d)) } else { None }
    }

    pub fn new() -> (r: Self)
        ensures
            r.wf(),
            forall|d: Date| !r.has(d),
    {
        DayMap { map: HashMap::new() }
    }

    /// The value stored for `d`.
    pub fn get(&self, d: Date) -> (r: Option<&V>)
        requires
            self.wf(),
            d.valid(),
        ensures
            r matches Some(v) ==> self.has(d) && *v == self.value_at(d),
            r is None ==> !self.has(d),
    {
        let k = d.num_days_from_ce();
        match self.map.get(&k) {
            Some(entry) => {
                proof {
                    crate::date::law_day_number_identifies_date(entry.0, d);
                }
                Some(&entry.1)
            },
            None => None,
        }
    }

    /// Stores `v` for `d`, replacing any earlier value.
    pub fn insert(&mut self, d: Date, v: V)
        requires
            old(self).wf(),
            d.valid(),
        ensures
            final(self).wf(),
            final(self).has(d),
            final(self).value_at(d) == v,
            forall|e: Date| e != d ==> (final(self).has(e) <==> old(self).has(e)),
            forall|e: Date| e != d && old(self).has(e) ==> final(self).value_at(e) == old(self).value_at(e),
    {
        let k = d.num_days_from_ce();
        self.map.insert(k, (d, v));
        proof {
            assert forall|e: Date| e != d implies (self.has(e) <==> old(self).has(e)) by {
                if self.has(e) && e.days() as i32 == k {
                    assert(self.map@[k].0 == d);
                }
                if old(self).has(e) && e.days() as i32 == k {
                    assert(old(self).map@[k].0.days() == k);
                    crate::date::law_day_number_identifies_date(old(self).map@[k].0, d);
                }
            }
        }
    }

    /// Number of dates present.
    pub fn len(&self) -> (r: usize)
        ensures
            r == self.map@.len(),
    {
        self.map.len()
    }
}

/// Storing a value and reading it back gives that value; other dates keep theirs.
pub proof fn law_get_after_insert<V>(before: DayMap<V>, after: DayMap<V>, d: Date, v: V, e: Date)
    requires
        before.wf(),
        after.wf(),
        after.has(d),
        after.value_at(d) == v,
        forall|x: Date| x != d ==> (after.has(x) <==> before.has(x)),
        forall|x: Date| x != d && before.has(x) ==> after.value_at(x) == before.value_at(x),
    ensures
        after.spec_get(d) == Some(v),
        e != d ==> after.spec_get(e) == before.spec_get(e),
{
}

} // verus!
