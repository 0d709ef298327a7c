//! Counting how often each function address occurs in a list of sites, and
//! choosing a function by its count.
//!
//! Both choices are functions of the counts alone. Where several addresses
//! qualify, the lowest one is taken.

use std::collections::HashMap;
use vstd::prelude::*;

verus! {

broadcast use vstd::std_specs::hash::group_hash_axioms;

/// How many entries of `sites` are `addr`.
pub open spec fn occurrences(sites: Seq<u64>, addr: u64) -> nat
    decreases sites.len(),
{
    if sites.len() == 0 {
        0
    } else {
        occurrences(sites.drop_last(), addr) + if sites.last() == addr {
            1nat
        } else {
            0nat
        }
    }
}

/// The counts of a list of sites: each address that occurs, with the number
/// of its occurrences.
pub open spec fn tally_of(sites: Seq<u64>) -> Map<u64, nat> {
    Map::new(|a: u64| sites.contains(a), |a: u64| occurrences(sites, a))
}

/// `addr` occurs in `sites` exactly `wanted` times, and no lower address does.
pub open spec fn is_lowest_with_count(sites: Seq<u64>, wanted: nat, addr: u64) -> bool {
    &&& sites.contains(addr)
    &&& occurrences(sites, addr) == wanted
    &&& forall|b: u64| sites.contains(b) && occurrences(sites, b) == wanted ==> addr <= b
}

/// The lowest address that occurs in `sites` exactly `wanted` times, if
/// there is one.
pub open spec fn lowest_with_count(sites: Seq<u64>, wanted: nat) -> Option<u64> {
    if exists|a: u64| is_lowest_with_count(sites, wanted, a) {
        Some(choose|a: u64| is_lowest_with_count(sites, wanted, a))
    } else {
        None
    }
}

/// `addr` occurs in `sites`, no address occurs more often, and no lower
/// address occurs as often.
pub open spec fn is_most_frequent(sites: Seq<u64>, addr: u64) -> bool {
    &&& sites.contains(addr)
    &&& forall|b: u64| occurrences(sites, b) <= occurrences(sites, addr)
    &&& forall|b: u64| occurrences(sites, b) == occurrences(sites, addr) ==> addr <= b
}

/// The address that occurs most often in `sites`, the lowest such address
/// where several tie; nothing where `sites` is empty.
pub open spec fn most_frequent(sites: Seq<u64>) -> Option<u64> {
    if exists|a: u64| is_most_frequent(sites, a) {
        Some(choose|a: u64| is_most_frequent(sites, a))
    } else {
        None
    }
}

/// An address is counted once for each place where it stands.
pub proof fn lemma_occurrences_push(sites: Seq<u64>, last: u64, addr: u64)
    ensures
        occurrences(sites.push(last), addr) == occurrences(sites, addr) + (if last == addr {
            1nat
        } else {
            0nat
        }),
{
    assert(sites.push(last).drop_last() =~= sites);
}

/// No address occurs more often than there are sites.
pub proof fn lemma_occurrences_bounded(sites: Seq<u64>, addr: u64)
    ensures
        occurrences(sites, addr) <= sites.len(),
    decreases sites.len(),
{
    if sites.len() > 0 {
        lemma_occurrences_bounded(sites.drop_last(), addr);
    }
}

/// An address is counted if and only if it occurs.
pub proof fn lemma_occurs_iff_counted(sites: Seq<u64>, addr: u64)
    ensures
        sites.contains(addr) <==> occurrences(sites, addr) > 0,
    decreases sites.len(),
{
    if sites.len() > 0 {
        let front = sites.drop_last();
        lemma_occurs_iff_counted(front, addr);
        if sites.last() == addr {
            assert(sites[sites.len() - 1] == addr);
        } else if front.contains(addr) {
            let i = choose|i: int| 0 <= i < front.len() && front[i] == addr;
            assert(sites[i] == addr);
        } else if sites.contains(addr) {
            let i = choose|i: int| 0 <= i < sites.len() && sites[i] == addr;
            assert(front[i] == addr);
        }
    }
}

/// At most one address is the lowest with a given count.
pub proof fn lemma_lowest_with_count_is(sites: Seq<u64>, wanted: nat, addr: u64)
    requires
        is_lowest_with_count(sites, wanted, addr),
    ensures
        lowest_with_count(sites, wanted) == Some(addr),
{
    let chosen = choose|a: u64| is_lowest_with_count(sites, wanted, a);
    assert(is_lowest_with_count(sites, wanted, chosen));
    assert(chosen <= addr && addr <= chosen);
}

/// At most one address is the most frequent.
pub proof fn lemma_most_frequent_is(sites: Seq<u64>, addr: u64)
    requires
        is_most_frequent(sites, addr),
    ensures
        most_frequent(sites) == Some(addr),
{
    let chosen = choose|a: u64| is_most_frequent(sites, a);
    assert(is_most_frequent(sites, chosen));
    assert(occurrences(sites, chosen) <= occurrences(sites, addr));
    assert(occurrences(sites, addr) <= occurrences(sites, chosen));
    assert(chosen <= addr && addr <= chosen);
}

/// Where an address occurs `wanted` times, some address is the lowest that
/// does.
pub proof fn lemma_lowest_with_count_exists(sites: Seq<u64>, wanted: nat, addr: u64)
    requires
        sites.contains(addr),
        occurrences(sites, addr) == wanted,
    ensures
        lowest_with_count(sites, wanted) is Some,
    decreases addr,
{
    if exists|b: u64| b < addr && sites.contains(b) && occurrences(sites, b) == wanted {
        let b = choose|b: u64| b < addr && sites.contains(b) && occurrences(sites, b) == wanted;
        lemma_lowest_with_count_exists(sites, wanted, b);
    } else {
        assert(is_lowest_with_count(sites, wanted, addr));
    }
}

/// No address is chosen exactly where no address occurs `wanted` times.
pub proof fn lemma_lowest_with_count_none(sites: Seq<u64>, wanted: nat)
    ensures
        lowest_with_count(sites, wanted) is None <==> forall|a: u64|
            sites.contains(a) ==> occurrences(sites, a) != wanted,
{
    if exists|a: u64| sites.contains(a) && occurrences(sites, a) == wanted {
        let a = choose|a: u64| sites.contains(a) && occurrences(sites, a) == wanted;
        lemma_lowest_with_count_exists(sites, wanted, a);
    }
}

spec fn is_peak(sites: Seq<u64>, addr: u64) -> bool {
    sites.contains(addr) && forall|b: u64| occurrences(sites, b) <= occurrences(sites, addr)
}

proof fn lemma_peak_exists(sites: Seq<u64>, addr: u64)
    requires
        sites.contains(addr),
    ensures
        exists|p: u64| is_peak(sites, p),
    decreases sites.len() - occurrences(sites, addr),
{
    lemma_occurrences_bounded(sites, addr);
    if exists|b: u64| occurrences(sites, b) > occurrences(sites, addr) {
        let b = choose|b: u64| occurrences(sites, b) > occurrences(sites, addr);
        lemma_occurs_iff_counted(sites, b);
        lemma_occurrences_bounded(sites, b);
        lemma_peak_exists(sites, b);
    } else {
        assert(is_peak(sites, addr));
    }
}

proof fn lemma_lowest_peak_exists(sites: Seq<u64>, peak: u64)
    requires
        is_peak(sites, peak),
    ensures
        most_frequent(sites) is Some,
    decreases peak,
{
    if exists|b: u64| b < peak && occurrences(sites, b) == occurrences(sites, peak) {
        let b = choose|b: u64| b < peak && occurrences(sites, b) == occurrences(sites, peak);
        lemma_occurs_iff_counted(sites, peak);
        lemma_occurs_iff_counted(sites, b);
        lemma_lowest_peak_exists(sites, b);
    } else {
        assert(is_most_frequent(sites, peak));
    }
}

/// No address is chosen exactly where there is no site.
pub proof fn lemma_most_frequent_none(sites: Seq<u64>)
    ensures
        most_frequent(sites) is None <==> sites.len() == 0,
{
    if sites.len() > 0 {
        assert(sites.contains(sites[0]));
        lemma_peak_exists(sites, sites[0]);
        let p = choose|p: u64| is_peak(sites, p);
        lemma_lowest_peak_exists(sites, p);
    } else {
        assert forall|a: u64| !is_most_frequent(sites, a) by {
            assert(!sites.contains(a));
        }
    }
}

/// A mapping from function address to the number of sites counted for it.
pub struct FunctionMap {
    counts: HashMap<u64, usize>,
}

impl View for FunctionMap {
    type V = Map<u64, nat>;

    closed spec fn view(&self) -> Map<u64, nat> {
        Map::new(|a: u64| self.counts@.contains_key(a), |a: u64| self.counts@[a] as nat)
    }
}

impl FunctionMap {
    /// The count held for `addr`: zero for an address that was never
    /// recorded.
    pub open spec fn count_of(&self, addr: u64) -> nat {
        if self@.contains_key(addr) {
            self@[addr]
        } else {
            0
        }
    }

    /// A map without counts.
    pub fn new() -> (map: Self)
        ensures
            map@ == Map::<u64, nat>::empty(),
    {
        let map = FunctionMap { counts: HashMap::new() };
        assert(map@ =~= Map::<u64, nat>::empty());
        map
    }

    /// The count held for `addr`.
    pub fn count(&self, addr: u64) -> (n: usize)
        ensures
            n == self.count_of(addr),
    {
        match self.counts.get(&addr) {
            Some(n) => *n,
            None => 0,
        }
    }

    /// Counts one more site for `addr`.
    pub fn record(&mut self, addr: u64)
        requires
            old(self).count_of(addr) < usize::MAX,
        ensures
            final(self)@ == old(self)@.insert(addr, old(self).count_of(addr) + 1),
    {
        let next: usize = self.count(addr) + 1;
        self.counts.insert(addr, next);
        assert(self@ =~= old(self)@.insert(addr, old(self).count_of(addr) + 1));
    }

    /// The counts of `sites`.
    pub fn of(sites: &Vec<u64>) -> (map: Self)
        ensures
            map@ == tally_of(sites@),
    {
        let mut map = FunctionMap::new();
        let mut i: usize = 0;
        while i < sites.len()
            invariant
                i <= sites.len(),
                map@ == tally_of(sites@.take(i as int)),
            decreases sites.len() - i,
        {
            let addr: u64 = sites[i];
            proof {
                let seen = sites@.take(i as int);
                lemma_occurrences_bounded(seen, addr);
                lemma_occurs_iff_counted(seen, addr);
            }
            map.record(addr);
            proof {
                let seen = sites@.take(i as int);
                let next = sites@.take(i + 1);
                assert(next =~= seen.push(addr));
                assert forall|a: u64| #[trigger] next.contains(a) <==> (seen.contains(a) || a
                    == addr) by {
                    lemma_occurs_iff_counted(seen, a);
                    lemma_occurs_iff_counted(next, a);
                    lemma_occurrences_push(seen, addr, a);
                }
                assert forall|a: u64| occurrences(next, a) == #[trigger] occurrences(seen, a)
                    + if a == addr {
                    1nat
                } else {
                    0nat
                } by {
                    lemma_occurrences_push(seen, addr, a);
                }
                assert(map@ =~= tally_of(next));
            }
            i = i + 1;
        }
        assert(sites@.take(sites.len() as int) =~= sites@);
        map
    }
}

/// The lowest address that occurs in `sites` exactly `wanted` times.
///
/// `None` exactly where no address occurs that often.
pub fn select_with_count(sites: &Vec<u64>, wanted: usize) -> (choice: Option<u64>)
    ensures
        choice == lowest_with_count(sites@, wanted as nat),
        choice matches Some(a) ==> is_lowest_with_count(sites@, wanted as nat, a),
        choice is None <==> forall|a: u64|
            sites@.contains(a) ==> occurrences(sites@, a) != wanted,
{
    let map = FunctionMap::of(sites);
    let mut best: Option<u64> = None;
    let mut i: usize = 0;
    while i < sites.len()
        invariant
            i <= sites.len(),
            map@ == tally_of(sites@),
            match best {
                Some(a) => {
                    &&& sites@.contains(a)
                    &&& occurrences(sites@, a) == wanted
                    &&& forall|j: int|
                        0 <= j < i && occurrences(sites@, #[trigger] sites@[j]) == wanted ==> a
                            <= sites@[j]
                },
                None => forall|j: int|
                    0 <= j < i ==> occurrences(sites@, #[trigger] sites@[j]) != wanted,
            },
        decreases sites.len() - i,
    {
        let addr: u64 = sites[i];
        assert(sites@.contains(addr));
        if map.count(addr) == wanted {
            best = match best {
                Some(a) => if addr < a {
                    Some(addr)
                } else {
                    Some(a)
                },
                None => Some(addr),
            };
        }
        i = i + 1;
    }
    proof {
        match best {
            Some(a) => {
                assert(is_lowest_with_count(sites@, wanted as nat, a));
                lemma_lowest_with_count_is(sites@, wanted as nat, a);
            },
            None => {
                assert forall|a: u64| sites@.contains(a) implies occurrences(sites@, a)
                    != wanted by {
                    let j = choose|j: int| 0 <= j < sites@.len() && sites@[j] == a;
                    assert(occurrences(sites@, sites@[j]) != wanted);
                }
            },
        }
    }
    best
}

/// The address that occurs most often in `sites`, the lowest one where
/// several tie.
///
/// `None` exactly where `sites` is empty.
pub fn select_most_frequent(sites: &Vec<u64>) -> (choice: Option<u64>)
    ensures
        choice == most_frequent(sites@),
        choice matches Some(a) ==> is_most_frequent(sites@, a),
        choice is None <==> sites@.len() == 0,
{
    let map = FunctionMap::of(sites);
    let mut best: Option<u64> = None;
    let mut most: usize = 0;
    let mut i: usize = 0;
    while i < sites.len()
        invariant
            i <= sites.len(),
            map@ == tally_of(sites@),
            best is None <==> i == 0,
            best matches Some(a) ==> {
                &&& sites@.contains(a)
                &&& occurrences(sites@, a) == most
                &&& forall|j: int|
                    0 <= j < i ==> occurrences(sites@, #[trigger] sites@[j]) <= most
                &&& forall|j: int|
                    0 <= j < i && occurrences(sites@, #[trigger] sites@[j]) == most ==> a
                        <= sites@[j]
            },
        decreases sites.len() - i,
    {
        let addr: u64 = sites[i];
        let count: usize = map.count(addr);
        assert(sites@.contains(addr));
        let better: bool = match best {
            Some(a) => count > most || (count == most && addr < a),
            None => true,
        };
        if better {
            best = Some(addr);
            most = count;
        }
        i = i + 1;
    }
    proof {
        match best {
            Some(a) => {
                assert forall|b: u64| occurrences(sites@, b) <= occurrences(sites@, a) by {
                    lemma_occurs_iff_counted(sites@, b);
                    if sites@.contains(b) {
                        let j = choose|j: int| 0 <= j < sites@.len() && sites@[j] == b;
                        assert(occurrences(sites@, sites@[j]) <= most);
                    }
                }
                assert forall|b: u64| occurrences(sites@, b) == occurrences(sites@, a) implies a
                    <= b by {
                    lemma_occurs_iff_counted(sites@, a);
                    lemma_occurs_iff_counted(sites@, b);
                    let j = choose|j: int| 0 <= j < sites@.len() && sites@[j] == b;
                    assert(occurrences(sites@, sites@[j]) == most);
                }
                assert(is_most_frequent(sites@, a));
                lemma_most_frequent_is(sites@, a);
            },
            None => {
                assert forall|a: u64| !is_most_frequent(sites@, a) by {
                    assert(!sites@.contains(a));
                }
            },
        }
    }
    best
}

} // verus!
