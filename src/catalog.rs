//! Memoised component sets, keyed by template id.
use std::collections::HashMap;
use vstd::prelude::*;

verus! {

broadcast use vstd::std_specs::hash::group_hash_axioms;

/// Component kinds per template id, as the catalog returned them. An entry is
/// stored once, after the single query for its template, and never replaced
/// or removed.
pub struct Catalog {
    cache: HashMap<u32, Vec<u32>>,
}

impl View for Catalog {
    type V = Map<u32, Seq<u32>>;

    closed spec fn view(&self) -> Map<u32, Seq<u32>> {
        self.cache@.map_values(|v: Vec<u32>| v@)
    }
}

impl Catalog {
    /// A catalog cache that has not queried anything yet.
    pub fn new() -> (r: Catalog)
        ensures
            r@ == Map::<u32, Seq<u32>>::empty(),
    {
        let r = Catalog { cache: HashMap::new() };
        assert(r@ =~= Map::<u32, Seq<u32>>::empty());
        r
    }

    /// Whether a lookup of `lot` has to query the catalog: only when nothing
    /// is cached for it yet.
    pub fn needs_query(&self, lot: u32) -> (r: bool)
        ensures
            r == !self@.contains_key(lot),
    {
        !self.cache.contains_key(&lot)
    }

    /// Caches the answer of the one query made for `lot`.
    pub fn store(&mut self, lot: u32, kinds: Vec<u32>)
        requires
            !old(self)@.contains_key(lot),
        ensures
            final(self)@ == old(self)@.insert(lot, kinds@),
    {
        let ghost k = kinds@;
        self.cache.insert(lot, kinds);
        assert(self@ =~= old(self)@.insert(lot, k));
    }

    /// The cached component kinds of `lot`, without querying.
    pub fn get(&self, lot: u32) -> (r: Option<&Vec<u32>>)
        ensures
            r is Some <==> self@.contains_key(lot),
            r is Some ==> r->0@ == self@[lot],
    {
        self.cache.get(&lot)
    }
}

/// The template ids that a run of lookups of `lots`, in order, sends to the
/// catalog when the ids in `cached` are already cached: a lookup queries
/// exactly when its id is not cached, and caches it.
pub open spec fn queried_lots(cached: Set<u32>, lots: Seq<u32>) -> Seq<u32>
    decreases lots.len(),
{
    if lots.len() == 0 {
        seq![]
    } else {
        let t = lots[0];
        let here: Seq<u32> = if cached.contains(t) {
            seq![]
        } else {
            seq![t]
        };
        here + queried_lots(cached.insert(t), lots.drop_first())
    }
}

/// However many lookups are made, each template id is queried at most once
/// per catalog cache, never when it is already cached, and only when it was
/// looked up.
pub proof fn law_single_query(cached: Set<u32>, lots: Seq<u32>)
    ensures
        queried_lots(cached, lots).no_duplicates(),
        forall|i: int|
            0 <= i < queried_lots(cached, lots).len() ==> !cached.contains(
                #[trigger] queried_lots(cached, lots)[i],
            ) && lots.contains(queried_lots(cached, lots)[i]),
    decreases lots.len(),
{
    if lots.len() > 0 {
        let t = lots[0];
        let rest = lots.drop_first();
        law_single_query(cached.insert(t), rest);
        let tail = queried_lots(cached.insert(t), rest);
        let q = queried_lots(cached, lots);
        if cached.contains(t) {
            assert(q =~= tail);
        } else {
            assert(q =~= seq![t] + tail);
        }
        assert forall|i: int| 0 <= i < q.len() implies !cached.contains(#[trigger] q[i])
            && lots.contains(q[i]) by {
            if cached.contains(t) {
                assert(q[i] == tail[i]);
                assert(rest.contains(q[i]));
                let j = choose|j: int| 0 <= j < rest.len() && rest[j] == q[i];
                assert(lots[j + 1] == q[i]);
            } else if i == 0 {
                assert(lots[0] == q[i]);
            } else {
                assert(q[i] == tail[i - 1]);
                assert(rest.contains(q[i]));
                let j = choose|j: int| 0 <= j < rest.len() && rest[j] == q[i];
                assert(lots[j + 1] == q[i]);
            }
        }
        if !cached.contains(t) {
            assert forall|i: int, j: int|
                0 <= i < q.len() && 0 <= j < q.len() && i != j implies q[i] != q[j] by {
                if i > 0 && j > 0 {
                    assert(q[i] == tail[i - 1] && q[j] == tail[j - 1]);
                } else if i == 0 {
                    assert(q[j] == tail[j - 1]);
                    assert(!cached.insert(t).contains(tail[j - 1]));
                } else {
                    assert(q[i] == tail[i - 1]);
                    assert(!cached.insert(t).contains(tail[i - 1]));
                }
            }
        }
    }
}

} // verus!
