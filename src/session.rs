//! The decode recipes bound to object handles within one capture unit.
use std::collections::HashMap;
use vstd::prelude::*;
use crate::catalog::Catalog;
use crate::recipe::{resolve, recipe_of, DecodeContext, LeafDecoder};

verus! {

broadcast use vstd::std_specs::hash::group_hash_axioms;

/// What a construction packet established for one object.
pub struct SessionEntry {
    pub lot: u32,
    pub update_recipe: Vec<LeafDecoder>,
}

/// Handle to (template id, update recipe), for the objects constructed so far
/// in the current capture unit.
pub struct SessionCache {
    entries: HashMap<u16, SessionEntry>,
}

impl View for SessionCache {
    type V = Map<u16, (u32, Seq<LeafDecoder>)>;

    closed spec fn view(&self) -> Map<u16, (u32, Seq<LeafDecoder>)> {
        self.entries@.map_values(|e: SessionEntry| (e.lot, e.update_recipe@))
    }
}

impl SessionCache {
    /// The empty cache of a capture unit that has not begun.
    pub fn new() -> (r: SessionCache)
        ensures
            r@ == Map::<u16, (u32, Seq<LeafDecoder>)>::empty(),
    {
        let r = SessionCache { entries: HashMap::new() };
        assert(r@ =~= Map::<u16, (u32, Seq<LeafDecoder>)>::empty());
        r
    }

    /// Forgets every handle, as a new capture unit begins.
    pub fn reset(&mut self)
        ensures
            final(self)@ == Map::<u16, (u32, Seq<LeafDecoder>)>::empty(),
    {
        self.entries.clear();
        assert(self@ =~= Map::<u16, (u32, Seq<LeafDecoder>)>::empty());
    }

    /// Handles a construction of `handle` as template `lot`, whose component
    /// kinds the catalog cache already holds: returns the construction recipe
    /// and binds the handle to the template and its update recipe. On an
    /// unknown component kind returns it and leaves the cache as it was.
    pub fn record(&mut self, catalog: &Catalog, handle: u16, lot: u32) -> (r: Result<
        Vec<LeafDecoder>,
        u32,
    >)
        requires
            catalog@.contains_key(lot),
        ensures
            match (recipe_of(catalog@[lot], DecodeContext::Construction), recipe_of(catalog@[lot], DecodeContext::Update)) {
                (Ok(c), Ok(u)) => r is Ok && r->Ok_0@ == c && final(self)@ == old(self)@.insert(handle, (lot, u)),
                (Err(k), _) => r == Err::<Vec<LeafDecoder>, u32>(k) && final(self)@ == old(self)@,
                (Ok(_), Err(k)) => r == Err::<Vec<LeafDecoder>, u32>(k) && final(self)@ == old(self)@,
            },
    {
        let kinds = catalog.get(lot).unwrap();
        let construction = match resolve(kinds, DecodeContext::Construction) {
            Ok(c) => c,
            Err(k) => {
                return Err(k);
            },
        };
        let update = match resolve(kinds, DecodeContext::Update) {
            Ok(u) => u,
            Err(k) => {
                return Err(k);
            },
        };
        let ghost u = update@;
        self.entries.insert(handle, SessionEntry { lot, update_recipe: update });
        assert(self@ =~= old(self)@.insert(handle, (lot, u)));
        Ok(construction)
    }

    /// The update recipe bound to `handle`, or `None` when no construction of
    /// it was seen in this capture unit.
    pub fn recipe_for_update(&self, handle: u16) -> (r: Option<&Vec<LeafDecoder>>)
        ensures
            r is Some <==> self@.contains_key(handle),
            r is Some ==> r->0@ == self@[handle].1,
    {
        match self.entries.get(&handle) {
            Some(e) => Some(&e.update_recipe),
            None => None,
        }
    }
}

} // verus!
