use crate::domain::wishlist::item::Item;
use crate::domain::wishlist::item::ItemView;
use std::collections::HashMap;
use vstd::prelude::*;
use vstd::std_specs::hash::group_hash_axioms;

verus! {

broadcast use group_hash_axioms;

/// A store of items in memory. It is made empty; the library has no
/// operation that puts an item into it.
pub struct InMemoryItemRepository {
    items: HashMap<u128, Item>,
}

impl View for InMemoryItemRepository {
    type V = Map<u128, ItemView>;

    closed spec fn view(&self) -> Map<u128, ItemView> {
        self.items@.map_values(|item: Item| item@)
    }
}

impl InMemoryItemRepository {
    /// An empty store.
    pub fn new() -> (repo: Self)
        ensures
            repo@ == Map::<u128, ItemView>::empty(),
    {
        let repo = Self { items: HashMap::new() };
        assert(repo@ =~= Map::<u128, ItemView>::empty());
        repo
    }
}

} // verus!
