use crate::domain::wishlist::CreateWishlistError;
use crate::domain::wishlist::CreateWishlistRequest;
use crate::domain::wishlist::Wishlist;
use crate::domain::wishlist::WishlistRepository;
use crate::domain::wishlist::WishlistSlug;
use crate::domain::wishlist::WishlistView;
use crate::identifier::generate_time_ordered;
use std::collections::HashMap;
use vstd::prelude::*;
use vstd::std_specs::hash::group_hash_axioms;

verus! {

broadcast use group_hash_axioms;

/// A store of wishlists in memory.
pub struct InMemoryWishlistRepository {
    wishlists: HashMap<u128, Wishlist>,
}

impl View for InMemoryWishlistRepository {
    type V = Map<u128, WishlistView>;

    closed spec fn view(&self) -> Map<u128, WishlistView> {
        self.wishlists@.map_values(|wishlist: Wishlist| wishlist@)
    }
}

impl InMemoryWishlistRepository {
    /// An empty store.
    pub fn new() -> (repo: Self)
        ensures
            repo@ == Map::<u128, WishlistView>::empty(),
    {
        let repo = Self { wishlists: HashMap::new() };
        assert(repo@ =~= Map::<u128, WishlistView>::empty());
        repo
    }

    /// Stores a new wishlist made from the request under the identifier
    /// `id`, with the slug given. A wishlist that was stored under `id`
    /// before is replaced.
    pub fn save_with(&mut self, req: &CreateWishlistRequest, id: u128, slug: WishlistSlug) -> (wishlist:
        Wishlist)
        ensures
            wishlist@ == (WishlistView {
                id,
                owner_id: req@.owner_id,
                name: req@.name,
                slug: slug@,
                private: req@.private,
                items: Set::empty(),
            }),
            final(self)@ == old(self)@.insert(id, wishlist@),
    {
        let wishlist = Wishlist::new(id, req.owner_id(), req.name().clone(), slug, req.private());
        self.wishlists.insert(id, wishlist.clone());
        assert(self@ =~= old(self)@.insert(id, wishlist@));
        wishlist
    }

    /// The stored wishlist with the identifier, if there is one.
    pub fn find_wishlist_by_id(&self, id: u128) -> (found: Option<Wishlist>)
        ensures
            found matches Some(wishlist) ==> self@.contains_key(id) && self@[id] == wishlist@,
            found is None ==> !self@.contains_key(id),
    {
        match self.wishlists.get(&id) {
            Some(wishlist) => Some(wishlist.clone()),
            None => None,
        }
    }
}

impl WishlistRepository for InMemoryWishlistRepository {
    open spec fn wishlists(&self) -> Map<u128, WishlistView> {
        self@
    }

    /// A store in memory saves every wishlist.
    open spec fn reliable(&self) -> bool {
        true
    }

    /// Stores a new wishlist under a freshly generated time-ordered
    /// identifier. No check is made here: neither of the owner nor of the
    /// slug against those of other wishlists.
    fn save(&mut self, req: &CreateWishlistRequest) -> (r: Result<Wishlist, CreateWishlistError>)
    {
        let id = generate_time_ordered();
        let slug = WishlistSlug::from(req.name().as_str());
        Ok(self.save_with(req, id, slug))
    }
}

} // verus!
