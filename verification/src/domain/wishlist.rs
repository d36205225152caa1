//! The wishlist aggregate.

pub mod item;
mod name;
mod repository;
mod service;
mod slug;

pub use name::WishlistName;
pub use name::WishlistNameInvalidError;
pub use repository::WishlistRepository;
pub use service::created;
pub use service::CreateWishlistError;
pub use service::CreateWishlistRequest;
pub use service::CreateWishlistRequestView;
pub use service::OwnerIdInvalidError;
pub use service::WishlistService;
pub use slug::hyphenate;
pub use slug::is_slug_of;
pub use slug::lemma_slug_characters;
pub use slug::lemma_slug_shape;
pub use slug::lowercase_of;
pub use slug::slug_text;
pub use slug::WishlistSlug;

use std::collections::HashSet;
use vstd::prelude::*;
use vstd::std_specs::hash::group_hash_axioms;

verus! {

broadcast use group_hash_axioms;

/// What a wishlist is, apart from how it is stored.
pub struct WishlistView {
    pub id: u128,
    pub owner_id: u128,
    pub name: Seq<char>,
    pub slug: Seq<char>,
    pub private: bool,
    pub items: Set<u128>,
}

/// A list of wished-for items that belongs to a user.
#[derive(Debug)]
pub struct Wishlist {
    id: u128,
    owner_id: u128,
    name: WishlistName,
    slug: WishlistSlug,
    private: bool,
    items: HashSet<u128>,
}

impl View for Wishlist {
    type V = WishlistView;

    closed spec fn view(&self) -> WishlistView {
        WishlistView {
            id: self.id,
            owner_id: self.owner_id,
            name: self.name@,
            slug: self.slug@,
            private: self.private,
            items: self.items@,
        }
    }
}

impl Wishlist {
    /// A wishlist without items.
    pub fn new(
        id: u128,
        owner_id: u128,
        name: WishlistName,
        slug: WishlistSlug,
        private: bool,
    ) -> (wishlist: Self)
        ensures
            wishlist@ == (WishlistView {
                id,
                owner_id,
                name: name@,
                slug: slug@,
                private,
                items: Set::empty(),
            }),
    {
        Self { id, owner_id, name, slug, private, items: HashSet::new() }
    }

    pub fn id(&self) -> (id: u128)
        ensures
            id == self@.id,
    {
        self.id
    }

    pub fn owner_id(&self) -> (owner_id: u128)
        ensures
            owner_id == self@.owner_id,
    {
        self.owner_id
    }

    pub fn name(&self) -> (name: &WishlistName)
        ensures
            name@ == self@.name,
    {
        &self.name
    }

    pub fn slug(&self) -> (slug: &WishlistSlug)
        ensures
            slug@ == self@.slug,
    {
        &self.slug
    }

    pub fn private(&self) -> (private: bool)
        ensures
            private == self@.private,
    {
        self.private
    }

    /// The identifiers of the items on the list.
    pub fn items(&self) -> (items: &HashSet<u128>)
        ensures
            items@ == self@.items,
    {
        &self.items
    }
}

impl Clone for Wishlist {
    fn clone(&self) -> (c: Self)
        ensures
            c@ == self@,
    {
        let mut items: HashSet<u128> = HashSet::new();
        for item in it: self.items.iter()
            invariant
                it.seq().unref().to_set() == self.items@,
                items@.subset_of(self.items@),
                forall|i: int| 0 <= i < it.index() ==> items@.contains(*it.seq()[i]),
                it.index() == it.seq().len() ==> items@ == self.items@,
        {
            proof {
                let i = it.index() as int;
                assert(it.seq().unref()[i] == *item);
                assert(it.seq().unref().to_set().contains(*item));
            }
            items.insert(*item);
            proof {
                assert forall|id: u128|
                    it.index() + 1 == it.seq().len() && #[trigger] self.items@.contains(
                        id,
                    ) implies items@.contains(id) by {
                    assert(it.seq().unref().to_set().contains(id));
                    let i = choose|i: int|
                        0 <= i < it.seq().unref().len() && it.seq().unref()[i] == id;
                    assert(items@.contains(*it.seq()[i]));
                }
                assert(it.index() + 1 == it.seq().len() ==> items@ =~= self.items@);
            }
        }
        Self {
            id: self.id,
            owner_id: self.owner_id,
            name: self.name.clone(),
            slug: self.slug.clone(),
            private: self.private,
            items,
        }
    }
}

} // verus!
