use super::created;
use super::CreateWishlistError;
use super::CreateWishlistRequest;
use super::Wishlist;
use super::WishlistView;
use vstd::prelude::*;

verus! {

/// The contract of a store of wishlists.
pub trait WishlistRepository {
    /// The wishlists that the store holds, by identifier. A store that
    /// comes with proofs says here what it holds; the default stands for
    /// one that comes without.
    open spec fn wishlists(&self) -> Map<u128, WishlistView> {
        Map::empty()
    }

    /// Whether the store saves every wishlist that it is asked to save. A
    /// store for which this holds never answers with an error; by default
    /// none is taken to.
    open spec fn reliable(&self) -> bool {
        false
    }

    /// Stores a new wishlist made from the request, with a slug generated
    /// from its name. Whether the owner exists is for the caller to check;
    /// a store that can tell may refuse with `OwnerIdDoesNotExist`.
    fn save(&mut self, req: &CreateWishlistRequest) -> (r: Result<Wishlist, CreateWishlistError>)
        ensures
            final(self).reliable() == old(self).reliable(),
            created(req@, old(self).wishlists(), final(self).wishlists(), r),
            old(self).reliable() ==> r is Ok,
    ;
}

} // verus!
