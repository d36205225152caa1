use super::is_slug_of;
use super::Wishlist;
use super::WishlistName;
use super::WishlistView;
use crate::domain::user::UserView;
use vstd::prelude::*;

verus! {

/// The contract of wishlist creation.
pub trait WishlistService {
    /// The registered users, by identifier. A service that comes with
    /// proofs says here and in the next two what holds of it; the defaults
    /// stand for one that comes without.
    open spec fn users(&self) -> Map<u128, UserView> {
        Map::empty()
    }

    /// The wishlists created so far, by identifier.
    open spec fn wishlists(&self) -> Map<u128, WishlistView> {
        Map::empty()
    }

    /// Whether the stores behind the service answer every call, and accept
    /// every wishlist that they are asked to save.
    open spec fn reliable(&self) -> bool {
        false
    }

    /// Creates a wishlist for a registered user. A wishlist is never
    /// created for an owner who is not registered: the request then fails
    /// and no wishlist store is reached.
    fn create_wishlist(&mut self, req: &CreateWishlistRequest) -> (r: Result<
        Wishlist,
        CreateWishlistError,
    >)
        ensures
            final(self).users() == old(self).users(),
            final(self).reliable() == old(self).reliable(),
            created(req@, old(self).wishlists(), final(self).wishlists(), r),
            old(self).users().contains_key(req@.owner_id) && old(self).reliable() ==> r is Ok,
            !old(self).users().contains_key(req@.owner_id) ==> r is Err && final(self).wishlists()
                == old(self).wishlists(),
            !old(self).users().contains_key(req@.owner_id) && old(self).reliable() ==> (
            r matches Err(CreateWishlistError::OwnerIdDoesNotExist { id }) && id == req@.owner_id),
    ;
}

/// What is needed to create a wishlist.
#[derive(Debug)]
pub struct CreateWishlistRequest {
    owner_id: u128,
    name: WishlistName,
    private: bool,
}

/// The values of a creation request.
pub struct CreateWishlistRequestView {
    pub owner_id: u128,
    pub name: Seq<char>,
    pub private: bool,
}

impl View for CreateWishlistRequest {
    type V = CreateWishlistRequestView;

    closed spec fn view(&self) -> CreateWishlistRequestView {
        CreateWishlistRequestView {
            owner_id: self.owner_id,
            name: self.name@,
            private: self.private,
        }
    }
}

impl CreateWishlistRequest {
    pub fn new(owner_id: u128, name: WishlistName, private: bool) -> (req: Self)
        ensures
            req@ == (CreateWishlistRequestView { owner_id, name: name@, private }),
    {
        Self { owner_id, name, private }
    }

    pub fn owner_id(&self) -> (owner_id: u128)
        ensures
            owner_id == self@.owner_id,
    {
        self.owner_id
    }

    pub fn name(&self) -> (name: &WishlistName)
        ensures
            name@ == self@.name,
    {
        &self.name
    }

    pub fn private(&self) -> (private: bool)
        ensures
            private == self@.private,
    {
        self.private
    }
}

impl Clone for CreateWishlistRequest {
    fn clone(&self) -> (c: Self)
        ensures
            c@ == self@,
    {
        Self { owner_id: self.owner_id, name: self.name.clone(), private: self.private }
    }
}

/// How the answer `r` to a creation request relates the wishlists before
/// the call to those after it. A new wishlist has the owner, the name and
/// the visibility of the request, a slug of the name and no items, and is
/// the one change; the refusal for an owner who does not exist names the
/// owner of the request and leaves the wishlists as they were.
pub open spec fn created(
    req: CreateWishlistRequestView,
    before: Map<u128, WishlistView>,
    after: Map<u128, WishlistView>,
    r: Result<Wishlist, CreateWishlistError>,
) -> bool {
    match r {
        Ok(wishlist) => {
            &&& wishlist@.owner_id == req.owner_id
            &&& wishlist@.name == req.name
            &&& wishlist@.private == req.private
            &&& wishlist@.items == Set::<u128>::empty()
            &&& is_slug_of(wishlist@.slug, req.name)
            &&& after == before.insert(wishlist@.id, wishlist@)
        },
        Err(CreateWishlistError::OwnerIdDoesNotExist { id }) => {
            &&& id == req.owner_id
            &&& after == before
        },
        Err(CreateWishlistError::Unknown(_)) => true,
    }
}

/// Why a wishlist was not created.
#[derive(Debug)]
pub enum CreateWishlistError {
    /// No user with this identifier is registered.
    OwnerIdDoesNotExist { id: u128 },
    /// Any other failure, with its cause.
    Unknown(anyhow::Error),
}

/// A text that was given as an owner's identifier and is none. The field
/// holds the identifier read from it, which is the nil identifier.
#[derive(Debug, Clone, Copy)]
pub struct OwnerIdInvalidError {
    pub invalid_owner_id: u128,
}

} // verus!
