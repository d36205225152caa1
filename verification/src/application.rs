//! The use cases of the application, and the services that carry them out.

pub mod user;
pub mod wishlist;

use crate::domain::user::registered;
use crate::domain::user::CreateUserError;
use crate::domain::user::CreateUserRequest;
use crate::domain::user::User;
use crate::domain::user::UserService;
use crate::domain::user::UserView;
use crate::domain::wishlist::created;
use crate::domain::wishlist::CreateWishlistError;
use crate::domain::wishlist::CreateWishlistRequest;
use crate::domain::wishlist::Wishlist;
use crate::domain::wishlist::WishlistService;
use crate::domain::wishlist::WishlistView;
use vstd::prelude::*;

verus! {

/// What the application offers to whatever drives it.
pub trait UseCases {
    /// The users registered through these use cases, by identifier. An
    /// implementation that comes with proofs says here and in the next
    /// three what holds of it; the defaults stand for one that comes
    /// without.
    open spec fn users(&self) -> Map<u128, UserView> {
        Map::empty()
    }

    /// The users that wishlist creation finds, by identifier.
    open spec fn owners(&self) -> Map<u128, UserView> {
        Map::empty()
    }

    /// The wishlists created so far, by identifier.
    open spec fn wishlists(&self) -> Map<u128, WishlistView> {
        Map::empty()
    }

    /// Whether every store behind the use cases answers every call and
    /// accepts every wishlist.
    open spec fn reliable(&self) -> bool {
        false
    }

    /// Registers a user.
    fn create_user(&mut self, req: &CreateUserRequest) -> (r: Result<User, CreateUserError>)
        ensures
            final(self).wishlists() == old(self).wishlists(),
            final(self).reliable() == old(self).reliable(),
            registered(req@, old(self).users(), final(self).users(), r),
            old(self).reliable() ==> !(r matches Err(CreateUserError::Unknown(_))),
    ;

    /// Creates a wishlist for a user that wishlist creation finds.
    fn create_wishlist(&mut self, req: &CreateWishlistRequest) -> (r: Result<
        Wishlist,
        CreateWishlistError,
    >)
        ensures
            final(self).users() == old(self).users(),
            final(self).owners() == old(self).owners(),
            final(self).reliable() == old(self).reliable(),
            created(req@, old(self).wishlists(), final(self).wishlists(), r),
            old(self).owners().contains_key(req@.owner_id) && old(self).reliable() ==> r is Ok,
            !old(self).owners().contains_key(req@.owner_id) ==> r is Err && final(self).wishlists()
                == old(self).wishlists(),
            !old(self).owners().contains_key(req@.owner_id) && old(self).reliable() ==> (
            r matches Err(CreateWishlistError::OwnerIdDoesNotExist { id }) && id == req@.owner_id),
    ;
}

/// The use cases, carried out by a user service and a wishlist service.
pub struct Service<U: UserService, W: WishlistService> {
    user_service: U,
    wish_service: W,
}

impl<U: UserService, W: WishlistService> Service<U, W> {
    /// The user service, for use in contracts.
    pub closed spec fn user_service(self) -> U {
        self.user_service
    }

    /// The wishlist service, for use in contracts.
    pub closed spec fn wish_service(self) -> W {
        self.wish_service
    }

    pub fn new(user_service: U, wish_service: W) -> (service: Self)
        ensures
            service.user_service() == user_service,
            service.wish_service() == wish_service,
    {
        Self { user_service, wish_service }
    }
}

impl<U: UserService + Clone, W: WishlistService + Clone> Clone for Service<U, W> {
    /// The use cases on copies of the two services.
    fn clone(&self) -> (c: Self)
        ensures
            cloned(self.user_service(), c.user_service()),
            cloned(self.wish_service(), c.wish_service()),
    {
        Self { user_service: self.user_service.clone(), wish_service: self.wish_service.clone() }
    }
}

impl<U: UserService, W: WishlistService> UseCases for Service<U, W> {
    open spec fn users(&self) -> Map<u128, UserView> {
        self.user_service().users()
    }

    open spec fn owners(&self) -> Map<u128, UserView> {
        self.wish_service().users()
    }

    open spec fn wishlists(&self) -> Map<u128, WishlistView> {
        self.wish_service().wishlists()
    }

    open spec fn reliable(&self) -> bool {
        self.user_service().reliable() && self.wish_service().reliable()
    }

    fn create_user(&mut self, req: &CreateUserRequest) -> (r: Result<User, CreateUserError>) {
        self.user_service.create_user(req)
    }

    fn create_wishlist(&mut self, req: &CreateWishlistRequest) -> (r: Result<
        Wishlist,
        CreateWishlistError,
    >) {
        self.wish_service.create_wishlist(req)
    }
}

} // verus!
