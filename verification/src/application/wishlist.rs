use crate::domain::user::FindUserByIdError;
use crate::domain::user::FindUserByIdRequest;
use crate::domain::user::User;
use crate::domain::user::UserRepository;
use crate::domain::user::UserView;
use crate::domain::wishlist::CreateWishlistError;
use crate::domain::wishlist::CreateWishlistRequest;
use crate::domain::wishlist::Wishlist;
use crate::domain::wishlist::WishlistRepository;
use crate::domain::wishlist::WishlistService;
use crate::domain::wishlist::WishlistView;
use vstd::prelude::*;

verus! {

/// What the look-up of the owner means for the creation of a wishlist:
/// go on where the owner was found, refuse with `OwnerIdDoesNotExist` where
/// there is none, and hand on the cause where the look-up itself failed.
pub fn check_owner(lookup: Result<Option<User>, FindUserByIdError>, owner_id: u128) -> (r: Result<
    (),
    CreateWishlistError,
>)
    ensures
        match lookup {
            Ok(Some(_)) => r is Ok,
            Ok(None) => r matches Err(CreateWishlistError::OwnerIdDoesNotExist { id }) && id
                == owner_id,
            Err(FindUserByIdError::Unkown(cause)) => r matches Err(
                CreateWishlistError::Unknown(handed_on),
            ) && handed_on == cause,
        },
{
    match lookup {
        Ok(Some(_)) => Ok(()),
        Ok(None) => Err(CreateWishlistError::OwnerIdDoesNotExist { id: owner_id }),
        Err(FindUserByIdError::Unkown(cause)) => Err(CreateWishlistError::Unknown(cause)),
    }
}

/// Wishlist creation on top of a store of users and a store of wishlists.
/// The two stores know nothing of each other: that a wishlist has an owner
/// is checked here and nowhere else.
pub struct Service<U: UserRepository, W: WishlistRepository> {
    user_repository: U,
    wish_repository: W,
}

impl<U: UserRepository, W: WishlistRepository> Service<U, W> {
    pub fn new(user_repository: U, wish_repository: W) -> (service: Self)
        ensures
            service.user_store() == user_repository,
            service.wish_store() == wish_repository,
    {
        Self { user_repository, wish_repository }
    }

    /// The store of users, for use in contracts.
    pub closed spec fn user_store(self) -> U {
        self.user_repository
    }

    /// The store of wishlists, for use in contracts.
    pub closed spec fn wish_store(self) -> W {
        self.wish_repository
    }

    /// The store of users.
    pub fn user_repository(&self) -> (user_repository: &U)
        ensures
            *user_repository == self.user_store(),
    {
        &self.user_repository
    }

    /// The store of wishlists.
    pub fn wish_repository(&self) -> (wish_repository: &W)
        ensures
            *wish_repository == self.wish_store(),
    {
        &self.wish_repository
    }
}

impl<U: UserRepository + Clone, W: WishlistRepository + Clone> Clone for Service<U, W> {
    /// A service on copies of the stores: what it shares with this one is
    /// for the stores' own `clone` to say.
    fn clone(&self) -> (c: Self)
        ensures
            cloned(self.user_store(), c.user_store()),
            cloned(self.wish_store(), c.wish_store()),
    {
        Self {
            user_repository: self.user_repository.clone(),
            wish_repository: self.wish_repository.clone(),
        }
    }
}

impl<U: UserRepository, W: WishlistRepository> WishlistService for Service<U, W> {
    open spec fn users(&self) -> Map<u128, UserView> {
        self.user_store().users()
    }

    open spec fn wishlists(&self) -> Map<u128, WishlistView> {
        self.wish_store().wishlists()
    }

    open spec fn reliable(&self) -> bool {
        self.user_store().reliable() && self.wish_store().reliable()
    }

    /// Looks the owner up, and saves the wishlist only where the owner was
    /// found.
    fn create_wishlist(&mut self, req: &CreateWishlistRequest) -> (r: Result<
        Wishlist,
        CreateWishlistError,
    >)
        ensures
            final(self).user_store() == old(self).user_store(),
            !old(self).users().contains_key(req@.owner_id) ==> final(self).wish_store() == old(
                self,
            ).wish_store(),
    {
        let lookup = self.user_repository.find_user_by_id(&FindUserByIdRequest::new(req.owner_id()));
        match check_owner(lookup, req.owner_id()) {
            Ok(()) => self.wish_repository.save(req),
            Err(refusal) => Err(refusal),
        }
    }
}

} // verus!
