use crate::domain::user::CreateUserError;
use crate::domain::user::CreateUserRequest;
use crate::domain::user::User;
use crate::domain::user::UserRepository;
use crate::domain::user::UserService;
use crate::domain::user::UserView;
use vstd::prelude::*;

verus! {

/// User registration on top of a store of users.
pub struct Service<U: UserRepository> {
    user_repository: U,
}

impl<U: UserRepository> Service<U> {
    pub fn new(user_repository: U) -> (service: Self)
        ensures
            service.store() == user_repository,
    {
        Self { user_repository }
    }

    /// The store of users, for use in contracts.
    pub closed spec fn store(self) -> U {
        self.user_repository
    }

    /// The store of users.
    pub fn user_repository(&self) -> (user_repository: &U)
        ensures
            *user_repository == self.store(),
    {
        &self.user_repository
    }
}

impl<U: UserRepository + Clone> Clone for Service<U> {
    /// A service on a copy of the store: what it shares with this one is for
    /// the store's own `clone` to say.
    fn clone(&self) -> (c: Self)
        ensures
            cloned(self.store(), c.store()),
    {
        Self { user_repository: self.user_repository.clone() }
    }
}

impl<U: UserRepository> UserService for Service<U> {
    open spec fn users(&self) -> Map<u128, UserView> {
        self.store().users()
    }

    open spec fn reliable(&self) -> bool {
        self.store().reliable()
    }

    /// Hands the request to the store, which alone decides.
    fn create_user(&mut self, req: &CreateUserRequest) -> (r: Result<User, CreateUserError>) {
        self.user_repository.save(req)
    }
}

} // verus!
