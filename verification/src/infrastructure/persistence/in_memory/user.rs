use crate::domain::user::email_taken;
use crate::domain::user::emails_unique;
use crate::domain::user::CreateUserError;
use crate::domain::user::CreateUserRequest;
use crate::domain::user::FindUserByEmailError;
use crate::domain::user::FindUserByEmailRequest;
use crate::domain::user::FindUserByIdError;
use crate::domain::user::FindUserByIdRequest;
use crate::domain::user::User;
use crate::domain::user::UserEmail;
use crate::domain::user::UserRepository;
use crate::domain::user::UserView;
use crate::identifier::generate_time_ordered;
use std::collections::HashMap;
use vstd::prelude::*;
use vstd::std_specs::hash::group_hash_axioms;
use vstd::std_specs::iter::IteratorSpec;

verus! {

broadcast use group_hash_axioms;

/// A store of users in memory.
pub struct InMemoryUserRepository {
    users: HashMap<u128, User>,
}

impl View for InMemoryUserRepository {
    type V = Map<u128, UserView>;

    closed spec fn view(&self) -> Map<u128, UserView> {
        self.users@.map_values(|user: User| user@)
    }
}

impl InMemoryUserRepository {
    /// Each user is stored under its own identifier, and no two stored
    /// users have the same e-mail address.
    #[verifier::type_invariant]
    spec fn well_formed(self) -> bool {
        &&& forall|id: u128| #[trigger] self.users@.contains_key(id) ==> self.users@[id]@.id == id
        &&& emails_unique(self@)
    }

    /// An empty store.
    pub fn new() -> (repo: Self)
        ensures
            repo@ == Map::<u128, UserView>::empty(),
    {
        let repo = Self { users: HashMap::new() };
        assert(repo@ =~= Map::<u128, UserView>::empty());
        repo
    }

    /// The stored user with the e-mail address, if there is one.
    fn by_email(&self, email: &UserEmail) -> (found: Option<&User>)
        ensures
            found matches Some(user) ==> self@.contains_key(user@.id) && self@[user@.id] == user@
                && user@.email == email@,
            found is None ==> !email_taken(self@, email@),
            emails_unique(self@),
    {
        proof {
            use_type_invariant(self);
            if self.users@.dom().len() == 0 {
                self.users@.dom().lemma_len0_is_empty();
            }
        }
        for user in it: self.users.values()
            invariant
                it.seq().unref().to_set() == self.users@.values(),
                self@ == self.users@.map_values(|user: User| user@),
                emails_unique(self@),
                forall|id: u128| #[trigger]
                    self.users@.contains_key(id) ==> self.users@[id]@.id == id,
                forall|i: int| 0 <= i < it.index() ==> it.seq()[i]@.email != email@,
                it.index() == it.seq().len() ==> !email_taken(self@, email@),
        {
            if user.email() == email {
                proof {
                    let i = it.index() as int;
                    assert(it.seq().unref()[i] == *user);
                    assert(it.seq().unref().to_set().contains(*user));
                    assert(self.users@.values().contains(*user));
                    let id = choose|id: u128|
                        self.users@.contains_key(id) && #[trigger] self.users@[id] == *user;
                    assert(self@[id] == user@);
                }
                return Some(user);
            }
            proof {
                assert forall|id: u128|
                    it.index() + 1 == it.seq().len() && #[trigger] self@.contains_key(
                        id,
                    ) implies self@[id].email != email@ by {
                    let stored = self.users@[id];
                    assert(self.users@.values().contains(stored));
                    assert(it.seq().unref().to_set().contains(stored));
                    let i = choose|i: int|
                        0 <= i < it.seq().unref().len() && it.seq().unref()[i] == stored;
                    assert(it.seq()[i]@.email != email@);
                }
            }
        }
        None
    }

    /// Stores a new user under the identifier `id`, with the texts of the
    /// request, whose e-mail address no stored user has. A user that was
    /// stored under `id` before is replaced.
    fn insert(&mut self, req: &CreateUserRequest, id: u128) -> (user: User)
        requires
            !email_taken(old(self)@, req@.email),
        ensures
            user@ == (UserView { id, email: req@.email, password: req@.password }),
            final(self)@ == old(self)@.insert(id, user@),
    {
        proof {
            use_type_invariant(&*self);
        }
        let user = User::new(id, req.email().clone(), req.password().clone());
        // The map leaves the store for the insertion and comes back with the
        // new user: the store is well formed at every step.
        let mut users: HashMap<u128, User> = HashMap::new();
        std::mem::swap(&mut self.users, &mut users);
        users.insert(id, user.clone());
        proof {
            let views = users@.map_values(|user: User| user@);
            assert(views =~= old(self)@.insert(id, user@));
            assert forall|a: u128, b: u128|
                #[trigger] views.contains_key(a) && #[trigger] views.contains_key(b)
                    && views[a].email == views[b].email implies a == b by {
                if a != id {
                    assert(old(self)@.contains_key(a));
                }
                if b != id {
                    assert(old(self)@.contains_key(b));
                }
            }
        }
        std::mem::swap(&mut self.users, &mut users);
        user
    }

    /// Stores a new user under the identifier `id`, with the texts of the
    /// request, unless a stored user has the e-mail address already. A user
    /// that was stored under `id` before is replaced.
    pub fn save_with_id(&mut self, req: &CreateUserRequest, id: u128) -> (r: Result<
        User,
        CreateUserError,
    >)
        ensures
            email_taken(old(self)@, req@.email) ==> final(self)@ == old(self)@ && (
            r matches Err(CreateUserError::Duplicate { email }) && email@ == req@.email),
            !email_taken(old(self)@, req@.email) ==> final(self)@ == old(self)@.insert(
                id,
                UserView { id, email: req@.email, password: req@.password },
            ) && (r matches Ok(user) && user@ == (UserView {
                id,
                email: req@.email,
                password: req@.password,
            })),
    {
        if self.by_email(req.email()).is_some() {
            return Err(CreateUserError::Duplicate { email: req.email().clone() });
        }
        Ok(self.insert(req, id))
    }
}

impl UserRepository for InMemoryUserRepository {
    open spec fn users(&self) -> Map<u128, UserView> {
        self@
    }

    /// A store in memory answers every call.
    open spec fn reliable(&self) -> bool {
        true
    }

    /// Looks through the stored users for the e-mail address of the
    /// request; where none has it, stores a new user under a freshly
    /// generated time-ordered identifier.
    fn save(&mut self, req: &CreateUserRequest) -> (r: Result<User, CreateUserError>)
        ensures
            r is Ok <==> !email_taken(old(self)@, req@.email),
    {
        if self.by_email(req.email()).is_some() {
            return Err(CreateUserError::Duplicate { email: req.email().clone() });
        }
        let id = generate_time_ordered();
        let user = self.insert(req, id);
        assert(self@.contains_key(id) && self@[id].email == req@.email);
        Ok(user)
    }

    fn find_user_by_email(&self, req: &FindUserByEmailRequest) -> (r: Result<
        Option<User>,
        FindUserByEmailError,
    >)
        ensures
            r is Ok,
            emails_unique(self@),
    {
        proof {
            use_type_invariant(self);
        }
        match self.by_email(req.email()) {
            Some(user) => Ok(Some(user.clone())),
            None => Ok(None),
        }
    }

    fn find_user_by_id(&self, req: &FindUserByIdRequest) -> (r: Result<
        Option<User>,
        FindUserByIdError,
    >)
        ensures
            r is Ok,
    {
        proof {
            use_type_invariant(self);
        }
        match self.users.get(req.id()) {
            Some(user) => Ok(Some(user.clone())),
            None => Ok(None),
        }
    }
}

} // verus!
