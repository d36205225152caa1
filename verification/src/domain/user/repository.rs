use super::CreateUserError;
use super::registered;
use super::CreateUserRequest;
use super::CreateUserRequestView;
use super::FindUserByEmailError;
use super::FindUserByEmailRequest;
use super::FindUserByIdError;
use super::FindUserByIdRequest;
use super::User;
use super::UserView;
use vstd::prelude::*;

verus! {

/// Whether one of the users has the e-mail address.
pub open spec fn email_taken(users: Map<u128, UserView>, email: Seq<char>) -> bool {
    exists|id: u128| #[trigger] users.contains_key(id) && users[id].email == email
}

/// No two users have the same e-mail address.
pub open spec fn emails_unique(users: Map<u128, UserView>) -> bool {
    forall|a: u128, b: u128|
        #[trigger] users.contains_key(a) && #[trigger] users.contains_key(b) && users[a].email
            == users[b].email ==> a == b
}

/// Whether `answer` is what a look-up by identifier gives on these users.
pub open spec fn answers_by_id(users: Map<u128, UserView>, id: u128, answer: Option<User>) -> bool {
    match answer {
        Some(user) => users.contains_key(id) && users[id] == user@ && user@.id == id,
        None => !users.contains_key(id),
    }
}

/// Whether `answer` is what a look-up by e-mail address gives on these
/// users.
pub open spec fn answers_by_email(
    users: Map<u128, UserView>,
    email: Seq<char>,
    answer: Option<User>,
) -> bool {
    match answer {
        Some(user) => users.contains_key(user@.id) && users[user@.id] == user@ && user@.email
            == email,
        None => !email_taken(users, email),
    }
}

/// One registration as a store sees it: the two texts, and the identifier
/// that is drawn for the new user.
pub struct Registration {
    pub email: Seq<char>,
    pub password: Seq<char>,
    pub id: u128,
}

impl Registration {
    /// The user that the registration makes.
    pub open spec fn user(self) -> UserView {
        UserView { id: self.id, email: self.email, password: self.password }
    }
}

/// The users after one registration: as before where the e-mail address is
/// taken, else with the new user under the identifier drawn.
pub open spec fn after_save(users: Map<u128, UserView>, registration: Registration) -> Map<
    u128,
    UserView,
> {
    if email_taken(users, registration.email) {
        users
    } else {
        users.insert(registration.id, registration.user())
    }
}

/// The users after a run of registrations, the first of the run first.
pub open spec fn after_saves(users: Map<u128, UserView>, run: Seq<Registration>) -> Map<
    u128,
    UserView,
>
    decreases run.len(),
{
    if run.len() == 0 {
        users
    } else {
        after_save(after_saves(users, run.drop_last()), run.last())
    }
}

/// Whether each identifier of the run is new to the store at the moment it
/// is put to use, that is, when the registration is not refused.
pub open spec fn identifiers_fresh(users: Map<u128, UserView>, run: Seq<Registration>) -> bool {
    forall|k: int|
        0 <= k < run.len() ==> {
            let at_call = #[trigger] after_saves(users, run.take(k));
            email_taken(at_call, run[k].email) || !at_call.contains_key(run[k].id)
        }
}

/// The contract of a store of users.
pub trait UserRepository {
    /// The users that the store holds, by identifier. A store that comes
    /// with proofs says here what it holds; the default stands for one
    /// that comes without.
    open spec fn users(&self) -> Map<u128, UserView> {
        Map::empty()
    }

    /// Whether the store answers every call. A store for which this holds
    /// never reports an unknown failure; by default none is taken to.
    open spec fn reliable(&self) -> bool {
        false
    }

    /// Stores a new user with the texts of the request, unless a stored user
    /// has the e-mail address already.
    fn save(&mut self, req: &CreateUserRequest) -> (r: Result<User, CreateUserError>)
        ensures
            final(self).reliable() == old(self).reliable(),
            registered(req@, old(self).users(), final(self).users(), r),
            old(self).reliable() ==> !(r matches Err(CreateUserError::Unknown(_))),
    ;

    /// Looks for a stored user with the e-mail address.
    fn find_user_by_email(&self, req: &FindUserByEmailRequest) -> (r: Result<
        Option<User>,
        FindUserByEmailError,
    >)
        ensures
            r matches Ok(answer) ==> answers_by_email(self.users(), req@, answer),
            self.reliable() ==> r is Ok,
    ;

    /// Looks for the stored user with the identifier.
    fn find_user_by_id(&self, req: &FindUserByIdRequest) -> (r: Result<
        Option<User>,
        FindUserByIdError,
    >)
        ensures
            r matches Ok(answer) ==> answers_by_id(self.users(), req@, answer),
            self.reliable() ==> r is Ok,
    ;
}

/// A store that saves as the contract says holds, after a call that was
/// answered with a user or with `Duplicate`, the users that [`after_save`]
/// gives for the identifier of the answer.
pub proof fn lemma_registered_is_after_save(
    req: CreateUserRequestView,
    before: Map<u128, UserView>,
    after: Map<u128, UserView>,
    r: Result<User, CreateUserError>,
    id: u128,
)
    requires
        registered(req, before, after, r),
        !(r matches Err(CreateUserError::Unknown(_))),
        r matches Ok(user) ==> user@.id == id,
    ensures
        after == after_save(
            before,
            Registration { email: req.email, password: req.password, id },
        ),
        r is Ok <==> !email_taken(before, req.email),
{
}

/// Saving keeps the e-mail addresses unique.
pub proof fn lemma_save_keeps_emails_unique(users: Map<u128, UserView>, registration: Registration)
    requires
        emails_unique(users),
    ensures
        emails_unique(after_save(users, registration)),
{
    let after = after_save(users, registration);
    assert forall|a: u128, b: u128|
        #[trigger] after.contains_key(a) && #[trigger] after.contains_key(b) && after[a].email
            == after[b].email implies a == b by {
        if !email_taken(users, registration.email) {
            if a != registration.id {
                assert(users.contains_key(a));
            }
            if b != registration.id {
                assert(users.contains_key(b));
            }
        }
    }
}

/// An e-mail address that is taken stays taken through a registration whose
/// identifier is new to the store.
pub proof fn lemma_taken_stays_taken(
    users: Map<u128, UserView>,
    registration: Registration,
    email: Seq<char>,
)
    requires
        email_taken(users, email),
        email_taken(users, registration.email) || !users.contains_key(registration.id),
    ensures
        email_taken(after_save(users, registration), email),
{
    let holder = choose|id: u128| #[trigger] users.contains_key(id) && users[id].email == email;
    let after = after_save(users, registration);
    assert(after.contains_key(holder) && after[holder].email == email);
}

/// The e-mail address of a registration is taken from that registration
/// on, through any number of later ones.
pub proof fn lemma_registered_email_stays_taken(
    users: Map<u128, UserView>,
    run: Seq<Registration>,
    earlier: int,
    upto: int,
)
    requires
        identifiers_fresh(users, run),
        0 <= earlier < upto <= run.len(),
    ensures
        email_taken(after_saves(users, run.take(upto)), run[earlier].email),
    decreases upto - earlier,
{
    let email = run[earlier].email;
    let previous = after_saves(users, run.take(upto - 1));
    assert(run.take(upto).drop_last() =~= run.take(upto - 1));
    assert(run.take(upto).last() == run[upto - 1]);
    assert(after_saves(users, run.take(upto)) == after_save(previous, run[upto - 1]));
    if upto - 1 == earlier {
        if !email_taken(previous, email) {
            let now = after_save(previous, run[earlier]);
            assert(now.contains_key(run[earlier].id) && now[run[earlier].id].email == email);
        }
    } else {
        lemma_registered_email_stays_taken(users, run, earlier, upto - 1);
        lemma_taken_stays_taken(previous, run[upto - 1], email);
    }
}

/// Uniqueness of registration. In a run of registrations whose identifiers
/// are new to the store when they are put to use, take two that give the
/// same e-mail address: when the later one is made the address is taken, so
/// it is answered with `Duplicate` and changes nothing. At most one
/// registration of an e-mail address therefore succeeds, and every one
/// after it is refused.
pub proof fn lemma_email_registers_once(
    users: Map<u128, UserView>,
    run: Seq<Registration>,
    earlier: int,
    later: int,
)
    requires
        identifiers_fresh(users, run),
        0 <= earlier < later < run.len(),
        run[earlier].email == run[later].email,
    ensures
        email_taken(after_saves(users, run.take(later)), run[later].email),
        after_save(after_saves(users, run.take(later)), run[later]) == after_saves(
            users,
            run.take(later),
        ),
{
    lemma_registered_email_stays_taken(users, run, earlier, later);
}

/// Round trip. After a call of `save` was answered with a user, a look-up
/// of that user's identifier and a look-up of that user's e-mail address
/// each give a user equal to it, whatever store answers them according to
/// the contract.
pub proof fn lemma_saved_user_is_found(
    req: CreateUserRequestView,
    before: Map<u128, UserView>,
    after: Map<u128, UserView>,
    saved: User,
    by_id: Option<User>,
    by_email: Option<User>,
)
    requires
        emails_unique(before),
        registered(req, before, after, Ok(saved)),
        answers_by_id(after, saved@.id, by_id),
        answers_by_email(after, saved@.email, by_email),
    ensures
        by_id matches Some(user) && user@ == saved@,
        by_email matches Some(user) && user@ == saved@,
        emails_unique(after),
{
    lemma_save_keeps_emails_unique(
        before,
        Registration { email: req.email, password: req.password, id: saved@.id },
    );
    assert(after.contains_key(saved@.id) && after[saved@.id].email == saved@.email);
}

/// An identifier that no registration of a run draws is not in the store
/// after the run, unless it was there before: a store holds under an
/// identifier only what was saved under it.
pub proof fn lemma_unsaved_identifier_absent(
    users: Map<u128, UserView>,
    run: Seq<Registration>,
    id: u128,
)
    requires
        !users.contains_key(id),
        forall|k: int| 0 <= k < run.len() ==> run[k].id != id,
    ensures
        !after_saves(users, run).contains_key(id),
    decreases run.len(),
{
    if run.len() > 0 {
        lemma_unsaved_identifier_absent(users, run.drop_last(), id);
    }
}

} // verus!
