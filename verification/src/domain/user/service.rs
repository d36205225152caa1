use super::User;
use super::UserEmail;
use super::UserPassword;
use super::UserView;
use vstd::prelude::*;

verus! {

/// The contract of user registration.
pub trait UserService {
    /// The users registered so far, by identifier. A service that comes
    /// with proofs says here what they are; the default stands for one
    /// that comes without.
    open spec fn users(&self) -> Map<u128, UserView> {
        Map::empty()
    }

    /// Whether the store behind the service answers every call. A service
    /// for which this holds never reports `Unknown`; by default none is
    /// taken to.
    open spec fn reliable(&self) -> bool {
        false
    }

    /// Registers a user. `Duplicate` says that a registered user has the
    /// e-mail address already; `Unknown` stands for any other failure.
    fn create_user(&mut self, req: &CreateUserRequest) -> (r: Result<User, CreateUserError>)
        ensures
            final(self).reliable() == old(self).reliable(),
            registered(req@, old(self).users(), final(self).users(), r),
            old(self).reliable() ==> !(r matches Err(CreateUserError::Unknown(_))),
    ;
}

/// What is needed to register a user.
#[derive(Debug)]
pub struct CreateUserRequest {
    email: UserEmail,
    password: UserPassword,
}

/// The two texts of a registration request.
pub struct CreateUserRequestView {
    pub email: Seq<char>,
    pub password: Seq<char>,
}

impl View for CreateUserRequest {
    type V = CreateUserRequestView;

    closed spec fn view(&self) -> CreateUserRequestView {
        CreateUserRequestView { email: self.email@, password: self.password@ }
    }
}

impl CreateUserRequest {
    pub fn new(email: UserEmail, password: UserPassword) -> (req: Self)
        ensures
            req@ == (CreateUserRequestView { email: email@, password: password@ }),
    {
        Self { email, password }
    }

    pub fn email(&self) -> (email: &UserEmail)
        ensures
            email@ == self@.email,
    {
        &self.email
    }

    pub fn password(&self) -> (password: &UserPassword)
        ensures
            password@ == self@.password,
    {
        &self.password
    }
}

impl Clone for CreateUserRequest {
    fn clone(&self) -> (c: Self)
        ensures
            c@ == self@,
    {
        Self { email: self.email.clone(), password: self.password.clone() }
    }
}

/// How the answer `r` to a registration request relates the users before
/// the call to those after it. A new user has the texts of the request and
/// is the one change, and its address is taken from then on; `Duplicate`
/// names the address of the request, which was taken, and leaves the users
/// as they were.
pub open spec fn registered(
    req: CreateUserRequestView,
    before: Map<u128, UserView>,
    after: Map<u128, UserView>,
    r: Result<User, CreateUserError>,
) -> bool {
    match r {
        Ok(user) => {
            &&& !super::email_taken(before, req.email)
            &&& user@.email == req.email
            &&& user@.password == req.password
            &&& after == before.insert(user@.id, user@)
            &&& super::email_taken(after, req.email)
        },
        Err(CreateUserError::Duplicate { email }) => {
            &&& super::email_taken(before, req.email)
            &&& email@ == req.email
            &&& after == before
        },
        Err(CreateUserError::Unknown(_)) => true,
    }
}

/// Why a user was not registered.
#[derive(Debug)]
pub enum CreateUserError {
    /// A registered user has this e-mail address already.
    Duplicate { email: UserEmail },
    /// Any other failure, with its cause.
    Unknown(anyhow::Error),
}

/// What is needed to look a user up by e-mail address.
#[derive(Debug)]
pub struct FindUserByEmailRequest {
    email: UserEmail,
}

impl View for FindUserByEmailRequest {
    type V = Seq<char>;

    closed spec fn view(&self) -> Seq<char> {
        self.email@
    }
}

impl FindUserByEmailRequest {
    pub fn new(email: UserEmail) -> (req: Self)
        ensures
            req@ == email@,
    {
        Self { email }
    }

    pub fn email(&self) -> (email: &UserEmail)
        ensures
            email@ == self@,
    {
        &self.email
    }
}

impl Clone for FindUserByEmailRequest {
    fn clone(&self) -> (c: Self)
        ensures
            c@ == self@,
    {
        Self { email: self.email.clone() }
    }
}

/// Why a look-up by e-mail address gave no answer.
#[derive(Debug)]
pub enum FindUserByEmailError {
    Unkown(anyhow::Error),
}

/// What is needed to look a user up by identifier.
#[derive(Debug, Clone, Copy)]
pub struct FindUserByIdRequest {
    id: u128,
}

impl View for FindUserByIdRequest {
    type V = u128;

    closed spec fn view(&self) -> u128 {
        self.id
    }
}

impl FindUserByIdRequest {
    pub fn new(id: u128) -> (req: Self)
        ensures
            req@ == id,
    {
        Self { id }
    }

    pub fn id(&self) -> (id: &u128)
        ensures
            *id == self@,
    {
        &self.id
    }
}

/// Why a look-up by identifier gave no answer.
#[derive(Debug)]
pub enum FindUserByIdError {
    Unkown(anyhow::Error),
}

} // verus!
