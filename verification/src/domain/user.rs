//! The user aggregate.

mod email;
mod password;
mod repository;
mod service;

pub use email::UserEmail;
pub use email::UserEmailInvalidError;
pub use password::lemma_mask_is_fixed;
pub use password::lemma_mask_shares_no_character;
pub use password::password_mask;
pub use password::UserPassword;
pub use password::UserPasswordInvalidError;
pub use repository::after_save;
pub use repository::after_saves;
pub use repository::answers_by_email;
pub use repository::answers_by_id;
pub use repository::email_taken;
pub use repository::emails_unique;
pub use repository::identifiers_fresh;
pub use repository::lemma_email_registers_once;
pub use repository::lemma_registered_email_stays_taken;
pub use repository::lemma_registered_is_after_save;
pub use repository::lemma_save_keeps_emails_unique;
pub use repository::lemma_saved_user_is_found;
pub use repository::lemma_taken_stays_taken;
pub use repository::lemma_unsaved_identifier_absent;
pub use repository::Registration;
pub use repository::UserRepository;
pub use service::CreateUserError;
pub use service::registered;
pub use service::CreateUserRequest;
pub use service::CreateUserRequestView;
pub use service::FindUserByEmailError;
pub use service::FindUserByEmailRequest;
pub use service::FindUserByIdError;
pub use service::FindUserByIdRequest;
pub use service::UserService;

use vstd::prelude::*;

verus! {

/// What a user is, apart from how it is stored: the identifier and the two
/// texts. Whether the user is anonymous follows from the e-mail address.
pub struct UserView {
    pub id: u128,
    pub email: Seq<char>,
    pub password: Seq<char>,
}

impl UserView {
    /// A user is anonymous when the e-mail address is empty.
    pub open spec fn anonymous(self) -> bool {
        self.email.len() == 0
    }
}

/// A registered user.
#[derive(Debug)]
pub struct User {
    id: u128,
    anonymous: bool,
    email: UserEmail,
    password: UserPassword,
}

impl View for User {
    type V = UserView;

    closed spec fn view(&self) -> UserView {
        UserView { id: self.id, email: self.email@, password: self.password@ }
    }
}

impl User {
    #[verifier::type_invariant]
    spec fn anonymous_follows_email(self) -> bool {
        self.anonymous == (self.email@.len() == 0)
    }

    /// A user with the given identifier, e-mail address and password.
    pub fn new(id: u128, email: UserEmail, password: UserPassword) -> (user: Self)
        ensures
            user@ == (UserView { id, email: email@, password: password@ }),
    {
        Self { id, anonymous: email.is_empty(), email, password }
    }

    pub fn id(&self) -> (id: &u128)
        ensures
            *id == self@.id,
    {
        &self.id
    }

    pub fn email(&self) -> (email: &UserEmail)
        ensures
            email@ == self@.email,
    {
        &self.email
    }

    pub fn password(&self) -> (password: &UserPassword)
        ensures
            password@ == self@.password,
    {
        &self.password
    }

    /// Whether the user registered without an e-mail address.
    pub fn anonymous(&self) -> (b: bool)
        ensures
            b == self@.anonymous(),
    {
        proof {
            use_type_invariant(self);
        }
        self.anonymous
    }
}

impl Clone for User {
    fn clone(&self) -> (c: Self)
        ensures
            c@ == self@,
    {
        proof {
            use_type_invariant(self);
        }
        Self {
            id: self.id,
            anonymous: self.anonymous,
            email: self.email.clone(),
            password: self.password.clone(),
        }
    }
}

} // verus!
