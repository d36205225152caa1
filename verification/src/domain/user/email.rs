use vstd::prelude::*;
use vstd::std_specs::cmp::PartialEqSpecImpl;
use vstd::std_specs::convert::FromSpecImpl;

verus! {

/// The e-mail address of a user, kept exactly as it was given.
#[derive(Debug, Eq, Hash)]
pub struct UserEmail(String);

impl View for UserEmail {
    type V = Seq<char>;

    closed spec fn view(&self) -> Seq<char> {
        self.0@
    }
}

impl UserEmail {
    /// Validates an address. Every text is a valid address at present, so
    /// this always succeeds; the `Result` leaves room for stricter rules.
    pub fn new(email: &str) -> (r: Result<Self, UserEmailInvalidError>)
        ensures
            r matches Ok(e) && e@ == email@,
    {
        Ok(UserEmail(email.to_owned()))
    }

    /// The address as text.
    pub fn to_string(&self) -> (s: String)
        ensures
            s@ == self@,
    {
        self.0.clone()
    }

    /// Whether the address is the empty text.
    pub fn is_empty(&self) -> (b: bool)
        ensures
            b == (self@.len() == 0),
    {
        self.0.as_str().is_empty()
    }
}

impl Clone for UserEmail {
    fn clone(&self) -> (c: Self)
        ensures
            c@ == self@,
    {
        UserEmail(self.0.clone())
    }
}

impl PartialEq for UserEmail {
    fn eq(&self, other: &Self) -> (b: bool) {
        self.0 == other.0
    }
}

impl PartialEqSpecImpl for UserEmail {
    open spec fn obeys_eq_spec() -> bool {
        true
    }

    open spec fn eq_spec(&self, other: &Self) -> bool {
        self@ == other@
    }
}

impl From<&str> for UserEmail {
    /// Wraps a text without validating it.
    fn from(value: &str) -> (e: Self)
        ensures
            e@ == value@,
    {
        UserEmail(value.to_owned())
    }
}

impl FromSpecImpl<&str> for UserEmail {
    open spec fn obeys_from_spec() -> bool {
        false
    }

    open spec fn from_spec(value: &str) -> Self {
        arbitrary()
    }
}

/// An address that failed validation.
#[derive(Debug)]
pub struct UserEmailInvalidError {
    pub invalid_email: UserEmail,
}

impl Clone for UserEmailInvalidError {
    fn clone(&self) -> (c: Self)
        ensures
            c.invalid_email@ == self.invalid_email@,
    {
        UserEmailInvalidError { invalid_email: self.invalid_email.clone() }
    }
}

} // verus!
