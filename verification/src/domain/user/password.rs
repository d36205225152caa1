use vstd::prelude::*;
use vstd::std_specs::cmp::PartialEqSpecImpl;
use vstd::std_specs::convert::FromSpecImpl;

verus! {

/// What every password is rendered as: sixteen asterisks.
pub open spec fn password_mask() -> Seq<char> {
    Seq::new(16, |i: int| '*')
}

/// The password of a user. Its text can be compared and copied, and is never
/// rendered.
#[derive(Debug, Eq, Hash)]
pub struct UserPassword(String);

impl View for UserPassword {
    type V = Seq<char>;

    closed spec fn view(&self) -> Seq<char> {
        self.0@
    }
}

impl UserPassword {
    /// Validates a password. Every text is a valid password at present, so
    /// this always succeeds; the `Result` leaves room for stricter rules.
    pub fn new(password: &str) -> (r: Result<Self, UserPasswordInvalidError>)
        ensures
            r matches Ok(p) && p@ == password@,
    {
        Ok(UserPassword(password.to_owned()))
    }

    /// The password as it is shown: the mask, whatever the password is.
    pub fn to_string(&self) -> (s: String)
        ensures
            s@ == password_mask(),
    {
        let mask = "****************";
        proof {
            reveal_strlit("****************");
            assert(mask@ =~= password_mask());
        }
        mask.to_owned()
    }
}

impl Clone for UserPassword {
    fn clone(&self) -> (c: Self)
        ensures
            c@ == self@,
    {
        UserPassword(self.0.clone())
    }
}

impl PartialEq for UserPassword {
    fn eq(&self, other: &Self) -> (b: bool) {
        self.0 == other.0
    }
}

impl PartialEqSpecImpl for UserPassword {
    open spec fn obeys_eq_spec() -> bool {
        true
    }

    open spec fn eq_spec(&self, other: &Self) -> bool {
        self@ == other@
    }
}

impl From<&str> for UserPassword {
    /// Wraps a text without validating it.
    fn from(value: &str) -> (p: Self)
        ensures
            p@ == value@,
    {
        UserPassword(value.to_owned())
    }
}

impl FromSpecImpl<&str> for UserPassword {
    open spec fn obeys_from_spec() -> bool {
        false
    }

    open spec fn from_spec(value: &str) -> Self {
        arbitrary()
    }
}

/// A password that failed validation.
#[derive(Debug)]
pub struct UserPasswordInvalidError;

impl Clone for UserPasswordInvalidError {
    fn clone(&self) -> (c: Self) {
        UserPasswordInvalidError
    }
}

/// The mask has the same sixteen characters for every password, so two
/// passwords cannot be told apart by how they are shown.
pub proof fn lemma_mask_is_fixed()
    ensures
        password_mask().len() == 16,
        forall|i: int| 0 <= i < 16 ==> password_mask()[i] == '*',
{
}

/// Showing a password gives back none of its characters, provided that the
/// password holds no asterisk: no character of the mask occurs in it.
pub proof fn lemma_mask_shares_no_character(password: Seq<char>)
    requires
        !password.contains('*'),
    ensures
        forall|i: int, j: int|
            0 <= i < password_mask().len() && 0 <= j < password.len() ==> password_mask()[i]
                != password[j],
        password.len() > 0 ==> password_mask() != password,
{
    assert forall|i: int, j: int|
        0 <= i < password_mask().len() && 0 <= j < password.len() implies password_mask()[i]
        != password[j] by {
        assert(password.contains(password[j]));
    }
    if password.len() > 0 {
        assert(password.contains(password[0]));
        assert(password_mask()[0] == '*');
    }
}

} // verus!
