use vstd::prelude::*;
use vstd::std_specs::cmp::PartialEqSpecImpl;
use vstd::std_specs::convert::FromSpecImpl;

verus! {

/// The display name of a wishlist.
#[derive(Debug, Eq)]
pub struct WishlistName(String);

impl View for WishlistName {
    type V = Seq<char>;

    closed spec fn view(&self) -> Seq<char> {
        self.0@
    }
}

impl WishlistName {
    /// Validates a name: any text but the empty one is a name. The error
    /// carries the text that was refused.
    pub fn new(name: &str) -> (r: Result<Self, WishlistNameInvalidError>)
        ensures
            name@.len() > 0 ==> (r matches Ok(n) && n@ == name@),
            name@.len() == 0 ==> (r matches Err(e) && e.invalid_name@ == name@),
    {
        if name.is_empty() {
            return Err(WishlistNameInvalidError { invalid_name: WishlistName(name.to_owned()) });
        }
        Ok(WishlistName(name.to_owned()))
    }

    /// The name as text.
    pub fn to_string(&self) -> (s: String)
        ensures
            s@ == self@,
    {
        self.0.clone()
    }

    /// The name as a borrowed text.
    pub fn as_str(&self) -> (s: &str)
        ensures
            s@ == self@,
    {
        self.0.as_str()
    }
}

impl Clone for WishlistName {
    fn clone(&self) -> (c: Self)
        ensures
            c@ == self@,
    {
        WishlistName(self.0.clone())
    }
}

impl PartialEq for WishlistName {
    fn eq(&self, other: &Self) -> (b: bool) {
        self.0 == other.0
    }
}

impl PartialEqSpecImpl for WishlistName {
    open spec fn obeys_eq_spec() -> bool {
        true
    }

    open spec fn eq_spec(&self, other: &Self) -> bool {
        self@ == other@
    }
}

impl From<&str> for WishlistName {
    /// Wraps a text without validating it.
    fn from(value: &str) -> (n: Self)
        ensures
            n@ == value@,
    {
        WishlistName(value.to_owned())
    }
}

impl FromSpecImpl<&str> for WishlistName {
    open spec fn obeys_from_spec() -> bool {
        false
    }

    open spec fn from_spec(value: &str) -> Self {
        arbitrary()
    }
}

/// A name that failed validation.
#[derive(Debug)]
pub struct WishlistNameInvalidError {
    pub invalid_name: WishlistName,
}

impl Clone for WishlistNameInvalidError {
    fn clone(&self) -> (c: Self)
        ensures
            c.invalid_name@ == self.invalid_name@,
    {
        WishlistNameInvalidError { invalid_name: self.invalid_name.clone() }
    }
}

} // verus!
