use vstd::prelude::*;
use vstd::std_specs::cmp::PartialEqSpecImpl;
use vstd::std_specs::convert::FromSpecImpl;

verus! {

/// The description of an item.
#[derive(Debug, Eq)]
pub struct ItemDescription(String);

impl View for ItemDescription {
    type V = Seq<char>;

    closed spec fn view(&self) -> Seq<char> {
        self.0@
    }
}

impl ItemDescription {
    /// The description as text.
    pub fn to_string(&self) -> (s: String)
        ensures
            s@ == self@,
    {
        self.0.clone()
    }
}

impl Clone for ItemDescription {
    fn clone(&self) -> (c: Self)
        ensures
            c@ == self@,
    {
        ItemDescription(self.0.clone())
    }
}

impl PartialEq for ItemDescription {
    fn eq(&self, other: &Self) -> (b: bool) {
        self.0 == other.0
    }
}

impl PartialEqSpecImpl for ItemDescription {
    open spec fn obeys_eq_spec() -> bool {
        true
    }

    open spec fn eq_spec(&self, other: &Self) -> bool {
        self@ == other@
    }
}

impl From<&str> for ItemDescription {
    fn from(value: &str) -> (description: Self)
        ensures
            description@ == value@,
    {
        ItemDescription(value.to_owned())
    }
}

impl FromSpecImpl<&str> for ItemDescription {
    open spec fn obeys_from_spec() -> bool {
        false
    }

    open spec fn from_spec(value: &str) -> Self {
        arbitrary()
    }
}

} // verus!
