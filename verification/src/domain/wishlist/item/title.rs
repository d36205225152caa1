use vstd::prelude::*;
use vstd::std_specs::cmp::PartialEqSpecImpl;
use vstd::std_specs::convert::FromSpecImpl;

verus! {

/// The title of an item.
#[derive(Debug, Eq)]
pub struct ItemTitle(String);

impl View for ItemTitle {
    type V = Seq<char>;

    closed spec fn view(&self) -> Seq<char> {
        self.0@
    }
}

impl ItemTitle {
    /// The title as text.
    pub fn to_string(&self) -> (s: String)
        ensures
            s@ == self@,
    {
        self.0.clone()
    }
}

impl Clone for ItemTitle {
    fn clone(&self) -> (c: Self)
        ensures
            c@ == self@,
    {
        ItemTitle(self.0.clone())
    }
}

impl PartialEq for ItemTitle {
    fn eq(&self, other: &Self) -> (b: bool) {
        self.0 == other.0
    }
}

impl PartialEqSpecImpl for ItemTitle {
    open spec fn obeys_eq_spec() -> bool {
        true
    }

    open spec fn eq_spec(&self, other: &Self) -> bool {
        self@ == other@
    }
}

impl From<&str> for ItemTitle {
    fn from(value: &str) -> (title: Self)
        ensures
            title@ == value@,
    {
        ItemTitle(value.to_owned())
    }
}

impl FromSpecImpl<&str> for ItemTitle {
    open spec fn obeys_from_spec() -> bool {
        false
    }

    open spec fn from_spec(value: &str) -> Self {
        arbitrary()
    }
}

} // verus!
