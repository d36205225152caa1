use super::address::parse_url;
use super::address::url_parsed;
use super::address::ItemUrlInvalidError;
use vstd::prelude::*;
use vstd::std_specs::cmp::PartialEqSpecImpl;

verus! {

/// Where a picture of an item is found: a URL, held as its serialization.
#[derive(Debug, Eq)]
pub struct ItemImageUrl(String);

impl View for ItemImageUrl {
    type V = Seq<char>;

    closed spec fn view(&self) -> Seq<char> {
        self.0@
    }
}

impl ItemImageUrl {
    /// The address for `value`, given what the parser made of it: the
    /// serialization that it read, or the refusal of `value`.
    pub fn from_parsed(value: &str, parsed: Result<String, url::ParseError>) -> (r: Result<
        Self,
        ItemUrlInvalidError,
    >)
        ensures
            parsed matches Ok(serialization) ==> (r matches Ok(image) && image@ == serialization@),
            parsed is Err ==> (r matches Err(e) && e.invalid_url@ == value@),
    {
        match parsed {
            Ok(serialization) => Ok(ItemImageUrl(serialization)),
            Err(_) => Err(ItemUrlInvalidError { invalid_url: value.to_owned() }),
        }
    }

    /// Validates an address of a picture: the text has to parse as a URL, and the address holds
    /// the URL as the parser writes it. A text that does not parse is
    /// refused with an error, never with a panic.
    pub fn new(value: &str) -> (r: Result<Self, ItemUrlInvalidError>)
        ensures
            url_parsed(value@) matches Some(serialization) ==> (r matches Ok(image) && image@
                == serialization),
            url_parsed(value@) is None ==> (r matches Err(e) && e.invalid_url@ == value@),
    {
        Self::from_parsed(value, parse_url(value))
    }

    /// The address as text.
    pub fn to_string(&self) -> (s: String)
        ensures
            s@ == self@,
    {
        self.0.clone()
    }
}

impl Clone for ItemImageUrl {
    fn clone(&self) -> (c: Self)
        ensures
            c@ == self@,
    {
        ItemImageUrl(self.0.clone())
    }
}

impl PartialEq for ItemImageUrl {
    fn eq(&self, other: &Self) -> (b: bool) {
        self.0 == other.0
    }
}

impl PartialEqSpecImpl for ItemImageUrl {
    open spec fn obeys_eq_spec() -> bool {
        true
    }

    open spec fn eq_spec(&self, other: &Self) -> bool {
        self@ == other@
    }
}

} // verus!
