use vstd::prelude::*;

verus! {

/// What `url::Url::parse` makes of a text: the serialization of the URL
/// that it reads, or `None` where it reports an error.
pub uninterp spec fn url_parsed(text: Seq<char>) -> Option<Seq<char>>;

/// The error of `url::Url::parse`.
#[verifier::external_type_specification]
#[verifier::external_body]
pub struct ExUrlParseError(url::ParseError);

/// Calls `url::Url::parse` and takes the serialization of the URL, the
/// text that `Url::as_str` gives. The claim is only that the result is the
/// one named by [`url_parsed`].
#[verifier::external_body]
pub(crate) fn parse_url(text: &str) -> (r: Result<String, url::ParseError>)
    ensures
        r matches Ok(serialization) ==> url_parsed(text@) == Some(serialization@),
        r is Err ==> url_parsed(text@) is None,
{
    match url::Url::parse(text) {
        Ok(parsed) => Ok(String::from(parsed)),
        Err(e) => Err(e),
    }
}

/// A text that is no URL.
#[derive(Debug)]
pub struct ItemUrlInvalidError {
    pub invalid_url: String,
}

impl Clone for ItemUrlInvalidError {
    fn clone(&self) -> (c: Self)
        ensures
            c.invalid_url@ == self.invalid_url@,
    {
        ItemUrlInvalidError { invalid_url: self.invalid_url.clone() }
    }
}

} // verus!
