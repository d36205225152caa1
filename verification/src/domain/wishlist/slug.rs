use crate::identifier::generate_random;
use crate::identifier::hyphenated;
use crate::identifier::is_lower_hex;
use crate::identifier::lemma_uuid_text_shape;
use crate::identifier::uuid_text;
use vstd::prelude::*;
use vstd::std_specs::cmp::PartialEqSpecImpl;
use vstd::std_specs::convert::FromSpecImpl;
use vstd::string::StrSliceExecFns;
use vstd::string::StringExecFns;

verus! {

/// What `str::to_lowercase` makes of a text: its lower-case equivalent by
/// the rules of Unicode.
pub uninterp spec fn lowercase_of(text: Seq<char>) -> Seq<char>;

/// A text with each space replaced by a hyphen.
pub open spec fn hyphenate(text: Seq<char>) -> Seq<char> {
    text.map_values(
        |c: char|
            if c == ' ' {
                '-'
            } else {
                c
            },
    )
}

/// The slug made of a lower-cased name and of the identifier that gives the
/// suffix: the name with hyphens for spaces, a hyphen, and the first eight
/// characters of the identifier's hyphenated form.
pub open spec fn slug_text(lowered: Seq<char>, suffix_source: u128) -> Seq<char> {
    hyphenate(lowered) + seq!['-'] + uuid_text(suffix_source).subrange(0, 8)
}

/// Whether `slug` is a slug of the name: [`slug_text`] of the name's
/// lower-case form, for some identifier.
pub open spec fn is_slug_of(slug: Seq<char>, name: Seq<char>) -> bool {
    exists|suffix_source: u128| slug == #[trigger] slug_text(lowercase_of(name), suffix_source)
}

/// Calls `str::to_lowercase`. The claim is only that the result is the one
/// named by [`lowercase_of`].
#[verifier::external_body]
fn to_lowercase(text: &str) -> (lowered: String)
    ensures
        lowered@ == lowercase_of(text@),
{
    text.to_lowercase()
}

/// Calls `str::replace` with a space as the pattern and a hyphen as the
/// replacement: every space of the text becomes a hyphen, and nothing else
/// changes.
#[verifier::external_body]
fn spaces_to_hyphens(text: &str) -> (replaced: String)
    ensures
        replaced@ == hyphenate(text@),
{
    text.replace(' ', "-")
}

/// The key under which a wishlist is addressed: readable, and made unlikely
/// to repeat by a random suffix. Nothing checks it against other slugs.
#[derive(Debug, Eq)]
pub struct WishlistSlug(String);

impl View for WishlistSlug {
    type V = Seq<char>;

    closed spec fn view(&self) -> Seq<char> {
        self.0@
    }
}

impl WishlistSlug {
    /// The slug for a name that is in lower case already, with the suffix
    /// taken from `suffix_source`.
    pub fn from_lowered(lowered: &str, suffix_source: u128) -> (slug: Self)
        ensures
            slug@ == slug_text(lowered@, suffix_source),
    {
        let mut text = spaces_to_hyphens(lowered);
        let printed = hyphenated(suffix_source);
        proof {
            reveal_strlit("-");
            assert("-"@ =~= seq!['-']);
        }
        text.append("-");
        text.append(printed.as_str().substring_char(0, 8));
        WishlistSlug(text)
    }

    /// The slug as text.
    pub fn to_string(&self) -> (s: String)
        ensures
            s@ == self@,
    {
        self.0.clone()
    }
}

impl Clone for WishlistSlug {
    fn clone(&self) -> (c: Self)
        ensures
            c@ == self@,
    {
        WishlistSlug(self.0.clone())
    }
}

impl PartialEq for WishlistSlug {
    fn eq(&self, other: &Self) -> (b: bool) {
        self.0 == other.0
    }
}

impl PartialEqSpecImpl for WishlistSlug {
    open spec fn obeys_eq_spec() -> bool {
        true
    }

    open spec fn eq_spec(&self, other: &Self) -> bool {
        self@ == other@
    }
}

impl From<&str> for WishlistSlug {
    /// Generates a slug for a display name: the name in lower case with
    /// hyphens for spaces, a hyphen, and eight characters drawn from a fresh
    /// random identifier.
    fn from(value: &str) -> (slug: Self)
        ensures
            is_slug_of(slug@, value@),
    {
        let lowered = to_lowercase(value);
        let suffix_source = generate_random();
        let slug = WishlistSlug::from_lowered(lowered.as_str(), suffix_source);
        assert(slug@ == slug_text(lowercase_of(value@), suffix_source));
        slug
    }
}

impl FromSpecImpl<&str> for WishlistSlug {
    open spec fn obeys_from_spec() -> bool {
        false
    }

    open spec fn from_spec(value: &str) -> Self {
        arbitrary()
    }
}

/// The shape of a slug. It is nine characters longer than the lower-cased
/// name and holds no space. Up to the suffix it is the name, character by
/// character, with a hyphen where the name has a space; then comes a hyphen,
/// and the last eight characters are lower-case hexadecimal digits.
pub proof fn lemma_slug_shape(lowered: Seq<char>, suffix_source: u128)
    ensures
        slug_text(lowered, suffix_source).len() == lowered.len() + 9,
        !slug_text(lowered, suffix_source).contains(' '),
        forall|i: int|
            0 <= i < lowered.len() ==> #[trigger] slug_text(lowered, suffix_source)[i] == (if lowered[i]
                == ' ' {
                '-'
            } else {
                lowered[i]
            }),
        slug_text(lowered, suffix_source)[lowered.len() as int] == '-',
        forall|i: int|
            lowered.len() < i < lowered.len() + 9 ==> is_lower_hex(
                #[trigger] slug_text(lowered, suffix_source)[i],
            ),
{
    let slug = slug_text(lowered, suffix_source);
    let suffix = uuid_text(suffix_source).subrange(0, 8);
    lemma_uuid_text_shape(suffix_source);
    assert forall|i: int| lowered.len() < i < lowered.len() + 9 implies is_lower_hex(
        #[trigger] slug[i],
    ) by {
        assert(slug[i] == suffix[i - lowered.len() - 1]);
        assert(suffix[i - lowered.len() - 1] == uuid_text(suffix_source)[i - lowered.len() - 1]);
    }
    assert forall|i: int| 0 <= i < slug.len() implies slug[i] != ' ' by {
        if i < lowered.len() {
            assert(slug[i] == hyphenate(lowered)[i]);
        } else if i > lowered.len() {
            assert(is_lower_hex(slug[i]));
        }
    }
}

/// A slug takes its letters from the lower-cased name: each character of it
/// is a character of that name, a hyphen, or a lower-case hexadecimal
/// digit. So it holds an upper-case letter only where the lower-cased name
/// holds one.
pub proof fn lemma_slug_characters(lowered: Seq<char>, suffix_source: u128, i: int)
    requires
        0 <= i < slug_text(lowered, suffix_source).len(),
    ensures
        ({
            let c = slug_text(lowered, suffix_source)[i];
            lowered.contains(c) || c == '-' || is_lower_hex(c)
        }),
{
    lemma_slug_shape(lowered, suffix_source);
    if i < lowered.len() {
        assert(slug_text(lowered, suffix_source)[i] == hyphenate(lowered)[i]);
        assert(lowered.contains(lowered[i]));
    }
}

} // verus!
