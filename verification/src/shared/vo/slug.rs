use vstd::prelude::*;

verus! {

broadcast use vstd::string::group_string_axioms;

/// What `char::is_alphanumeric` returns for a character: whether it has the
/// Unicode `Alphabetic` or `Numeric` property.
pub uninterp spec fn char_is_alphanumeric(c: char) -> bool;

/// An ASCII letter or an ASCII digit.
pub open spec fn is_ascii_alphanumeric(c: char) -> bool {
    ('a' <= c <= 'z') || ('A' <= c <= 'Z') || ('0' <= c <= '9')
}

/// Calls `char::is_alphanumeric`. Its result is named `char_is_alphanumeric`;
/// beyond that, the contract states only what the Unicode definition fixes for
/// ASCII: among ASCII characters exactly the letters and digits are alphanumeric.
#[verifier::external_body]
fn char_alphanumeric(c: char) -> (r: bool)
    ensures
        r == char_is_alphanumeric(c),
        (c as u32) < 128 ==> (r <==> is_ascii_alphanumeric(c)),
{
    c.is_alphanumeric()
}

/// Whether `char::is_alphanumeric` holds of `c`, with the ASCII case spelled out.
pub open spec fn is_alphanumeric(c: char) -> bool {
    if (c as u32) < 128 {
        is_ascii_alphanumeric(c)
    } else {
        char_is_alphanumeric(c)
    }
}

/// A character that may stand in a slug.
pub open spec fn is_slug_char(c: char) -> bool {
    is_alphanumeric(c) || c == '-' || c == '_'
}

/// A text that `Slug::new` accepts: not empty, and made of slug characters.
pub open spec fn is_valid_slug(s: Seq<char>) -> bool {
    s.len() > 0 && forall|i: int| 0 <= i < s.len() ==> #[trigger] is_slug_char(s[i])
}

/// Why a text was refused as a slug.
#[derive(Debug, PartialEq, Eq, Structural)]
pub enum SlugError {
    InvalidSlug,
}

/// The URL-friendly name of an entity.
#[derive(Debug, Default, PartialEq, Eq)]
pub struct Slug(pub String);

impl Clone for Slug {
    fn clone(&self) -> (r: Slug)
        ensures
            r == *self,
    {
        Slug(self.0.clone())
    }
}

/// What `unidecode::unidecode` returns for a text: its ASCII transliteration.
pub uninterp spec fn unidecode_of(text: Seq<char>) -> Seq<char>;

/// What `slug::slugify` returns for a text.
pub uninterp spec fn slugify_of(text: Seq<char>) -> Seq<char>;

/// Every character is ASCII.
pub open spec fn is_ascii_text(s: Seq<char>) -> bool {
    forall|i: int| 0 <= i < s.len() ==> (#[trigger] s[i] as u32) < 128
}

/// The shape that `slug::slugify` documents for its output: only `a`-`z`,
/// `0`-`9` and `-`, never two dashes in a row, and no dash at either end.
pub open spec fn is_canonical_slug(s: Seq<char>) -> bool {
    &&& forall|i: int| 0 <= i < s.len() ==> ('a' <= #[trigger] s[i] <= 'z') || ('0' <= s[i] <= '9') || s[i] == '-'
    &&& forall|i: int| 0 <= i < s.len() - 1 ==> !(#[trigger] s[i] == '-' && s[i + 1] == '-')
    &&& s.len() > 0 ==> s[0] != '-' && s[s.len() - 1] != '-'
}

/// Calls `unidecode::unidecode`. Its result is named `unidecode_of`; the crate
/// documents that the result is ASCII and that an ASCII text is left as it is.
#[verifier::external_body]
fn transliterate(text: &str) -> (r: String)
    ensures
        r@ == unidecode_of(text@),
        is_ascii_text(r@),
        is_ascii_text(text@) ==> r@ == text@,
{
    unidecode::unidecode(text)
}

/// What a character of an ASCII text contributes to its slug: a lower-case
/// letter or a digit as it is, an upper-case letter in lower case, and
/// nothing for any other character, which only separates words.
pub open spec fn slug_letter(c: char) -> Option<char> {
    if ('a' <= c <= 'z') || ('0' <= c <= '9') {
        Some(c)
    } else if 'A' <= c <= 'Z' {
        Some(((c as u32) + 32) as char)
    } else {
        None
    }
}

/// The slug of an ASCII text as it is scanned from the left, and whether it
/// ends in a dash (or is still empty): letters and digits are kept, and each
/// run of other characters becomes one dash, none at the start.
pub open spec fn slug_scan(s: Seq<char>) -> (Seq<char>, bool)
    decreases s.len(),
{
    if s.len() == 0 {
        (Seq::empty(), true)
    } else {
        let (out, after_dash) = slug_scan(s.drop_last());
        match slug_letter(s.last()) {
            Some(x) => (out.push(x), false),
            None => if after_dash {
                (out, true)
            } else {
                (out.push('-'), true)
            },
        }
    }
}

/// The slug of an ASCII text: the scan, without a dash at its end.
pub open spec fn ascii_slug(s: Seq<char>) -> Seq<char> {
    let out = slug_scan(s).0;
    if out.len() > 0 && out.last() == '-' {
        out.drop_last()
    } else {
        out
    }
}

/// Calls `slug::slugify`. Its result is named `slugify_of`; the crate documents
/// that the result consists of `a`-`z`, `0`-`9` and `-`, with no dash doubled
/// and none at either end. Its source (`_slugify`) treats each ASCII character
/// on its own, so on an ASCII text the result is `ascii_slug` of it; other
/// characters go through `deunicode`, which is not stated.
#[verifier::external_body]
fn slugify(text: &str) -> (r: String)
    ensures
        r@ == slugify_of(text@),
        is_canonical_slug(r@),
        is_ascii_text(text@) ==> r@ == ascii_slug(text@),
{
    ::slug::slugify(text)
}

impl Slug {
    /// The text of the slug.
    pub fn as_str(&self) -> (r: &str)
        ensures
            r@ == self.0@,
    {
        self.0.as_str()
    }

    /// Derives a slug from any text: transliterates it to ASCII, then keeps
    /// lower-case letters and digits and joins the runs between them by `-`.
    pub fn generate(text: &str) -> (r: Slug)
        ensures
            r.0@ == slugify_of(unidecode_of(text@)),
            r.0@ == ascii_slug(unidecode_of(text@)),
            is_canonical_slug(r.0@),
    {
        let ascii = transliterate(text);
        Slug(slugify(ascii.as_str()))
    }

    /// Accepts `slug` when it is not empty and each of its characters is
    /// alphanumeric, `-` or `_`.
    pub fn new(slug: &str) -> (r: Result<Slug, SlugError>)
        ensures
            r is Ok <==> is_valid_slug(slug@),
            r matches Ok(s) ==> s.0@ == slug@,
            r matches Err(e) ==> e == SlugError::InvalidSlug,
    {
        let mut all_allowed = true;
        let mut nonempty = false;
        for c in it: slug.chars()
            invariant
                it.seq() == slug@,
                nonempty <==> it.index() > 0,
                all_allowed <==> (forall|j: int| 0 <= j < it.index() ==> #[trigger] is_slug_char(slug@[j])),
        {
            let ok = char_alphanumeric(c) || c == '-' || c == '_';
            assert(c == slug@[it.index() as int]);
            assert(ok == is_slug_char(slug@[it.index() as int]));
            all_allowed = all_allowed && ok;
            nonempty = true;
        }
        if nonempty && all_allowed {
            Ok(Slug(slug.to_string()))
        } else {
            Err(SlugError::InvalidSlug)
        }
    }
}

/// Every non-empty slug that `Slug::generate` can produce is accepted by
/// `Slug::new`.
pub proof fn generated_slug_is_accepted(s: Seq<char>)
    requires
        is_canonical_slug(s),
        s.len() > 0,
    ensures
        is_valid_slug(s),
{
    assert forall|i: int| 0 <= i < s.len() implies #[trigger] is_slug_char(s[i]) by {
        assert(('a' <= s[i] <= 'z') || ('0' <= s[i] <= '9') || s[i] == '-');
    }
}

} // verus!
