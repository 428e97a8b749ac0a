//! Validated short identifiers usable as path components.
//!
//! A [`Slug`] is a non-empty string over a small, filesystem-safe character
//! set: lowercase ASCII letters, digits, and the punctuation marks `_`, `-`
//! and `+`.  The first character must be a letter or a digit.  Slugs are used
//! for instance kinds, instance identities, and record names; invalid input
//! is rejected at construction, never silently altered.

use vstd::prelude::*;

verus! {

/// Does `c` qualify as the first character of a slug (lowercase letter or digit)?
pub open spec fn is_slug_first_char(c: char) -> bool {
    (('a' as u32) <= (c as u32) && (c as u32) <= ('z' as u32)) || (('0' as u32) <= (c as u32)
        && (c as u32) <= ('9' as u32))
}

/// Does `c` qualify as a character of a slug?
pub open spec fn is_slug_char(c: char) -> bool {
    is_slug_first_char(c) || c == '_' || c == '-' || c == '+'
}

/// Is `s` a well-formed slug: non-empty, starting with a letter or digit,
/// with every character drawn from the slug character set?
pub open spec fn is_valid_slug(s: Seq<char>) -> bool {
    &&& s.len() > 0
    &&& is_slug_first_char(s[0])
    &&& forall|i: int| 0 <= i < s.len() ==> is_slug_char(#[trigger] s[i])
}

/// Why a candidate string was rejected as a slug.
#[derive(Debug)]
pub enum BadSlug {
    /// The string was empty.
    EmptySlugNotAllowed,
    /// The first character (carried here) was not a lowercase letter or digit.
    BadFirstCharacter(char),
    /// A character (carried with its index) was outside the slug character set.
    BadCharacter(char, usize),
}

/// Decide whether `c` may open a slug.
fn char_is_slug_first(c: char) -> (r: bool)
    ensures
        r == is_slug_first_char(c),
{
    let u = c as u32;
    (('a' as u32) <= u && u <= ('z' as u32)) || (('0' as u32) <= u && u <= ('9' as u32))
}

/// Decide whether `c` may appear in a slug.
fn char_is_slug(c: char) -> (r: bool)
    ensures
        r == is_slug_char(c),
{
    char_is_slug_first(c) || c == '_' || c == '-' || c == '+'
}

/// Check a candidate slug, reporting exactly why it is rejected.
///
/// On rejection the error pinpoints the first problem: emptiness, a bad
/// opening character, or the earliest character outside the slug set.
pub fn check_slug(s: &str) -> (r: Result<(), BadSlug>)
    ensures
        r is Ok <==> is_valid_slug(s@),
        (r matches Err(BadSlug::EmptySlugNotAllowed)) <==> s@.len() == 0,
        (r matches Err(e) && e is BadFirstCharacter) <==> (s@.len() > 0 && !is_slug_first_char(
            s@[0],
        )),
        r matches Err(BadSlug::BadFirstCharacter(c)) ==> c == s@[0],
        (r matches Err(e) && e is BadCharacter) <==> (s@.len() > 0 && is_slug_first_char(s@[0])
            && !is_valid_slug(s@)),
        r matches Err(BadSlug::BadCharacter(c, i)) ==> i < s@.len() && !is_slug_char(s@[i as int])
            && c == s@[i as int] && (forall|j: int| 0 <= j < i ==> is_slug_char(#[trigger] s@[j])),
{
    let n = s.unicode_len();
    if n == 0 {
        return Err(BadSlug::EmptySlugNotAllowed);
    }
    let first = s.get_char(0);
    if !char_is_slug_first(first) {
        return Err(BadSlug::BadFirstCharacter(first));
    }
    let mut i: usize = 0;
    while i < n
        invariant
            n == s@.len(),
            i <= n,
            is_slug_first_char(s@[0]),
            forall|j: int| 0 <= j < i ==> is_slug_char(#[trigger] s@[j]),
        decreases n - i,
    {
        let c = s.get_char(i);
        if !char_is_slug(c) {
            return Err(BadSlug::BadCharacter(c, i));
        }
        i += 1;
    }
    Ok(())
}

/// A validated slug: a string for which [`is_valid_slug`] holds.
#[derive(Debug)]
pub struct Slug {
    /// The validated text.
    s: String,
}

impl View for Slug {
    type V = Seq<char>;

    closed spec fn view(&self) -> Seq<char> {
        self.s@
    }
}

impl Slug {
    /// Every `Slug` that exists is well-formed.
    #[verifier::type_invariant]
    closed spec fn well_formed(&self) -> bool {
        is_valid_slug(self.s@)
    }

    /// Validate `s` and take a copy of it as a `Slug`.
    ///
    /// Fails exactly when [`check_slug`] fails, with the same classification.
    pub fn new(s: &str) -> (r: Result<Slug, BadSlug>)
        ensures
            r is Ok <==> is_valid_slug(s@),
            r matches Ok(sl) ==> sl@ == s@,
            (r matches Err(BadSlug::EmptySlugNotAllowed)) <==> s@.len() == 0,
            (r matches Err(e) && e is BadFirstCharacter) <==> (s@.len() > 0 && !is_slug_first_char(
                s@[0],
            )),
            r matches Err(BadSlug::BadFirstCharacter(c)) ==> c == s@[0],
            (r matches Err(e) && e is BadCharacter) <==> (s@.len() > 0 && is_slug_first_char(s@[0])
                && !is_valid_slug(s@)),
            r matches Err(BadSlug::BadCharacter(c, i)) ==> i < s@.len() && !is_slug_char(
                s@[i as int],
            ) && c == s@[i as int] && (forall|j: int|
                0 <= j < i ==> is_slug_char(#[trigger] s@[j])),
    {
        match check_slug(s) {
            Ok(()) => Ok(Slug { s: String::from_str(s) }),
            Err(e) => Err(e),
        }
    }

    /// The slug's text.  A slug is always valid: validity is established at
    /// construction and never lost.
    pub fn as_str(&self) -> (r: &str)
        ensures
            r@ == self@,
            is_valid_slug(self@),
    {
        proof {
            use_type_invariant(self);
        }
        self.s.as_str()
    }

    /// An independent copy of this slug.
    pub fn duplicate(&self) -> (r: Slug)
        ensures
            r@ == self@,
            is_valid_slug(self@),
    {
        proof {
            use_type_invariant(self);
        }
        Slug { s: String::from_str(self.s.as_str()) }
    }
}

} // verus!
