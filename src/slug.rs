//! URL slugs for the names of actors, skins and animations.

use vstd::prelude::*;
use crate::options::ascii_lower;

verus! {

/// Any one character that is not an ASCII letter or digit.
pub const NON_ALPHANUMERIC: &'static str = "[^A-Za-z0-9]";

/// A lower case letter followed by an upper case one.
pub const LOWER_UPPER: &'static str = "([a-z])([A-Z])";

/// `text` with the leftmost match of the regular expression `pattern`
/// replaced by `replacement` (where `$n` stands for group `n`); `text` as it
/// is where nothing matches or the pattern does not compile.
pub uninterp spec fn regex_replaced_first(pattern: Seq<char>, text: Seq<char>, replacement: Seq<char>) -> Seq<char>;

/// Relies on regex::Regex::new and Regex::replace, which replaces the
/// leftmost-first match only.
#[verifier::external_body]
fn regex_replace_first(pattern: &str, text: &str, replacement: &str) -> (r: String)
    ensures
        r@ == regex_replaced_first(pattern@, text@, replacement@),
{
    match regex::Regex::new(pattern) {
        Ok(re) => re.replace(text, replacement).into_owned(),
        Err(_) => text.to_owned(),
    }
}

/// `r` is `s` with ASCII upper case letters made lower case.
pub open spec fn is_ascii_lowercase_of(r: Seq<char>, s: Seq<char>) -> bool {
    r.len() == s.len() && forall|i: int| 0 <= i < s.len() ==> #[trigger] r[i] as int == ascii_lower(s[i])
}

/// Relies on str::to_ascii_lowercase: a copy with 'A'..='Z' mapped to
/// 'a'..='z' and every other character unchanged.
#[verifier::external_body]
fn ascii_lowercase(s: &str) -> (r: String)
    ensures
        is_ascii_lowercase_of(r@, s@),
{
    s.to_ascii_lowercase()
}

/// The slug of a name: its first character that is not an ASCII letter or
/// digit becomes `-`, then in its first lower-upper pair of letters the two
/// swap places around a `-`, then it is lower-cased.
pub open spec fn is_slug_of(r: Seq<char>, s: Seq<char>) -> bool {
    let dashed = regex_replaced_first(NON_ALPHANUMERIC@, s, "-"@);
    let split = regex_replaced_first(LOWER_UPPER@, dashed, "$2-$1"@);
    is_ascii_lowercase_of(r, split)
}

pub fn slugify_string(s: &str) -> (r: String)
    ensures
        is_slug_of(r@, s@),
{
    let dashed = regex_replace_first(NON_ALPHANUMERIC, s, "-");
    let split = regex_replace_first(LOWER_UPPER, dashed.as_str(), "$2-$1");
    ascii_lowercase(split.as_str())
}

/// A skin of an actor, by name.
#[derive(Debug, Clone)]
pub struct Skin {
    pub name: String,
}

impl Skin {
    /// The skin's name as a URL slug.
    pub fn slug(&self) -> (r: String)
        ensures
            is_slug_of(r@, self.name@),
    {
        slugify_string(self.name.as_str())
    }
}

} // verus!
