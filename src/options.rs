//! The small choices a render request carries, and the names they are
//! parsed from.

use vstd::prelude::*;

verus! {

/// The code of `c` with ASCII upper case letters made lower case.
pub open spec fn ascii_lower(c: char) -> int {
    if 'A' <= c && c <= 'Z' {
        (c as int) + 32
    } else {
        c as int
    }
}

/// Whether `s` spells `lower` when ASCII case is ignored; `lower` is written
/// in lower case.
pub open spec fn eq_ignore_case(s: Seq<char>, lower: Seq<char>) -> bool {
    s.len() == lower.len() && forall|i: int| 0 <= i < s.len() ==> ascii_lower(#[trigger] s[i]) == lower[i] as int
}

fn lower_char(c: char) -> (r: u32)
    ensures
        r == ascii_lower(c),
{
    if 'A' <= c && c <= 'Z' {
        (c as u32) + 32
    } else {
        c as u32
    }
}

pub fn matches_ignore_case(s: &str, lower: &str) -> (r: bool)
    ensures
        r == eq_ignore_case(s@, lower@),
{
    let n = s.unicode_len();
    if n != lower.unicode_len() {
        return false;
    }
    let mut i: usize = 0;
    while i < n
        invariant
            n == s@.len(),
            n == lower@.len(),
            0 <= i <= n,
            forall|k: int| 0 <= k < i ==> ascii_lower(#[trigger] s@[k]) == lower@[k] as int,
        decreases n - i,
    {
        if lower_char(s.get_char(i)) != lower.get_char(i) as u32 {
            return false;
        }
        i = i + 1;
    }
    true
}

/// Whether two strings hold the same characters.
pub fn matches_exactly(a: &str, b: &str) -> (r: bool)
    ensures
        r == (a@ == b@),
{
    let n = a.unicode_len();
    if n != b.unicode_len() {
        return false;
    }
    let mut i: usize = 0;
    while i < n
        invariant
            n == a@.len(),
            n == b@.len(),
            0 <= i <= n,
            forall|k: int| 0 <= k < i ==> #[trigger] a@[k] == b@[k],
        decreases n - i,
    {
        if a.get_char(i) != b.get_char(i) {
            return false;
        }
        i = i + 1;
    }
    assert(a@ =~= b@);
    true
}

#[derive(Debug, Clone, Copy, PartialEq, Eq)]
pub enum Flip {
    NoFlip,
    Horizontal,
}

impl Default for Flip {
    fn default() -> (r: Flip)
        ensures
            r == Flip::NoFlip,
    {
        Flip::NoFlip
    }
}

#[derive(Debug, Clone, Copy, PartialEq, Eq)]
pub enum CustomSize {
    DefaultSize,
    /// A square canvas, padded on the shorter axis.
    Discord128x128,
}

impl Default for CustomSize {
    fn default() -> (r: CustomSize)
        ensures
            r == CustomSize::DefaultSize,
    {
        CustomSize::DefaultSize
    }
}

/// A font name that no font answers to.
#[derive(Debug, Clone, Copy, PartialEq, Eq)]
pub struct InvalidFont;

#[derive(Debug, Clone, Copy, PartialEq, Eq)]
pub enum Font {
    Impact,
}

impl Font {
    /// Where the font's file lies.
    pub fn filename(&self) -> (r: &'static str)
        ensures
            r@ == "assets/impact.ttf"@,
    {
        match self {
            Font::Impact => "assets/impact.ttf",
        }
    }

    /// The font named `s`, in any ASCII case.
    pub fn parse(s: &str) -> (r: Result<Font, InvalidFont>)
        ensures
            r == (if eq_ignore_case(s@, "impact"@) {
                Ok::<Font, InvalidFont>(Font::Impact)
            } else {
                Err::<Font, InvalidFont>(InvalidFont)
            }),
    {
        if matches_ignore_case(s, "impact") {
            Ok(Font::Impact)
        } else {
            Err(InvalidFont)
        }
    }
}

impl std::str::FromStr for Font {
    type Err = InvalidFont;

    fn from_str(s: &str) -> Result<Font, InvalidFont> {
        Font::parse(s)
    }
}

/// A line of text burnt into every frame.
#[derive(Debug, Clone)]
pub struct TextParameters {
    pub text: String,
    pub font: Font,
    pub size: u32,
}

impl Default for TextParameters {
    fn default() -> (r: TextParameters)
        ensures
            r.text@ == Seq::<char>::empty(),
            r.font == Font::Impact,
            r.size == 32,
    {
        TextParameters { text: String::new(), font: Font::Impact, size: 32 }
    }
}

pub open spec fn is_digit(c: char) -> bool {
    '0' <= c && c <= '9'
}

/// The value of a string of decimal digits.
pub open spec fn decimal_value(s: Seq<char>) -> int
    decreases s.len(),
{
    if s.len() == 0 {
        0
    } else {
        decimal_value(s.drop_last()) * 10 + (s.last() as int - '0' as int)
    }
}

/// The digits of a number as written: an optional `+`, then the rest.
pub open spec fn unsigned_digits(s: Seq<char>) -> Seq<char> {
    if s.len() > 0 && s[0] == '+' { s.drop_first() } else { s }
}

/// The `u32` that `s` writes in decimal, if it writes one.
pub open spec fn spec_parse_u32(s: Seq<char>) -> Option<u32> {
    let d = unsigned_digits(s);
    if d.len() > 0 && (forall|i: int| 0 <= i < d.len() ==> is_digit(#[trigger] d[i])) && decimal_value(d) <= u32::MAX {
        Some(decimal_value(d) as u32)
    } else {
        None
    }
}

proof fn lemma_decimal_grows(d: Seq<char>, k: int)
    requires
        0 <= k <= d.len(),
        forall|i: int| 0 <= i < d.len() ==> is_digit(#[trigger] d[i]),
    ensures
        decimal_value(d) >= decimal_value(d.subrange(0, k)),
        decimal_value(d.subrange(0, k)) >= 0,
    decreases d.len() - k,
{
    if k == d.len() {
        assert(d.subrange(0, k) =~= d);
        lemma_decimal_nonneg(d);
    } else {
        lemma_decimal_grows(d, k + 1);
        assert(d.subrange(0, k + 1).drop_last() =~= d.subrange(0, k));
        assert(d.subrange(0, k + 1).last() == d[k]);
        lemma_decimal_nonneg(d.subrange(0, k));
    }
}

proof fn lemma_decimal_nonneg(d: Seq<char>)
    requires
        forall|i: int| 0 <= i < d.len() ==> is_digit(#[trigger] d[i]),
    ensures
        decimal_value(d) >= 0,
    decreases d.len(),
{
    if d.len() > 0 {
        assert(forall|i: int| 0 <= i < d.drop_last().len() ==> d.drop_last()[i] == d[i]);
        lemma_decimal_nonneg(d.drop_last());
    }
}

/// Reads a `u32` written in decimal, with an optional leading `+`.
pub fn parse_u32(s: &str) -> (r: Option<u32>)
    ensures
        r == spec_parse_u32(s@),
{
    let n = s.unicode_len();
    let mut i: usize = 0;
    if n > 0 && s.get_char(0) == '+' {
        i = 1;
    }
    let ghost start = i as int;
    let ghost d = s@.subrange(start, n as int);
    proof {
        assert(unsigned_digits(s@) =~= d);
    }
    if i == n {
        return None;
    }
    let mut acc: u64 = 0;
    while i < n
        invariant
            n == s@.len(),
            0 <= start <= i <= n,
            start < n,
            start == 1 <==> (n > 0 && s@[0] == '+'),
            d == s@.subrange(start, n as int),
            d == unsigned_digits(s@),
            forall|j: int| 0 <= j < i - start ==> is_digit(#[trigger] d[j]),
            acc == decimal_value(d.subrange(0, i - start)),
            acc <= u32::MAX,
        decreases n - i,
    {
        let c = s.get_char(i);
        assert(d[i - start] == s@[i as int]);
        if !('0' <= c && c <= '9') {
            assert(!is_digit(d[i - start]));
            return None;
        }
        let ghost p = d.subrange(0, i + 1 - start);
        assert(p.drop_last() =~= d.subrange(0, i - start));
        assert(p.last() == c);
        acc = acc * 10 + (c as u64 - '0' as u64);
        if acc > u32::MAX as u64 {
            proof {
                if forall|j: int| 0 <= j < d.len() ==> is_digit(#[trigger] d[j]) {
                    lemma_decimal_grows(d, i + 1 - start);
                }
            }
            return None;
        }
        i = i + 1;
    }
    assert(d.subrange(0, d.len() as int) =~= d);
    Some(acc as u32)
}

/// Keeps a text overlay only where it has something to show.
pub trait SomeIfValid {
    fn some_if_valid(self) -> Self;
}

impl SomeIfValid for Option<TextParameters> {
    fn some_if_valid(self) -> (r: Option<TextParameters>)
        ensures
            r == (if self is Some && self->0.text@.len() > 0 {
                self
            } else {
                None
            }),
    {
        match self {
            Some(tp) => if tp.text.as_str().unicode_len() == 0 {
                None
            } else {
                Some(tp)
            },
            None => None,
        }
    }
}

/// The encoded form a render is delivered in.
#[derive(Debug, Clone, Copy, PartialEq, Eq)]
pub enum OutputType {
    Gif,
    Apng,
    Png,
}

impl OutputType {
    pub fn mime_type(&self) -> (r: &'static str)
        ensures
            r@ == (match *self {
                OutputType::Gif => "image/gif"@,
                _ => "image/png"@,
            }),
    {
        match self {
            OutputType::Gif => "image/gif",
            OutputType::Apng | OutputType::Png => "image/png",
        }
    }

    pub fn extension(&self) -> (r: &'static str)
        ensures
            r@ == (match *self {
                OutputType::Gif => "gif"@,
                _ => "png"@,
            }),
    {
        match self {
            OutputType::Gif => "gif",
            OutputType::Apng | OutputType::Png => "png",
        }
    }

    /// The output type named `s` (`gif`, `png` or `apng`), in any ASCII case.
    pub fn from_name(s: &str) -> (r: Option<OutputType>)
        ensures
            r == (if eq_ignore_case(s@, "gif"@) {
                Some(OutputType::Gif)
            } else if eq_ignore_case(s@, "png"@) {
                Some(OutputType::Png)
            } else if eq_ignore_case(s@, "apng"@) {
                Some(OutputType::Apng)
            } else {
                None
            }),
    {
        if matches_ignore_case(s, "gif") {
            Some(OutputType::Gif)
        } else if matches_ignore_case(s, "png") {
            Some(OutputType::Png)
        } else if matches_ignore_case(s, "apng") {
            Some(OutputType::Apng)
        } else {
            None
        }
    }
}

impl Default for OutputType {
    fn default() -> (r: OutputType)
        ensures
            r == OutputType::Apng,
    {
        OutputType::Apng
    }
}

} // verus!
