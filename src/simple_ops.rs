//! One-line text transformations.
use vstd::prelude::*;
use vstd::string::StringExecFns;

use crate::text::{push_char, str_equals};

verus! {

/// A text transformation, chosen by name.
#[derive(Debug, Clone, Copy, PartialEq, Eq, Structural)]
pub enum SimpleOp {
    Lowercase,
    Uppercase,
    NoSpaces,
    Slugify,
    Reverse,
    NoWhitespace,
    Spongebob,
}

/// The operation a name stands for.
pub open spec fn op_named(s: Seq<char>) -> Option<SimpleOp> {
    if s == "lowercase"@ {
        Some(SimpleOp::Lowercase)
    } else if s == "uppercase"@ {
        Some(SimpleOp::Uppercase)
    } else if s == "no_spaces"@ {
        Some(SimpleOp::NoSpaces)
    } else if s == "slugify"@ {
        Some(SimpleOp::Slugify)
    } else if s == "reverse"@ {
        Some(SimpleOp::Reverse)
    } else if s == "no_whitespace"@ {
        Some(SimpleOp::NoWhitespace)
    } else if s == "spongebob"@ {
        Some(SimpleOp::Spongebob)
    } else {
        None
    }
}

/// Lowercase form of a text, by Unicode's case mapping.
pub uninterp spec fn lower_of(s: Seq<char>) -> Seq<char>;

/// Uppercase form of a text, by Unicode's case mapping.
pub uninterp spec fn upper_of(s: Seq<char>) -> Seq<char>;

/// The slug of a text, as the `slug` crate makes it.
pub uninterp spec fn slug_of(s: Seq<char>) -> Seq<char>;

/// Relies on `str::to_lowercase`: the result depends on the characters alone.
#[verifier::external_body]
fn str_to_lowercase(s: &str) -> (r: String)
    ensures
        r@ == lower_of(s@),
{
    s.to_lowercase()
}

/// Relies on `str::to_uppercase`: the result depends on the characters alone.
#[verifier::external_body]
fn str_to_uppercase(s: &str) -> (r: String)
    ensures
        r@ == upper_of(s@),
{
    s.to_uppercase()
}

/// Relies on `slug::slugify`: the result depends on the characters alone.
#[verifier::external_body]
fn slug_slugify(s: &str) -> (r: String)
    ensures
        r@ == slug_of(s@),
{
    slug::slugify(s)
}

/// Relies on `rand::random::<bool>`: a coin flip from the thread's generator.
#[verifier::external_body]
fn coin_flip() -> (r: bool) {
    rand::random::<bool>()
}

/// Whether `c` has Unicode's `White_Space` property.
pub open spec fn is_whitespace_spec(c: char) -> bool {
    let u = c as u32;
    (0x09 <= u <= 0x0d) || u == 0x20 || u == 0x85 || u == 0xa0 || u == 0x1680 || (0x2000 <= u
        <= 0x200a) || u == 0x2028 || u == 0x2029 || u == 0x202f || u == 0x205f || u == 0x3000
}

/// Whether `c` is white space, as Unicode's `White_Space` property says.
pub fn is_whitespace(c: char) -> (r: bool)
    ensures
        r == is_whitespace_spec(c),
{
    let u = c as u32;
    (0x09 <= u && u <= 0x0d) || u == 0x20 || u == 0x85 || u == 0xa0 || u == 0x1680 || (0x2000
        <= u && u <= 0x200a) || u == 0x2028 || u == 0x2029 || u == 0x202f || u == 0x205f || u
        == 0x3000
}

/// `c` with an ASCII lowercase letter made uppercase.
pub open spec fn ascii_upper(c: char) -> char {
    if 'a' <= c <= 'z' {
        ((c as u8) - 32) as char
    } else {
        c
    }
}

/// `c` with an ASCII uppercase letter made lowercase.
pub open spec fn ascii_lower(c: char) -> char {
    if 'A' <= c <= 'Z' {
        ((c as u8) + 32) as char
    } else {
        c
    }
}

/// The characters of `s` with those failing `keep` left out.
pub open spec fn kept_chars(s: Seq<char>, keep: spec_fn(char) -> bool) -> Seq<char>
    decreases s.len(),
{
    if s.len() == 0 {
        s
    } else {
        let rest = kept_chars(s.drop_last(), keep);
        if keep(s.last()) {
            rest.push(s.last())
        } else {
            rest
        }
    }
}

/// Keeps what is not a space (U+0020).
pub open spec fn not_space() -> spec_fn(char) -> bool {
    |c: char| c != ' '
}

/// Keeps what is not white space.
pub open spec fn not_whitespace() -> spec_fn(char) -> bool {
    |c: char| !is_whitespace_spec(c)
}

/// `s` with each character's case set by the coin at its place: uppercase
/// where it came up true.
pub open spec fn mocking(s: Seq<char>, flips: Seq<bool>) -> Seq<char> {
    Seq::new(s.len(), |i: int| if flips[i] { ascii_upper(s[i]) } else { ascii_lower(s[i]) })
}

/// `r` is what `op` makes of `s`: exactly so for all but the random one, which
/// only sets the case of each ASCII letter.
pub open spec fn op_result(op: SimpleOp, s: Seq<char>, r: Seq<char>) -> bool {
    match op {
        SimpleOp::Lowercase => r == lower_of(s),
        SimpleOp::Uppercase => r == upper_of(s),
        SimpleOp::NoSpaces => r == kept_chars(s, not_space()),
        SimpleOp::Slugify => r == slug_of(s),
        SimpleOp::Reverse => r == s.reverse(),
        SimpleOp::NoWhitespace => r == kept_chars(s, not_whitespace()),
        SimpleOp::Spongebob => r.len() == s.len() && forall|i: int|
            0 <= i < s.len() ==> #[trigger] r[i] == ascii_upper(s[i]) || r[i] == ascii_lower(s[i]),
    }
}

impl SimpleOp {
    /// The operation named `s`, if any.
    pub fn parse(s: &str) -> (r: Option<SimpleOp>)
        ensures
            r == op_named(s@),
    {
        if str_equals(s, "lowercase") {
            Some(SimpleOp::Lowercase)
        } else if str_equals(s, "uppercase") {
            Some(SimpleOp::Uppercase)
        } else if str_equals(s, "no_spaces") {
            Some(SimpleOp::NoSpaces)
        } else if str_equals(s, "slugify") {
            Some(SimpleOp::Slugify)
        } else if str_equals(s, "reverse") {
            Some(SimpleOp::Reverse)
        } else if str_equals(s, "no_whitespace") {
            Some(SimpleOp::NoWhitespace)
        } else if str_equals(s, "spongebob") {
            Some(SimpleOp::Spongebob)
        } else {
            None
        }
    }

    /// Applies the operation to `s`.
    pub fn exec(self, s: &str) -> (r: String)
        ensures
            op_result(self, s@, r@),
    {
        match self {
            SimpleOp::Lowercase => lowercase(s),
            SimpleOp::Uppercase => uppercase(s),
            SimpleOp::NoSpaces => no_spaces(s),
            SimpleOp::Slugify => slugify(s),
            SimpleOp::Reverse => reverse(s),
            SimpleOp::NoWhitespace => no_whitespace(s),
            SimpleOp::Spongebob => spongebob(s),
        }
    }
}

pub fn lowercase(s: &str) -> (r: String)
    ensures
        r@ == lower_of(s@),
{
    str_to_lowercase(s)
}

pub fn uppercase(s: &str) -> (r: String)
    ensures
        r@ == upper_of(s@),
{
    str_to_uppercase(s)
}

pub fn slugify(s: &str) -> (r: String)
    ensures
        r@ == slug_of(s@),
{
    slug_slugify(s)
}

/// `s` without its white space if `all_whitespace`, else without its spaces.
fn keep_only(s: &str, all_whitespace: bool) -> (r: String)
    ensures
        r@ == kept_chars(s@, if all_whitespace { not_whitespace() } else { not_space() }),
{
    let ghost keep = if all_whitespace { not_whitespace() } else { not_space() };
    let n = s.unicode_len();
    let mut r = String::new();
    let mut i: usize = 0;
    while i < n
        invariant
            n == s@.len(),
            i <= n,
            keep == if all_whitespace { not_whitespace() } else { not_space() },
            r@ == kept_chars(s@.take(i as int), keep),
        decreases n - i,
    {
        let c = s.get_char(i);
        assert(s@.take(i + 1).drop_last() =~= s@.take(i as int));
        assert(s@.take(i + 1).last() == c);
        let kept = if all_whitespace { !is_whitespace(c) } else { c != ' ' };
        assert(kept == keep(c));
        if kept {
            push_char(&mut r, c);
        }
        i += 1;
    }
    assert(s@.take(n as int) =~= s@);
    r
}

/// `s` without its spaces (U+0020).
pub fn no_spaces(s: &str) -> (r: String)
    ensures
        r@ == kept_chars(s@, not_space()),
{
    keep_only(s, false)
}

/// `s` without any white space.
pub fn no_whitespace(s: &str) -> (r: String)
    ensures
        r@ == kept_chars(s@, not_whitespace()),
{
    keep_only(s, true)
}

/// The characters of `s` in reverse order.
pub fn reverse(s: &str) -> (r: String)
    ensures
        r@ == s@.reverse(),
{
    let n = s.unicode_len();
    let mut r = String::new();
    let mut i: usize = n;
    while i > 0
        invariant
            n == s@.len(),
            i <= n,
            r@.len() == n - i,
            forall|k: int| 0 <= k < n - i ==> #[trigger] r@[k] == s@[n - 1 - k],
        decreases i,
    {
        i -= 1;
        let c = s.get_char(i);
        push_char(&mut r, c);
    }
    assert(r@ =~= s@.reverse());
    r
}

fn to_ascii_upper(c: char) -> (r: char)
    ensures
        r == ascii_upper(c),
{
    if 'a' <= c && c <= 'z' {
        ((c as u8) - 32) as char
    } else {
        c
    }
}

fn to_ascii_lower(c: char) -> (r: char)
    ensures
        r == ascii_lower(c),
{
    if 'A' <= c && c <= 'Z' {
        ((c as u8) + 32) as char
    } else {
        c
    }
}

/// `s` with each character's case set by `flips`: ASCII uppercase where the
/// flip is true, ASCII lowercase where it is false.
pub fn spongebob_with(s: &str, flips: &Vec<bool>) -> (r: String)
    requires
        flips@.len() >= s@.len(),
    ensures
        r@ == mocking(s@, flips@),
{
    let n = s.unicode_len();
    let mut r = String::new();
    let mut i: usize = 0;
    while i < n
        invariant
            n == s@.len(),
            i <= n,
            flips@.len() >= n,
            r@ == mocking(s@.take(i as int), flips@),
        decreases n - i,
    {
        let c = s.get_char(i);
        let m = if flips[i] { to_ascii_upper(c) } else { to_ascii_lower(c) };
        push_char(&mut r, m);
        i += 1;
        assert(r@ =~= mocking(s@.take(i as int), flips@));
    }
    assert(s@.take(n as int) =~= s@);
    r
}

/// `s` with each character's case picked at random.
pub fn spongebob(s: &str) -> (r: String)
    ensures
        r@.len() == s@.len(),
        forall|i: int|
            0 <= i < s@.len() ==> #[trigger] r@[i] == ascii_upper(s@[i]) || r@[i] == ascii_lower(
                s@[i],
            ),
{
    let n = s.unicode_len();
    let mut flips: Vec<bool> = Vec::new();
    let mut i: usize = 0;
    while i < n
        invariant
            i <= n,
            flips@.len() == i,
        decreases n - i,
    {
        flips.push(coin_flip());
        i += 1;
    }
    spongebob_with(s, &flips)
}

} // verus!
