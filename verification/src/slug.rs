//! Slug derivation: turning a page title into a filesystem-safe identifier.
//!
//! The transform walks the title's characters in order. An uppercase
//! character is preceded by a `'_'` separator (unless it is the first
//! character) and then emitted in lowercase; every other character passes
//! through unchanged. ASCII uppercase letters are lowered by offsetting the
//! code point; other uppercase characters use the Unicode lowercase
//! expansion, preserved verbatim.

use vstd::prelude::*;
use vstd::string::StrSliceExecFns;
use vstd::string::StringExecFns;
use crate::text::push_char;

verus! {

/// Whether `c` has the Unicode `Uppercase` property. The full table is part
/// of the Unicode character database; it is not written out here, so only the
/// facts stated by `char_is_uppercase` are known about it.
pub uninterp spec fn is_upper(c: char) -> bool;

/// The Unicode lowercase expansion of `c` (one or more characters).
pub uninterp spec fn lower_expansion(c: char) -> Seq<char>;

/// Whether `c` is an ASCII uppercase letter.
pub open spec fn is_ascii_upper(c: char) -> bool {
    65 <= (c as int) && (c as int) <= 90
}

/// The ASCII lowercase counterpart of an ASCII uppercase letter.
pub open spec fn ascii_lower(c: char) -> char
    recommends
        is_ascii_upper(c),
{
    ((c as u8) + 32) as char
}

/// Relies on `char::is_uppercase`: true exactly for characters with the
/// Unicode `Uppercase` property; among ASCII characters those are `'A'..='Z'`.
#[verifier::external_body]
fn char_is_uppercase(c: char) -> (r: bool)
    ensures
        r == is_upper(c),
        is_ascii_upper(c) ==> r,
        (c as int) < 128 && !is_ascii_upper(c) ==> !r,
{
    c.is_uppercase()
}

/// Relies on `char::to_lowercase`: the lowercase mapping of a character per
/// the Unicode database, depending on the character alone.
#[verifier::external_body]
fn char_lowercase(c: char) -> (r: String)
    ensures
        r@ == lower_expansion(c),
{
    c.to_lowercase().to_string()
}

/// What the slug transform emits for one character of the title.
/// `first` says whether it is the title's first character.
pub open spec fn snake_char(c: char, first: bool) -> Seq<char> {
    if is_upper(c) {
        let sep: Seq<char> = if first {
            Seq::empty()
        } else {
            seq!['_']
        };
        if is_ascii_upper(c) {
            sep + seq![ascii_lower(c)]
        } else {
            sep + lower_expansion(c)
        }
    } else {
        seq![c]
    }
}

/// The slug of the first `i` characters of `s`.
pub open spec fn snake_prefix(s: Seq<char>, i: int) -> Seq<char>
    decreases i,
{
    if i <= 0 {
        Seq::empty()
    } else {
        snake_prefix(s, i - 1) + snake_char(s[i - 1], i - 1 == 0)
    }
}

/// The slug of a whole title.
pub open spec fn snake_of(s: Seq<char>) -> Seq<char> {
    snake_prefix(s, s.len() as int)
}

/// Derive the filesystem-safe slug of a title.
pub fn to_snake_case(s: &str) -> (r: String)
    ensures
        r@ == snake_of(s@),
{
    let n = s.unicode_len();
    let mut r = String::new();
    let mut i: usize = 0;
    while i < n
        invariant
            n == s@.len(),
            i <= n,
            r@ == snake_prefix(s@, i as int),
        decreases n - i,
    {
        let c = s.get_char(i);
        if char_is_uppercase(c) {
            if i > 0 {
                push_char(&mut r, '_');
            }
            let u = c as u32;
            if u < 128 {
                let lc = ((u + 32) as u8) as char;
                assert(lc == ascii_lower(c));
                push_char(&mut r, lc);
            } else {
                let expansion = char_lowercase(c);
                r.append(expansion.as_str());
            }
        } else {
            push_char(&mut r, c);
        }
        assert(r@ == snake_prefix(s@, i + 1));
        i = i + 1;
    }
    r
}

/// Slug derivation is deterministic and pure: the slug is a function of the
/// title's characters alone, so any two titles with equal characters have
/// equal slugs.
pub proof fn lemma_snake_of_deterministic(a: Seq<char>, b: Seq<char>)
    requires
        a == b,
    ensures
        snake_of(a) == snake_of(b),
{
}

} // verus!
