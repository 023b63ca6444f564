//! Text primitives shared by the rest of the crate.

use crate::sequences::{first_where, lemma_first_where, lemma_first_where_is};
use vstd::prelude::*;
use vstd::std_specs::iter::IteratorSpec;
use vstd::string::StringSliceAdditionalSpecFns;
use vstd::utf8::{decode_utf8, encode_utf8, is_char_boundary, valid_utf8};

verus! {

/// Whether a character is whitespace in the sense of `char::is_whitespace`,
/// that is, whether it carries the Unicode `White_Space` property.
pub uninterp spec fn white_space(c: char) -> bool;

/// Trusted: `char::is_whitespace` decides the `White_Space` property, which
/// this crate knows only by the name `white_space`.
pub assume_specification[ char::is_whitespace ](c: char) -> (b: bool)
    ensures
        b == white_space(c),
;

/// What a character that is not whitespace satisfies.
pub open spec fn ink() -> spec_fn(char) -> bool {
    |c: char| !white_space(c)
}

/// The index of the first character of `s` that is not whitespace, or the
/// length of `s` if there is none.
pub open spec fn first_ink(s: Seq<char>) -> int {
    first_where(s, ink())
}

/// One past the index of the last character of `s` that is not whitespace, or
/// zero if there is none.
pub open spec fn ink_end(s: Seq<char>) -> int
    decreases s.len(),
{
    if s.len() == 0 || !white_space(s.last()) {
        s.len() as int
    } else {
        ink_end(s.drop_last())
    }
}

/// `s` without its leading and trailing whitespace.
pub open spec fn trimmed(s: Seq<char>) -> Seq<char> {
    if first_ink(s) < ink_end(s) {
        s.subrange(first_ink(s), ink_end(s))
    } else {
        Seq::empty()
    }
}

/// Removes leading and trailing whitespace, as `str::trim` does.
pub fn trim(s: &str) -> (r: String)
    ensures
        r@ == trimmed(s@),
{
    broadcast use vstd::string::group_string_axioms;

    let n = s.unicode_len();
    let mut it = s.chars();
    let mut idx: usize = 0;
    let mut start: usize = 0;
    let mut end: usize = 0;
    let mut seen = false;
    while idx < n
        invariant
            n == s@.len(),
            idx <= n,
            it.obeys_prophetic_iter_laws(),
            it.remaining() == s@.skip(idx as int),
            start <= end <= idx,
            end == ink_end(s@.take(idx as int)),
            !seen ==> start == 0 && end == 0,
            !seen ==> forall|k: int| 0 <= k < idx ==> white_space(#[trigger] s@[k]),
            seen ==> start < end && !white_space(s@[start as int]),
            seen ==> forall|k: int| 0 <= k < start ==> white_space(#[trigger] s@[k]),
        decreases n - idx,
    {
        let next = it.next();
        assert(next == Some(s@[idx as int]));
        let c = next.unwrap();
        proof {
            let p = s@.take(idx as int + 1);
            assert(p.drop_last() == s@.take(idx as int));
            assert(p.last() == c);
        }
        if !c.is_whitespace() {
            if !seen {
                start = idx;
                seen = true;
            }
            end = idx + 1;
        }
        idx = idx + 1;
    }
    proof {
        assert(s@.take(n as int) == s@);
        if seen {
            lemma_first_where_is(s@, ink(), start as int);
        } else {
            lemma_first_where_is(s@, ink(), n as int);
        }
    }
    if seen {
        s.substring_char(start, end).to_owned()
    } else {
        String::new()
    }
}

/// What `String::from_utf8_lossy` makes of `bytes`: the text they encode,
/// with every malformed sequence replaced by U+FFFD.
pub uninterp spec fn lossy_text(bytes: Seq<u8>) -> Seq<char>;

/// Calls `String::from_utf8_lossy`. Trusted: the result is a function of the
/// bytes alone, and well-formed UTF-8 decodes to the text it encodes.
#[verifier::external_body]
fn decode_lossy(bytes: &[u8]) -> (r: String)
    ensures
        r@ == lossy_text(bytes@),
        valid_utf8(bytes@) ==> r@ == decode_utf8(bytes@),
{
    String::from_utf8_lossy(bytes).into_owned()
}

/// Whether two runs of bytes are the same.
pub fn same_bytes(a: &[u8], b: &[u8]) -> (same: bool)
    ensures
        same == (a@ == b@),
{
    if a.len() != b.len() {
        return false;
    }
    let mut i: usize = 0;
    while i < a.len()
        invariant
            a.len() == b.len(),
            i <= a.len(),
            a@.take(i as int) == b@.take(i as int),
        decreases a.len() - i,
    {
        if a[i] != b[i] {
            return false;
        }
        proof {
            assert(a@.take(i as int + 1) == a@.take(i as int).push(a@[i as int]));
            assert(b@.take(i as int + 1) == b@.take(i as int).push(b@[i as int]));
        }
        i = i + 1;
    }
    proof {
        assert(a@.take(i as int) == a@);
        assert(b@.take(i as int) == b@);
    }
    true
}

/// Decodes bytes leniently, and says whether they were well-formed UTF-8:
/// they were exactly if the text encodes back to them.
pub fn decode(bytes: &[u8]) -> (decoded: (String, bool))
    ensures
        decoded.0@ == lossy_text(bytes@),
        decoded.1 == valid_utf8(bytes@),
        decoded.1 ==> decoded.0@ == decode_utf8(bytes@),
{
    let text = decode_lossy(bytes);
    let intact = same_bytes(text.as_str().as_bytes(), bytes);
    proof {
        vstd::utf8::encode_utf8_valid_utf8(text@);
        if valid_utf8(bytes@) {
            vstd::utf8::decode_utf8_encode_utf8(bytes@);
        }
    }
    (text, intact)
}

/// What `str::to_lowercase` makes of `s`: its Unicode lowercase equivalent.
pub uninterp spec fn lowercase(s: Seq<char>) -> Seq<char>;

/// Calls `str::to_lowercase`. Trusted: the result is a function of the text
/// alone.
#[verifier::external_body]
pub(crate) fn to_lowercase(s: &str) -> (r: String)
    ensures
        r@ == lowercase(s@),
{
    s.to_lowercase()
}

/// Whether two strings hold the same text.
pub fn same_text(a: &str, b: &str) -> (same: bool)
    ensures
        same == (a@ == b@),
{
    a.to_owned() == b.to_owned()
}

/// The character that stands for a decimal digit.
pub open spec fn digit_char(d: nat) -> char {
    if d == 0 {
        '0'
    } else if d == 1 {
        '1'
    } else if d == 2 {
        '2'
    } else if d == 3 {
        '3'
    } else if d == 4 {
        '4'
    } else if d == 5 {
        '5'
    } else if d == 6 {
        '6'
    } else if d == 7 {
        '7'
    } else if d == 8 {
        '8'
    } else {
        '9'
    }
}

/// A number written in decimal, without sign or leading zeros.
pub open spec fn decimal_text(n: nat) -> Seq<char>
    decreases n,
{
    if n < 10 {
        seq![digit_char(n)]
    } else {
        decimal_text(n / 10).push(digit_char(n % 10))
    }
}

fn digit_text(d: u16) -> (s: &'static str)
    requires
        d < 10,
    ensures
        s@ == seq![digit_char(d as nat)],
{
    proof {
        reveal_strlit("0");
        reveal_strlit("1");
        reveal_strlit("2");
        reveal_strlit("3");
        reveal_strlit("4");
        reveal_strlit("5");
        reveal_strlit("6");
        reveal_strlit("7");
        reveal_strlit("8");
        reveal_strlit("9");
    }
    let s = if d == 0 {
        "0"
    } else if d == 1 {
        "1"
    } else if d == 2 {
        "2"
    } else if d == 3 {
        "3"
    } else if d == 4 {
        "4"
    } else if d == 5 {
        "5"
    } else if d == 6 {
        "6"
    } else if d == 7 {
        "7"
    } else if d == 8 {
        "8"
    } else {
        "9"
    };
    assert(s@ =~= seq![digit_char(d as nat)]);
    s
}

/// Writes a number in decimal.
pub fn decimal(n: u16) -> (s: String)
    ensures
        s@ == decimal_text(n as nat),
    decreases n,
{
    if n < 10 {
        digit_text(n).to_owned()
    } else {
        let mut s = decimal(n / 10);
        s.append(digit_text(n % 10));
        s
    }
}

/// Whether the bytes `from..to` of the UTF-8 form of `s` can be cut out as
/// text: the range lies inside `s` and neither end splits a character.
pub open spec fn sliceable(s: Seq<char>, from: int, to: int) -> bool {
    &&& 0 <= from <= to <= encode_utf8(s).len()
    &&& is_char_boundary(encode_utf8(s), from)
    &&& is_char_boundary(encode_utf8(s), to)
}

/// The text that the bytes `from..to` of the UTF-8 form of `s` encode.
pub open spec fn byte_slice(s: Seq<char>, from: int, to: int) -> Seq<char> {
    decode_utf8(encode_utf8(s).subrange(from, to))
}

/// Whether `slice` may be asked for the bytes `from..to` of `s`.
pub fn can_slice(s: &str, from: usize, to: usize) -> (b: bool)
    ensures
        b == sliceable(s@, from as int, to as int),
{
    from <= to && to <= s.as_bytes().len() && s.is_char_boundary(from) && s.is_char_boundary(to)
}

/// The text at the bytes `from..to` of `s`.
pub fn slice(s: &str, from: usize, to: usize) -> (r: String)
    requires
        sliceable(s@, from as int, to as int),
    ensures
        r@ == byte_slice(s@, from as int, to as int),
{
    broadcast use
        vstd::utf8::encode_utf8_valid_utf8,
        vstd::utf8::encode_utf8_decode_utf8,
        vstd::utf8::valid_utf8_split,
    ;

    let ghost bytes = s.spec_bytes();
    let (_, tail) = s.split_at(from);
    proof {
        let rest = tail.spec_bytes();
        let cut = to - from;
        assert(rest == bytes.subrange(from as int, bytes.len() as int));
        assert(valid_utf8(rest));
        if cut == rest.len() {
            vstd::utf8::is_char_boundary_start_end_of_seq(rest);
        } else if cut > 0 {
            vstd::utf8::is_char_boundary_iff_not_is_continuation_byte(bytes, to as int);
            assert(rest[cut] == bytes[to as int]);
            vstd::utf8::is_char_boundary_iff_not_is_continuation_byte(rest, cut);
        }
    }
    let (middle, _) = tail.split_at(to - from);
    proof {
        assert(middle.spec_bytes() == bytes.subrange(from as int, to as int));
    }
    middle.to_owned()
}

/// `s` without the slash it starts with, if it starts with one.
pub open spec fn without_leading_slash(s: Seq<char>) -> Seq<char> {
    if s.len() > 0 && s[0] == '/' {
        s.drop_first()
    } else {
        s
    }
}

/// Drops the slash that `s` starts with, if it starts with one.
pub fn strip_leading_slash(s: &str) -> (r: String)
    ensures
        r@ == without_leading_slash(s@),
{
    let n = s.unicode_len();
    if n > 0 && s.get_char(0) == '/' {
        s.substring_char(1, n).to_owned()
    } else {
        s.to_owned()
    }
}

/// What the character `c` and no other satisfies.
pub open spec fn is_char(c: char) -> spec_fn(char) -> bool {
    |x: char| x == c
}

/// The part of `s` before the first `separator`: all of `s` if there is
/// none.
pub open spec fn head_segment(s: Seq<char>, separator: char) -> Seq<char> {
    s.take(first_where(s, is_char(separator)))
}

/// The part of `s` after the first `separator`, if there is one.
pub open spec fn after_separator(s: Seq<char>, separator: char) -> Option<Seq<char>> {
    if first_where(s, is_char(separator)) < s.len() {
        Some(s.skip(first_where(s, is_char(separator)) + 1))
    } else {
        None
    }
}

/// The index of the first `c` in `s`, or the number of characters of `s` if
/// there is none.
pub fn find_char(s: &str, c: char) -> (i: usize)
    ensures
        i == first_where(s@, is_char(c)),
{
    broadcast use vstd::string::group_string_axioms;

    let n = s.unicode_len();
    let mut it = s.chars();
    let mut idx: usize = 0;
    while idx < n
        invariant
            n == s@.len(),
            idx <= n,
            it.obeys_prophetic_iter_laws(),
            it.remaining() == s@.skip(idx as int),
            forall|k: int| 0 <= k < idx ==> !is_char(c)(#[trigger] s@[k]),
        decreases n - idx,
    {
        let next = it.next();
        assert(next == Some(s@[idx as int]));
        if next.unwrap() == c {
            proof {
                lemma_first_where_is(s@, is_char(c), idx as int);
            }
            return idx;
        }
        idx = idx + 1;
    }
    proof {
        lemma_first_where_is(s@, is_char(c), n as int);
    }
    n
}

/// Splits `s` at its first `separator`: what stands before it, and what
/// stands after it if there is one.
pub fn split_first(s: &str, separator: char) -> (parts: (String, Option<String>))
    ensures
        parts.0@ == head_segment(s@, separator),
        match parts.1 {
            Some(rest) => after_separator(s@, separator) == Some(rest@),
            None => after_separator(s@, separator) is None,
        },
{
    let n = s.unicode_len();
    let at = find_char(s, separator);
    proof {
        lemma_first_where(s@, is_char(separator));
    }
    let head = s.substring_char(0, at).to_owned();
    if at < n {
        let rest = s.substring_char(at + 1, n).to_owned();
        (head, Some(rest))
    } else {
        (head, None)
    }
}

/// The value of a decimal digit.
pub open spec fn digit_of(c: char) -> Option<nat> {
    if c == '0' {
        Some(0)
    } else if c == '1' {
        Some(1)
    } else if c == '2' {
        Some(2)
    } else if c == '3' {
        Some(3)
    } else if c == '4' {
        Some(4)
    } else if c == '5' {
        Some(5)
    } else if c == '6' {
        Some(6)
    } else if c == '7' {
        Some(7)
    } else if c == '8' {
        Some(8)
    } else if c == '9' {
        Some(9)
    } else {
        None
    }
}

/// The number that a run of decimal digits stands for, the empty run
/// standing for zero; `None` if a character is not a digit.
pub open spec fn digits_value(s: Seq<char>) -> Option<nat>
    decreases s.len(),
{
    if s.len() == 0 {
        Some(0)
    } else {
        match (digits_value(s.drop_last()), digit_of(s.last())) {
            (Some(v), Some(d)) => Some(10 * v + d),
            _ => None,
        }
    }
}

/// The 16-bit number that `s` is the decimal form of: an optional `+`, then
/// at least one digit and nothing but digits, the value no more than 65535.
pub open spec fn parsed_u16(s: Seq<char>) -> Option<u16> {
    let digits = if s.len() > 0 && s[0] == '+' {
        s.drop_first()
    } else {
        s
    };
    if digits.len() == 0 {
        None
    } else {
        match digits_value(digits) {
            Some(v) => if v <= 0xffff {
                Some(v as u16)
            } else {
                None
            },
            None => None,
        }
    }
}

/// A run that holds something other than a digit has no value.
pub proof fn lemma_digits_value_none(s: Seq<char>, k: int)
    requires
        0 <= k < s.len(),
        digit_of(s[k]) is None,
    ensures
        digits_value(s) is None,
    decreases s.len(),
{
    if k < s.len() - 1 {
        lemma_digits_value_none(s.drop_last(), k);
    }
}

/// The value of a run is at least the value of each of its prefixes.
pub proof fn lemma_digits_value_grows(s: Seq<char>, n: int)
    requires
        0 <= n <= s.len(),
    ensures
        digits_value(s) matches Some(v) ==> (digits_value(s.take(n)) matches Some(w) && w <= v),
    decreases s.len(),
{
    if n == s.len() {
        assert(s.take(n) == s);
    } else {
        lemma_digits_value_grows(s.drop_last(), n);
        assert(s.drop_last().take(n) == s.take(n));
    }
}

fn digit_value(c: char) -> (d: Option<u32>)
    ensures
        match d {
            Some(v) => digit_of(c) == Some(v as nat),
            None => digit_of(c) is None,
        },
{
    if c == '0' {
        Some(0)
    } else if c == '1' {
        Some(1)
    } else if c == '2' {
        Some(2)
    } else if c == '3' {
        Some(3)
    } else if c == '4' {
        Some(4)
    } else if c == '5' {
        Some(5)
    } else if c == '6' {
        Some(6)
    } else if c == '7' {
        Some(7)
    } else if c == '8' {
        Some(8)
    } else if c == '9' {
        Some(9)
    } else {
        None
    }
}

/// Reads a 16-bit number in decimal, as `str::parse::<u16>` does.
pub fn parse_u16(s: &str) -> (r: Option<u16>)
    ensures
        r == parsed_u16(s@),
{
    broadcast use vstd::string::group_string_axioms;

    let n = s.unicode_len();
    if n == 0 {
        return None;
    }
    let start: usize = if s.get_char(0) == '+' {
        1
    } else {
        0
    };
    if start == n {
        return None;
    }
    let ghost digits = s@.skip(start as int);
    proof {
        assert(s@.skip(0) == s@);
        assert(s@.skip(1) == s@.drop_first());
    }
    let mut it = s.chars();
    let mut idx: usize = 0;
    let mut value: u32 = 0;
    while idx < n
        invariant
            n == s@.len(),
            start <= 1,
            start < n,
            idx <= n,
            digits == s@.skip(start as int),
            digits == if s@[0] == '+' {
                s@.drop_first()
            } else {
                s@
            },
            it.obeys_prophetic_iter_laws(),
            it.remaining() == s@.skip(idx as int),
            value <= 0xffff,
            idx <= start ==> value == 0,
            idx >= start ==> digits_value(digits.take(idx - start)) == Some(value as nat),
        decreases n - idx,
    {
        let next = it.next();
        assert(next == Some(s@[idx as int]));
        let c = next.unwrap();
        if idx >= start {
            proof {
                let taken = digits.take(idx - start + 1);
                assert(taken.drop_last() == digits.take(idx - start));
                assert(taken.last() == c);
            }
            match digit_value(c) {
                Some(d) => {
                    let grown: u32 = value * 10 + d;
                    if grown > 0xffff {
                        proof {
                            lemma_digits_value_grows(digits, idx - start + 1);
                        }
                        return None;
                    }
                    value = grown;
                },
                None => {
                    proof {
                        lemma_digits_value_none(digits, idx - start);
                    }
                    return None;
                },
            }
        }
        idx = idx + 1;
    }
    proof {
        assert(digits.take(n - start) == digits);
    }
    Some(value as u16)
}

} // verus!
