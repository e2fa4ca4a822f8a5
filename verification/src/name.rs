//! Coordinates in asset names. An asset's name ends in its coordinates,
//! written as `(x, y)`: what follows the last opening parenthesis is two
//! decimal numbers, separated by a comma and closed by a parenthesis, with
//! white space allowed around each.

use vstd::prelude::*;
use vstd::string::StrSliceExecFns;
use vstd::string::StringSliceAdditionalSpecFns;

verus! {

/// White space: the characters with the Unicode property of that name.
pub open spec fn is_space(c: char) -> bool {
    let u = c as u32;
    ||| 0x09 <= u <= 0x0D
    ||| u == 0x20
    ||| u == 0x85
    ||| u == 0xA0
    ||| u == 0x1680
    ||| 0x2000 <= u <= 0x200A
    ||| u == 0x2028
    ||| u == 0x2029
    ||| u == 0x202F
    ||| u == 0x205F
    ||| u == 0x3000
}

/// Whether `c` is white space.
pub fn is_whitespace(c: char) -> (r: bool)
    ensures
        r == is_space(c),
{
    let u: u32 = c as u32;
    (0x09 <= u && u <= 0x0D) || u == 0x20 || u == 0x85 || u == 0xA0 || u == 0x1680 || (0x2000 <= u
        && u <= 0x200A) || u == 0x2028 || u == 0x2029 || u == 0x202F || u == 0x205F || u == 0x3000
}

/// Index of the first `c` in `s` at or after `from`, or the length of `s`
/// where there is none.
pub open spec fn find(s: Seq<char>, c: char, from: int) -> int
    decreases s.len() - from,
{
    if from >= s.len() {
        s.len() as int
    } else if s[from] == c {
        from
    } else {
        find(s, c, from + 1)
    }
}

/// Index just behind the last `c` in the first `to` characters of `s`, or 0
/// where there is none.
pub open spec fn behind_last(s: Seq<char>, c: char, to: int) -> int
    decreases to,
{
    if to <= 0 {
        0
    } else if s[to - 1] == c {
        to
    } else {
        behind_last(s, c, to - 1)
    }
}

/// Index of the first character of `s` at or after `from` that is no white
/// space, or the length of `s`.
pub open spec fn skip_spaces(s: Seq<char>, from: int) -> int
    decreases s.len() - from,
{
    if from >= s.len() {
        s.len() as int
    } else if is_space(s[from]) {
        skip_spaces(s, from + 1)
    } else {
        from
    }
}

/// Index just behind the last character among the first `to` of `s` that is
/// no white space, but not below `from`.
pub open spec fn drop_spaces(s: Seq<char>, from: int, to: int) -> int
    decreases to - from,
{
    if to <= from {
        from
    } else if is_space(s[to - 1]) {
        drop_spaces(s, from, to - 1)
    } else {
        to
    }
}

/// `s` without the white space at its two ends.
pub open spec fn trimmed(s: Seq<char>) -> Seq<char> {
    s.subrange(skip_spaces(s, 0), drop_spaces(s, skip_spaces(s, 0), s.len() as int))
}

/// What follows the last `c` in `s`; all of `s` where there is none.
pub open spec fn text_after_last(s: Seq<char>, c: char) -> Seq<char> {
    s.subrange(behind_last(s, c, s.len() as int), s.len() as int)
}

/// What precedes the first `c` in `s`; all of `s` where there is none.
pub open spec fn text_before_first(s: Seq<char>, c: char) -> Seq<char> {
    s.subrange(0, find(s, c, 0))
}

/// What follows the first `c` in `s`, where there is one.
pub open spec fn text_after_first(s: Seq<char>, c: char) -> Option<Seq<char>> {
    if find(s, c, 0) < s.len() {
        Some(s.subrange(find(s, c, 0) + 1, s.len() as int))
    } else {
        None
    }
}

/// Whether `c` is one of the digits 0 to 9.
pub open spec fn is_digit(c: char) -> bool {
    0x30 <= c as u32 <= 0x39
}

/// Whether `s` holds digits only.
pub open spec fn all_digits(s: Seq<char>) -> bool {
    forall|i: int| 0 <= i < s.len() ==> is_digit(#[trigger] s[i])
}

/// The value of a digit; zero for any other character.
pub open spec fn digit_value(c: char) -> nat {
    if is_digit(c) {
        (c as u32 - 0x30) as nat
    } else {
        0
    }
}

/// The number that the digits of `s` write in base ten.
pub open spec fn number(s: Seq<char>) -> nat
    decreases s.len(),
{
    if s.len() == 0 {
        0
    } else {
        10 * number(s.drop_last()) + digit_value(s.last())
    }
}

/// The number that `s` writes: one or more digits, after at most one sign,
/// and the value within 64 bits.
pub open spec fn decimal(s: Seq<char>) -> Option<i64> {
    if s.len() == 0 {
        None
    } else {
        let negative = s[0] == '-';
        let digits = if s[0] == '-' || s[0] == '+' {
            s.subrange(1, s.len() as int)
        } else {
            s
        };
        if digits.len() == 0 || !all_digits(digits) {
            None
        } else if negative && number(digits) <= 0x8000_0000_0000_0000 {
            Some((-(number(digits) as int)) as i64)
        } else if !negative && number(digits) <= 0x7fff_ffff_ffff_ffff {
            Some(number(digits) as i64)
        } else {
            None
        }
    }
}

/// The coordinates that a name ends in.
///
/// What follows the last opening parenthesis is trimmed. The first number is
/// what precedes the first comma in it, trimmed. The second is what lies
/// between that comma and the next, trimmed, then up to the first closing
/// parenthesis, trimmed again. A name without a comma there, or with
/// anything but a number in either place, has no coordinates.
pub open spec fn name_coordinates(name: Seq<char>) -> Option<(i64, i64)> {
    let pair = trimmed(text_after_last(name, '('));
    match text_after_first(pair, ',') {
        None => None,
        Some(rest) => {
            let second = trimmed(text_before_first(rest, ','));
            match (
                decimal(trimmed(text_before_first(pair, ','))),
                decimal(trimmed(text_before_first(second, ')'))),
            ) {
                (Some(x), Some(y)) => Some((x, y)),
                _ => None,
            }
        },
    }
}

/// The characters of `s` from `from` up to `to`.
fn slice_of(s: &Vec<char>, from: usize, to: usize) -> (r: Vec<char>)
    requires
        from <= to <= s@.len(),
    ensures
        r@ == s@.subrange(from as int, to as int),
{
    let mut r: Vec<char> = Vec::new();
    let mut i: usize = from;
    while i < to
        invariant
            from <= i <= to <= s@.len(),
            r@ == s@.subrange(from as int, i as int),
        decreases to - i,
    {
        r.push(s[i]);
        i += 1;
        assert(r@ =~= s@.subrange(from as int, i as int));
    }
    r
}

/// The characters of a text.
pub fn characters(text: &str) -> (r: Vec<char>)
    ensures
        r@ == text@,
{
    let n: usize = text.unicode_len();
    let mut r: Vec<char> = Vec::new();
    let mut i: usize = 0;
    while i < n
        invariant
            i <= n,
            n == text@.len(),
            r@ == text@.subrange(0, i as int),
        decreases n - i,
    {
        r.push(text.get_char(i));
        i += 1;
        assert(r@ =~= text@.subrange(0, i as int));
    }
    assert(text@.subrange(0, n as int) =~= text@);
    r
}

/// Index of the first `c` in `s`, or the length of `s`.
fn find_first(s: &Vec<char>, c: char) -> (r: usize)
    ensures
        r == find(s@, c, 0),
        r <= s@.len(),
{
    let mut i: usize = 0;
    while i < s.len() && s[i] != c
        invariant
            i <= s@.len(),
            find(s@, c, 0) == find(s@, c, i as int),
        decreases s@.len() - i,
    {
        i += 1;
    }
    i
}

/// `s` without the white space at its two ends.
pub fn trim(s: &Vec<char>) -> (r: Vec<char>)
    ensures
        r@ == trimmed(s@),
{
    let mut lo: usize = 0;
    while lo < s.len() && is_whitespace(s[lo])
        invariant
            lo <= s@.len(),
            skip_spaces(s@, 0) == skip_spaces(s@, lo as int),
        decreases s@.len() - lo,
    {
        lo += 1;
    }
    let mut hi: usize = s.len();
    while hi > lo && is_whitespace(s[hi - 1])
        invariant
            lo <= hi <= s@.len(),
            drop_spaces(s@, lo as int, s@.len() as int) == drop_spaces(s@, lo as int, hi as int),
        decreases hi - lo,
    {
        hi -= 1;
    }
    slice_of(s, lo, hi)
}

/// What follows the last `c` in `s`; all of `s` where there is none.
pub fn after_last(s: &Vec<char>, c: char) -> (r: Vec<char>)
    ensures
        r@ == text_after_last(s@, c),
{
    let mut i: usize = s.len();
    while i > 0 && s[i - 1] != c
        invariant
            i <= s@.len(),
            behind_last(s@, c, s@.len() as int) == behind_last(s@, c, i as int),
        decreases i,
    {
        i -= 1;
    }
    slice_of(s, i, s.len())
}

/// What precedes the first `c` in `s`; all of `s` where there is none.
pub fn before_first(s: &Vec<char>, c: char) -> (r: Vec<char>)
    ensures
        r@ == text_before_first(s@, c),
{
    let i = find_first(s, c);
    slice_of(s, 0, i)
}

/// What follows the first `c` in `s`, where there is one.
pub fn after_first(s: &Vec<char>, c: char) -> (r: Option<Vec<char>>)
    ensures
        match r {
            Some(t) => text_after_first(s@, c) == Some(t@),
            None => text_after_first(s@, c) is None,
        },
{
    let i = find_first(s, c);
    if i < s.len() {
        Some(slice_of(s, i + 1, s.len()))
    } else {
        None
    }
}

/// One digit more multiplies the number by ten and adds the digit.
proof fn lemma_number_step(s: Seq<char>, from: int, i: int)
    requires
        0 <= from <= i < s.len(),
    ensures
        number(s.subrange(from, i + 1)) == 10 * number(s.subrange(from, i)) + digit_value(s[i]),
{
    let t = s.subrange(from, i + 1);
    assert(t.drop_last() =~= s.subrange(from, i));
    assert(t.last() == s[i]);
}

/// Reads the number that `s` writes.
pub fn parse_decimal(s: &Vec<char>) -> (r: Option<i64>)
    ensures
        r == decimal(s@),
{
    if s.len() == 0 {
        return None;
    }
    let negative: bool = s[0] == '-';
    let start: usize = if s[0] == '-' || s[0] == '+' {
        1
    } else {
        0
    };
    let ghost digits = s@.subrange(start as int, s@.len() as int);
    if start == s.len() {
        return None;
    }
    // The value so far, held at the limit once it has passed it.
    let limit: u128 = 0x8000_0000_0000_0001;
    let mut value: u128 = 0;
    let mut i: usize = start;
    assert(s@.subrange(start as int, start as int) =~= Seq::<char>::empty());
    while i < s.len()
        invariant
            start <= i <= s@.len(),
            start < s@.len(),
            negative == (s@[0] == '-'),
            start == (if s@[0] == '-' || s@[0] == '+' {
                1int
            } else {
                0int
            }),
            digits == s@.subrange(start as int, s@.len() as int),
            limit == 0x8000_0000_0000_0001,
            all_digits(s@.subrange(start as int, i as int)),
            value <= limit,
            value == if number(s@.subrange(start as int, i as int)) < limit {
                number(s@.subrange(start as int, i as int))
            } else {
                limit as nat
            },
        decreases s@.len() - i,
    {
        let u: u32 = s[i] as u32;
        if u < 0x30 || u > 0x39 {
            assert(digits[i - start] == s@[i as int]);
            assert(!is_digit(digits[i - start]));
            return None;
        }
        proof {
            lemma_number_step(s@, start as int, i as int);
            assert forall|j: int| 0 <= j < i + 1 - start implies is_digit(
                #[trigger] s@.subrange(start as int, i + 1)[j],
            ) by {
                if j < i - start {
                    assert(s@.subrange(start as int, i as int)[j] == s@[start + j]);
                }
            }
        }
        let next: u128 = value * 10 + (u - 0x30) as u128;
        value = if next < limit {
            next
        } else {
            limit
        };
        i += 1;
    }
    assert(start == 0 ==> digits =~= s@);
    if negative {
        if value <= 0x8000_0000_0000_0000 {
            if value == 0x8000_0000_0000_0000 {
                Some(i64::MIN)
            } else {
                Some(-(value as i64))
            }
        } else {
            None
        }
    } else {
        if value <= 0x7fff_ffff_ffff_ffff {
            Some(value as i64)
        } else {
            None
        }
    }
}

/// Reads the coordinates out of the characters of a name.
pub fn coordinates_in(name: &Vec<char>) -> (r: Option<(i64, i64)>)
    ensures
        r == name_coordinates(name@),
{
    let pair = trim(&after_last(name, '('));
    let rest = match after_first(&pair, ',') {
        None => return None,
        Some(rest) => rest,
    };
    let second = trim(&before_first(&rest, ','));
    let x = parse_decimal(&trim(&before_first(&pair, ',')));
    let y = parse_decimal(&trim(&before_first(&second, ')')));
    match (x, y) {
        (Some(x), Some(y)) => Some((x, y)),
        _ => None,
    }
}

/// Calls `core::str::from_utf8` on the bytes.
///
/// Claims what its documentation says: the bytes are accepted exactly when
/// they are valid UTF-8, and the text returned is those same bytes.
#[verifier::external_body]
fn from_utf8(bytes: &[u8]) -> (r: Option<&str>)
    ensures
        r is Some <==> vstd::utf8::valid_utf8(bytes@),
        r matches Some(text) ==> text.spec_bytes() == bytes@,
{
    core::str::from_utf8(bytes).ok()
}

/// The text that the bytes encode, where they encode one.
pub open spec fn text_in(bytes: Seq<u8>) -> Option<Seq<char>> {
    if vstd::utf8::valid_utf8(bytes) {
        Some(vstd::utf8::decode_utf8(bytes))
    } else {
        None
    }
}

/// The coordinates that the name in the bytes ends in, where the bytes are
/// text and the text is such a name.
pub open spec fn bytes_coordinates(bytes: Seq<u8>) -> Option<(i64, i64)> {
    match text_in(bytes) {
        Some(name) => name_coordinates(name),
        None => None,
    }
}

/// Reads the coordinates that the name in the bytes ends in.
pub fn get_space_xy_from_bytes(bytes: &[u8]) -> (r: Option<(i64, i64)>)
    ensures
        r == bytes_coordinates(bytes@),
{
    match from_utf8(bytes) {
        None => None,
        Some(text) => {
            proof {
                vstd::utf8::encode_utf8_decode_utf8(text@);
            }
            get_space_xy_from_name(text)
        },
    }
}

/// Reads the coordinates that a name ends in.
pub fn get_space_xy_from_name(name: &str) -> (r: Option<(i64, i64)>)
    ensures
        r == name_coordinates(name@),
{
    let chars = characters(name);
    coordinates_in(&chars)
}

} // verus!
