//! Text building blocks shared by the renderers of this crate.

use vstd::prelude::*;

verus! {

/// The decimal digit `d` (`0 <= d < 10`) as a character.
pub open spec fn digit_char(d: nat) -> char {
    if d == 0 {
        '0'
    } else if d == 1 {
        '1'
    } else if d == 2 {
        '2'
    } else if d == 3 {
        '3'
    } else if d == 4 {
        '4'
    } else if d == 5 {
        '5'
    } else if d == 6 {
        '6'
    } else if d == 7 {
        '7'
    } else if d == 8 {
        '8'
    } else {
        '9'
    }
}

/// The decimal notation of `n`, without sign or leading zeros.
pub open spec fn decimal(n: nat) -> Seq<char>
    decreases n,
{
    if n < 10 {
        seq![digit_char(n)]
    } else {
        decimal(n / 10).push(digit_char(n % 10))
    }
}

/// Relies on `String::push`: the character is appended at the end.
#[verifier::external_body]
pub(crate) fn push_char(s: &mut String, c: char)
    ensures
        final(s)@ == old(s)@.push(c),
{
    s.push(c);
}

pub(crate) fn digit(d: u64) -> (c: char)
    requires
        d < 10,
    ensures
        c == digit_char(d as nat),
{
    match d {
        0 => '0',
        1 => '1',
        2 => '2',
        3 => '3',
        4 => '4',
        5 => '5',
        6 => '6',
        7 => '7',
        8 => '8',
        _ => '9',
    }
}

/// Appends the decimal notation of `n` to `out`.
pub fn push_decimal(out: &mut String, n: u64)
    ensures
        final(out)@ == old(out)@ + decimal(n as nat),
    decreases n,
{
    if n >= 10 {
        push_decimal(out, n / 10);
    }
    push_char(out, digit(n % 10));
    assert(final(out)@ =~= old(out)@ + decimal(n as nat));
}

/// Whether a character has the Unicode `White_Space` property, which
/// `str::trim` removes.
pub open spec fn is_white_space(c: char) -> bool {
    ('\u{9}' <= c && c <= '\u{D}') || c == ' ' || c == '\u{85}' || c == '\u{A0}' || c
        == '\u{1680}' || ('\u{2000}' <= c && c <= '\u{200A}') || c == '\u{2028}' || c
        == '\u{2029}' || c == '\u{202F}' || c == '\u{205F}' || c == '\u{3000}'
}

/// The text without its leading white space.
pub open spec fn trim_leading_white(s: Seq<char>) -> Seq<char>
    decreases s.len(),
{
    if s.len() > 0 && is_white_space(s[0]) {
        trim_leading_white(s.drop_first())
    } else {
        s
    }
}

/// The text without its trailing white space.
pub open spec fn trim_trailing_white(s: Seq<char>) -> Seq<char>
    decreases s.len(),
{
    if s.len() > 0 && is_white_space(s.last()) {
        trim_trailing_white(s.drop_last())
    } else {
        s
    }
}

/// The text with leading and trailing white space removed.
pub open spec fn trimmed(s: Seq<char>) -> Seq<char> {
    trim_trailing_white(trim_leading_white(s))
}

/// Whether a character has the Unicode `White_Space` property.
pub fn is_white_space_char(c: char) -> (r: bool)
    ensures
        r == is_white_space(c),
{
    ('\u{9}' <= c && c <= '\u{D}') || c == ' ' || c == '\u{85}' || c == '\u{A0}' || c
        == '\u{1680}' || ('\u{2000}' <= c && c <= '\u{200A}') || c == '\u{2028}' || c
        == '\u{2029}' || c == '\u{202F}' || c == '\u{205F}' || c == '\u{3000}'
}

/// Removes leading and trailing white space, as `str::trim` does.
pub fn trim(s: &str) -> (r: &str)
    ensures
        r@ == trimmed(s@),
{
    let n = s.unicode_len();
    let mut start: usize = 0;
    assert(s@.subrange(0, n as int) =~= s@);
    while start < n && is_white_space_char(s.get_char(start))
        invariant
            n == s@.len(),
            start <= n,
            trim_leading_white(s@.subrange(start as int, n as int)) == trim_leading_white(s@),
        decreases n - start,
    {
        assert(s@.subrange(start as int, n as int).drop_first() =~= s@.subrange(start + 1, n as int));
        start = start + 1;
    }
    let mut end: usize = n;
    while end > start && is_white_space_char(s.get_char(end - 1))
        invariant
            n == s@.len(),
            start <= end <= n,
            trim_trailing_white(s@.subrange(start as int, end as int)) == trim_trailing_white(
                s@.subrange(start as int, n as int),
            ),
        decreases end,
    {
        assert(s@.subrange(start as int, end as int).drop_last() =~= s@.subrange(
            start as int,
            end - 1,
        ));
        end = end - 1;
    }
    s.substring_char(start, end)
}

/// `s` with every trailing `c` removed.
pub open spec fn strip_trailing(s: Seq<char>, c: char) -> Seq<char>
    decreases s.len(),
{
    if s.len() > 0 && s.last() == c {
        strip_trailing(s.drop_last(), c)
    } else {
        s
    }
}

/// `s` with every leading `c` removed.
pub open spec fn strip_leading(s: Seq<char>, c: char) -> Seq<char>
    decreases s.len(),
{
    if s.len() > 0 && s[0] == c {
        strip_leading(s.drop_first(), c)
    } else {
        s
    }
}

/// Removes every trailing `c`.
pub fn trim_end_matches(s: &str, c: char) -> (r: &str)
    ensures
        r@ == strip_trailing(s@, c),
{
    let n = s.unicode_len();
    let mut end = n;
    assert(s@.subrange(0, n as int) =~= s@);
    while end > 0 && s.get_char(end - 1) == c
        invariant
            n == s@.len(),
            end <= n,
            strip_trailing(s@.subrange(0, end as int), c) == strip_trailing(s@, c),
        decreases end,
    {
        assert(s@.subrange(0, end as int).drop_last() =~= s@.subrange(0, end - 1));
        end = end - 1;
    }
    s.substring_char(0, end)
}

/// Removes every leading `c`.
pub fn trim_start_matches(s: &str, c: char) -> (r: &str)
    ensures
        r@ == strip_leading(s@, c),
{
    let n = s.unicode_len();
    let mut start: usize = 0;
    assert(s@.subrange(0, n as int) =~= s@);
    while start < n && s.get_char(start) == c
        invariant
            n == s@.len(),
            start <= n,
            strip_leading(s@.subrange(start as int, n as int), c) == strip_leading(s@, c),
        decreases n - start,
    {
        assert(s@.subrange(start as int, n as int).drop_first() =~= s@.subrange(start + 1, n as int));
        start = start + 1;
    }
    s.substring_char(start, n)
}

/// Whether a code point is an ASCII decimal digit.
pub open spec fn is_digit_code(c: u32) -> bool {
    48 <= c <= 57
}

/// Whether every code point is an ASCII decimal digit.
pub open spec fn all_digit_codes(s: Seq<u32>) -> bool {
    forall|i: int| 0 <= i < s.len() ==> #[trigger] is_digit_code(s[i])
}

/// The number that a run of ASCII decimal digits writes.
pub open spec fn codes_value(s: Seq<u32>) -> nat
    decreases s.len(),
{
    if s.len() == 0 {
        0
    } else {
        codes_value(s.drop_last()) * 10 + (s.last() - 48) as nat
    }
}

/// The code points after an optional leading `+`.
pub open spec fn unsigned_codes(s: Seq<u32>) -> Seq<u32> {
    if s.len() > 0 && s[0] == 43 {
        s.drop_first()
    } else {
        s
    }
}

/// The `usize` that a text of code points writes, as `str::parse` reads it:
/// an optional `+`, then one or more ASCII digits whose value fits.
pub open spec fn usize_of_codes(s: Seq<u32>) -> Option<usize> {
    let d = unsigned_codes(s);
    if d.len() > 0 && all_digit_codes(d) && codes_value(d) <= usize::MAX {
        Some(codes_value(d) as usize)
    } else {
        None
    }
}

/// The code points of a text.
pub open spec fn char_codes(s: Seq<char>) -> Seq<u32> {
    s.map_values(|c: char| c as u32)
}

/// The `usize` that a text writes, as `str::parse` reads it.
pub open spec fn usize_of(s: Seq<char>) -> Option<usize> {
    usize_of_codes(char_codes(s))
}

proof fn lemma_prefix_value_le(s: Seq<u32>, i: int)
    requires
        all_digit_codes(s),
        0 <= i <= s.len(),
    ensures
        codes_value(s.subrange(0, i)) <= codes_value(s),
    decreases s.len(),
{
    if i < s.len() {
        let t = s.drop_last();
        assert forall|k: int| 0 <= k < t.len() implies #[trigger] is_digit_code(t[k]) by {
            assert(is_digit_code(s[k]));
        }
        lemma_prefix_value_le(t, i);
        assert(t.subrange(0, i) =~= s.subrange(0, i));
    } else {
        assert(s.subrange(0, i) =~= s);
    }
}

/// Where the digits read so far overflow, the text writes no `usize`: either
/// a later code point is no digit, or the full value is larger still.
proof fn lemma_overflowing_prefix(d: Seq<u32>, j: int)
    requires
        0 <= j < d.len(),
        is_digit_code(d[j]),
        codes_value(d.subrange(0, j + 1)) > usize::MAX,
    ensures
        !(all_digit_codes(d) && codes_value(d) <= usize::MAX),
{
    if all_digit_codes(d) {
        lemma_prefix_value_le(d, j + 1);
    }
}

/// Reads a `usize` written in decimal, with an optional leading `+`, from
/// code points.
pub fn parse_codes(codes: &Vec<u32>) -> (r: Option<usize>)
    ensures
        r == usize_of_codes(codes@),
{
    let n = codes.len();
    let start: usize = if n > 0 && codes[0] == 43 {
        1
    } else {
        0
    };
    let ghost d = unsigned_codes(codes@);
    assert(d =~= codes@.subrange(start as int, n as int));
    if start == n {
        return None;
    }
    let mut value: usize = 0;
    let mut i: usize = start;
    assert(d.subrange(0, 0) =~= Seq::<u32>::empty());
    while i < n
        invariant
            n == codes@.len(),
            start <= i <= n,
            d == codes@.subrange(start as int, n as int),
            d == unsigned_codes(codes@),
            forall|k: int| 0 <= k < i - start ==> #[trigger] is_digit_code(d[k]),
            value == codes_value(d.subrange(0, i - start)),
        decreases n - i,
    {
        let c = codes[i];
        assert(d[i - start] == c);
        if c < 48 || c > 57 {
            assert(!is_digit_code(d[i - start]));
            return None;
        }
        let ghost next = d.subrange(0, i - start + 1);
        assert(next.drop_last() =~= d.subrange(0, i - start));
        let digit = (c - 48) as usize;
        assert(codes_value(next) == value * 10 + digit);
        let tens = match value.checked_mul(10) {
            Some(t) => t,
            None => {
                proof {
                    lemma_overflowing_prefix(d, i - start);
                }
                return None;
            },
        };
        value = match tens.checked_add(digit) {
            Some(v) => v,
            None => {
                proof {
                    lemma_overflowing_prefix(d, i - start);
                }
                return None;
            },
        };
        i = i + 1;
    }
    assert(d.subrange(0, n - start) =~= d);
    Some(value)
}

/// Reads a `usize` written in decimal, with an optional leading `+`.
pub fn parse_usize(s: &str) -> (r: Option<usize>)
    ensures
        r == usize_of(s@),
{
    let n = s.unicode_len();
    let mut codes: Vec<u32> = Vec::new();
    let mut i: usize = 0;
    while i < n
        invariant
            n == s@.len(),
            i <= n,
            codes@ == char_codes(s@.subrange(0, i as int)),
        decreases n - i,
    {
        codes.push(s.get_char(i) as u32);
        assert(char_codes(s@.subrange(0, i + 1)) =~= char_codes(s@.subrange(0, i as int)).push(
            s@[i as int] as u32,
        ));
        i = i + 1;
    }
    assert(s@.subrange(0, n as int) =~= s@);
    parse_codes(&codes)
}

} // verus!
