//! Slugs of titles, and byte sizes written for people.

use vstd::prelude::*;

use crate::text::{decimal, digit, digit_char, push_char, push_decimal, strip_trailing, trim_end_matches};

verus! {

/// The text in lower case, as `str::to_lowercase` writes it.
pub uninterp spec fn lower_of(s: Seq<char>) -> Seq<char>;

/// Relies on `str::to_lowercase`: the result depends on the characters alone,
/// and the empty text stays empty.
#[verifier::external_body]
fn lowercase(s: &str) -> (r: String)
    ensures
        r@ == lower_of(s@),
        s@.len() == 0 ==> r@.len() == 0,
{
    s.to_lowercase()
}

/// The plain letter that a lower-case accented letter is written as in a slug.
pub open spec fn base_letter(c: char) -> Option<char> {
    if c == 'á' || c == 'à' || c == 'ã' || c == 'â' || c == 'ä' {
        Some('a')
    } else if c == 'é' || c == 'è' || c == 'ê' || c == 'ë' {
        Some('e')
    } else if c == 'í' || c == 'ì' || c == 'î' || c == 'ï' {
        Some('i')
    } else if c == 'ó' || c == 'ò' || c == 'õ' || c == 'ô' || c == 'ö' {
        Some('o')
    } else if c == 'ú' || c == 'ù' || c == 'û' || c == 'ü' {
        Some('u')
    } else if c == 'ñ' {
        Some('n')
    } else {
        None
    }
}

/// Whether a character is kept in a slug as it is.
pub open spec fn is_slug_char(c: char) -> bool {
    ('a' <= c && c <= 'z') || ('0' <= c && c <= '9')
}

/// Whether a character separates words.
pub open spec fn is_separator(c: char) -> bool {
    c == ' ' || c == '_' || c == '-'
}

/// The slug built so far, after one more character: letters and digits are
/// kept, a separator becomes one hyphen (never first, never twice in a row),
/// an accented letter becomes its plain letter, and anything else is dropped.
pub open spec fn slug_step(acc: Seq<char>, c: char) -> Seq<char> {
    if is_slug_char(c) {
        acc.push(c)
    } else if is_separator(c) {
        if acc.len() > 0 && acc.last() != '-' {
            acc.push('-')
        } else {
            acc
        }
    } else {
        match base_letter(c) {
            Some(b) => acc.push(b),
            None => acc,
        }
    }
}

/// The slug of a lower-case text before trailing hyphens are removed.
pub open spec fn slug_prefix(s: Seq<char>) -> Seq<char>
    decreases s.len(),
{
    if s.len() == 0 {
        Seq::empty()
    } else {
        slug_step(slug_prefix(s.drop_last()), s.last())
    }
}

/// The slug of a text that is already in lower case.
pub open spec fn slug_of(s: Seq<char>) -> Seq<char> {
    strip_trailing(slug_prefix(s), '-')
}

fn plain_letter(c: char) -> (r: Option<char>)
    ensures
        r == base_letter(c),
{
    match c {
        'á' | 'à' | 'ã' | 'â' | 'ä' => Some('a'),
        'é' | 'è' | 'ê' | 'ë' => Some('e'),
        'í' | 'ì' | 'î' | 'ï' => Some('i'),
        'ó' | 'ò' | 'õ' | 'ô' | 'ö' => Some('o'),
        'ú' | 'ù' | 'û' | 'ü' => Some('u'),
        'ñ' => Some('n'),
        _ => None,
    }
}

/// The slug of a text that is already in lower case.
pub fn slug_from_lowercase(lower: &str) -> (r: String)
    ensures
        r@ == slug_of(lower@),
{
    let n = lower.unicode_len();
    let mut result = String::new();
    let mut ends_with_hyphen = false;
    let mut is_empty = true;
    let mut i: usize = 0;
    while i < n
        invariant
            n == lower@.len(),
            i <= n,
            result@ == slug_prefix(lower@.subrange(0, i as int)),
            ends_with_hyphen == (result@.len() > 0 && result@.last() == '-'),
            is_empty == (result@.len() == 0),
        decreases n - i,
    {
        let c = lower.get_char(i);
        if ('a' <= c && c <= 'z') || ('0' <= c && c <= '9') {
            push_char(&mut result, c);
            ends_with_hyphen = false;
            is_empty = false;
        } else if c == ' ' || c == '_' || c == '-' {
            if !is_empty && !ends_with_hyphen {
                push_char(&mut result, '-');
                ends_with_hyphen = true;
            }
        } else {
            match plain_letter(c) {
                Some(b) => {
                    push_char(&mut result, b);
                    ends_with_hyphen = false;
                    is_empty = false;
                },
                None => {},
            }
        }
        assert(lower@.subrange(0, i + 1).drop_last() =~= lower@.subrange(0, i as int));
        i = i + 1;
    }
    assert(lower@.subrange(0, n as int) =~= lower@);
    String::from_str(trim_end_matches(result.as_str(), '-'))
}

/// Turns a title into a slug for a URL or a file name.
pub trait Slug {
    fn to_slug(&self) -> String;

    /// The slug of `text`: lower case, words joined by single hyphens,
    /// accented letters made plain, other characters dropped.
    fn slugify(text: &str) -> (r: String)
        ensures
            r@ == slug_of(lower_of(text@)),
    {
        let lower = lowercase(text);
        slug_from_lowercase(lower.as_str())
    }
}

impl Slug for &str {
    fn to_slug(&self) -> (r: String)
        ensures
            r@ == slug_of(lower_of(self@)),
    {
        Self::slugify(self)
    }
}

impl Slug for String {
    fn to_slug(&self) -> (r: String)
        ensures
            r@ == slug_of(lower_of(self@)),
    {
        Self::slugify(self.as_str())
    }
}

/// The name of the size unit with index `i`: B, KB, MB, GB, TB, PB.
pub open spec fn unit_name(i: nat) -> Seq<char> {
    if i == 0 {
        "B"@
    } else if i == 1 {
        "KB"@
    } else if i == 2 {
        "MB"@
    } else if i == 3 {
        "GB"@
    } else if i == 4 {
        "TB"@
    } else {
        "PB"@
    }
}

/// A byte count scaled down by 1024 at a time while it is at least 1024 * 1024
/// and fewer than four steps were taken, with the number of steps.
pub open spec fn scaled(value: nat, steps: nat) -> (nat, nat)
    decreases value,
{
    if value >= 1048576 && steps < 4 {
        scaled(value / 1024, steps + 1)
    } else {
        (value, steps)
    }
}

/// `value / 1024` in hundredths, rounded to the nearest, ties to even.
pub open spec fn hundredths(value: nat) -> nat {
    let q = (value * 100) / 1024;
    let rem = (value * 100) % 1024;
    if rem > 512 || (rem == 512 && q % 2 == 1) {
        q + 1
    } else {
        q
    }
}

/// A byte count as people read it: the scaled count divided by 1024, with two
/// decimals, and the unit one above the number of scaling steps.
pub open spec fn human_bytes(bytes: nat) -> Seq<char> {
    let value = scaled(bytes, 0).0;
    let steps = scaled(bytes, 0).1;
    let h = hundredths(value);
    decimal(h / 100) + seq!['.', digit_char((h % 100) / 10), digit_char(h % 10), ' '] + unit_name(
        steps + 1,
    )
}

fn unit(i: usize) -> (r: &'static str)
    ensures
        r@ == unit_name(i as nat),
{
    if i == 0 {
        "B"
    } else if i == 1 {
        "KB"
    } else if i == 2 {
        "MB"
    } else if i == 3 {
        "GB"
    } else if i == 4 {
        "TB"
    } else {
        "PB"
    }
}

/// Writes a byte count with two decimals in KB, MB, GB, TB or PB: the unit
/// that keeps the number under 1024, and never above PB.
pub fn human_fmt_bytes(bytes: u64) -> (r: String)
    ensures
        r@ == human_bytes(bytes as nat),
{
    let mut value = bytes;
    let mut steps: usize = 0;
    while value >= 1024 * 1024 && steps < 4
        invariant
            steps <= 4,
            scaled(value as nat, steps as nat) == scaled(bytes as nat, 0),
            steps == 1 ==> value <= 18014398509481983,
            steps == 2 ==> value <= 17592186044415,
            steps == 3 ==> value <= 17179869183,
            steps == 4 ==> value <= 16777215,
        decreases value,
    {
        value = value / 1024;
        steps = steps + 1;
    }
    let h100 = value * 100;
    let q = h100 / 1024;
    let rem = h100 % 1024;
    let h = if rem > 512 || (rem == 512 && q % 2 == 1) {
        q + 1
    } else {
        q
    };
    assert(h == hundredths(value as nat));
    let mut out = String::new();
    push_decimal(&mut out, h / 100);
    push_char(&mut out, '.');
    push_char(&mut out, digit((h % 100) / 10));
    push_char(&mut out, digit(h % 10));
    push_char(&mut out, ' ');
    out.append(unit(steps + 1));
    assert(out@ =~= human_bytes(bytes as nat));
    out
}

} // verus!
