//! Byte-level scanning helpers shared by the header and body parsers:
//! whitespace runs, quoted-string runs, and decimal digit runs.

use vstd::prelude::*;

verus! {

/// ASCII space, tab, line feed or carriage return.
pub open spec fn is_ws(b: u8) -> bool {
    b == 32 || b == 9 || b == 10 || b == 13
}

/// ASCII decimal digit.
pub open spec fn is_digit(b: u8) -> bool {
    48 <= b <= 57
}

/// A byte allowed inside a quoted string: printable ASCII, with the quote
/// and the backslash excluded (no escape sequences are recognised).
pub open spec fn is_string_byte(b: u8) -> bool {
    32 <= b <= 126 && b != 34 && b != 92
}

/// Index of the first byte at or after `i` that is not whitespace
/// (`s.len()` if the rest of the input is whitespace).
pub open spec fn spec_skip_ws(s: Seq<u8>, i: int) -> int
    decreases s.len() - i
    when 0 <= i <= s.len()
{
    if i < s.len() && is_ws(s[i]) {
        spec_skip_ws(s, i + 1)
    } else {
        i
    }
}

/// Index of the closing quote of a string whose content starts at `i`,
/// or `None` if a forbidden byte or the end of input comes first.
pub open spec fn spec_scan_string(s: Seq<u8>, i: int) -> Option<int>
    decreases s.len() - i
    when 0 <= i <= s.len()
{
    if i < s.len() {
        if s[i] == 34 {
            Some(i)
        } else if is_string_byte(s[i]) {
            spec_scan_string(s, i + 1)
        } else {
            None
        }
    } else {
        None
    }
}

/// Index of the first byte at or after `i` that is not a decimal digit.
pub open spec fn spec_digits_end(s: Seq<u8>, i: int) -> int
    decreases s.len() - i
    when 0 <= i <= s.len()
{
    if i < s.len() && is_digit(s[i]) {
        spec_digits_end(s, i + 1)
    } else {
        i
    }
}

/// Value of the decimal digit run `s[i .. j]`, most significant digit first.
pub open spec fn spec_digits_val(s: Seq<u8>, i: int, j: int) -> nat
    decreases j - i
    when i <= j
{
    if i < j {
        (spec_digits_val(s, i, j - 1) * 10 + (s[j - 1] - 48)) as nat
    } else {
        0
    }
}

pub open spec fn pow10(n: nat) -> nat
    decreases n,
{
    if n == 0 {
        1
    } else {
        10 * pow10((n - 1) as nat)
    }
}

pub proof fn lemma_pow10_pos(n: nat)
    ensures
        pow10(n) >= 1,
    decreases n,
{
    if n > 0 {
        lemma_pow10_pos((n - 1) as nat);
    }
}

pub proof fn lemma_pow10_mono(a: nat, b: nat)
    requires
        a <= b,
    ensures
        pow10(a) <= pow10(b),
    decreases b,
{
    if a < b {
        lemma_pow10_mono(a, (b - 1) as nat);
        lemma_pow10_pos((b - 1) as nat);
    }
}

/// 10^17, spelled out: the largest power of ten below which an 18-digit
/// accumulator is known to stay.
pub proof fn lemma_pow10_17()
    ensures
        pow10(17) == 100_000_000_000_000_000,
{
    reveal_with_fuel(pow10, 18);
}

/// Exec mirror of `is_ws`.
pub fn ws_byte(b: u8) -> (r: bool)
    ensures
        r == is_ws(b),
{
    b == 32 || b == 9 || b == 10 || b == 13
}

/// Exec mirror of `is_digit`.
pub fn digit_byte(b: u8) -> (r: bool)
    ensures
        r == is_digit(b),
{
    48 <= b && b <= 57
}

/// Skip a whitespace run starting at `i`.
pub fn skip_ws(s: &Vec<u8>, i: usize) -> (r: usize)
    requires
        i <= s.len(),
    ensures
        r == spec_skip_ws(s@, i as int),
        i <= r <= s.len(),
{
    let mut j = i;
    while j < s.len() && ws_byte(s[j])
        invariant
            i <= j <= s.len(),
            spec_skip_ws(s@, i as int) == spec_skip_ws(s@, j as int),
        decreases s.len() - j,
    {
        j = j + 1;
    }
    j
}

/// Find the closing quote of a string whose content starts at `i`.
pub fn scan_string(s: &Vec<u8>, i: usize) -> (r: Option<usize>)
    requires
        i <= s.len(),
    ensures
        match r {
            Some(c) => {
                &&& spec_scan_string(s@, i as int) == Some(c as int)
                &&& i <= c < s.len()
                &&& s@[c as int] == 34
                &&& forall|k: int| i <= k < c ==> is_string_byte(s@[k])
            },
            None => spec_scan_string(s@, i as int) is None,
        },
{
    let mut j = i;
    while j < s.len()
        invariant
            i <= j <= s.len(),
            spec_scan_string(s@, i as int) == spec_scan_string(s@, j as int),
            forall|k: int| i <= k < j ==> is_string_byte(s@[k]),
        decreases s.len() - j,
    {
        let b = s[j];
        if b == 34 {
            return Some(j);
        }
        if !(32 <= b && b <= 126) || b == 92 {
            return None;
        }
        j = j + 1;
    }
    None
}

/// Find the end of the digit run starting at `i`.
pub fn digits_end(s: &Vec<u8>, i: usize) -> (r: usize)
    requires
        i <= s.len(),
    ensures
        r == spec_digits_end(s@, i as int),
        i <= r <= s.len(),
        forall|k: int| i <= k < r ==> is_digit(s@[k]),
        r < s.len() ==> !is_digit(s@[r as int]),
{
    let mut j = i;
    while j < s.len() && digit_byte(s[j])
        invariant
            i <= j <= s.len(),
            spec_digits_end(s@, i as int) == spec_digits_end(s@, j as int),
            forall|k: int| i <= k < j ==> is_digit(s@[k]),
        decreases s.len() - j,
    {
        j = j + 1;
    }
    j
}

/// Value of the digit run `s[i .. e]`; at most 18 digits, so the value
/// fits comfortably in a `u64`.
pub fn digits_value(s: &Vec<u8>, i: usize, e: usize) -> (r: u64)
    requires
        i <= e <= s.len(),
        e - i <= 18,
        forall|k: int| i <= k < e ==> is_digit(s@[k]),
    ensures
        r as nat == spec_digits_val(s@, i as int, e as int),
{
    let mut j = i;
    let mut acc: u64 = 0;
    while j < e
        invariant
            i <= j <= e <= s.len(),
            e - i <= 18,
            forall|k: int| i <= k < e ==> is_digit(s@[k]),
            acc as nat == spec_digits_val(s@, i as int, j as int),
            (acc as nat) < pow10((j - i) as nat),
        decreases e - j,
    {
        proof {
            lemma_pow10_mono((j - i) as nat, 17);
            lemma_pow10_17();
        }
        let d = s[j] - 48;
        acc = acc * 10 + (d as u64);
        j = j + 1;
    }
    acc
}

} // verus!
