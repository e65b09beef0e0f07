//! The textual form of a 128-bit value: 32 hex digits grouped 8-4-4-4-12 by
//! hyphens.
use vstd::arithmetic::div_mod::lemma_mod_breakdown;
use vstd::prelude::*;

verus! {

/// The value of one hex digit, either case; `None` for any other character.
pub open spec fn hex_digit_value(c: char) -> Option<nat> {
    if '0' <= c && c <= '9' {
        Some((c as u32 - '0' as u32) as nat)
    } else if 'a' <= c && c <= 'f' {
        Some((c as u32 - 'a' as u32 + 10) as nat)
    } else if 'A' <= c && c <= 'F' {
        Some((c as u32 - 'A' as u32 + 10) as nat)
    } else {
        None
    }
}

/// The lowercase hex digit for `n < 16`.
pub open spec fn lower_hex_digit(n: nat) -> char {
    if n < 10 {
        ('0' as u32 + n) as char
    } else {
        ('a' as u32 + (n - 10)) as char
    }
}

pub open spec fn all_hex(s: Seq<char>) -> bool {
    forall|i: int| 0 <= i < s.len() ==> (#[trigger] hex_digit_value(s[i])) is Some
}

/// The number that a string of hex digits denotes, most significant first.
pub open spec fn hex_value(s: Seq<char>) -> nat
    decreases s.len(),
{
    if s.len() == 0 {
        0
    } else {
        hex_value(s.drop_last()) * 16 + hex_digit_value(s.last()).unwrap_or(0)
    }
}

/// The last `n` lowercase hex digits of `v`, most significant first.
pub open spec fn hex_digits(v: nat, n: nat) -> Seq<char>
    decreases n,
{
    if n == 0 {
        Seq::empty()
    } else {
        hex_digits(v / 16, (n - 1) as nat).push(lower_hex_digit(v % 16))
    }
}

pub open spec fn pow16(n: nat) -> nat
    decreases n,
{
    if n == 0 {
        1
    } else {
        16 * pow16((n - 1) as nat)
    }
}

/// Thirty-six characters with hyphens after the 8th, 12th, 16th and 20th digit.
pub open spec fn hyphen_shape(s: Seq<char>) -> bool {
    s.len() == 36 && s[8] == '-' && s[13] == '-' && s[18] == '-' && s[23] == '-'
}

/// The digits of a hyphenated form, hyphens left out.
pub open spec fn hyphen_digits(s: Seq<char>) -> Seq<char> {
    s.subrange(0, 8) + s.subrange(9, 13) + s.subrange(14, 18) + s.subrange(19, 23) + s.subrange(
        24,
        36,
    )
}

/// The 128-bit value of a hyphenated form with hex digits of either case, or
/// `None` where the text is not of that form.
pub open spec fn hyphenated_value(s: Seq<char>) -> Option<u128> {
    if hyphen_shape(s) && all_hex(hyphen_digits(s)) {
        Some(hex_value(hyphen_digits(s)) as u128)
    } else {
        None
    }
}

/// The canonical form: lowercase digits grouped 8-4-4-4-12 by hyphens.
pub open spec fn hyphenated_text(v: u128) -> Seq<char> {
    let d = hex_digits(v as nat, 32);
    d.subrange(0, 8) + seq!['-'] + d.subrange(8, 12) + seq!['-'] + d.subrange(12, 16) + seq!['-']
        + d.subrange(16, 20) + seq!['-'] + d.subrange(20, 32)
}

proof fn lemma_digit_round_trip(n: nat)
    requires
        n < 16,
    ensures
        hex_digit_value(lower_hex_digit(n)) == Some(n),
        lower_hex_digit(n) != '-',
{
}

proof fn lemma_hex_digits(v: nat, n: nat)
    ensures
        hex_digits(v, n).len() == n,
        all_hex(hex_digits(v, n)),
        hex_value(hex_digits(v, n)) == v % pow16(n),
        forall|i: int| 0 <= i < n ==> hex_digits(v, n)[i] != '-',
    decreases n,
{
    if n > 0 {
        let m = (n - 1) as nat;
        let d = hex_digits(v, n);
        lemma_hex_digits(v / 16, m);
        lemma_digit_round_trip(v % 16);
        assert(d.drop_last() =~= hex_digits(v / 16, m));
        assert(pow16(m) > 0) by {
            lemma_pow16_positive(m);
        }
        lemma_mod_breakdown(v as int, 16, pow16(m) as int);
        assert(hex_value(d) == (v / 16) % pow16(m) * 16 + v % 16);
        assert(v % pow16(n) == 16 * ((v / 16) % pow16(m)) + v % 16);
        assert forall|i: int| 0 <= i < d.len() implies (#[trigger] hex_digit_value(d[i])) is Some by {
            if i < m {
                assert(d[i] == hex_digits(v / 16, m)[i]);
            }
        }
    }
}

proof fn lemma_pow16_positive(n: nat)
    ensures
        pow16(n) > 0,
    decreases n,
{
    if n > 0 {
        lemma_pow16_positive((n - 1) as nat);
    }
}

/// Reading the canonical form of a value gives that value back.
pub proof fn lemma_hyphenated_text_value(v: u128)
    ensures
        hyphenated_value(hyphenated_text(v)) == Some(v),
        hyphenated_text(v).len() == 36,
{
    let d = hex_digits(v as nat, 32);
    let s = hyphenated_text(v);
    lemma_hex_digits(v as nat, 32);
    reveal_with_fuel(pow16, 33);
    assert(pow16(32) == 0x1_0000_0000_0000_0000_0000_0000_0000_0000);
    assert(s.len() == 36);
    assert(hyphen_shape(s));
    assert(hyphen_digits(s) =~= d);
}

} // verus!
