//! The text form of an identity: thirty-two lowercase hexadecimal digits,
//! most significant first. Tokens carry identities in this form.

use crate::model::Uuid;
use vstd::arithmetic::div_mod::{lemma_div_denominator, lemma_fundamental_div_mod};
use vstd::prelude::*;
use vstd::string::*;

verus! {

/// The number of digits in the text form of an identity.
pub const WIDTH: usize = 32;

/// Sixteen to the power `n`.
pub open spec fn weight(n: nat) -> nat
    decreases n,
{
    if n == 0 {
        1
    } else {
        16 * weight((n - 1) as nat)
    }
}

/// The value of a hexadecimal digit, if `c` is one. Upper case is not.
pub open spec fn digit_value(c: char) -> Option<u8> {
    let n = c as u32;
    if 48 <= n <= 57 {
        Some((n - 48) as u8)
    } else if 97 <= n <= 102 {
        Some((n - 87) as u8)
    } else {
        None
    }
}

/// The digit that stands for `n`, for `n` below sixteen.
pub open spec fn digit_char(n: nat) -> char {
    if n < 10 {
        (n + 48) as u8 as char
    } else {
        (n + 87) as u8 as char
    }
}

/// True if every character of `s` is a hexadecimal digit.
pub open spec fn all_digits(s: Seq<char>) -> bool {
    forall|i: int| 0 <= i < s.len() ==> (#[trigger] digit_value(s[i])) is Some
}

/// The number that the digits of `s` denote, most significant first. A
/// character that is no digit counts as zero.
pub open spec fn digits_value(s: Seq<char>) -> nat
    decreases s.len(),
{
    if s.len() == 0 {
        0
    } else {
        let low: nat = match digit_value(s.last()) {
            Some(d) => d as nat,
            None => 0,
        };
        16 * digits_value(s.drop_last()) + low
    }
}

/// The identity that `s` denotes, if `s` is the text form of one.
pub open spec fn id_of_text(s: Seq<char>) -> Option<Uuid> {
    if s.len() == WIDTH && all_digits(s) {
        Some(digits_value(s) as Uuid)
    } else {
        None
    }
}

/// The digit of `v` at place `place`, counted from the least significant.
pub open spec fn nibble(v: nat, place: nat) -> nat {
    (v / weight(place)) % 16
}

/// The text form of `id`.
pub open spec fn text_of_id(id: Uuid) -> Seq<char> {
    Seq::new(WIDTH as nat, |k: int| digit_char(nibble(id as nat, (WIDTH - 1 - k) as nat)))
}

proof fn lemma_weight_positive(n: nat)
    ensures
        weight(n) > 0,
    decreases n,
{
    if n > 0 {
        lemma_weight_positive((n - 1) as nat);
    }
}

proof fn lemma_weight_full()
    ensures
        weight(WIDTH as nat) == 0x1_0000_0000_0000_0000_0000_0000_0000_0000,
{
    reveal_with_fuel(weight, 33);
}

proof fn lemma_digits_bounded(s: Seq<char>)
    ensures
        digits_value(s) < weight(s.len()),
    decreases s.len(),
{
    if s.len() > 0 {
        lemma_digits_bounded(s.drop_last());
    }
}

/// Dividing by sixteen moves every digit down one place.
proof fn lemma_shift(v: nat, place: nat)
    ensures
        (v / weight(place)) / 16 == v / weight(place + 1),
{
    lemma_weight_positive(place);
    lemma_div_denominator(v as int, weight(place) as int, 16);
    assert(weight(place + 1) == 16 * weight(place));
    assert(weight(place) * 16 == 16 * weight(place)) by (nonlinear_arith);
}

proof fn lemma_digit_char(n: nat)
    requires
        n < 16,
    ensures
        digit_value(digit_char(n)) == Some(n as u8),
{
}

/// The first `m` digits of the text form of `id` denote `id` without its
/// last `WIDTH - m` digits.
proof fn lemma_prefix_value(id: Uuid, m: nat)
    requires
        m <= WIDTH,
    ensures
        digits_value(text_of_id(id).take(m as int)) == (id as nat) / weight((WIDTH - m) as nat),
    decreases m,
{
    let text = text_of_id(id);
    if m == 0 {
        lemma_weight_full();
    } else {
        let shorter = text.take(m as int - 1);
        let prefix = text.take(m as int);
        assert(prefix.drop_last() =~= shorter);
        lemma_prefix_value(id, (m - 1) as nat);
        let place = (WIDTH - m) as nat;
        let digit = nibble(id as nat, place);
        assert(prefix.last() == digit_char(digit));
        lemma_digit_char(digit);
        lemma_shift(id as nat, place);
        lemma_weight_positive(place);
        let upper = (id as nat) / weight(place);
        lemma_fundamental_div_mod(upper as int, 16);
        assert((WIDTH - (m - 1)) as nat == place + 1);
    }
}

/// Reading the text form of an identity gives the identity back.
pub proof fn lemma_text_round_trip(id: Uuid)
    ensures
        id_of_text(text_of_id(id)) == Some(id),
{
    let text = text_of_id(id);
    assert forall|i: int| 0 <= i < text.len() implies (#[trigger] digit_value(text[i])) is Some by {
        lemma_digit_char(nibble(id as nat, (WIDTH - 1 - i) as nat));
    }
    lemma_prefix_value(id, WIDTH as nat);
    assert(text.take(WIDTH as int) =~= text);
    assert(weight(0) == 1);
    assert((id as nat) / 1 == id as nat);
    assert(digits_value(text.take(WIDTH as int)) == (id as nat) / weight(0));
    assert(digits_value(text) == id as nat);
    assert(all_digits(text));
}

/// The value of the digit `c`, or `None` if `c` is no lowercase hexadecimal
/// digit.
pub fn digit_of(c: char) -> (r: Option<u8>)
    ensures
        r == digit_value(c),
{
    let n: u32 = c as u32;
    if 48 <= n && n <= 57 {
        Some((n - 48) as u8)
    } else if 97 <= n && n <= 102 {
        Some((n - 87) as u8)
    } else {
        None
    }
}

/// Reads the text form of an identity. Anything but thirty-two lowercase
/// hexadecimal digits is refused.
pub fn parse_id(text: &str) -> (r: Option<Uuid>)
    ensures
        r == id_of_text(text@),
{
    if text.unicode_len() != WIDTH {
        return None;
    }
    let mut value: u128 = 0;
    let mut i: usize = 0;
    while i < WIDTH
        invariant
            i <= WIDTH,
            text@.len() == WIDTH,
            all_digits(text@.take(i as int)),
            value == digits_value(text@.take(i as int)),
        decreases WIDTH - i,
    {
        let c = text.get_char(i);
        let ghost longer = text@.take(i as int + 1);
        proof {
            assert(longer.drop_last() =~= text@.take(i as int));
            assert(longer.last() == c);
            lemma_digits_bounded(text@.take(i as int));
            lemma_digits_bounded(longer);
            lemma_weight_full();
            assert(weight(i as nat + 1) <= weight(WIDTH as nat)) by {
                lemma_weight_monotone(i as nat + 1, WIDTH as nat);
            }
        }
        match digit_of(c) {
            None => {
                assert(!all_digits(text@)) by {
                    assert(digit_value(text@[i as int]) is None);
                }
                return None;
            },
            Some(d) => {
                assert forall|k: int| 0 <= k < longer.len() implies (#[trigger] digit_value(
                    longer[k],
                )) is Some by {
                    if k < i {
                        assert(longer[k] == text@.take(i as int)[k]);
                    }
                }
                value = value * 16 + d as u128;
            },
        }
        i += 1;
    }
    assert(text@.take(WIDTH as int) =~= text@);
    Some(value)
}

/// The one-character text of the digit that stands for `n`.
fn digit_text(n: u8) -> (r: &'static str)
    requires
        n < 16,
    ensures
        r@ == seq![digit_char(n as nat)],
{
    proof {
        reveal_strlit("0");
        reveal_strlit("1");
        reveal_strlit("2");
        reveal_strlit("3");
        reveal_strlit("4");
        reveal_strlit("5");
        reveal_strlit("6");
        reveal_strlit("7");
        reveal_strlit("8");
        reveal_strlit("9");
        reveal_strlit("a");
        reveal_strlit("b");
        reveal_strlit("c");
        reveal_strlit("d");
        reveal_strlit("e");
        reveal_strlit("f");
    }
    let r = match n {
        0 => "0",
        1 => "1",
        2 => "2",
        3 => "3",
        4 => "4",
        5 => "5",
        6 => "6",
        7 => "7",
        8 => "8",
        9 => "9",
        10 => "a",
        11 => "b",
        12 => "c",
        13 => "d",
        14 => "e",
        _ => "f",
    };
    assert(r@ =~= seq![digit_char(n as nat)]);
    r
}

/// Writes the text form of an identity.
pub fn id_text(id: Uuid) -> (r: String)
    ensures
        r@ == text_of_id(id),
{
    let mut digits: Vec<u8> = Vec::new();
    let mut rest: u128 = id;
    let mut place: usize = 0;
    assert(weight(0) == 1);
    while place < WIDTH
        invariant
            place <= WIDTH,
            digits.len() == place,
            rest == (id as nat) / weight(place as nat),
            forall|j: int| 0 <= j < place ==> digits[j] == nibble(id as nat, j as nat),
        decreases WIDTH - place,
    {
        proof {
            lemma_shift(id as nat, place as nat);
        }
        digits.push((rest % 16) as u8);
        rest = rest / 16;
        place += 1;
    }
    let mut out = String::new();
    let mut k: usize = 0;
    assert(out@ =~= text_of_id(id).take(0));
    while k < WIDTH
        invariant
            k <= WIDTH,
            digits.len() == WIDTH,
            forall|j: int| 0 <= j < WIDTH ==> digits[j] == nibble(id as nat, j as nat),
            out@ == text_of_id(id).take(k as int),
        decreases WIDTH - k,
    {
        let digit = digits[WIDTH - 1 - k];
        out.append(digit_text(digit));
        assert(out@ =~= text_of_id(id).take(k as int + 1));
        k += 1;
    }
    assert(text_of_id(id).take(WIDTH as int) =~= text_of_id(id));
    out
}

/// The text `text` of an identity with hyphens after its eighth, twelfth,
/// sixteenth and twentieth digit.
pub open spec fn hyphenated(text: Seq<char>) -> Seq<char> {
    text.subrange(0, 8) + seq!['-'] + text.subrange(8, 12) + seq!['-'] + text.subrange(12, 16)
        + seq!['-'] + text.subrange(16, 20) + seq!['-'] + text.subrange(20, 32)
}

proof fn lemma_text_is_ascii(id: Uuid)
    ensures
        vstd::utf8::is_ascii_chars(text_of_id(id)),
        text_of_id(id).len() == WIDTH,
{
    let text = text_of_id(id);
    assert forall|i: int| 0 <= i < text.len() implies '\0' <= #[trigger] text[i] <= '\u{7f}' by {
        let n = nibble(id as nat, (WIDTH - 1 - i) as nat);
        assert(text[i] == digit_char(n));
    }
}

/// Writes an identity in groups of eight, four, four, four and twelve
/// digits with hyphens between them.
pub fn uuid_text(id: Uuid) -> (r: String)
    ensures
        r@ == hyphenated(text_of_id(id)),
{
    let plain = id_text(id);
    proof {
        lemma_text_is_ascii(id);
    }
    let digits = plain.as_str();
    let out = String::from_str(digits.substring_ascii(0, 8));
    let out = out.concat("-").concat(digits.substring_ascii(8, 12));
    let out = out.concat("-").concat(digits.substring_ascii(12, 16));
    let out = out.concat("-").concat(digits.substring_ascii(16, 20));
    let out = out.concat("-").concat(digits.substring_ascii(20, 32));
    proof {
        reveal_strlit("-");
        assert("-"@ =~= seq!['-']);
    }
    out
}

proof fn lemma_weight_monotone(a: nat, b: nat)
    requires
        a <= b,
    ensures
        weight(a) <= weight(b),
    decreases b,
{
    if a < b {
        lemma_weight_monotone(a, (b - 1) as nat);
    }
}

} // verus!
