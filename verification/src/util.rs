//! Car numbers as sortable 16-bit codes.
//!
//! A car number is text: `"7"`, `"07"` and `"007"` are three different cars.
//! The simulator takes one integer per car, so the count of leading zeros is
//! folded into the thousands place of the number's value.

use vstd::arithmetic::div_mod::lemma_fundamental_div_mod;
use vstd::arithmetic::div_mod::lemma_mod_multiples_vanish;
use vstd::arithmetic::div_mod::lemma_small_mod;
use vstd::prelude::*;
use vstd::slice::*;
use vstd::string::StringSliceAdditionalSpecFns;

verus! {

/// The byte is an ASCII decimal digit.
pub open spec fn is_digit(b: u8) -> bool {
    0x30 <= b <= 0x39
}

/// The value of one digit; a byte that is no digit counts as zero.
pub open spec fn digit_value(b: u8) -> nat {
    if is_digit(b) {
        (b - 0x30) as nat
    } else {
        0
    }
}

/// Every byte of the text is a decimal digit.
pub open spec fn all_digits(text: Seq<u8>) -> bool {
    forall|i: int| 0 <= i < text.len() ==> is_digit(#[trigger] text[i])
}

/// The text read as a decimal number, most significant digit first.
pub open spec fn decimal_value(text: Seq<u8>) -> nat
    decreases text.len(),
{
    if text.len() == 0 {
        0
    } else {
        decimal_value(text.drop_last()) * 10 + digit_value(text.last())
    }
}

/// The digits of a number text: the text without one leading plus sign.
pub open spec fn unsigned_digits(text: Seq<u8>) -> Seq<u8> {
    if text.len() > 0 && text[0] == 0x2b {
        text.skip(1)
    } else {
        text
    }
}

/// The 16-bit unsigned number that the text denotes, if it denotes one: an
/// optional plus sign, then at least one decimal digit and nothing else,
/// with a value of at most 65535.
pub open spec fn parse_u16_spec(text: Seq<u8>) -> Option<u16> {
    let digits = unsigned_digits(text);
    if digits.len() > 0 && all_digits(digits) && decimal_value(digits) <= u16::MAX {
        Some(decimal_value(digits) as u16)
    } else {
        None
    }
}

/// The number of `'0'` bytes at the start of the text.
pub open spec fn leading_zeros(text: Seq<u8>) -> nat
    decreases text.len(),
{
    if text.len() > 0 && text[0] == 0x30 {
        1 + leading_zeros(text.skip(1))
    } else {
        0
    }
}

/// The leading zeros that count as padding. In a text of zeros only, one of
/// them is the number itself.
pub open spec fn padding_zeros(text: Seq<u8>) -> nat {
    let zeros = leading_zeros(text);
    if zeros > 0 && zeros == text.len() {
        (zeros - 1) as nat
    } else {
        zeros
    }
}

/// The numeric value of a car number text: what it parses to, and zero for
/// a text that denotes no 16-bit number.
pub open spec fn car_number_value(text: Seq<u8>) -> nat {
    match parse_u16_spec(text) {
        Some(n) => n as nat,
        None => 0,
    }
}

/// The band of a value: how many decimal digits it takes, at most three.
pub open spec fn digit_band(num: nat) -> nat {
    if num > 99 {
        3
    } else if num > 9 {
        2
    } else {
        1
    }
}

/// The code of a value written with `zeros` padding zeros, before it is cut
/// to 16 bits. Without padding the code is the value itself; with padding,
/// band and zero count move it into a thousands block of its own.
pub open spec fn car_number_code(num: nat, zeros: nat) -> nat {
    if zeros > 0 {
        num + 1000 * (digit_band(num) + zeros)
    } else {
        num
    }
}

/// The code of a car number text as it goes on the wire: the low 16 bits of
/// [`car_number_code`] of the text's value and padding zeros.
pub open spec fn pad_car_number_spec(text: Seq<u8>) -> u16 {
    (car_number_code(car_number_value(text), padding_zeros(text)) % 0x10000) as u16
}

/// A text whose first `n` bytes are `'0'`, and which ends there or goes on
/// with another byte, has exactly `n` leading zeros.
proof fn lemma_leading_zeros_count(text: Seq<u8>, n: int)
    requires
        0 <= n <= text.len(),
        forall|j: int| 0 <= j < n ==> text[j] == 0x30,
        n == text.len() || text[n] != 0x30,
    ensures
        leading_zeros(text) == n,
    decreases n,
{
    if n > 0 {
        let rest = text.skip(1);
        assert forall|j: int| 0 <= j < n - 1 implies rest[j] == 0x30 by {
            assert(rest[j] == text[j + 1]);
        }
        if n < text.len() {
            assert(rest[n - 1] == text[n]);
        }
        lemma_leading_zeros_count(rest, n - 1);
    }
}

/// The value of a text is at least the value of each of its prefixes.
proof fn lemma_decimal_value_prefix(text: Seq<u8>, k: int)
    requires
        0 <= k <= text.len(),
    ensures
        decimal_value(text.take(k)) <= decimal_value(text),
    decreases text.len() - k,
{
    if k == text.len() {
        assert(text.take(k) =~= text);
    } else {
        lemma_decimal_value_prefix(text.drop_last(), k);
        assert(text.drop_last().take(k) =~= text.take(k));
    }
}

/// Reads a decimal number of at most 16 bits from `bytes[start..]`.
fn parse_digits(bytes: &[u8], start: usize) -> (r: Option<u16>)
    requires
        start <= bytes@.len(),
    ensures
        r == (if bytes@.len() > start && all_digits(bytes@.skip(start as int)) && decimal_value(
            bytes@.skip(start as int),
        ) <= u16::MAX {
            Some(decimal_value(bytes@.skip(start as int)) as u16)
        } else {
            None
        }),
{
    let ghost digits = bytes@.skip(start as int);
    let len: usize = bytes.len();
    if start == len {
        return None;
    }
    let mut value: u32 = 0;
    let mut i: usize = start;
    while i < len
        invariant
            start <= i <= len,
            len == bytes@.len(),
            digits == bytes@.skip(start as int),
            value <= u16::MAX,
            value == decimal_value(digits.take(i - start)),
            forall|j: int| 0 <= j < i - start ==> is_digit(#[trigger] digits[j]),
        decreases len - i,
    {
        let b: u8 = bytes[i];
        assert(b == digits[i - start]);
        if b < 0x30 || b > 0x39 {
            return None;
        }
        proof {
            assert(digits.take(i - start + 1).drop_last() =~= digits.take(i - start));
            assert(digits.take(i - start + 1).last() == b);
        }
        let next: u32 = value * 10 + (b - 0x30) as u32;
        if next > 0xffff {
            proof {
                lemma_decimal_value_prefix(digits, i - start + 1);
            }
            return None;
        }
        value = next;
        i = i + 1;
    }
    proof {
        assert(digits.take(i - start) =~= digits);
    }
    Some(value as u16)
}

/// Parses a 16-bit unsigned decimal number: an optional plus sign, then
/// digits only. Anything else, and a value above 65535, gives `None`.
pub fn parse_u16(bytes: &[u8]) -> (r: Option<u16>)
    ensures
        r == parse_u16_spec(bytes@),
{
    if bytes.len() > 0 && bytes[0] == 0x2b {
        parse_digits(bytes, 1)
    } else {
        proof {
            assert(bytes@.skip(0) =~= bytes@);
        }
        parse_digits(bytes, 0)
    }
}

/// Counts the `'0'` bytes at the start of the text.
fn count_leading_zeros(bytes: &[u8]) -> (zeros: usize)
    ensures
        zeros == leading_zeros(bytes@),
        zeros <= bytes@.len(),
{
    let len: usize = bytes.len();
    let mut zeros: usize = 0;
    while zeros < len && bytes[zeros] == 0x30
        invariant
            zeros <= len,
            len == bytes@.len(),
            forall|j: int| 0 <= j < zeros ==> bytes@[j] == 0x30,
        decreases len - zeros,
    {
        zeros = zeros + 1;
    }
    proof {
        lemma_leading_zeros_count(bytes@, zeros as int);
    }
    zeros
}

/// Encodes a car number text as a sortable 16-bit code that keeps leading
/// zeros apart: `"1"` is 1, `"01"` is 2001, `"001"` is 3001.
///
/// The text's value is what it parses to as a 16-bit decimal number, and 0
/// where it does not parse. A text without padding zeros has its value as
/// code. Otherwise the code is the value plus 1000 times the sum of the
/// value's band and the count of padding zeros, cut to its low 16 bits.
pub fn pad_car_number(s: &str) -> (r: u16)
    ensures
        r == pad_car_number_spec(s.spec_bytes()),
{
    let bytes = s.as_bytes();
    let len: usize = bytes.len();
    let mut zeros: usize = count_leading_zeros(bytes);
    if zeros > 0 && zeros == len {
        zeros = zeros - 1;
    }
    let num: u16 = match parse_u16(bytes) {
        Some(n) => n,
        None => 0,
    };
    if zeros > 0 {
        let band: u32 = if num > 99 {
            3
        } else if num > 9 {
            2
        } else {
            1
        };
        let low_zeros: u32 = (zeros % 0x10000) as u32;
        let code: u32 = num as u32 + 1000 * (band + low_zeros);
        proof {
            let z = zeros as int;
            let q = z / 0x10000;
            lemma_fundamental_div_mod(z, 0x10000);
            assert(num + 1000 * (band + z) == 0x10000 * (1000 * q) + code) by (nonlinear_arith)
                requires
                    z == 0x10000 * q + low_zeros,
                    code == num + 1000 * (band + low_zeros),
            ;
            lemma_mod_multiples_vanish(1000 * q, code as int, 0x10000);
        }
        (code % 0x10000) as u16
    } else {
        num
    }
}

/// The values whose codes cannot be mistaken. Without padding a value is
/// its own code, and the codes of padded values start at 2000; with padding
/// a value stays inside its thousands block as long as it is below 1000.
pub open spec fn in_code_range(num: nat, zeros: nat) -> bool {
    if zeros == 0 {
        num < 2000
    } else {
        num < 1000
    }
}

/// Two car numbers in range with different values or different counts of
/// padding zeros have different codes.
pub proof fn lemma_car_number_codes_differ(num_a: nat, zeros_a: nat, num_b: nat, zeros_b: nat)
    requires
        in_code_range(num_a, zeros_a),
        in_code_range(num_b, zeros_b),
        num_a != num_b || zeros_a != zeros_b,
    ensures
        car_number_code(num_a, zeros_a) != car_number_code(num_b, zeros_b),
{
}

/// Where both codes fit in 16 bits, the codes on the wire differ as well.
pub proof fn lemma_car_number_wire_codes_differ(
    num_a: nat,
    zeros_a: nat,
    num_b: nat,
    zeros_b: nat,
)
    requires
        in_code_range(num_a, zeros_a),
        in_code_range(num_b, zeros_b),
        num_a != num_b || zeros_a != zeros_b,
        car_number_code(num_a, zeros_a) <= u16::MAX,
        car_number_code(num_b, zeros_b) <= u16::MAX,
    ensures
        car_number_code(num_a, zeros_a) % 0x10000 != car_number_code(num_b, zeros_b) % 0x10000,
{
    lemma_car_number_codes_differ(num_a, zeros_a, num_b, zeros_b);
    lemma_small_mod(car_number_code(num_a, zeros_a), 0x10000);
    lemma_small_mod(car_number_code(num_b, zeros_b), 0x10000);
}

/// Codes keep the order of car numbers: a number with no smaller value and
/// no fewer padding zeros than another has no smaller code, and a larger one
/// where value or padding differ.
pub proof fn lemma_car_number_code_monotone(num_a: nat, zeros_a: nat, num_b: nat, zeros_b: nat)
    requires
        num_a <= num_b,
        zeros_a <= zeros_b,
    ensures
        car_number_code(num_a, zeros_a) <= car_number_code(num_b, zeros_b),
        num_a != num_b || zeros_a != zeros_b ==> car_number_code(num_a, zeros_a) < car_number_code(
            num_b,
            zeros_b,
        ),
{
}

/// The leading zeros of a text are its first bytes, all `'0'`, and the byte
/// after them, if there is one, is another.
proof fn lemma_leading_zeros_bytes(text: Seq<u8>)
    ensures
        leading_zeros(text) <= text.len(),
        forall|j: int| 0 <= j < leading_zeros(text) ==> text[j] == 0x30,
        leading_zeros(text) < text.len() ==> text[leading_zeros(text) as int] != 0x30,
    decreases text.len(),
{
    if text.len() > 0 && text[0] == 0x30 {
        let rest = text.skip(1);
        lemma_leading_zeros_bytes(rest);
        assert forall|j: int| 0 <= j < leading_zeros(text) implies text[j] == 0x30 by {
            if j > 0 {
                assert(text[j] == rest[j - 1]);
            }
        }
        if leading_zeros(text) < text.len() {
            assert(text[leading_zeros(text) as int] == rest[leading_zeros(rest) as int]);
        }
    }
}

/// A text of digits that does not start with `'0'` has a value of at least 1.
proof fn lemma_value_positive(text: Seq<u8>)
    requires
        text.len() > 0,
        all_digits(text),
        text[0] != 0x30,
    ensures
        decimal_value(text) >= 1,
    decreases text.len(),
{
    if text.len() > 1 {
        let front = text.drop_last();
        assert(front[0] == text[0]);
        assert forall|i: int| 0 <= i < front.len() implies is_digit(#[trigger] front[i]) by {
            assert(front[i] == text[i]);
        }
        lemma_value_positive(front);
    } else {
        assert(text.drop_last().len() == 0);
        assert(text.last() == text[0]);
    }
}

/// Zeros in front of a text do not change its value.
proof fn lemma_value_skips_zeros(text: Seq<u8>, k: int)
    requires
        0 <= k <= text.len(),
        forall|j: int| 0 <= j < k ==> text[j] == 0x30,
    ensures
        decimal_value(text.skip(k)) == decimal_value(text),
    decreases text.len(),
{
    if text.len() == 0 {
        assert(text.skip(k) =~= text);
    } else if k == text.len() {
        let front = text.drop_last();
        assert forall|j: int| 0 <= j < k - 1 implies front[j] == 0x30 by {
            assert(front[j] == text[j]);
        }
        lemma_value_skips_zeros(front, k - 1);
        assert(front.skip(k - 1).len() == 0);
        assert(text.skip(k).len() == 0);
        assert(text.last() == text[k - 1]);
    } else {
        let front = text.drop_last();
        assert forall|j: int| 0 <= j < k implies front[j] == 0x30 by {
            assert(front[j] == text[j]);
        }
        lemma_value_skips_zeros(front, k);
        assert(text.skip(k).drop_last() =~= front.skip(k));
        assert(text.skip(k).last() == text.last());
    }
}

/// Two texts of digits that do not start with `'0'` and have the same value
/// are the same text.
proof fn lemma_value_determines_digits(a: Seq<u8>, b: Seq<u8>)
    requires
        a.len() > 0,
        b.len() > 0,
        all_digits(a),
        all_digits(b),
        a[0] != 0x30,
        b[0] != 0x30,
        decimal_value(a) == decimal_value(b),
    ensures
        a == b,
    decreases a.len(),
{
    let front_a = a.drop_last();
    let front_b = b.drop_last();
    assert(is_digit(a.last()) && is_digit(b.last())) by {
        assert(a.last() == a[a.len() - 1]);
        assert(b.last() == b[b.len() - 1]);
    }
    assert(decimal_value(front_a) == decimal_value(front_b) && a.last() == b.last()) by {
        let va = decimal_value(front_a);
        let vb = decimal_value(front_b);
        let da = digit_value(a.last());
        let db = digit_value(b.last());
        assert(va * 10 + da == vb * 10 + db);
        assert(da < 10 && db < 10);
    }
    assert forall|i: int| 0 <= i < front_a.len() implies is_digit(#[trigger] front_a[i]) by {
        assert(front_a[i] == a[i]);
    }
    assert forall|i: int| 0 <= i < front_b.len() implies is_digit(#[trigger] front_b[i]) by {
        assert(front_b[i] == b[i]);
    }
    if a.len() > 1 {
        assert(front_a[0] == a[0]);
        lemma_value_positive(front_a);
    }
    if b.len() > 1 {
        assert(front_b[0] == b[0]);
        lemma_value_positive(front_b);
    }
    if a.len() > 1 {
        lemma_value_determines_digits(front_a, front_b);
    }
    assert(front_a =~= front_b);
    assert(a =~= front_a.push(a.last()));
    assert(b =~= front_b.push(b.last()));
}

/// A car number of digits only is told by its value and its padding zeros:
/// two such texts with the same value and the same count of padding zeros
/// are the same text.
pub proof fn lemma_digits_told_by_value_and_padding(a: Seq<u8>, b: Seq<u8>)
    requires
        a.len() > 0,
        b.len() > 0,
        all_digits(a),
        all_digits(b),
        decimal_value(a) == decimal_value(b),
        padding_zeros(a) == padding_zeros(b),
    ensures
        a == b,
{
    lemma_leading_zeros_bytes(a);
    lemma_leading_zeros_bytes(b);
    let ka = leading_zeros(a) as int;
    let kb = leading_zeros(b) as int;
    lemma_value_skips_zeros(a, ka);
    lemma_value_skips_zeros(b, kb);
    let rest_a = a.skip(ka);
    let rest_b = b.skip(kb);
    assert forall|i: int| 0 <= i < rest_a.len() implies is_digit(#[trigger] rest_a[i]) by {
        assert(rest_a[i] == a[i + ka]);
    }
    assert forall|i: int| 0 <= i < rest_b.len() implies is_digit(#[trigger] rest_b[i]) by {
        assert(rest_b[i] == b[i + kb]);
    }
    if ka < a.len() {
        assert(rest_a[0] == a[ka]);
        lemma_value_positive(rest_a);
    } else {
        assert(rest_a.len() == 0);
    }
    if kb < b.len() {
        assert(rest_b[0] == b[kb]);
        lemma_value_positive(rest_b);
    } else {
        assert(rest_b.len() == 0);
    }
    if ka < a.len() {
        lemma_value_determines_digits(rest_a, rest_b);
        assert forall|j: int| 0 <= j < a.len() implies a[j] == b[j] by {
            if j >= ka {
                assert(a[j] == rest_a[j - ka]);
                assert(b[j] == rest_b[j - kb]);
            }
        }
    }
    assert(a =~= b);
}

/// Two different car numbers of digits only, both in range and with codes
/// that fit in 16 bits, are encoded differently.
pub proof fn lemma_pad_car_number_injective(a: Seq<u8>, b: Seq<u8>)
    requires
        a.len() > 0,
        b.len() > 0,
        all_digits(a),
        all_digits(b),
        a != b,
        in_code_range(decimal_value(a), padding_zeros(a)),
        in_code_range(decimal_value(b), padding_zeros(b)),
        car_number_code(decimal_value(a), padding_zeros(a)) <= u16::MAX,
        car_number_code(decimal_value(b), padding_zeros(b)) <= u16::MAX,
    ensures
        pad_car_number_spec(a) != pad_car_number_spec(b),
{
    if decimal_value(a) == decimal_value(b) && padding_zeros(a) == padding_zeros(b) {
        lemma_digits_told_by_value_and_padding(a, b);
    }
    lemma_car_number_wire_codes_differ(
        decimal_value(a),
        padding_zeros(a),
        decimal_value(b),
        padding_zeros(b),
    );
    assert(unsigned_digits(a) == a);
    assert(unsigned_digits(b) == b);
}

} // verus!
