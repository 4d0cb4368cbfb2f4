//! The hexadecimal text in which words, addresses and byte strings travel
//! to and from the remote endpoint.

use crate::primitives::{limb_base, H160, U256};
use vstd::prelude::*;
use vstd::string::StrSliceExecFns;

verus! {

/// The sixteen lower-case hexadecimal digits, in order.
pub open spec fn hex_alphabet() -> Seq<char> {
    seq!['0', '1', '2', '3', '4', '5', '6', '7', '8', '9', 'a', 'b', 'c', 'd', 'e', 'f']
}

/// The two characters that open every hexadecimal text on the wire.
pub open spec fn hex_prefix() -> Seq<char> {
    seq!['0', 'x']
}

/// The value of a hexadecimal digit of either case; `None` for any other
/// character.
pub open spec fn hex_digit_value(c: char) -> Option<int> {
    let n = c as u32 as int;
    if 48 <= n <= 57 {
        Some(n - 48)
    } else if 97 <= n <= 102 {
        Some(n - 87)
    } else if 65 <= n <= 70 {
        Some(n - 55)
    } else {
        None
    }
}

/// Two lower-case digits for each byte, high nibble first.
pub open spec fn bytes_hex(bytes: Seq<u8>) -> Seq<char> {
    Seq::new(
        2 * bytes.len(),
        |i: int|
            if i % 2 == 0 {
                hex_alphabet()[bytes[i / 2] as int / 16]
            } else {
                hex_alphabet()[bytes[i / 2] as int % 16]
            },
    )
}

/// The text of a byte string: the prefix, then two digits for each byte.
pub open spec fn data_text(bytes: Seq<u8>) -> Seq<char> {
    hex_prefix() + bytes_hex(bytes)
}

/// The digits of a number without leading zeros; zero is the one digit `0`.
pub open spec fn quantity_digits(n: nat) -> Seq<char>
    decreases n,
{
    if n < 16 {
        seq![hex_alphabet()[n as int]]
    } else {
        quantity_digits(n / 16).push(hex_alphabet()[(n % 16) as int])
    }
}

/// The text of a number: the prefix, then its digits without leading zeros.
pub open spec fn quantity_text(n: nat) -> Seq<char> {
    hex_prefix() + quantity_digits(n)
}

/// Whether a text is an even number of hexadecimal digits and nothing else.
pub open spec fn is_hex_pairs(text: Seq<char>) -> bool {
    &&& text.len() % 2 == 0
    &&& forall|i: int| 0 <= i < text.len() ==> (#[trigger] hex_digit_value(text[i])).is_some()
}

/// The bytes that pairs of hexadecimal digits spell.
pub open spec fn hex_pairs_bytes(text: Seq<char>) -> Seq<u8> {
    Seq::new(
        text.len() / 2,
        |i: int|
            (16 * hex_digit_value(text[2 * i]).unwrap() + hex_digit_value(
                text[2 * i + 1],
            ).unwrap()) as u8,
    )
}

/// Whether a text opens with the prefix.
pub open spec fn has_hex_prefix(text: Seq<char>) -> bool {
    text.len() >= 2 && text[0] == '0' && text[1] == 'x'
}

/// Whether a text is made of hexadecimal digits and nothing else.
pub open spec fn is_hex_digits(text: Seq<char>) -> bool {
    forall|i: int| 0 <= i < text.len() ==> (#[trigger] hex_digit_value(text[i])).is_some()
}

/// The number that hexadecimal digits spell, most significant digit first.
pub open spec fn hex_number(digits: Seq<char>) -> nat
    decreases digits.len(),
{
    if digits.len() == 0 {
        0
    } else {
        16 * hex_number(digits.drop_last()) + hex_digit_value(digits.last()).unwrap() as nat
    }
}

/// A text without its prefix, where it opens with one.
pub open spec fn without_hex_prefix(text: Seq<char>) -> Seq<char> {
    if has_hex_prefix(text) {
        text.skip(2)
    } else {
        text
    }
}

/// Whether a text is a number in plain writing: one to sixty-four
/// hexadecimal digits, with or without the prefix before them.
pub open spec fn is_plain_quantity(text: Seq<char>) -> bool {
    &&& 1 <= without_hex_prefix(text).len() <= 64
    &&& is_hex_digits(without_hex_prefix(text))
}

/// Whether a text is an address in plain writing: forty hexadecimal digits,
/// with or without the prefix before them.
pub open spec fn is_plain_address(text: Seq<char>) -> bool {
    &&& without_hex_prefix(text).len() == 40
    &&& is_hex_digits(without_hex_prefix(text))
}

/// The number that a text stands for when `primitive_types::U256` is read
/// from a JSON string that holds the text; `None` where the text is refused.
/// Of a text in plain writing it is known to be the number that the digits
/// spell; of any other text nothing is known.
pub uninterp spec fn quantity_value(text: Seq<char>) -> Option<nat>;

/// The twenty bytes that a text stands for when `primitive_types::H160` is
/// parsed from it; `None` where the text is refused. Of a text in plain
/// writing it is known to be the bytes that the pairs of digits spell; of
/// any other text nothing is known.
pub uninterp spec fn address_bytes(text: Seq<char>) -> Option<Seq<u8>>;

/// What reading a text as an address gives: for forty hexadecimal digits,
/// with or without `0x` before them, the bytes that the pairs of digits
/// spell; for any other text what the address type makes of it.
pub open spec fn decoded_address(text: Seq<char>) -> Option<Seq<u8>> {
    if is_plain_address(text) {
        Some(hex_pairs_bytes(without_hex_prefix(text)))
    } else {
        address_bytes(text)
    }
}

/// `hex::FromHexError`, the error of `hex::decode`: handed on, never read.
#[verifier::external_type_specification]
#[verifier::external_body]
pub struct ExFromHexError(hex::FromHexError);

/// `serde_json::Error`, the error of `serde_json::from_value`: handed on,
/// never read.
#[verifier::external_type_specification]
#[verifier::external_body]
pub struct ExJsonError(serde_json::Error);

/// Calls `serde_json::to_value` on a `primitive_types::H160` with the same
/// bytes. Trusted: the outcome is a JSON string that holds `0x` followed by
/// two lower-case digits for each byte, first byte first.
#[verifier::external_body]
pub(crate) fn address_to_text(address: &H160) -> (text: String)
    ensures
        text@ == data_text(address@),
{
    match serde_json::to_value(primitive_types::H160(address.0)) {
        Ok(serde_json::Value::String(text)) => text,
        _ => String::new(),
    }
}

/// Calls `serde_json::to_value` on a `primitive_types::U256` with the same
/// limbs. Trusted: the outcome is a JSON string that holds `0x` followed by
/// the number's lower-case digits without leading zeros, `0x0` for zero.
#[verifier::external_body]
pub(crate) fn quantity_to_text(value: &U256) -> (text: String)
    ensures
        text@ == quantity_text(value@),
{
    match serde_json::to_value(primitive_types::U256(value.0)) {
        Ok(serde_json::Value::String(text)) => text,
        _ => String::new(),
    }
}

/// Calls `serde_json::from_value` for a `primitive_types::U256` on a JSON
/// string that holds the text. Trusted: whether a word comes out, and which,
/// depends on the text alone; and one to sixty-four hexadecimal digits of
/// either case, with or without `0x` before them, give the number that they
/// spell.
#[verifier::external_body]
pub(crate) fn quantity_from_text(text: &str) -> (r: Result<U256, serde_json::Error>)
    ensures
        match r {
            Ok(value) => quantity_value(text@) == Some(value@),
            Err(_) => quantity_value(text@).is_none(),
        },
        is_plain_quantity(text@) ==> r is Ok && r.unwrap()@ == hex_number(
            without_hex_prefix(text@),
        ),
{
    let json = serde_json::Value::String(text.to_owned());
    match serde_json::from_value::<primitive_types::U256>(json) {
        Ok(value) => Ok(U256(value.0)),
        Err(error) => Err(error),
    }
}

/// Calls `str::parse` for a `primitive_types::H160`. Trusted: whether an
/// address comes out, and which, depends on the text alone; and forty
/// hexadecimal digits of either case, with or without `0x` before them, give
/// the bytes that the pairs of digits spell.
#[verifier::external_body]
fn address_from_text(text: &str) -> (r: Option<H160>)
    ensures
        match r {
            Some(address) => address_bytes(text@) == Some(address@),
            None => address_bytes(text@).is_none(),
        },
        is_plain_address(text@) ==> r is Some && r.unwrap()@ == hex_pairs_bytes(
            without_hex_prefix(text@),
        ),
{
    match text.parse::<primitive_types::H160>() {
        Ok(address) => Some(H160(address.0)),
        Err(_) => None,
    }
}

/// Calls `hex::decode`. Trusted: it succeeds exactly on an even number of
/// hexadecimal digits of either case, and then gives one byte for each pair
/// of digits, in order, the first digit of a pair being the high nibble.
#[verifier::external_body]
pub(crate) fn hex_decode(text: &str) -> (r: Result<Vec<u8>, hex::FromHexError>)
    ensures
        match r {
            Ok(bytes) => is_hex_pairs(text@) && bytes@ == hex_pairs_bytes(text@),
            Err(_) => !is_hex_pairs(text@),
        },
{
    hex::decode(text)
}

/// Reads a text as an address.
pub fn decode_address(text: &str) -> (r: Option<H160>)
    ensures
        match r {
            Some(address) => decoded_address(text@) == Some(address@),
            None => decoded_address(text@).is_none(),
        },
{
    address_from_text(text)
}

/// The text behind the prefix, or `None` where the text does not open with
/// it.
pub fn strip_hex_prefix(text: &str) -> (r: Option<&str>)
    ensures
        match r {
            Some(rest) => has_hex_prefix(text@) && rest@ == text@.skip(2),
            None => !has_hex_prefix(text@),
        },
{
    let len = text.unicode_len();
    if len < 2 {
        return None;
    }
    if text.get_char(0) != '0' || text.get_char(1) != 'x' {
        return None;
    }
    let rest = text.substring_char(2, len);
    assert(rest@ =~= text@.skip(2));
    Some(rest)
}

/// Sixteen to the power `k`.
pub open spec fn pow16(k: nat) -> nat
    decreases k,
{
    if k == 0 {
        1
    } else {
        16 * pow16((k - 1) as nat)
    }
}

/// Each digit of the alphabet has its place in the alphabet as its value.
pub proof fn lemma_alphabet_values()
    ensures
        forall|k: int| 0 <= k < 16 ==> hex_digit_value(#[trigger] hex_alphabet()[k]) == Some(k),
{
    assert(hex_digit_value(hex_alphabet()[0]) == Some(0int));
    assert(hex_digit_value(hex_alphabet()[1]) == Some(1int));
    assert(hex_digit_value(hex_alphabet()[2]) == Some(2int));
    assert(hex_digit_value(hex_alphabet()[3]) == Some(3int));
    assert(hex_digit_value(hex_alphabet()[4]) == Some(4int));
    assert(hex_digit_value(hex_alphabet()[5]) == Some(5int));
    assert(hex_digit_value(hex_alphabet()[6]) == Some(6int));
    assert(hex_digit_value(hex_alphabet()[7]) == Some(7int));
    assert(hex_digit_value(hex_alphabet()[8]) == Some(8int));
    assert(hex_digit_value(hex_alphabet()[9]) == Some(9int));
    assert(hex_digit_value(hex_alphabet()[10]) == Some(10int));
    assert(hex_digit_value(hex_alphabet()[11]) == Some(11int));
    assert(hex_digit_value(hex_alphabet()[12]) == Some(12int));
    assert(hex_digit_value(hex_alphabet()[13]) == Some(13int));
    assert(hex_digit_value(hex_alphabet()[14]) == Some(14int));
    assert(hex_digit_value(hex_alphabet()[15]) == Some(15int));
}

/// The text written for a byte string opens with the prefix, and the pairs
/// of digits behind it spell the bytes again.
pub proof fn lemma_data_text_reads_back(bytes: Seq<u8>)
    ensures
        has_hex_prefix(data_text(bytes)),
        without_hex_prefix(data_text(bytes)) == bytes_hex(bytes),
        is_hex_pairs(bytes_hex(bytes)),
        hex_pairs_bytes(bytes_hex(bytes)) == bytes,
{
    lemma_alphabet_values();
    let digits = bytes_hex(bytes);
    assert(data_text(bytes).skip(2) =~= digits);
    assert forall|i: int| 0 <= i < digits.len() implies (#[trigger] hex_digit_value(
        digits[i],
    )).is_some() by {
        let byte = bytes[i / 2] as int;
        if i % 2 == 0 {
            assert(digits[i] == hex_alphabet()[byte / 16]);
        } else {
            assert(digits[i] == hex_alphabet()[byte % 16]);
        }
    }
    assert forall|i: int| 0 <= i < bytes.len() implies hex_pairs_bytes(digits)[i] == bytes[i] by {
        let byte = bytes[i] as int;
        assert(digits[2 * i] == hex_alphabet()[byte / 16]);
        assert(digits[2 * i + 1] == hex_alphabet()[byte % 16]);
    }
    assert(hex_pairs_bytes(digits) =~= bytes);
}

/// The digits written for a number are hexadecimal digits that spell the
/// number again, and a number below sixteen to the power `k` takes at most
/// `k` of them.
pub proof fn lemma_quantity_digits_read_back(n: nat, k: nat)
    ensures
        quantity_digits(n).len() >= 1,
        is_hex_digits(quantity_digits(n)),
        hex_number(quantity_digits(n)) == n,
        k >= 1 && n < pow16(k) ==> quantity_digits(n).len() <= k,
    decreases n,
{
    lemma_alphabet_values();
    let digits = quantity_digits(n);
    if n < 16 {
        assert(digits.drop_last() =~= Seq::<char>::empty());
        assert(hex_number(digits.drop_last()) == 0);
        assert(digits.last() == hex_alphabet()[n as int]);
    } else {
        let earlier = quantity_digits(n / 16);
        lemma_quantity_digits_read_back(n / 16, (k - 1) as nat);
        assert(digits.drop_last() =~= earlier);
        assert(digits.last() == hex_alphabet()[(n % 16) as int]);
        assert forall|i: int| 0 <= i < digits.len() implies (#[trigger] hex_digit_value(
            digits[i],
        )).is_some() by {
            if i < earlier.len() {
                assert(digits[i] == earlier[i]);
            }
        }
        if k >= 1 && n < pow16(k) {
            assert(pow16(1) == 16) by {
                reveal_with_fuel(pow16, 2);
            }
            assert(k >= 2);
            assert(n / 16 < pow16((k - 1) as nat));
        }
    }
}

/// The text written for a number below sixteen to the power sixty-four is a
/// number in plain writing, and its digits spell the number again.
pub proof fn lemma_quantity_text_reads_back(n: nat)
    requires
        n < pow16(64),
    ensures
        is_plain_quantity(quantity_text(n)),
        hex_number(without_hex_prefix(quantity_text(n))) == n,
{
    lemma_quantity_digits_read_back(n, 64);
    assert(quantity_text(n).skip(2) =~= quantity_digits(n));
}

/// Every word is below sixteen to the power sixty-four.
pub proof fn lemma_word_below_pow16_64(word: U256)
    ensures
        word@ < pow16(64),
{
    let base = limb_base() as int;
    assert(pow16(16) == base) by {
        reveal_with_fuel(pow16, 17);
    }
    lemma_pow16_adds(16, 16);
    lemma_pow16_adds(32, 16);
    lemma_pow16_adds(48, 16);
    let l0 = word.0@[0] as int;
    let l1 = word.0@[1] as int;
    let l2 = word.0@[2] as int;
    let l3 = word.0@[3] as int;
    assert(l0 + base * (l1 + base * (l2 + base * l3)) < base * base * base * base)
        by (nonlinear_arith)
        requires
            0 <= l0 < base,
            0 <= l1 < base,
            0 <= l2 < base,
            0 <= l3 < base,
    ;
    assert(pow16(64) == base * base * base * base) by (nonlinear_arith)
        requires
            pow16(32) == base * base,
            pow16(48) == pow16(32) * base,
            pow16(64) == pow16(48) * base,
    ;
}

/// Sixteen to a sum is the product of the powers.
proof fn lemma_pow16_adds(a: nat, b: nat)
    ensures
        pow16(a + b) == pow16(a) * pow16(b),
    decreases b,
{
    if b == 0 {
        assert(pow16(a) * 1 == pow16(a));
    } else {
        lemma_pow16_adds(a, (b - 1) as nat);
        assert(pow16(a + b) == 16 * pow16((a + b - 1) as nat));
        assert(16 * (pow16(a) * pow16((b - 1) as nat)) == pow16(a) * (16 * pow16((b - 1) as nat)))
            by (nonlinear_arith);
    }
}

} // verus!
