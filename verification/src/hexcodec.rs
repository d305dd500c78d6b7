use vstd::prelude::*;

verus! {

/// The sixteen lower-case hex digits, each at the index of its value.
pub open spec fn hex_digits() -> Seq<char> {
    seq!['0', '1', '2', '3', '4', '5', '6', '7', '8', '9', 'a', 'b', 'c', 'd', 'e', 'f']
}

/// The lower-case hex form of a byte string: two digits for each byte, the
/// high half of the byte first.
pub open spec fn hex_encoded(data: Seq<u8>) -> Seq<char> {
    Seq::new(
        2 * data.len(),
        |i: int|
            hex_digits()[if i % 2 == 0 {
                data[i / 2] as int / 16
            } else {
                data[i / 2] as int % 16
            }],
    )
}

/// Whether `c` is the ASCII code of a hex digit, of either case.
pub open spec fn is_hex_digit(c: u8) -> bool {
    ||| 0x30 <= c <= 0x39
    ||| 0x61 <= c <= 0x66
    ||| 0x41 <= c <= 0x46
}

/// The value, 0 to 15, of the hex digit with ASCII code `c`.
pub open spec fn hex_value(c: u8) -> int {
    if 0x30 <= c <= 0x39 {
        c - 0x30
    } else if 0x61 <= c <= 0x66 {
        c - 0x61 + 10
    } else {
        c - 0x41 + 10
    }
}

/// The codes of a sequence of characters as bytes; meaningful for ASCII.
pub open spec fn ascii_codes(s: Seq<char>) -> Seq<u8> {
    s.map_values(|c: char| c as u8)
}

/// Whether `text` is the hex form of some byte string: an even number of
/// ASCII codes, each of a hex digit.
pub open spec fn is_hex_text(text: Seq<u8>) -> bool {
    &&& text.len() % 2 == 0
    &&& forall|i: int| 0 <= i < text.len() ==> is_hex_digit(#[trigger] text[i])
}

/// The byte string that the hex text `text` stands for.
pub open spec fn hex_decoded(text: Seq<u8>) -> Seq<u8> {
    Seq::new(
        text.len() / 2,
        |i: int| (16 * hex_value(text[2 * i]) + hex_value(text[2 * i + 1])) as u8,
    )
}

/// The error of `hex::decode`; nothing of it is read here.
#[verifier::external_type_specification]
#[verifier::external_body]
pub struct ExFromHexError(hex::FromHexError);

/// Encodes `data` with `hex::encode`.
///
/// Trusted: the string holds two lower-case hex digits for each byte, in
/// order, the high half of a byte first.
#[verifier::external_body]
pub(crate) fn hex_encode(data: &[u8]) -> (text: String)
    ensures
        text@ == hex_encoded(data@),
{
    hex::encode(data)
}

/// Decodes `text` with `hex::decode`.
///
/// Trusted: the call succeeds exactly on an even number of hex digits of
/// either case, and then returns one byte for each pair of digits, the first
/// digit of a pair being the high half.
#[verifier::external_body]
pub(crate) fn hex_decode(text: &[u8]) -> (r: Result<Vec<u8>, hex::FromHexError>)
    ensures
        r is Ok <==> is_hex_text(text@),
        r matches Ok(data) ==> data@ == hex_decoded(text@),
{
    hex::decode(text)
}

/// Decoding the hex form of a byte string gives the byte string back.
pub proof fn lemma_hex_roundtrip(data: Seq<u8>)
    ensures
        is_hex_text(ascii_codes(hex_encoded(data))),
        hex_decoded(ascii_codes(hex_encoded(data))) == data,
{
    let text = ascii_codes(hex_encoded(data));
    assert forall|i: int| 0 <= i < text.len() implies is_hex_digit(#[trigger] text[i]) by {
        lemma_digit_code(data[i / 2] as int / 16);
        lemma_digit_code(data[i / 2] as int % 16);
    }
    assert forall|k: int| 0 <= k < data.len() implies hex_decoded(text)[k] == data[k] by {
        lemma_digit_code(data[k] as int / 16);
        lemma_digit_code(data[k] as int % 16);
        assert(text[2 * k] == hex_digits()[data[k] as int / 16] as u8);
        assert(text[2 * k + 1] == hex_digits()[data[k] as int % 16] as u8);
    }
    assert(hex_decoded(text) =~= data);
}

/// The ASCII code of each lower-case hex digit is that of a hex digit, and
/// has the digit's value.
pub proof fn lemma_digit_code(n: int)
    requires
        0 <= n < 16,
    ensures
        is_hex_digit(hex_digits()[n] as u8),
        hex_value(hex_digits()[n] as u8) == n,
        '0' <= hex_digits()[n] <= '9' || 'a' <= hex_digits()[n] <= 'f',
{
}

} // verus!
