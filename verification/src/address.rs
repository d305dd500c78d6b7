use crate::error::BridgeError;
use crate::hash::{keccak, keccak256};
use crate::hexcodec::{
    ascii_codes, hex_decode, hex_decoded, hex_encode, hex_encoded, is_hex_digit, is_hex_text,
    lemma_digit_code, lemma_hex_roundtrip,
};
use vstd::prelude::*;
use vstd::slice::slice_subrange;
use vstd::string::*;
use vstd::utf8::{encode_utf8, is_ascii_chars};

verus! {

/// The 20 bytes that identify an account or a contract inside the engine.
#[derive(Clone, Copy, Debug, PartialEq, Eq)]
pub struct Address(pub [u8; 20]);

impl View for Address {
    type V = Seq<u8>;

    open spec fn view(&self) -> Seq<u8> {
        self.0@
    }
}

/// Whether `c` is a hex digit as addresses are written: a decimal digit or
/// a lower-case letter from `a` to `f`.
pub open spec fn is_lower_hex_char(c: char) -> bool {
    ||| '0' <= c <= '9'
    ||| 'a' <= c <= 'f'
}

/// Whether `s` is the text of an address: `0x`, then 40 lower-case hex
/// digits.
pub open spec fn is_address_text(s: Seq<char>) -> bool {
    &&& s.len() == 42
    &&& s[0] == '0'
    &&& s[1] == 'x'
    &&& forall|i: int| 2 <= i < 42 ==> is_lower_hex_char(#[trigger] s[i])
}

/// Whether one of the codes is that of an upper-case letter from `A` to
/// `F`.
pub open spec fn has_upper_case_digit(text: Seq<u8>) -> bool {
    exists|i: int| 0 <= i < text.len() && 0x41 <= #[trigger] text[i] <= 0x46
}

/// The 20 bytes that an address text stands for.
pub open spec fn parsed_address(s: Seq<char>) -> Seq<u8> {
    hex_decoded(ascii_codes(s.subrange(2, s.len() as int)))
}

/// What reading an address from the text `s` gives.
pub open spec fn parse_outcome(s: Seq<char>) -> Result<Seq<u8>, BridgeError> {
    if is_address_text(s) {
        Ok(parsed_address(s))
    } else {
        Err(BridgeError::MalformedAddress)
    }
}

/// The text of an address: `0x`, then its bytes in lower-case hex.
pub open spec fn formatted_address(bytes: Seq<u8>) -> Seq<char> {
    seq!['0', 'x'] + hex_encoded(bytes)
}

/// The address that belongs to an account name: the last 20 bytes of the
/// Keccak-256 digest of the name's UTF-8 bytes.
pub open spec fn derived_address(id: Seq<char>) -> Seq<u8> {
    keccak256(encode_utf8(id)).subrange(12, 32)
}

impl Address {
    /// The address held in `bytes`, if they are exactly 20.
    pub fn from_slice(bytes: &[u8]) -> (r: Option<Address>)
        ensures
            r is Some <==> bytes@.len() == 20,
            r matches Some(a) ==> a@ == bytes@,
    {
        if bytes.len() != 20 {
            return None;
        }
        let mut raw: [u8; 20] = [0u8; 20];
        let mut i: usize = 0;
        while i < 20
            invariant
                i <= 20,
                bytes@.len() == 20,
                forall|k: int| 0 <= k < i ==> raw@[k] == bytes@[k],
            decreases 20 - i,
        {
            raw[i] = bytes[i];
            i += 1;
        }
        assert(raw@ =~= bytes@);
        Some(Address(raw))
    }

    /// The address made of the last 20 bytes of a 32-byte digest.
    pub fn from_digest(digest: &[u8; 32]) -> (a: Address)
        ensures
            a@ == digest@.subrange(12, 32),
    {
        let tail = slice_subrange(digest.as_slice(), 12, 32);
        match Address::from_slice(tail) {
            Some(a) => a,
            None => Address([0u8; 20]),
        }
    }

    /// Whether two addresses hold the same bytes.
    pub fn same(&self, other: &Address) -> (r: bool)
        ensures
            r == (self@ == other@),
            r == (*self == *other),
    {
        let mut i: usize = 0;
        while i < 20
            invariant
                i <= 20,
                forall|k: int| 0 <= k < i ==> self.0@[k] == other.0@[k],
            decreases 20 - i,
        {
            if self.0[i] != other.0[i] {
                return false;
            }
            i += 1;
        }
        assert(self.0@ =~= other.0@);
        assert(self.0 == other.0);
        true
    }
}

/// Derives the engine address of the account `addr`.
pub fn near_account_to_evm_address(addr: &str) -> (a: Address)
    ensures
        a@ == derived_address(addr@),
{
    let digest = keccak(addr.as_bytes());
    Address::from_digest(&digest)
}

/// Writes an address as text: `0x` and 40 lower-case hex digits.
pub fn address_to_string(address: &Address) -> (text: String)
    ensures
        text@ == formatted_address(address@),
{
    let digits = hex_encode(address.0.as_slice());
    let mut text = String::from_str("0x");
    proof {
        reveal_strlit("0x");
        assert(text@ =~= seq!['0', 'x']);
    }
    text.append(digits.as_str());
    text
}

/// Whether one of the codes in `text` is that of an upper-case hex digit.
fn holds_upper_case_digit(text: &[u8]) -> (r: bool)
    ensures
        r == has_upper_case_digit(text@),
{
    let mut i: usize = 0;
    while i < text.len()
        invariant
            i <= text.len(),
            forall|k: int| 0 <= k < i ==> !(0x41 <= #[trigger] text@[k] <= 0x46),
        decreases text.len() - i,
    {
        if 0x41 <= text[i] && text[i] <= 0x46 {
            return true;
        }
        i += 1;
    }
    false
}

/// Reads an address from its text.
///
/// The text is accepted exactly when it is `0x` followed by 40 lower-case
/// hex digits. A text with an upper-case digit is refused like any other
/// malformed text.
pub fn parse_address(address: &str) -> (r: Result<Address, BridgeError>)
    ensures
        match r {
            Ok(a) => parse_outcome(address@) == Ok::<Seq<u8>, BridgeError>(a@),
            Err(e) => parse_outcome(address@) == Err::<Seq<u8>, BridgeError>(e),
        },
{
    if !address.is_ascii() {
        return Err(BridgeError::MalformedAddress);
    }
    let bytes = address.as_bytes();
    proof {
        is_ascii_spec_bytes(address);
        assert(bytes@ =~= ascii_codes(address@));
    }
    let n: usize = bytes.len();
    if n < 2 || bytes[0] != 0x30 || bytes[1] != 0x78 {
        return Err(BridgeError::MalformedAddress);
    }
    let digits = slice_subrange(bytes, 2, n);
    proof {
        assert(digits@ =~= ascii_codes(address@.subrange(2, n as int)));
        lemma_hex_text_of_chars(address@);
    }
    if holds_upper_case_digit(digits) {
        return Err(BridgeError::MalformedAddress);
    }
    match hex_decode(digits) {
        Ok(data) => match Address::from_slice(data.as_slice()) {
            Some(a) => Ok(a),
            None => Err(BridgeError::MalformedAddress),
        },
        Err(_) => Err(BridgeError::MalformedAddress),
    }
}

/// For ASCII text that starts with `0x`, being an address text is the same
/// as having 40 hex digit codes behind the prefix, none of them upper-case.
proof fn lemma_hex_text_of_chars(s: Seq<char>)
    requires
        is_ascii_chars(s),
        s.len() >= 2,
        s[0] as u8 == 0x30,
        s[1] as u8 == 0x78,
    ensures
        is_address_text(s) <==> {
            &&& is_hex_text(ascii_codes(s.subrange(2, s.len() as int)))
            &&& !has_upper_case_digit(ascii_codes(s.subrange(2, s.len() as int)))
            &&& s.len() == 42
        },
{
    let digits = ascii_codes(s.subrange(2, s.len() as int));
    assert(s[0] == '0' && s[1] == 'x');
    if is_address_text(s) {
        assert forall|i: int| 0 <= i < digits.len() implies is_hex_digit(#[trigger] digits[i])
            && !(0x41 <= digits[i] <= 0x46) by {
            assert(is_lower_hex_char(s[i + 2]));
        }
    }
    if is_hex_text(digits) && !has_upper_case_digit(digits) && s.len() == 42 {
        assert forall|i: int| 2 <= i < 42 implies is_lower_hex_char(#[trigger] s[i]) by {
            assert(is_hex_digit(digits[i - 2]));
            assert(!(0x41 <= digits[i - 2] <= 0x46));
            assert('\0' <= s[i] <= '\u{7f}');
        }
    }
}

/// Reading the text that is written for an address gives the address
/// back.
pub proof fn lemma_parse_inverts_format(a: Address)
    ensures
        is_address_text(formatted_address(a@)),
        parse_outcome(formatted_address(a@)) == Ok::<Seq<u8>, BridgeError>(a@),
{
    let text = formatted_address(a@);
    assert(text.len() == 42);
    assert forall|i: int| 2 <= i < 42 implies is_lower_hex_char(#[trigger] text[i]) by {
        let k = i - 2;
        assert(text[i] == hex_encoded(a@)[k]);
        lemma_digit_code(a@[k / 2] as int / 16);
        lemma_digit_code(a@[k / 2] as int % 16);
    }
    assert(text.subrange(2, 42) =~= hex_encoded(a@));
    lemma_hex_roundtrip(a@);
}

/// A text that is not `0x` followed by 40 lower-case hex digits is refused.
pub proof fn lemma_malformed_text_is_refused(s: Seq<char>)
    requires
        !is_address_text(s),
    ensures
        parse_outcome(s) == Err::<Seq<u8>, BridgeError>(BridgeError::MalformedAddress),
{
}

/// A text with an upper-case hex digit is refused, whatever else it holds.
pub proof fn lemma_upper_case_text_is_refused(s: Seq<char>, i: int)
    requires
        2 <= i < s.len(),
        'A' <= s[i] <= 'F',
    ensures
        parse_outcome(s) == Err::<Seq<u8>, BridgeError>(BridgeError::MalformedAddress),
{
    if s.len() == 42 {
        assert(!is_lower_hex_char(s[i]));
    }
}

/// An account name has one address: two addresses derived from the same
/// name are equal.
pub proof fn lemma_derived_address_is_unique(id: Seq<char>, a: Address, b: Address)
    requires
        a@ == derived_address(id),
        b@ == derived_address(id),
    ensures
        a == b,
{
    assert(a.0@ =~= b.0@);
    assert(a.0 == b.0);
}

} // verus!
