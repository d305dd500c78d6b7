use vstd::arithmetic::power::{lemma_pow0, lemma_pow1, lemma_pow_adds, lemma_pow_positive, pow};
use vstd::prelude::*;

verus! {

/// A 256-bit unsigned integer as the engine sends it: 32 bytes, the most
/// significant first.
pub type RawU256 = [u8; 32];

/// The number that a byte string stands for when its first byte is the most
/// significant one.
pub open spec fn be_value(bytes: Seq<u8>) -> nat
    decreases bytes.len(),
{
    if bytes.len() == 0 {
        0
    } else {
        be_value(bytes.drop_last()) * 256 + bytes.last() as nat
    }
}

/// The `width` least significant bytes of `v`, the most significant first.
pub open spec fn be_bytes(v: nat, width: nat) -> Seq<u8>
    decreases width,
{
    if width == 0 {
        Seq::empty()
    } else {
        be_bytes(v / 256, (width - 1) as nat).push((v % 256) as u8)
    }
}

/// What a byte string returned as a balance amounts to: its big-endian
/// value, where it has at most 32 bytes and the value fits in 128 bits.
pub open spec fn decoded_balance(bytes: Seq<u8>) -> Option<u128> {
    if bytes.len() <= 32 && be_value(bytes) <= u128::MAX {
        Some(be_value(bytes) as u128)
    } else {
        None
    }
}

/// Reads at most 32 big-endian bytes with `U256::from_big_endian` of
/// `primitive_types` and narrows the number with its `TryFrom<U256> for u128`.
///
/// Trusted: the first call reads the bytes as one number, the first byte
/// being the most significant; the second fails exactly when that number
/// needs more than 128 bits.
#[verifier::external_body]
pub(crate) fn u128_from_be(bytes: &[u8]) -> (r: Option<u128>)
    requires
        bytes@.len() <= 32,
    ensures
        r is Some <==> be_value(bytes@) <= u128::MAX,
        r matches Some(v) ==> v == be_value(bytes@),
{
    u128::try_from(primitive_types::U256::from_big_endian(bytes)).ok()
}

/// Reads a balance from the bytes that the engine returned.
///
/// The bytes are one big-endian number. The balance is absent when there
/// are more than 32 bytes or the number does not fit in 128 bits.
pub fn balance_from_be(bytes: &[u8]) -> (r: Option<u128>)
    ensures
        r == decoded_balance(bytes@),
{
    if bytes.len() > 32 {
        return None;
    }
    u128_from_be(bytes)
}

/// The length of the big-endian form is the width asked for.
pub proof fn lemma_be_bytes_len(v: nat, width: nat)
    ensures
        be_bytes(v, width).len() == width,
    decreases width,
{
    if width > 0 {
        lemma_be_bytes_len(v / 256, (width - 1) as nat);
    }
}

/// Reading the big-endian form of a number that fits in `width` bytes gives
/// the number back.
pub proof fn lemma_be_roundtrip(v: nat, width: nat)
    requires
        v < pow(256, width),
    ensures
        be_value(be_bytes(v, width)) == v,
    decreases width,
{
    if width == 0 {
        lemma_pow0(256);
    } else {
        let rest = (width - 1) as nat;
        assert(pow(256, width) == 256 * pow(256, rest)) by {
            reveal(pow);
        }
        lemma_pow_positive(256, rest);
        assert(v / 256 < pow(256, rest)) by (nonlinear_arith)
            requires
                v < 256 * pow(256, rest),
                pow(256, rest) > 0,
        ;
        lemma_be_roundtrip(v / 256, rest);
        let s = be_bytes(v, width);
        assert(s.drop_last() =~= be_bytes(v / 256, rest));
        assert(s.last() == (v % 256) as u8);
    }
}

/// A balance written as a 32-byte word is read back as it was.
pub proof fn lemma_balance_roundtrip(balance: u128)
    ensures
        be_bytes(balance as nat, 32).len() == 32,
        decoded_balance(be_bytes(balance as nat, 32)) == Some(balance),
{
    lemma_be_bytes_len(balance as nat, 32);
    assert(pow(256, 32) > u128::MAX) by {
        lemma_pow256_16();
        lemma_pow_adds(256, 16, 16);
        assert(pow(256, 16) * pow(256, 16) >= pow(256, 16)) by (nonlinear_arith)
            requires
                pow(256, 16) > 0,
        ;
    }
    lemma_be_roundtrip(balance as nat, 32);
}

/// Sixteen bytes hold exactly the 128-bit numbers.
proof fn lemma_pow256_16()
    ensures
        pow(256, 16) == u128::MAX + 1,
{
    lemma_pow1(256);
    lemma_pow_adds(256, 1, 1);
    assert(pow(256, 2) == 0x1_0000);
    lemma_pow_adds(256, 2, 2);
    assert(pow(256, 4) == 0x1_0000_0000);
    lemma_pow_adds(256, 4, 4);
    assert(pow(256, 8) == 0x1_0000_0000_0000_0000);
    lemma_pow_adds(256, 8, 8);
}

} // verus!
