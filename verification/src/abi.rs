use crate::address::Address;
use crate::hash::{keccak, keccak256};
use crate::word::{be_bytes, lemma_be_bytes_len};
use vstd::prelude::*;
use vstd::slice::{slice_subrange, slice_to_vec};
use vstd::string::*;
use vstd::utf8::encode_utf8;

verus! {

/// A typed argument of a call into a contract of the engine.
#[derive(Clone, Copy, Debug, PartialEq, Eq)]
pub enum Token {
    /// An address.
    Address(Address),
    /// An unsigned integer.
    Uint(u128),
}

/// The most arguments that one call can carry: their words have to be
/// counted in 32 bits.
pub const MAX_TOKENS: usize = 0x7ff_ffff;

/// An argument as contracts speak of it: an address by its bytes.
pub enum TokenView {
    Address(Seq<u8>),
    Uint(u128),
}

impl View for Token {
    type V = TokenView;

    open spec fn view(&self) -> TokenView {
        match self {
            Token::Address(a) => TokenView::Address(a@),
            Token::Uint(v) => TokenView::Uint(*v),
        }
    }
}

/// The arguments of a list as contracts speak of them.
pub open spec fn token_views(tokens: Seq<Token>) -> Seq<TokenView> {
    tokens.map_values(|t: Token| t@)
}

/// The 32-byte word of one argument: an address behind twelve zero bytes, an
/// integer in big-endian form.
pub open spec fn token_word(token: TokenView) -> Seq<u8> {
    match token {
        TokenView::Address(a) => Seq::new(12, |i: int| 0u8) + a,
        TokenView::Uint(v) => be_bytes(v as nat, 32),
    }
}

/// The encoding of a list of arguments: their words, in order.
pub open spec fn encoded_tokens(tokens: Seq<TokenView>) -> Seq<u8>
    decreases tokens.len(),
{
    if tokens.len() == 0 {
        Seq::empty()
    } else {
        encoded_tokens(tokens.drop_last()) + token_word(tokens.last())
    }
}

/// Whether every address among the arguments has its 20 bytes, as every
/// `Address` has.
pub open spec fn well_sized(tokens: Seq<TokenView>) -> bool {
    forall|i: int|
        0 <= i < tokens.len() ==> (#[trigger] tokens[i] matches TokenView::Address(a) ==> a.len()
            == 20)
}

/// The selector of a function signature: the first four bytes of the
/// Keccak-256 digest of its UTF-8 bytes.
pub open spec fn selector(signature: Seq<char>) -> Seq<u8> {
    keccak256(encode_utf8(signature)).subrange(0, 4)
}

/// The input of a call: the selector of the signature, then the encoded
/// arguments.
pub open spec fn call_input(signature: Seq<char>, tokens: Seq<TokenView>) -> Seq<u8> {
    selector(signature) + encoded_tokens(tokens)
}

/// Encodes the arguments with `ethabi::encode`.
///
/// Trusted: for addresses and unsigned integers the encoder writes one
/// 32-byte word per argument and nothing else, as `encoded_tokens` says.
/// It counts the words in 32 bits, hence the bound.
#[verifier::external_body]
pub(crate) fn abi_encode(tokens: &[Token]) -> (out: Vec<u8>)
    requires
        tokens@.len() <= MAX_TOKENS,
    ensures
        out@ == encoded_tokens(token_views(tokens@)),
{
    let outside: Vec<ethabi::Token> = tokens
        .iter()
        .map(|t| match t {
            Token::Address(a) => ethabi::Token::Address(ethabi::Address::from(a.0)),
            Token::Uint(v) => ethabi::Token::Uint(ethabi::Uint::from(*v)),
        })
        .collect();
    ethabi::encode(&outside)
}

/// The selector held in a digest: its first four bytes.
pub fn selector_of_digest(digest: &[u8; 32]) -> (sel: Vec<u8>)
    ensures
        sel@ == digest@.subrange(0, 4),
        sel@.len() == 4,
{
    slice_to_vec(slice_subrange(digest.as_slice(), 0, 4))
}

/// The selector of the function with signature `str_selector`.
pub fn get_selector(str_selector: &str) -> (sel: Vec<u8>)
    ensures
        sel@ == selector(str_selector@),
        sel@.len() == 4,
{
    let digest = keccak(str_selector.as_bytes());
    selector_of_digest(&digest)
}

/// The input of a call with a selector that is already known.
pub fn encode_call(sel: &[u8], inputs: &[Token]) -> (input: Vec<u8>)
    requires
        inputs@.len() <= MAX_TOKENS,
    ensures
        input@ == sel@ + encoded_tokens(token_views(inputs@)),
        input@.len() == sel@.len() + 32 * inputs@.len(),
        forall|i: int|
            0 <= i < inputs@.len() ==> input@.subrange(
                sel@.len() + 32 * i,
                sel@.len() + 32 * i + 32,
            ) == token_word((#[trigger] inputs@[i])@),
{
    let mut input = slice_to_vec(sel);
    let args = abi_encode(inputs);
    input.extend_from_slice(args.as_slice());
    proof {
        lemma_input_layout(sel@, inputs@);
        let whole = sel@ + encoded_tokens(token_views(inputs@));
        assert forall|i: int| 0 <= i < inputs@.len() implies input@.subrange(
            sel@.len() + 32 * i,
            sel@.len() + 32 * i + 32,
        ) == token_word((#[trigger] inputs@[i])@) by {
            assert(whole.subrange(sel@.len() + 32 * i, sel@.len() + 32 * i + 32) == token_word(
                inputs@[i]@,
            ));
        }
    }
    input
}

/// The input of a call of the function with signature `str_selector` on the
/// arguments `inputs`.
pub fn build_input(str_selector: &str, inputs: &[Token]) -> (input: Vec<u8>)
    requires
        inputs@.len() <= MAX_TOKENS,
    ensures
        input@ == call_input(str_selector@, token_views(inputs@)),
        input@.len() == 4 + 32 * inputs@.len(),
        input@.len() == 4 + encoded_tokens(token_views(inputs@)).len(),
        input@.subrange(0, 4) == selector(str_selector@),
        forall|i: int|
            0 <= i < inputs@.len() ==> input@.subrange(4 + 32 * i, 36 + 32 * i) == token_word(
                (#[trigger] inputs@[i])@,
            ),
{
    let sel = get_selector(str_selector);
    let input = encode_call(sel.as_slice(), inputs);
    proof {
        lemma_views_are_well_sized(inputs@);
        lemma_encoded_len(token_views(inputs@));
        assert(input@.subrange(0, 4) =~= sel@);
        assert forall|i: int| 0 <= i < inputs@.len() implies input@.subrange(
            4 + 32 * i,
            36 + 32 * i,
        ) == token_word((#[trigger] inputs@[i])@) by {
            assert(input@.subrange(sel@.len() + 32 * i, sel@.len() + 32 * i + 32) == token_word(
                inputs@[i]@,
            ));
        }
    }
    input
}

/// A signature has one selector: two selectors computed for the same
/// signature are equal, whenever and in whatever order they are computed.
pub proof fn lemma_selector_is_unique(signature: Seq<char>, a: Seq<u8>, b: Seq<u8>)
    requires
        a == selector(signature),
        b == selector(signature),
    ensures
        a == b,
        a == keccak256(encode_utf8(signature)).subrange(0, 4),
{
}

/// The arguments of a list of tokens are well sized.
pub proof fn lemma_views_are_well_sized(tokens: Seq<Token>)
    ensures
        well_sized(token_views(tokens)),
{
    assert forall|i: int| 0 <= i < tokens.len() implies (#[trigger] token_views(
        tokens,
    )[i] matches TokenView::Address(a) ==> a.len() == 20) by {
        match tokens[i] {
            Token::Address(address) => {
                assert(address@.len() == 20);
            },
            Token::Uint(v) => {},
        }
    }
}

/// A well-sized argument list takes one 32-byte word for each argument.
pub proof fn lemma_encoded_len(tokens: Seq<TokenView>)
    requires
        well_sized(tokens),
    ensures
        encoded_tokens(tokens).len() == 32 * tokens.len(),
    decreases tokens.len(),
{
    if tokens.len() > 0 {
        let rest = tokens.drop_last();
        assert forall|i: int| 0 <= i < rest.len() implies (#[trigger] rest[i] matches TokenView::Address(
            a,
        ) ==> a.len() == 20) by {
            assert(rest[i] == tokens[i]);
        }
        lemma_encoded_len(rest);
        match tokens.last() {
            TokenView::Address(a) => {},
            TokenView::Uint(v) => {
                lemma_be_bytes_len(v as nat, 32);
            },
        }
    }
}

/// In the encoding of a well-sized argument list the word of argument `i`
/// stands at offset `32 * i`.
pub proof fn lemma_encoded_word(tokens: Seq<TokenView>, i: int)
    requires
        well_sized(tokens),
        0 <= i < tokens.len(),
    ensures
        encoded_tokens(tokens).subrange(32 * i, 32 * i + 32) == token_word(tokens[i]),
        token_word(tokens[i]).len() == 32,
    decreases tokens.len(),
{
    let rest = tokens.drop_last();
    assert forall|k: int| 0 <= k < rest.len() implies (#[trigger] rest[k] matches TokenView::Address(
        a,
    ) ==> a.len() == 20) by {
        assert(rest[k] == tokens[k]);
    }
    lemma_encoded_len(rest);
    lemma_encoded_len(tokens);
    let head = encoded_tokens(rest);
    let word = token_word(tokens.last());
    assert(encoded_tokens(tokens) == head + word);
    if i == tokens.len() - 1 {
        assert((head + word).subrange(32 * i, 32 * i + 32) =~= word);
    } else {
        lemma_encoded_word(rest, i);
        assert(rest[i] == tokens[i]);
        assert((head + word).subrange(32 * i, 32 * i + 32) =~= head.subrange(32 * i, 32 * i + 32));
    }
}

/// The layout of an input: the selector, then the word of argument `i` at
/// offset `32 * i` behind it.
pub proof fn lemma_input_layout(sel: Seq<u8>, inputs: Seq<Token>)
    ensures
        (sel + encoded_tokens(token_views(inputs))).len() == sel.len() + 32 * inputs.len(),
        (sel + encoded_tokens(token_views(inputs))).subrange(0, sel.len() as int) == sel,
        forall|i: int|
            0 <= i < inputs.len() ==> #[trigger] (sel + encoded_tokens(
                token_views(inputs),
            )).subrange(sel.len() + 32 * i, sel.len() + 32 * i + 32) == token_word(inputs[i]@),
{
    let views = token_views(inputs);
    let args = encoded_tokens(views);
    lemma_views_are_well_sized(inputs);
    lemma_encoded_len(views);
    assert((sel + args).subrange(0, sel.len() as int) =~= sel);
    assert forall|i: int| 0 <= i < inputs.len() implies #[trigger] (sel + args).subrange(
        sel.len() + 32 * i,
        sel.len() + 32 * i + 32,
    ) == token_word(inputs[i]@) by {
        lemma_encoded_word(views, i);
        assert((sel + args).subrange(sel.len() + 32 * i, sel.len() + 32 * i + 32)
            =~= args.subrange(32 * i, 32 * i + 32));
    }
}

} // verus!
