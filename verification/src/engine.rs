//! The byte-pair-encoding engine, as far as this library relies on it.
//!
//! The engine itself lives in the `tiktoken-rs` crate. Nothing in this file is
//! proved about that crate: each item below states what the library takes on
//! trust from it, and everything else in the library is verified against these
//! statements.

use std::collections::HashSet;
use vstd::prelude::*;
use vstd::utf8::*;

verus! {

/// The engine type of `tiktoken-rs`: vocabulary, merge ranks and splitting
/// pattern. Opaque to the verifier.
#[verifier::external_type_specification]
#[verifier::external_body]
pub struct ExCoreBPE(tiktoken_rs::CoreBPE);

/// The error with which `tiktoken_rs::CoreBPE::encode` gives up on a text.
#[verifier::external_type_specification]
#[verifier::external_body]
pub struct ExEncodeError(tiktoken_rs::EncodeError);

/// The error type of `anyhow`, with which loading and decoding fail.
#[verifier::external_type_specification]
#[verifier::external_body]
pub struct ExAnyhowError(anyhow::Error);

/// The token ids that the cl100k engine assigns to a text, or `None` where the
/// engine gives up on the text.
///
/// This names the result of `tiktoken_rs::CoreBPE::encode` on the engine that
/// `tiktoken_rs::cl100k_base` builds, with no special token allowed.
pub uninterp spec fn cl100k_tokens(text: Seq<char>) -> Option<Seq<u32>>;

/// The bytes that a token id stands for in the cl100k vocabulary, or `None`
/// for an id that the vocabulary does not hold.
///
/// This names an entry of the decoding tables of the engine that
/// `tiktoken_rs::cl100k_base` builds: the ordinary tokens first, then the
/// special ones.
pub uninterp spec fn cl100k_token_bytes(id: u32) -> Option<Seq<u8>>;

/// Every id of `tokens` is in the vocabulary.
pub open spec fn all_known(tokens: Seq<u32>) -> bool {
    forall|i: int| 0 <= i < tokens.len() ==> (#[trigger] cl100k_token_bytes(tokens[i])) is Some
}

/// The bytes of the tokens, one after the other.
pub open spec fn joined_bytes(tokens: Seq<u32>) -> Seq<u8>
    decreases tokens.len(),
{
    if tokens.len() == 0 {
        Seq::empty()
    } else {
        joined_bytes(tokens.drop_last()) + cl100k_token_bytes(tokens.last()).unwrap()
    }
}

/// The text that a token sequence decodes to: the joined bytes of its tokens
/// read as UTF-8. `None` where an id is unknown or the bytes are not UTF-8.
pub open spec fn decoded_text(tokens: Seq<u32>) -> Option<Seq<char>> {
    if all_known(tokens) && valid_utf8(joined_bytes(tokens)) {
        Some(decode_utf8(joined_bytes(tokens)))
    } else {
        None
    }
}

/// A loaded cl100k engine.
///
/// The only way to obtain one is [`Engine::load`], so every `Engine` carries
/// the cl100k tables; the trusted contracts below rely on that.
pub struct Engine {
    bpe: tiktoken_rs::CoreBPE,
}

impl Engine {
    /// Builds the engine from the vocabulary bundled with `tiktoken-rs`.
    ///
    /// Trusted: calls `tiktoken_rs::cl100k_base`. Nothing is claimed about
    /// whether it succeeds.
    #[verifier::external_body]
    pub(crate) fn load() -> (loaded: Result<Engine, anyhow::Error>) {
        match tiktoken_rs::cl100k_base() {
            Ok(bpe) => Ok(Engine { bpe }),
            Err(error) => Err(error),
        }
    }

    /// Encodes a text as ordinary text: no special token is recognised.
    ///
    /// Trusted: calls `tiktoken_rs::CoreBPE::encode` with an empty set of
    /// allowed special tokens and keeps the token list. The claim is that the
    /// outcome depends on the text alone, which gives it its name.
    ///
    /// `encode` is called, not `encode_ordinary`: the two split and merge the
    /// text alike, but where the pattern matcher runs out of its stack or of
    /// its backtracking budget (a run of a million blanks before a letter
    /// does it) `encode` returns an error and `encode_ordinary` panics.
    #[verifier::external_body]
    pub(crate) fn encode(&self, text: &str) -> (outcome: Result<
        Vec<u32>,
        tiktoken_rs::EncodeError,
    >)
        ensures
            outcome matches Ok(tokens) ==> cl100k_tokens(text@) == Some(tokens@),
            outcome is Err ==> cl100k_tokens(text@) is None,
    {
        self.bpe.encode(text, &HashSet::new()).map(|(tokens, _)| tokens)
    }

    /// Decodes token ids to text.
    ///
    /// Trusted: calls `tiktoken_rs::CoreBPE::decode`. The claim is what its
    /// source shows: it looks each id up in the decoding tables, fails on the
    /// first id that is in neither, appends the bytes found, and fails if the
    /// bytes are not UTF-8.
    #[verifier::external_body]
    pub(crate) fn decode(&self, tokens: &[u32]) -> (outcome: Result<String, anyhow::Error>)
        ensures
            outcome is Ok <==> ({
                &&& forall|i: int|
                    0 <= i < tokens@.len() ==> (#[trigger] cl100k_token_bytes(tokens@[i])) is Some
                &&& valid_utf8(joined_bytes(tokens@))
            }),
            outcome matches Ok(text) ==> text@ == decode_utf8(joined_bytes(tokens@)),
    {
        self.bpe.decode(tokens)
    }
}

} // verus!
