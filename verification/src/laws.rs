//! What holds of the tokenizer's operations taken together, stated over the
//! functions that their contracts use.

use crate::engine::{all_known, cl100k_token_bytes, cl100k_tokens, decoded_text, joined_bytes};
use crate::marshal::{c_int_of_count, c_int_of_rank, c_ints_of, filled, rank_of_c_int, ranks_of};
use crate::text::c_representable;
use crate::tokenizer::{
    after_initialize, count_tokens_result, decode_result, encode_buffer, encode_result, encoding,
    ready_flag, status_code, Lifecycle, STATUS_ERROR, STATUS_OK,
};
use vstd::prelude::*;
use vstd::utf8::*;

verus! {

/// The state after a run of initialisations, one after the other, where
/// `loads[i]` tells whether loading would succeed during the i-th of them.
pub open spec fn after_initializations(state: Lifecycle, loads: Seq<bool>) -> Lifecycle
    decreases loads.len(),
{
    if loads.len() == 0 {
        state
    } else {
        after_initializations(after_initialize(state, loads[0]), loads.drop_first())
    }
}

/// Initialisation happens once: after any number of initialisations a
/// tokenizer is where the first of them left it, so no later load counts. If
/// the tokenizer was fresh and the first load succeeds, it is ready, however
/// many initialisations follow.
pub proof fn lemma_initialize_once(state: Lifecycle, loads: Seq<bool>)
    requires
        loads.len() > 0,
    ensures
        after_initializations(state, loads) == after_initialize(state, loads[0]),
        after_initializations(state, loads) != Lifecycle::Fresh,
        state == Lifecycle::Fresh && loads[0] ==> {
            &&& ready_flag(after_initializations(state, loads)) == 1
            &&& status_code(after_initializations(state, loads)) == STATUS_OK
        },
        state == Lifecycle::Ready ==> after_initializations(state, loads) == Lifecycle::Ready,
    decreases loads.len(),
{
    let first = after_initialize(state, loads[0]);
    let rest = loads.drop_first();
    if rest.len() > 0 {
        lemma_initialize_once(first, rest);
        assert(after_initialize(first, rest[0]) == first);
    } else {
        assert(after_initializations(first, rest) == first);
    }
}

/// A token id survives the passage through a C `int`, in both directions.
pub proof fn lemma_c_int_carries_rank(rank: u32, id: i32)
    ensures
        rank_of_c_int(c_int_of_rank(rank)) == rank,
        c_int_of_rank(rank_of_c_int(id)) == id,
{
}

/// A token list survives the passage through an array of C `int`s.
pub proof fn lemma_c_ints_carry_ranks(tokens: Seq<u32>)
    ensures
        ranks_of(c_ints_of(tokens)) == tokens,
{
    assert forall|i: int| 0 <= i < tokens.len() implies ranks_of(c_ints_of(tokens))[i]
        == tokens[i] by {
        lemma_c_int_carries_rank(tokens[i], 0);
    }
    assert(ranks_of(c_ints_of(tokens)) =~= tokens);
}

/// The engine encodes a text without loss: it does not give up on the text,
/// every token it assigns is in the vocabulary, and the bytes of the tokens,
/// joined, are the UTF-8 bytes of the text.
pub open spec fn encoded_losslessly(text: Seq<char>) -> bool {
    &&& cl100k_tokens(text) matches Some(tokens)
    &&& all_known(tokens)
    &&& joined_bytes(tokens) == encode_utf8(text)
}

/// Decoding undoes encoding wherever the engine encodes without loss: for a
/// text that is not empty, holds no NUL and is encoded losslessly, a ready
/// tokenizer that encodes the text into a buffer long enough for all its
/// tokens, and then decodes the tokens it wrote, returns the text.
///
/// That the engine encodes a given text without loss is a premise here; the
/// library states it of no text.
pub proof fn lemma_lossless_encoding_round_trips(text: Seq<char>, buffer: Seq<i32>)
    requires
        text.len() > 0,
        c_representable(text),
        encoded_losslessly(text),
        cl100k_tokens(text).unwrap().len() <= buffer.len(),
    ensures
        ({
            let bytes = encode_utf8(text);
            let count = cl100k_tokens(text).unwrap().len();
            let written = encode_buffer(Lifecycle::Ready, Some(bytes), buffer);
            &&& count > 0
            &&& encode_result(Lifecycle::Ready, Some(bytes), true) == c_int_of_count(count)
            &&& decode_result(Lifecycle::Ready, Some(written.take(count as int))) == Some(text)
        }),
{
    let bytes = encode_utf8(text);
    let tokens = cl100k_tokens(text).unwrap();
    let count = tokens.len();
    encode_utf8_valid_utf8(text);
    encode_utf8_decode_utf8(text);
    assert(encoding(Lifecycle::Ready, bytes) == Some(tokens));
    let written = encode_buffer(Lifecycle::Ready, Some(bytes), buffer);
    assert(written == filled(buffer, tokens));
    assert(written.take(count as int) =~= c_ints_of(tokens));
    lemma_c_ints_carry_ranks(tokens);
    assert(bytes.len() > 0) by {
        assert(bytes == encode_scalar(text[0] as u32) + encode_utf8(text.drop_first()));
    }
    assert(decoded_text(tokens) == Some(text));
}

/// Truncation: where the buffer is shorter than the token list, encoding still
/// reports the number of all tokens, and the buffer holds exactly what the
/// front of a buffer long enough for all of them would hold. Past the tokens
/// written, a buffer is left as it was.
pub proof fn lemma_truncated_encoding(
    state: Lifecycle,
    bytes: Seq<u8>,
    short: Seq<i32>,
    long: Seq<i32>,
)
    requires
        encoding(state, bytes) is Some,
        short.len() < encoding(state, bytes).unwrap().len() <= long.len(),
    ensures
        ({
            let tokens = encoding(state, bytes).unwrap();
            let truncated = encode_buffer(state, Some(bytes), short);
            let whole = encode_buffer(state, Some(bytes), long);
            &&& encode_result(state, Some(bytes), true) == c_int_of_count(tokens.len())
            &&& truncated.len() == short.len()
            &&& truncated == whole.take(short.len() as int)
            &&& whole.take(tokens.len() as int) == c_ints_of(tokens)
            &&& whole.skip(tokens.len() as int) == long.skip(tokens.len() as int)
        }),
{
    let tokens = encoding(state, bytes).unwrap();
    let truncated = encode_buffer(state, Some(bytes), short);
    let whole = encode_buffer(state, Some(bytes), long);
    assert(truncated =~= whole.take(short.len() as int));
    assert(whole.take(tokens.len() as int) =~= c_ints_of(tokens));
    assert(whole.skip(tokens.len() as int) =~= long.skip(tokens.len() as int));
}

/// The null pointer and the empty input, in every state: counting gives 0 for
/// the null pointer and for the empty text, decoding gives nothing for the
/// null pointer and for an array of no tokens.
pub proof fn lemma_null_and_empty_inputs(state: Lifecycle)
    ensures
        count_tokens_result(state, None) == 0,
        count_tokens_result(state, Some(Seq::<u8>::empty())) == 0,
        decode_result(state, None) is None,
        decode_result(state, Some(Seq::<i32>::empty())) is None,
{
    assert(valid_utf8(Seq::<u8>::empty()));
}

/// Before a successful initialisation every operation reports its error value
/// and the readiness check reports 0: encoding for every input, and it leaves
/// the buffer as it was; decoding for every input; counting for every text
/// but the null pointer and the empty text, for which it gives 0 in every
/// state.
pub proof fn lemma_not_ready_reports_errors(
    state: Lifecycle,
    text: Option<Seq<u8>>,
    has_buffer: bool,
    buffer: Seq<i32>,
    ids: Option<Seq<i32>>,
)
    requires
        state != Lifecycle::Ready,
    ensures
        ready_flag(state) == 0,
        status_code(state) == STATUS_ERROR,
        encode_result(state, text, has_buffer) == STATUS_ERROR,
        encode_buffer(state, text, buffer) == buffer,
        decode_result(state, ids) is None,
        text matches Some(bytes) && bytes.len() > 0 ==> count_tokens_result(state, text)
            == STATUS_ERROR,
{
}

/// An id that the vocabulary does not hold makes decoding fail, wherever it
/// stands in the array and whatever the other ids are.
pub proof fn lemma_unknown_id_fails_decoding(state: Lifecycle, ids: Seq<i32>, at: int)
    requires
        0 <= at < ids.len(),
        cl100k_token_bytes(rank_of_c_int(ids[at])) is None,
    ensures
        decode_result(state, Some(ids)) is None,
{
    assert(ranks_of(ids)[at] == rank_of_c_int(ids[at]));
    assert(!all_known(ranks_of(ids)));
}

/// Bytes that are not UTF-8 are an error for counting and for encoding, in
/// every state, and encoding leaves the buffer as it was.
pub proof fn lemma_invalid_text_is_an_error(state: Lifecycle, bytes: Seq<u8>, buffer: Seq<i32>)
    requires
        !valid_utf8(bytes),
    ensures
        count_tokens_result(state, Some(bytes)) == STATUS_ERROR,
        encode_result(state, Some(bytes), true) == STATUS_ERROR,
        encode_buffer(state, Some(bytes), buffer) == buffer,
{
}

/// Counting and encoding agree: for a text that is not empty, counting reports
/// what encoding into a buffer reports, so a caller can size the buffer by the
/// count.
pub proof fn lemma_count_agrees_with_encode(state: Lifecycle, bytes: Seq<u8>)
    requires
        bytes.len() > 0,
    ensures
        count_tokens_result(state, Some(bytes)) == encode_result(state, Some(bytes), true),
{
}

} // verus!
