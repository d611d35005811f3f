//! The tokenizer and its operations.
//!
//! Every operation reports through its own return value: a C `int` that is a
//! count or a status, or an optional string. Invalid input and use before a
//! successful initialisation give the error value of the operation, never a
//! panic.

use crate::engine::{cl100k_tokens, decoded_text, Engine};
use crate::marshal::{
    c_int_of_count, count_to_c_int, filled, ranks_of, to_ranks, write_tokens,
};
use crate::text::{c_representable, contains_nul, text_of};
use vstd::prelude::*;
use vstd::utf8::*;

verus! {

/// The status of a tokenizer that is ready.
pub const STATUS_OK: i32 = 0;

/// The value with which the integer operations report an error.
pub const STATUS_ERROR: i32 = -1;

/// Where a tokenizer stands in its life.
pub enum Lifecycle {
    /// No initialisation was attempted yet.
    Fresh,
    /// The one initialisation failed; the tokenizer stays unusable.
    Failed,
    /// The one initialisation succeeded; the engine is loaded.
    Ready,
}

/// The state after an initialisation during which loading would succeed
/// (`loaded`) or fail. Only a fresh tokenizer loads at all.
pub open spec fn after_initialize(state: Lifecycle, loaded: bool) -> Lifecycle {
    match state {
        Lifecycle::Fresh => if loaded {
            Lifecycle::Ready
        } else {
            Lifecycle::Failed
        },
        Lifecycle::Failed => Lifecycle::Failed,
        Lifecycle::Ready => Lifecycle::Ready,
    }
}

/// The status that initialisation reports in a state.
pub open spec fn status_code(state: Lifecycle) -> i32 {
    if state == Lifecycle::Ready {
        STATUS_OK
    } else {
        STATUS_ERROR
    }
}

/// The flag that the readiness check reports in a state.
pub open spec fn ready_flag(state: Lifecycle) -> i32 {
    if state == Lifecycle::Ready {
        1i32
    } else {
        0i32
    }
}

/// The tokens of a text given as bytes: there are some only if the tokenizer
/// is ready, the bytes are UTF-8 and the engine does not give up on the text.
pub open spec fn encoding(state: Lifecycle, bytes: Seq<u8>) -> Option<Seq<u32>> {
    if state == Lifecycle::Ready && valid_utf8(bytes) {
        cl100k_tokens(decode_utf8(bytes))
    } else {
        None
    }
}

/// What counting reports for a text (`None`: the null pointer).
pub open spec fn count_tokens_result(state: Lifecycle, text: Option<Seq<u8>>) -> i32 {
    match text {
        None => 0i32,
        Some(bytes) => if !valid_utf8(bytes) {
            STATUS_ERROR
        } else if bytes.len() == 0 {
            0i32
        } else {
            match encoding(state, bytes) {
                Some(tokens) => c_int_of_count(tokens.len()),
                None => STATUS_ERROR,
            }
        },
    }
}

/// What encoding reports for a text and a buffer that is there or not.
pub open spec fn encode_result(state: Lifecycle, text: Option<Seq<u8>>, has_buffer: bool) -> i32 {
    match text {
        Some(bytes) if has_buffer => match encoding(state, bytes) {
            Some(tokens) => c_int_of_count(tokens.len()),
            None => STATUS_ERROR,
        },
        _ => STATUS_ERROR,
    }
}

/// What encoding leaves in the caller's buffer.
pub open spec fn encode_buffer(state: Lifecycle, text: Option<Seq<u8>>, buffer: Seq<i32>) -> Seq<
    i32,
> {
    match text {
        Some(bytes) => match encoding(state, bytes) {
            Some(tokens) => filled(buffer, tokens),
            None => buffer,
        },
        None => buffer,
    }
}

/// What decoding returns for an array of C `int`s (`None`: the null pointer).
pub open spec fn decode_result(state: Lifecycle, ids: Option<Seq<i32>>) -> Option<Seq<char>> {
    match ids {
        Some(ids) if ids.len() > 0 && state == Lifecycle::Ready => match decoded_text(
            ranks_of(ids),
        ) {
            Some(text) if c_representable(text) => Some(text),
            _ => None,
        },
        _ => None,
    }
}

/// The bytes behind an optional byte slice.
pub open spec fn bytes_of(text: Option<&[u8]>) -> Option<Seq<u8>> {
    match text {
        Some(bytes) => Some(bytes@),
        None => None,
    }
}

/// The C `int`s behind an optional slice of them.
pub open spec fn ids_of(tokens: Option<&[i32]>) -> Option<Seq<i32>> {
    match tokens {
        Some(ids) => Some(ids@),
        None => None,
    }
}

enum Slot {
    Fresh,
    Failed,
    Ready(Engine),
}

/// A tokenizer: at first without an engine, then, after the one
/// initialisation, with the engine or for ever without it.
pub struct Tokenizer {
    slot: Slot,
}

impl View for Tokenizer {
    type V = Lifecycle;

    closed spec fn view(&self) -> Lifecycle {
        match self.slot {
            Slot::Fresh => Lifecycle::Fresh,
            Slot::Failed => Lifecycle::Failed,
            Slot::Ready(_) => Lifecycle::Ready,
        }
    }
}

impl Tokenizer {
    /// A tokenizer on which no initialisation was attempted.
    pub fn new() -> (tok: Tokenizer)
        ensures
            tok@ == Lifecycle::Fresh,
    {
        Tokenizer { slot: Slot::Fresh }
    }

    /// The status that initialisation reports now: 0 when ready, else -1.
    pub fn status(&self) -> (status: i32)
        ensures
            status == status_code(self@),
    {
        match self.slot {
            Slot::Ready(_) => STATUS_OK,
            _ => STATUS_ERROR,
        }
    }

    /// Takes in the outcome of loading the engine and reports the status.
    /// Only a fresh tokenizer takes it in: on any other the outcome is dropped
    /// and nothing changes.
    pub fn record_load(&mut self, loaded: Result<Engine, anyhow::Error>) -> (status: i32)
        ensures
            final(self)@ == after_initialize(old(self)@, loaded is Ok),
            status == status_code(final(self)@),
    {
        if let Slot::Fresh = self.slot {
            match loaded {
                Ok(engine) => {
                    self.slot = Slot::Ready(engine);
                },
                Err(_) => {
                    self.slot = Slot::Failed;
                },
            }
        }
        self.status()
    }

    fn engine(&self) -> (engine: Option<&Engine>)
        ensures
            engine is Some <==> self@ == Lifecycle::Ready,
    {
        match &self.slot {
            Slot::Ready(engine) => Some(engine),
            _ => None,
        }
    }
}

/// Initialises the tokenizer: a fresh one loads the engine, once; any other is
/// left as it is. Returns 0 if the tokenizer is ready afterwards, else -1.
pub fn tokenizer_initialize(tok: &mut Tokenizer) -> (status: i32)
    ensures
        old(tok)@ != Lifecycle::Fresh ==> final(tok)@ == old(tok)@,
        old(tok)@ == Lifecycle::Fresh ==> final(tok)@ != Lifecycle::Fresh,
        final(tok)@ == after_initialize(old(tok)@, final(tok)@ == Lifecycle::Ready),
        status == status_code(final(tok)@),
{
    if let Slot::Fresh = tok.slot {
        let loaded = Engine::load();
        tok.record_load(loaded)
    } else {
        tok.status()
    }
}

/// Tells whether the tokenizer is ready: 1 or 0.
pub fn tokenizer_is_ready(tok: &Tokenizer) -> (flag: i32)
    ensures
        flag == ready_flag(tok@),
{
    match tok.slot {
        Slot::Ready(_) => 1,
        _ => 0,
    }
}

/// Counts the tokens of a text, given as the bytes of a C string or as the
/// null pointer (`None`).
pub fn tokenizer_count_tokens(tok: &Tokenizer, text: Option<&[u8]>) -> (count: i32)
    ensures
        count == count_tokens_result(tok@, bytes_of(text)),
{
    let bytes = match text {
        Some(bytes) => bytes,
        None => {
            return 0;
        },
    };
    let text = match text_of(bytes) {
        Some(text) => text,
        None => {
            return STATUS_ERROR;
        },
    };
    if bytes.len() == 0 {
        return 0;
    }
    match tok.engine() {
        Some(engine) => match engine.encode(text) {
            Ok(tokens) => count_to_c_int(tokens.len()),
            Err(_) => STATUS_ERROR,
        },
        None => STATUS_ERROR,
    }
}

/// Encodes a text into the caller's buffer and returns the number of its
/// tokens, which may be more than the buffer holds: the buffer then holds the
/// first of them, as many as fit.
pub fn tokenizer_encode(tok: &Tokenizer, text: Option<&[u8]>, tokens_buffer: Option<
    &mut [i32],
>) -> (count: i32)
    ensures
        count == encode_result(tok@, bytes_of(text), tokens_buffer is Some),
        tokens_buffer matches Some(buffer) ==> final(buffer)@ == encode_buffer(
            tok@,
            bytes_of(text),
            buffer@,
        ),
{
    let (bytes, buffer) = match (text, tokens_buffer) {
        (Some(bytes), Some(buffer)) => (bytes, buffer),
        _ => {
            return STATUS_ERROR;
        },
    };
    let text = match text_of(bytes) {
        Some(text) => text,
        None => {
            return STATUS_ERROR;
        },
    };
    match tok.engine() {
        Some(engine) => match engine.encode(text) {
            Ok(tokens) => write_tokens(tokens.as_slice(), buffer),
            Err(_) => STATUS_ERROR,
        },
        None => STATUS_ERROR,
    }
}

/// What is handed out for an outcome of decoding: the text, unless decoding
/// failed or the text holds a NUL byte and so cannot be a C string.
pub fn c_text(outcome: Result<String, anyhow::Error>) -> (handle: Option<String>)
    ensures
        handle is Some <==> (outcome matches Ok(text) && c_representable(text@)),
        handle matches Some(text) ==> outcome matches Ok(decoded) && decoded == text,
{
    match outcome {
        Ok(text) => {
            if contains_nul(text.as_str().as_bytes()) {
                None
            } else {
                Some(text)
            }
        },
        Err(_) => None,
    }
}

/// Decodes an array of token ids, given as C `int`s or as the null pointer
/// (`None`), to the text they stand for.
pub fn tokenizer_decode(tok: &Tokenizer, tokens: Option<&[i32]>) -> (handle: Option<String>)
    ensures
        handle is Some <==> decode_result(tok@, ids_of(tokens)) is Some,
        handle matches Some(text) ==> decode_result(tok@, ids_of(tokens)) == Some(text@),
{
    let ids = match tokens {
        Some(ids) => ids,
        None => {
            return None;
        },
    };
    if ids.len() == 0 {
        return None;
    }
    match tok.engine() {
        Some(engine) => {
            let ranks = to_ranks(ids);
            c_text(engine.decode(ranks.as_slice()))
        },
        None => None,
    }
}

} // verus!
