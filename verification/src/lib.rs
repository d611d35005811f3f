//! A cl100k byte-pair-encoding tokenizer behind a C-shaped interface: integer
//! status codes, nullable inputs, caller-owned output buffers.
//!
//! The engine is that of the `tiktoken-rs` crate, reached through the few
//! trusted items of [`engine`]. Everything around it is verified: the life of
//! a [`Tokenizer`], the handling of null, empty and invalid input, the passage
//! of token ids through C `int`s, and the truncation of a token list to the
//! caller's buffer.

pub mod engine;
pub mod laws;
pub mod marshal;
pub mod text;
pub mod tokenizer;

pub use engine::Engine;
pub use tokenizer::{
    c_text, tokenizer_count_tokens, tokenizer_decode, tokenizer_encode, tokenizer_initialize,
    tokenizer_is_ready, Lifecycle, Tokenizer, STATUS_ERROR, STATUS_OK,
};
