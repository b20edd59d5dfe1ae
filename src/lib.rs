//! Text-to-token-id encoding with one pretrained subword tokenizer.
//!
//! The tokenizer itself comes from the `tokenizers` crate; this library owns
//! the handle that binds it to a model identifier, the choice of model, the
//! request for special tokens, and the typed failures of loading and encoding.
//! Resolving the model's files is left to the caller, which hands the outcome
//! to [`Encoder::from_loaded`].
mod backend;
pub mod encoder;

pub use encoder::{encode, encode_loaded, ids_or_error, Encoder, EncoderError, MODEL_ID};
