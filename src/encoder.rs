use vstd::prelude::*;

use crate::backend::{
    encodable, encode_text, encodes_to, encoding_ids, ids_of, post_processor,
    single_added_tokens, truncation_admits, truncation_limits,
};

verus! {

/// Identifier of the pretrained model that the process-wide handle binds.
pub const MODEL_ID: &'static str = "TaylorAI/bge-micro-v2";

/// Why a request for token ids could not be served.
#[derive(Debug, Clone, Copy, PartialEq, Eq, Structural)]
pub enum EncoderError {
    /// The model could not be resolved or its tokenizer could not be read.
    Load,
    /// The tokenizer refused the text.
    Encode,
}

/// A loaded tokenizer bound to the identifier of the model it came from.
///
/// The handle is immutable: no method takes it by `&mut`, so once built it
/// keeps its model and its tokenizer for as long as it lives, and every
/// holder of a shared reference sees the same one.
pub struct Encoder {
    model: String,
    tokenizer: tokenizers::Tokenizer,
}

impl Encoder {
    /// The identifier of the model this handle is bound to.
    pub closed spec fn model_spec(&self) -> Seq<char> {
        self.model@
    }

    /// The tokenizer this handle encodes with.
    pub closed spec fn tokenizer_spec(&self) -> tokenizers::Tokenizer {
        self.tokenizer
    }

    /// Binds an already built tokenizer to the identifier of its model.
    pub fn from_tokenizer(model: String, tokenizer: tokenizers::Tokenizer) -> (r: Encoder)
        ensures
            r.model_spec() == model@,
            r.tokenizer_spec() == tokenizer,
    {
        Encoder { model, tokenizer }
    }

    /// Turns the outcome of resolving `model` into a handle: a tokenizer
    /// that was found is bound to `model`, a failed lookup is a load error.
    pub fn from_loaded(model: &str, loaded: Option<tokenizers::Tokenizer>) -> (r: Result<
        Encoder,
        EncoderError,
    >)
        ensures
            loaded is None ==> r == Err::<Encoder, EncoderError>(EncoderError::Load),
            loaded is Some ==> r is Ok && r->Ok_0.model_spec() == model@
                && r->Ok_0.tokenizer_spec() == loaded->Some_0,
    {
        match loaded {
            Some(tokenizer) => Ok(Encoder::from_tokenizer(model.to_string(), tokenizer)),
            None => Err(EncoderError::Load),
        }
    }

    /// The identifier of the model this handle is bound to.
    pub fn model_id(&self) -> (r: &str)
        ensures
            r@ == self.model_spec(),
    {
        self.model.as_str()
    }
}

/// Turns the outcome of one tokenizer call into the caller's result: the ids
/// as the tokenizer produced them, in the same order, or an encoding error.
pub fn ids_or_error(outcome: Option<Vec<u32>>) -> (r: Result<Vec<u32>, EncoderError>)
    ensures
        outcome is None ==> r == Err::<Vec<u32>, EncoderError>(EncoderError::Encode),
        outcome is Some ==> r is Ok && r->Ok_0@ == outcome->Some_0@,
{
    match outcome {
        Some(ids) => Ok(ids),
        None => Err(EncoderError::Encode),
    }
}

/// Whether truncation settings leave room for `added` special tokens.
fn truncation_allows(limits: Option<(usize, usize)>, added: usize) -> (r: bool)
    ensures
        r == truncation_admits(limits, added),
{
    match limits {
        None => true,
        Some((max_length, stride)) => added <= max_length && (max_length - added == 0 || stride
            < max_length - added),
    }
}

/// Encodes `text` with the handle's tokenizer, asking for the special
/// boundary tokens of its scheme, and returns the token ids in the order the
/// tokenizer produced them: on success they are the ids of an encoding that
/// the tokenizer gives for `text`. A text that the tokenizer refuses is an
/// encoding error, and so is every text when the tokenizer's truncation
/// leaves no room for its special tokens.
pub fn encode(encoder: &Encoder, text: String) -> (r: Result<Vec<u32>, EncoderError>)
    ensures
        r is Err ==> r->Err_0 == EncoderError::Encode,
        !encodable(encoder.tokenizer_spec()) ==> r == Err::<Vec<u32>, EncoderError>(
            EncoderError::Encode,
        ),
        r is Ok ==> exists|e: tokenizers::Encoding|
            #[trigger] encodes_to(encoder.tokenizer_spec(), text@, e) && r->Ok_0@ == ids_of(e),
{
    let limits = truncation_limits(&encoder.tokenizer);
    let added: usize = match post_processor(&encoder.tokenizer) {
        Some(p) => single_added_tokens(p),
        None => 0,
    };
    if !truncation_allows(limits, added) {
        return Err(EncoderError::Encode);
    }
    let ghost text_seq = text@;
    match encode_text(&encoder.tokenizer, text, true) {
        Some(encoding) => {
            let ids = encoding_ids(&encoding);
            assert(encodes_to(encoder.tokenizer_spec(), text_seq, encoding));
            ids_or_error(Some(ids))
        },
        None => ids_or_error(None),
    }
}

/// Encodes `text` with the outcome of looking up a handle: a handle that
/// could not be had passes its error on, and no ids; a handle that was found
/// encodes as [`encode`] does.
pub fn encode_loaded(handle: Result<&Encoder, EncoderError>, text: String) -> (r: Result<
    Vec<u32>,
    EncoderError,
>)
    ensures
        handle is Err ==> r == Err::<Vec<u32>, EncoderError>(handle->Err_0),
        handle is Ok ==> (r is Err ==> r->Err_0 == EncoderError::Encode),
        handle is Ok && !encodable(handle->Ok_0.tokenizer_spec()) ==> r == Err::<
            Vec<u32>,
            EncoderError,
        >(EncoderError::Encode),
        r is Ok ==> handle is Ok && encodable(handle->Ok_0.tokenizer_spec()),
        r is Ok ==> exists|e: tokenizers::Encoding|
            #[trigger] encodes_to(handle->Ok_0.tokenizer_spec(), text@, e) && r->Ok_0@ == ids_of(
                e,
            ),
{
    match handle {
        Ok(encoder) => encode(encoder, text),
        Err(e) => Err(e),
    }
}

} // verus!
