use vstd::prelude::*;


verus! {

#[verifier::external_type_specification]
#[verifier::external_body]
pub struct ExTokenizer(tokenizers::Tokenizer);

#[verifier::external_type_specification]
#[verifier::external_body]
pub struct ExEncoding(tokenizers::Encoding);

#[verifier::external_type_specification]
#[verifier::external_body]
pub struct ExPostProcessor(tokenizers::PostProcessorWrapper);

/// `e` is an encoding that the tokenizer `t` may produce for `text` with its
/// special tokens added. A relation, not a function: a model may sample its
/// segmentation, so one text can have several.
pub uninterp spec fn encodes_to(
    t: tokenizers::Tokenizer,
    text: Seq<char>,
    e: tokenizers::Encoding,
) -> bool;

/// The token ids an encoding holds, in the order of its tokens.
pub uninterp spec fn ids_of(e: tokenizers::Encoding) -> Seq<u32>;

/// The truncation settings a tokenizer carries, if any: maximum length and
/// stride.
pub uninterp spec fn truncation_of(t: tokenizers::Tokenizer) -> Option<(usize, usize)>;

/// The post-processor a tokenizer carries, if any.
pub uninterp spec fn post_processor_of(t: tokenizers::Tokenizer) -> Option<
    tokenizers::PostProcessorWrapper,
>;

/// How many special tokens a post-processor adds around a single sequence.
pub uninterp spec fn single_added_of(p: tokenizers::PostProcessorWrapper) -> usize;

/// How many special tokens the tokenizer adds around a single sequence.
pub open spec fn special_added(t: tokenizers::Tokenizer) -> usize {
    match post_processor_of(t) {
        Some(p) => single_added_of(p),
        None => 0,
    }
}

/// Truncation settings under which one sequence can be truncated to leave
/// room for `added` special tokens: the room left is not negative, and
/// unless it is zero it exceeds the stride.
pub open spec fn truncation_admits(limits: Option<(usize, usize)>, added: usize) -> bool {
    match limits {
        None => true,
        Some((max_length, stride)) => added <= max_length && (max_length - added == 0 || stride
            < max_length - added),
    }
}

/// The tokenizer's settings let it encode a single sequence with special
/// tokens.
pub open spec fn encodable(t: tokenizers::Tokenizer) -> bool {
    truncation_admits(truncation_of(t), special_added(t))
}

/// Relies on `tokenizers::Tokenizer::get_truncation`: the truncation
/// parameters set on the tokenizer, of which the maximum length and the
/// stride are kept.
#[verifier::external_body]
pub(crate) fn truncation_limits(tokenizer: &tokenizers::Tokenizer) -> (r: Option<(usize, usize)>)
    ensures
        r == truncation_of(*tokenizer),
{
    tokenizer.get_truncation().map(|p| (p.max_length, p.stride))
}

/// Relies on `tokenizers::Tokenizer::get_post_processor`: the post-processor
/// set on the tokenizer, if any.
#[verifier::external_body]
pub(crate) fn post_processor(tokenizer: &tokenizers::Tokenizer) -> (r: Option<
    &tokenizers::PostProcessorWrapper,
>)
    ensures
        r is Some <==> post_processor_of(*tokenizer) is Some,
        r is Some ==> *r->Some_0 == post_processor_of(*tokenizer)->Some_0,
{
    tokenizer.get_post_processor()
}

/// Relies on `tokenizers::PostProcessor::added_tokens` with `is_pair` false:
/// the number of special tokens the post-processor adds to one sequence.
#[verifier::external_body]
pub(crate) fn single_added_tokens(p: &tokenizers::PostProcessorWrapper) -> (r: usize)
    ensures
        r == single_added_of(*p),
{
    tokenizers::PostProcessor::added_tokens(p, false)
}

/// Relies on `tokenizers::Tokenizer::encode`: segments `text` with the
/// tokenizer's own pipeline, adding the post-processor's special tokens.
/// With truncation set, it first takes the number of those tokens from the
/// maximum length in `usize`, and truncating asserts that the stride is below
/// what is left; `requires` keeps out the settings on which either panics.
/// What comes out depends on the tokenizer's configuration, and some models
/// sample their segmentation, so an encoding that comes back is only said to
/// be one of the possible outcomes for `text`. The error value, a boxed trait
/// object, is dropped.
#[verifier::external_body]
pub(crate) fn encode_text(
    tokenizer: &tokenizers::Tokenizer,
    text: String,
    add_special_tokens: bool,
) -> (r: Option<tokenizers::Encoding>)
    requires
        add_special_tokens,
        encodable(*tokenizer),
    ensures
        r is Some ==> encodes_to(*tokenizer, text@, r->Some_0),
{
    tokenizer.encode(text, add_special_tokens).ok()
}

/// Relies on `tokenizers::Encoding::get_ids`: the token ids of an encoding,
/// in the order of the encoding's tokens.
#[verifier::external_body]
pub(crate) fn encoding_ids(encoding: &tokenizers::Encoding) -> (r: Vec<u32>)
    ensures
        r@ == ids_of(*encoding),
{
    encoding.get_ids().to_vec()
}

} // verus!
