//! Token counting with the `cl100k_base` encoding of `tiktoken-rs`.
use vstd::prelude::*;

verus! {

#[verifier::external_type_specification]
#[verifier::external_body]
pub struct ExCoreBpe(tiktoken_rs::CoreBPE);

#[verifier::external_type_specification]
#[verifier::external_body]
pub struct ExAnyhowError(anyhow::Error);

/// The number of tokens of `text` in the `cl100k_base` encoding, with special
/// tokens allowed; `None` where the encoder reports an error.
pub uninterp spec fn cl100k_token_count(text: Seq<char>) -> Option<nat>;

/// The `cl100k_base` tokenizer. It can only be made by `Tokenizer::cl100k`.
pub struct Tokenizer {
    bpe: tiktoken_rs::CoreBPE,
}

/// `tiktoken_rs::cl100k_base()`. It builds the encoder from the table compiled
/// into `tiktoken-rs`, so it succeeds (`tiktoken-rs` itself unwraps this call
/// in `cl100k_base_singleton`); nothing else is stated of the opaque encoder.
#[verifier::external_body]
fn load_cl100k() -> (r: Result<tiktoken_rs::CoreBPE, anyhow::Error>)
    ensures
        r is Ok,
{
    tiktoken_rs::cl100k_base()
}

/// `CoreBPE::encode` with the encoder's own special tokens allowed (what
/// `encode_with_special_tokens` does, without its `unwrap`), as a count of
/// tokens. Every `Tokenizer` holds the `cl100k_base` encoder, so the count is
/// that of `cl100k_base`.
#[verifier::external_body]
fn encoded_len(tok: &Tokenizer, text: &str) -> (r: Option<usize>)
    ensures
        match r {
            Some(n) => cl100k_token_count(text@) == Some(n as nat),
            None => cl100k_token_count(text@) is None,
        },
{
    tok.bpe.encode(text, &tok.bpe.special_tokens()).ok().map(|(tokens, _)| tokens.len())
}

impl Tokenizer {
    /// Loads the `cl100k_base` encoder, which always succeeds.
    pub fn cl100k() -> (r: Result<Tokenizer, anyhow::Error>)
        ensures
            r is Ok,
    {
        match load_cl100k() {
            Ok(bpe) => Ok(Tokenizer { bpe }),
            Err(e) => Err(e),
        }
    }

    /// The number of `cl100k_base` tokens of `text`, or `None` where the
    /// encoder fails.
    pub fn count(&self, text: &str) -> (r: Option<usize>)
        ensures
            match r {
                Some(n) => cl100k_token_count(text@) == Some(n as nat),
                None => cl100k_token_count(text@) is None,
            },
    {
        encoded_len(self, text)
    }
}

} // verus!
