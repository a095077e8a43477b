//! Tokenizers: loading one, encoding through one, and releasing it. The
//! engine's load and encode calls are handed in by the caller, who makes
//! them where a failure of the engine to return can be contained.

use vstd::prelude::*;
use crate::encoding::{not_parallel_text, parallel, EncodingResult};
use crate::error::BridgeError;
use crate::handle::{access_report, release_report, Handle};
use crate::input::{batch, pair, pair_batch, single, with_special_tokens, EncodeInput};

verus! {

/// Whether `r` is what becomes of `outcome`, the answer to a load: a
/// tokenizer is held by a new handle, and the engine's failure is handed
/// on with the engine's own text.
pub open spec fn holds(
    outcome: Result<tokenizers::Tokenizer, String>,
    r: Result<Handle<tokenizers::Tokenizer>, BridgeError>,
) -> bool {
    match outcome {
        Ok(tokenizer) => r matches Ok(handle) && handle@ == Some(tokenizer),
        Err(text) => r == Err::<Handle<tokenizers::Tokenizer>, BridgeError>(
            BridgeError::EngineError(text),
        ),
    }
}

/// Binds what a load returned to a new handle: see `holds`.
pub fn attach_tokenizer(outcome: Result<tokenizers::Tokenizer, String>) -> (r: Result<
    Handle<tokenizers::Tokenizer>,
    BridgeError,
>)
    ensures
        holds(outcome, r),
{
    match outcome {
        Ok(tokenizer) => {
            let mut handle = Handle::empty();
            let attached = handle.attach(tokenizer);
            Ok(handle)
        },
        Err(text) => Err(BridgeError::EngineError(text)),
    }
}

/// Loads a tokenizer from the model file at `path` into a new handle.
/// `load` is the engine's load call: it is made once, on `path` as it
/// came, and what it answers is bound as `holds` says. Whether the load
/// succeeds is the engine's to say; its failure leaves no handle.
pub fn from_file<F: FnOnce(&str) -> Result<tokenizers::Tokenizer, String>>(path: &str, load: F) -> (r:
    Result<Handle<tokenizers::Tokenizer>, BridgeError>)
    requires
        load.requires((path,)),
    ensures
        exists|outcome: Result<tokenizers::Tokenizer, String>|
            #[trigger] load.ensures((path,), outcome) && holds(outcome, r),
{
    attach_tokenizer(load(path))
}

/// Whether `r` is what becomes of `outcome`, the answer to an encode
/// call: an encoding whose sequences are parallel is held by a new handle,
/// one whose sequences are not is refused as a marshal failure, and a
/// failure is handed on as it is. No handle exists after a failure.
pub open spec fn binds(
    outcome: Result<tokenizers::Encoding, BridgeError>,
    r: Result<Handle<EncodingResult>, BridgeError>,
) -> bool {
    match outcome {
        Ok(encoding) => if parallel(encoding) {
            r matches Ok(handle) && handle@ matches Some(result) && result.engine() == encoding
        } else {
            r matches Err(BridgeError::MarshalFailure(text)) && text@ == not_parallel_text()
        },
        Err(error) => r == Err::<Handle<EncodingResult>, BridgeError>(error),
    }
}

/// Binds what an encode call returned to a new handle: see `binds`.
pub fn attach_encoding(outcome: Result<tokenizers::Encoding, BridgeError>) -> (r: Result<
    Handle<EncodingResult>,
    BridgeError,
>)
    ensures
        binds(outcome, r),
{
    match outcome {
        Ok(encoding) => match EncodingResult::capture(encoding) {
            Ok(result) => {
                let mut handle = Handle::empty();
                let attached = handle.attach(result);
                Ok(handle)
            },
            Err(error) => Err(error),
        },
        Err(error) => Err(error),
    }
}

/// Whether `r` is what an encode of `input` owes on a handle that holds
/// `slot`. On an empty handle that is the failure that nothing is
/// attached. Otherwise `engine` was called on the attached tokenizer, on
/// `input` as it came and without special tokens, and `r` is what becomes
/// of the answer: see `binds`.
pub open spec fn encodes<F: FnOnce(&tokenizers::Tokenizer, &EncodeInput, bool) -> Result<
    tokenizers::Encoding,
    String,
>>(
    slot: Option<tokenizers::Tokenizer>,
    input: EncodeInput,
    engine: F,
    r: Result<Handle<EncodingResult>, BridgeError>,
) -> bool {
    match slot {
        None => r == Err::<Handle<EncodingResult>, BridgeError>(BridgeError::NotAttached),
        Some(tokenizer) => exists|outcome: Result<tokenizers::Encoding, String>|
            #[trigger] engine.ensures((&tokenizer, &input, false), outcome) && binds(
                access_report(slot, outcome),
                r,
            ),
    }
}

/// Encodes `input` through the tokenizer attached to `tokenizer` and binds
/// the encoding to a new handle. `engine` is the engine's encode call: it
/// is made once, on the attached tokenizer, with `input` and without
/// special tokens, and the tokenizer is held only for that call. With
/// nothing attached `engine` is not called. The bridge adds no failure of
/// its own before the call, and any failure leaves no handle.
pub fn encode<F: FnOnce(&tokenizers::Tokenizer, &EncodeInput, bool) -> Result<
    tokenizers::Encoding,
    String,
>>(tokenizer: &mut Handle<tokenizers::Tokenizer>, input: &EncodeInput, engine: F) -> (r: Result<
    Handle<EncodingResult>,
    BridgeError,
>)
    requires
        old(tokenizer)@ matches Some(attached) ==> engine.requires((&attached, input, false)),
    ensures
        final(tokenizer)@ == old(tokenizer)@,
        encodes(old(tokenizer)@, *input, engine, r),
{
    let call = |attached: &tokenizers::Tokenizer| -> (o: Result<tokenizers::Encoding, String>)
        requires
            engine.requires((attached, input, false)),
        ensures
            engine.ensures((attached, input, false), o)
        { engine(attached, input, with_special_tokens()) };
    attach_encoding(tokenizer.with_exclusive_access(call))
}

/// Encodes one text: `encode` on `single(text)`.
pub fn encode_single<F: FnOnce(&tokenizers::Tokenizer, &EncodeInput, bool) -> Result<
    tokenizers::Encoding,
    String,
>>(tokenizer: &mut Handle<tokenizers::Tokenizer>, text: String, engine: F) -> (r: Result<
    Handle<EncodingResult>,
    BridgeError,
>)
    requires
        old(tokenizer)@ matches Some(attached) ==> engine.requires(
            (&attached, &EncodeInput::Single(text), false),
        ),
    ensures
        final(tokenizer)@ == old(tokenizer)@,
        encodes(old(tokenizer)@, EncodeInput::Single(text), engine, r),
{
    let input = single(text);
    encode(tokenizer, &input, engine)
}

/// Encodes two texts as a pair, the first one first: `encode` on
/// `pair(first, second)`.
pub fn encode_pair<F: FnOnce(&tokenizers::Tokenizer, &EncodeInput, bool) -> Result<
    tokenizers::Encoding,
    String,
>>(tokenizer: &mut Handle<tokenizers::Tokenizer>, first: String, second: String, engine: F) -> (r:
    Result<Handle<EncodingResult>, BridgeError>)
    requires
        old(tokenizer)@ matches Some(attached) ==> engine.requires(
            (&attached, &EncodeInput::Dual(first, second), false),
        ),
    ensures
        final(tokenizer)@ == old(tokenizer)@,
        encodes(old(tokenizer)@, EncodeInput::Dual(first, second), engine, r),
{
    let input = pair(first, second);
    encode(tokenizer, &input, engine)
}

/// Encodes one sequence of texts, as it came: `encode` on `batch(texts)`.
pub fn encode_batch<F: FnOnce(&tokenizers::Tokenizer, &EncodeInput, bool) -> Result<
    tokenizers::Encoding,
    String,
>>(tokenizer: &mut Handle<tokenizers::Tokenizer>, texts: Vec<String>, engine: F) -> (r: Result<
    Handle<EncodingResult>,
    BridgeError,
>)
    requires
        old(tokenizer)@ matches Some(attached) ==> engine.requires(
            (&attached, &EncodeInput::SingleBatch(texts), false),
        ),
    ensures
        final(tokenizer)@ == old(tokenizer)@,
        encodes(old(tokenizer)@, EncodeInput::SingleBatch(texts), engine, r),
{
    let input = batch(texts);
    encode(tokenizer, &input, engine)
}

/// Encodes two sequences of texts as a pair, both as they came: `encode`
/// on `pair_batch(first, second)`. Their lengths are not compared here:
/// what the engine makes of them stands.
pub fn encode_pair_batch<F: FnOnce(&tokenizers::Tokenizer, &EncodeInput, bool) -> Result<
    tokenizers::Encoding,
    String,
>>(
    tokenizer: &mut Handle<tokenizers::Tokenizer>,
    first: Vec<String>,
    second: Vec<String>,
    engine: F,
) -> (r: Result<Handle<EncodingResult>, BridgeError>)
    requires
        old(tokenizer)@ matches Some(attached) ==> engine.requires(
            (&attached, &EncodeInput::DualBatch(first, second), false),
        ),
    ensures
        final(tokenizer)@ == old(tokenizer)@,
        encodes(old(tokenizer)@, EncodeInput::DualBatch(first, second), engine, r),
{
    let input = pair_batch(first, second);
    encode(tokenizer, &input, engine)
}

/// Releases the tokenizer attached to `tokenizer`. A second release finds
/// nothing attached.
pub fn release_handle(tokenizer: &mut Handle<tokenizers::Tokenizer>) -> (r: Result<(), BridgeError>)
    ensures
        final(tokenizer)@ is None,
        r == release_report(old(tokenizer)@),
{
    tokenizer.release()
}

} // verus!
