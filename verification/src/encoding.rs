//! Encoding results: what the engine returned for one input, held for the
//! managed runtime and read sequence by sequence.

use vstd::prelude::*;
use crate::engine::{
    encoding_attention_mask,
    encoding_ids,
    encoding_offsets,
    encoding_special_tokens_mask,
    encoding_tokens,
    encoding_type_ids,
    encoding_words,
};
use crate::error::BridgeError;
use crate::handle::{release_report, Handle};
use crate::marshal::{
    jints_of,
    lemma_offset_order_is_kept,
    marshal_ints,
    marshal_offsets,
    marshal_texts,
    marshal_words,
    offsets_of,
    texts_of,
    words_of,
};

verus! {

/// Whether the seven sequences of an engine encoding share one index: all
/// of one length, which a managed array can have.
pub open spec fn parallel(encoding: tokenizers::Encoding) -> bool {
    let n = encoding_ids(encoding).len();
    &&& n <= i32::MAX
    &&& encoding_type_ids(encoding).len() == n
    &&& encoding_tokens(encoding).len() == n
    &&& encoding_words(encoding).len() == n
    &&& encoding_offsets(encoding).len() == n
    &&& encoding_special_tokens_mask(encoding).len() == n
    &&& encoding_attention_mask(encoding).len() == n
}

/// The text of the failure for an engine encoding whose sequences are not
/// parallel.
pub open spec fn not_parallel_text() -> Seq<char> {
    "the sequences of the encoding do not share one index"@
}

/// An engine encoding whose sequences are parallel. It is read-only: every
/// query leaves it as it is.
pub struct EncodingResult {
    inner: tokenizers::Encoding,
}

impl EncodingResult {
    #[verifier::type_invariant]
    spec fn sequences_are_parallel(self) -> bool {
        parallel(self.inner)
    }

    /// The engine encoding that this result holds.
    pub closed spec fn engine(self) -> tokenizers::Encoding {
        self.inner
    }

    /// The number of tokens.
    pub open spec fn size_spec(self) -> int {
        encoding_ids(self.engine()).len() as int
    }

    pub open spec fn tokens_spec(self) -> Seq<Seq<char>> {
        encoding_tokens(self.engine())
    }

    pub open spec fn ids_spec(self) -> Seq<i32> {
        jints_of(encoding_ids(self.engine()))
    }

    pub open spec fn type_ids_spec(self) -> Seq<i32> {
        jints_of(encoding_type_ids(self.engine()))
    }

    pub open spec fn offsets_spec(self) -> Seq<(i64, i64)> {
        offsets_of(encoding_offsets(self.engine()))
    }

    pub open spec fn special_tokens_mask_spec(self) -> Seq<i32> {
        jints_of(encoding_special_tokens_mask(self.engine()))
    }

    pub open spec fn attention_mask_spec(self) -> Seq<i32> {
        jints_of(encoding_attention_mask(self.engine()))
    }

    pub open spec fn words_spec(self) -> Seq<Option<i32>> {
        words_of(encoding_words(self.engine()))
    }

    /// Takes an engine encoding in as a result, where its sequences are
    /// parallel, and refuses it where they are not.
    pub fn capture(encoding: tokenizers::Encoding) -> (r: Result<EncodingResult, BridgeError>)
        ensures
            parallel(encoding) ==> (r matches Ok(result) && result.engine() == encoding),
            !parallel(encoding) ==> (r matches Err(BridgeError::MarshalFailure(text)) && text@
                == not_parallel_text()),
    {
        let n: usize = encoding.len();
        if n <= 0x7fff_ffff && encoding.get_type_ids().len() == n && encoding.get_tokens().len()
            == n && encoding.get_word_ids().len() == n && encoding.get_offsets().len() == n
            && encoding.get_special_tokens_mask().len() == n && encoding.get_attention_mask().len()
            == n {
            Ok(EncodingResult { inner: encoding })
        } else {
            Err(
                BridgeError::MarshalFailure(
                    "the sequences of the encoding do not share one index".to_owned(),
                ),
            )
        }
    }

    /// The number of tokens, as the managed runtime counts.
    pub fn size(&self) -> (r: i64)
        ensures
            r == self.size_spec(),
            0 <= r <= i32::MAX,
    {
        proof {
            use_type_invariant(self);
        }
        let n: usize = self.inner.len();
        n as i64
    }

    /// Whether there is no token: true exactly where the size is zero.
    pub fn is_empty(&self) -> (r: bool)
        ensures
            r <==> self.size_spec() == 0,
    {
        self.inner.is_empty()
    }

    /// The token strings, one per token.
    pub fn tokens(&self) -> (r: Vec<String>)
        ensures
            texts_of(r@) == self.tokens_spec(),
            r@.len() == self.size_spec(),
    {
        proof {
            use_type_invariant(self);
        }
        let r = marshal_texts(self.inner.get_tokens());
        assert(texts_of(r@).len() == r@.len());
        r
    }

    /// The ids, one per token.
    pub fn ids(&self) -> (r: Vec<i32>)
        ensures
            r@ == self.ids_spec(),
            r@.len() == self.size_spec(),
    {
        marshal_ints(self.inner.get_ids())
    }

    /// The type ids, one per token.
    pub fn type_ids(&self) -> (r: Vec<i32>)
        ensures
            r@ == self.type_ids_spec(),
            r@.len() == self.size_spec(),
    {
        proof {
            use_type_invariant(self);
        }
        marshal_ints(self.inner.get_type_ids())
    }

    /// The offset pairs, start then end, one per token.
    pub fn offsets(&self) -> (r: Vec<(i64, i64)>)
        ensures
            r@ == self.offsets_spec(),
            r@.len() == self.size_spec(),
    {
        proof {
            use_type_invariant(self);
        }
        marshal_offsets(self.inner.get_offsets())
    }

    /// The special-tokens mask, one entry per token.
    pub fn special_tokens_mask(&self) -> (r: Vec<i32>)
        ensures
            r@ == self.special_tokens_mask_spec(),
            r@.len() == self.size_spec(),
    {
        proof {
            use_type_invariant(self);
        }
        marshal_ints(self.inner.get_special_tokens_mask())
    }

    /// The attention mask, one entry per token.
    pub fn attention_mask(&self) -> (r: Vec<i32>)
        ensures
            r@ == self.attention_mask_spec(),
            r@.len() == self.size_spec(),
    {
        proof {
            use_type_invariant(self);
        }
        marshal_ints(self.inner.get_attention_mask())
    }

    /// The word indices, one per token, each present or absent.
    pub fn words(&self) -> (r: Vec<Option<i32>>)
        ensures
            r@ == self.words_spec(),
            r@.len() == self.size_spec(),
    {
        proof {
            use_type_invariant(self);
        }
        marshal_words(self.inner.get_word_ids())
    }
}

/// The size of the encoding attached to `handle`.
pub fn size(handle: &mut Handle<EncodingResult>) -> (r: Result<i64, BridgeError>)
    ensures
        final(handle)@ == old(handle)@,
        old(handle)@ is None ==> r == Err::<i64, BridgeError>(BridgeError::NotAttached),
        old(handle)@ matches Some(result) ==> r == Ok::<i64, BridgeError>(
            result.size_spec() as i64,
        ),
        old(handle)@ matches Some(result) ==> 0 <= result.size_spec() <= i32::MAX,
{
    let read = |result: &EncodingResult| -> (o: Result<i64, String>)
        ensures
            o == Ok::<i64, String>(result.size_spec() as i64),
            0 <= result.size_spec() <= i32::MAX
        {
            let n: i64 = result.size();
            Ok(n)
        };
    handle.with_exclusive_access(read)
}

/// Whether the encoding attached to `handle` has no token: true exactly
/// where its size is zero.
pub fn is_empty(handle: &mut Handle<EncodingResult>) -> (r: Result<bool, BridgeError>)
    ensures
        final(handle)@ == old(handle)@,
        old(handle)@ is None ==> r == Err::<bool, BridgeError>(BridgeError::NotAttached),
        old(handle)@ matches Some(result) ==> r == Ok::<bool, BridgeError>(
            result.size_spec() == 0,
        ),
{
    let read = |result: &EncodingResult| -> (o: Result<bool, String>)
        ensures
            o == Ok::<bool, String>(result.size_spec() == 0)
        { Ok(result.is_empty()) };
    handle.with_exclusive_access(read)
}

/// The token strings of the encoding attached to `handle`.
pub fn get_tokens(handle: &mut Handle<EncodingResult>) -> (r: Result<Vec<String>, BridgeError>)
    ensures
        final(handle)@ == old(handle)@,
        old(handle)@ is None ==> r == Err::<Vec<String>, BridgeError>(BridgeError::NotAttached),
        old(handle)@ matches Some(result) ==> (r matches Ok(tokens) && texts_of(tokens@) == result.tokens_spec()
            && tokens@.len() == result.size_spec()),
{
    let read = |result: &EncodingResult| -> (o: Result<Vec<String>, String>)
        ensures
            o matches Ok(tokens) && texts_of(tokens@) == result.tokens_spec()
                && tokens@.len() == result.size_spec()
        { Ok(result.tokens()) };
    handle.with_exclusive_access(read)
}

/// The word indices of the encoding attached to `handle`, each present or
/// absent.
pub fn get_words(handle: &mut Handle<EncodingResult>) -> (r: Result<Vec<Option<i32>>, BridgeError>)
    ensures
        final(handle)@ == old(handle)@,
        old(handle)@ is None ==> r == Err::<Vec<Option<i32>>, BridgeError>(BridgeError::NotAttached),
        old(handle)@ matches Some(result) ==> (r matches Ok(words) && words@ == result.words_spec()
            && words@.len() == result.size_spec()),
{
    let read = |result: &EncodingResult| -> (o: Result<Vec<Option<i32>>, String>)
        ensures
            o matches Ok(words) && words@ == result.words_spec()
                && words@.len() == result.size_spec()
        { Ok(result.words()) };
    handle.with_exclusive_access(read)
}

/// The ids of the encoding attached to `handle`.
pub fn get_ids(handle: &mut Handle<EncodingResult>) -> (r: Result<Vec<i32>, BridgeError>)
    ensures
        final(handle)@ == old(handle)@,
        old(handle)@ is None ==> r == Err::<Vec<i32>, BridgeError>(BridgeError::NotAttached),
        old(handle)@ matches Some(result) ==> (r matches Ok(ids) && ids@ == result.ids_spec()
            && ids@.len() == result.size_spec()),
{
    let read = |result: &EncodingResult| -> (o: Result<Vec<i32>, String>)
        ensures
            o matches Ok(ids) && ids@ == result.ids_spec()
                && ids@.len() == result.size_spec()
        { Ok(result.ids()) };
    handle.with_exclusive_access(read)
}

/// The type ids of the encoding attached to `handle`.
pub fn get_type_ids(handle: &mut Handle<EncodingResult>) -> (r: Result<Vec<i32>, BridgeError>)
    ensures
        final(handle)@ == old(handle)@,
        old(handle)@ is None ==> r == Err::<Vec<i32>, BridgeError>(BridgeError::NotAttached),
        old(handle)@ matches Some(result) ==> (r matches Ok(type_ids) && type_ids@ == result.type_ids_spec()
            && type_ids@.len() == result.size_spec()),
{
    let read = |result: &EncodingResult| -> (o: Result<Vec<i32>, String>)
        ensures
            o matches Ok(type_ids) && type_ids@ == result.type_ids_spec()
                && type_ids@.len() == result.size_spec()
        { Ok(result.type_ids()) };
    handle.with_exclusive_access(read)
}

/// The offset pairs of the encoding attached to `handle`.
pub fn get_offsets(handle: &mut Handle<EncodingResult>) -> (r: Result<Vec<(i64, i64)>, BridgeError>)
    ensures
        final(handle)@ == old(handle)@,
        old(handle)@ is None ==> r == Err::<Vec<(i64, i64)>, BridgeError>(BridgeError::NotAttached),
        old(handle)@ matches Some(result) ==> (r matches Ok(offsets) && offsets@ == result.offsets_spec()
            && offsets@.len() == result.size_spec()),
{
    let read = |result: &EncodingResult| -> (o: Result<Vec<(i64, i64)>, String>)
        ensures
            o matches Ok(offsets) && offsets@ == result.offsets_spec()
                && offsets@.len() == result.size_spec()
        { Ok(result.offsets()) };
    handle.with_exclusive_access(read)
}

/// The special-tokens mask of the encoding attached to `handle`.
pub fn get_special_tokens_mask(handle: &mut Handle<EncodingResult>) -> (r: Result<Vec<i32>, BridgeError>)
    ensures
        final(handle)@ == old(handle)@,
        old(handle)@ is None ==> r == Err::<Vec<i32>, BridgeError>(BridgeError::NotAttached),
        old(handle)@ matches Some(result) ==> (r matches Ok(mask) && mask@ == result.special_tokens_mask_spec()
            && mask@.len() == result.size_spec()),
{
    let read = |result: &EncodingResult| -> (o: Result<Vec<i32>, String>)
        ensures
            o matches Ok(mask) && mask@ == result.special_tokens_mask_spec()
                && mask@.len() == result.size_spec()
        { Ok(result.special_tokens_mask()) };
    handle.with_exclusive_access(read)
}

/// The attention mask of the encoding attached to `handle`.
pub fn get_attention_mask(handle: &mut Handle<EncodingResult>) -> (r: Result<Vec<i32>, BridgeError>)
    ensures
        final(handle)@ == old(handle)@,
        old(handle)@ is None ==> r == Err::<Vec<i32>, BridgeError>(BridgeError::NotAttached),
        old(handle)@ matches Some(result) ==> (r matches Ok(mask) && mask@ == result.attention_mask_spec()
            && mask@.len() == result.size_spec()),
{
    let read = |result: &EncodingResult| -> (o: Result<Vec<i32>, String>)
        ensures
            o matches Ok(mask) && mask@ == result.attention_mask_spec()
                && mask@.len() == result.size_spec()
        { Ok(result.attention_mask()) };
    handle.with_exclusive_access(read)
}

/// Releases the encoding attached to `handle`. A second release finds
/// nothing attached.
pub fn release_handle(handle: &mut Handle<EncodingResult>) -> (r: Result<(), BridgeError>)
    ensures
        final(handle)@ is None,
        r == release_report(old(handle)@),
{
    handle.release()
}

/// The seven sequences that a result gives out are of one length, the
/// size of the result.
pub proof fn lemma_sequences_share_one_index(result: EncodingResult)
    requires
        parallel(result.engine()),
    ensures
        result.tokens_spec().len() == result.size_spec(),
        result.ids_spec().len() == result.size_spec(),
        result.type_ids_spec().len() == result.size_spec(),
        result.offsets_spec().len() == result.size_spec(),
        result.special_tokens_mask_spec().len() == result.size_spec(),
        result.attention_mask_spec().len() == result.size_spec(),
        result.words_spec().len() == result.size_spec(),
        0 <= result.size_spec() <= i32::MAX,
{
}

/// A result whose engine encoding holds at least one id has a size above
/// zero, so it is not empty.
pub proof fn lemma_result_with_an_id_is_not_empty(result: EncodingResult)
    requires
        encoding_ids(result.engine()).len() > 0,
    ensures
        result.size_spec() > 0,
        !(result.size_spec() == 0),
{
}

/// Where every offset pair of the engine encoding has its start not after
/// its end, and its end within the managed 64-bit integer, every pair
/// that the result gives out has its start not after its end.
pub proof fn lemma_offsets_stay_ordered(result: EncodingResult)
    requires
        forall|i: int|
            0 <= i < encoding_offsets(result.engine()).len() ==> (
            #[trigger] encoding_offsets(result.engine())[i]).0 <= encoding_offsets(
                result.engine(),
            )[i].1 && encoding_offsets(result.engine())[i].1 <= i64::MAX,
    ensures
        forall|i: int|
            0 <= i < result.offsets_spec().len() ==> (#[trigger] result.offsets_spec()[i]).0
                <= result.offsets_spec()[i].1,
{
    assert forall|i: int| 0 <= i < result.offsets_spec().len() implies (
    #[trigger] result.offsets_spec()[i]).0 <= result.offsets_spec()[i].1 by {
        lemma_offset_order_is_kept(encoding_offsets(result.engine())[i]);
    }
}

/// Two results that hold the same engine encoding give out the same
/// sequences: the conversion adds no choice of its own.
pub proof fn lemma_queries_are_functions_of_the_encoding(a: EncodingResult, b: EncodingResult)
    requires
        a.engine() == b.engine(),
    ensures
        a.size_spec() == b.size_spec(),
        a.tokens_spec() == b.tokens_spec(),
        a.ids_spec() == b.ids_spec(),
        a.type_ids_spec() == b.type_ids_spec(),
        a.offsets_spec() == b.offsets_spec(),
        a.special_tokens_mask_spec() == b.special_tokens_mask_spec(),
        a.attention_mask_spec() == b.attention_mask_spec(),
        a.words_spec() == b.words_spec(),
{
}

} // verus!
