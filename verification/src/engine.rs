//! The tokenization engine, as the bridge sees it: two opaque types, and
//! what an encoding holds. The bridge reads encodings here. It never calls
//! the engine to load or to encode: those calls are handed to it, see
//! `tokenizer::encode`.

use vstd::prelude::*;
use crate::marshal::texts_of;

verus! {

/// `tokenizers::Tokenizer`, carried through and never looked into.
#[verifier::external_type_specification]
#[verifier::external_body]
pub struct ExTokenizer(tokenizers::Tokenizer);

/// `tokenizers::Encoding`, read only through the accessors below.
#[verifier::external_type_specification]
#[verifier::external_body]
pub struct ExEncoding(tokenizers::Encoding);

/// The ids that an encoding holds, in order.
pub uninterp spec fn encoding_ids(encoding: tokenizers::Encoding) -> Seq<u32>;

/// The type ids that an encoding holds, in order.
pub uninterp spec fn encoding_type_ids(encoding: tokenizers::Encoding) -> Seq<u32>;

/// The texts of the tokens that an encoding holds, in order.
pub uninterp spec fn encoding_tokens(encoding: tokenizers::Encoding) -> Seq<Seq<char>>;

/// The word indices that an encoding holds, in order, each present or not.
pub uninterp spec fn encoding_words(encoding: tokenizers::Encoding) -> Seq<Option<u32>>;

/// The offset pairs that an encoding holds, in order.
pub uninterp spec fn encoding_offsets(encoding: tokenizers::Encoding) -> Seq<(usize, usize)>;

/// The special-tokens mask that an encoding holds, in order.
pub uninterp spec fn encoding_special_tokens_mask(encoding: tokenizers::Encoding) -> Seq<u32>;

/// The attention mask that an encoding holds, in order.
pub uninterp spec fn encoding_attention_mask(encoding: tokenizers::Encoding) -> Seq<u32>;

/// `Encoding::len` returns the length of the encoding's id sequence.
pub assume_specification[ tokenizers::Encoding::len ](encoding: &tokenizers::Encoding) -> (r: usize)
    ensures
        r == encoding_ids(*encoding).len(),
;

/// `Encoding::is_empty` tells whether the encoding's id sequence is empty.
pub assume_specification[ tokenizers::Encoding::is_empty ](encoding: &tokenizers::Encoding) -> (r:
    bool)
    ensures
        r == (encoding_ids(*encoding).len() == 0),
;

/// `Encoding::get_ids` lends the encoding's id sequence.
pub assume_specification[ tokenizers::Encoding::get_ids ](encoding: &tokenizers::Encoding) -> (r:
    &[u32])
    ensures
        r@ == encoding_ids(*encoding),
;

/// `Encoding::get_type_ids` lends the encoding's type-id sequence.
pub assume_specification[ tokenizers::Encoding::get_type_ids ](
    encoding: &tokenizers::Encoding,
) -> (r: &[u32])
    ensures
        r@ == encoding_type_ids(*encoding),
;

/// `Encoding::get_tokens` lends the encoding's token strings.
pub assume_specification[ tokenizers::Encoding::get_tokens ](encoding: &tokenizers::Encoding) -> (r:
    &[String])
    ensures
        texts_of(r@) == encoding_tokens(*encoding),
;

/// `Encoding::get_word_ids` lends the encoding's word indices.
pub assume_specification[ tokenizers::Encoding::get_word_ids ](
    encoding: &tokenizers::Encoding,
) -> (r: &[Option<u32>])
    ensures
        r@ == encoding_words(*encoding),
;

/// `Encoding::get_offsets` lends the encoding's offset pairs.
pub assume_specification[ tokenizers::Encoding::get_offsets ](encoding: &tokenizers::Encoding) -> (r:
    &[(usize, usize)])
    ensures
        r@ == encoding_offsets(*encoding),
;

/// `Encoding::get_special_tokens_mask` lends the encoding's special-tokens
/// mask.
pub assume_specification[ tokenizers::Encoding::get_special_tokens_mask ](
    encoding: &tokenizers::Encoding,
) -> (r: &[u32])
    ensures
        r@ == encoding_special_tokens_mask(*encoding),
;

/// `Encoding::get_attention_mask` lends the encoding's attention mask.
pub assume_specification[ tokenizers::Encoding::get_attention_mask ](
    encoding: &tokenizers::Encoding,
) -> (r: &[u32])
    ensures
        r@ == encoding_attention_mask(*encoding),
;

} // verus!
