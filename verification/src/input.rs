//! What the bridge hands to the engine: one of four shapes of input, each
//! made by the entry point of that shape.

use vstd::prelude::*;
use crate::error::BridgeError;

verus! {

/// An input to encode. The shape is fixed by the entry point that was
/// called, and the texts are carried as they came.
#[derive(Debug, PartialEq, Eq)]
pub enum EncodeInput {
    /// One text.
    Single(String),
    /// Two texts, encoded as a pair.
    Dual(String, String),
    /// One sequence of texts.
    SingleBatch(Vec<String>),
    /// Two sequences of texts, encoded as a pair. The bridge does not
    /// compare their lengths; what the engine makes of them stands.
    DualBatch(Vec<String>, Vec<String>),
}

/// The input of the entry point that takes one text: that text.
pub fn single(text: String) -> (r: EncodeInput)
    ensures
        r == EncodeInput::Single(text),
{
    EncodeInput::Single(text)
}

/// The input of the entry point that takes two texts: the two as a pair,
/// the first one first.
pub fn pair(first: String, second: String) -> (r: EncodeInput)
    ensures
        r == EncodeInput::Dual(first, second),
{
    EncodeInput::Dual(first, second)
}

/// The input of the entry point that takes an array of texts: the texts
/// as they came, as one sequence.
pub fn batch(texts: Vec<String>) -> (r: EncodeInput)
    ensures
        r == EncodeInput::SingleBatch(texts),
{
    EncodeInput::SingleBatch(texts)
}

/// The input of the entry point that takes two arrays of texts: both
/// sequences as they came, as a pair, whatever their lengths.
pub fn pair_batch(first: Vec<String>, second: Vec<String>) -> (r: EncodeInput)
    ensures
        r == EncodeInput::DualBatch(first, second),
{
    EncodeInput::DualBatch(first, second)
}

/// Whether the engine is asked to add special tokens: never.
pub fn with_special_tokens() -> (r: bool)
    ensures
        !r,
{
    false
}

/// The number of elements that an array of the given length has: a
/// length below zero counts as none.
pub open spec fn element_count(length: i32) -> int {
    if length > 0 {
        length as int
    } else {
        0
    }
}

/// Reads a managed array of strings into one sequence, element by element
/// from the first, through `read`, which is given an index and hands back
/// the string there. Where every element is read, the sequence holds them
/// all in the array's order, equal and empty entries included. The first
/// element that `read` fails on ends the reading: its failure is the
/// failure of the whole, no later element is asked for, and no part of
/// the array is handed on. A failure is thus that of the least index at
/// which the reading failed, every element before it having been read.
pub fn string_array_to_vec<F: Fn(i32) -> Result<String, BridgeError>>(length: i32, read: F) -> (r:
    Result<Vec<String>, BridgeError>)
    requires
        forall|index: i32| 0 <= index < length ==> read.requires((index,)),
    ensures
        match r {
            Ok(texts) => {
                &&& texts@.len() == element_count(length)
                &&& forall|i: int|
                    0 <= i < texts@.len() ==> read.ensures(
                        (i as i32,),
                        Ok::<String, BridgeError>(#[trigger] texts@[i]),
                    )
            },
            Err(error) => exists|k: i32, before: Seq<String>|
                #![trigger before.len(), read.ensures((k,), Err::<String, BridgeError>(error))]
                0 <= k < length && before.len() == k && (forall|j: int|
                    0 <= j < k ==> read.ensures(
                        (j as i32,),
                        Ok::<String, BridgeError>(#[trigger] before[j]),
                    )) && read.ensures((k,), Err::<String, BridgeError>(error)),
        },
{
    let mut texts: Vec<String> = Vec::new();
    let mut index: i32 = 0;
    while index < length
        invariant
            0 <= index,
            index <= element_count(length),
            texts@.len() == index,
            forall|k: i32| 0 <= k < length ==> read.requires((k,)),
            forall|i: int|
                0 <= i < texts@.len() ==> read.ensures(
                    (i as i32,),
                    Ok::<String, BridgeError>(#[trigger] texts@[i]),
                ),
        decreases length - index,
    {
        match read(index) {
            Ok(text) => {
                texts.push(text);
            },
            Err(error) => {
                assert(texts@.len() == index && read.ensures(
                    (index,),
                    Err::<String, BridgeError>(error),
                ));
                return Err(error);
            },
        }
        index += 1;
    }
    Ok(texts)
}

} // verus!
