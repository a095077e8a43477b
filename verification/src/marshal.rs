//! Conversions from the engine's native values to the values of the managed
//! runtime, element by element, keeping order and count.

use vstd::prelude::*;

verus! {

/// The managed 32-bit integer that stands for a native unsigned 32-bit
/// value: the same 32 bits, read as two's complement.
pub open spec fn jint_of(x: u32) -> i32 {
    if x <= i32::MAX {
        x as i32
    } else {
        (x - 0x1_0000_0000) as i32
    }
}

/// The native value that a managed 32-bit integer stands for.
pub open spec fn native_of_jint(x: i32) -> u32 {
    if x >= 0 {
        x as u32
    } else {
        (x + 0x1_0000_0000) as u32
    }
}

/// The managed 64-bit integer that stands for a native size: the same value
/// where it fits, and the same 64 bits read as two's complement where it
/// does not.
pub open spec fn jlong_of(x: usize) -> i64 {
    if x <= i64::MAX {
        x as i64
    } else {
        (x - 0x1_0000_0000_0000_0000) as i64
    }
}

/// The managed form of an optional word index: absent stays absent, and a
/// present index stays present, whatever its value.
pub open spec fn word_of(w: Option<u32>) -> Option<i32> {
    match w {
        Some(x) => Some(jint_of(x)),
        None => None,
    }
}

/// The managed form of an offset pair: start and end, in this order.
pub open spec fn offset_of(p: (usize, usize)) -> (i64, i64) {
    (jlong_of(p.0), jlong_of(p.1))
}

pub open spec fn jints_of(s: Seq<u32>) -> Seq<i32> {
    Seq::new(s.len(), |i: int| jint_of(s[i]))
}

pub open spec fn words_of(s: Seq<Option<u32>>) -> Seq<Option<i32>> {
    Seq::new(s.len(), |i: int| word_of(s[i]))
}

pub open spec fn offsets_of(s: Seq<(usize, usize)>) -> Seq<(i64, i64)> {
    Seq::new(s.len(), |i: int| offset_of(s[i]))
}

/// The texts that a sequence of strings holds, in order.
pub open spec fn texts_of(s: Seq<String>) -> Seq<Seq<char>> {
    Seq::new(s.len(), |i: int| s[i]@)
}

pub fn to_jint(x: u32) -> (r: i32)
    ensures
        r == jint_of(x),
{
    if x <= 0x7fff_ffff {
        x as i32
    } else {
        ((x - 0x8000_0000) as i32) + i32::MIN
    }
}

pub fn to_jlong(x: usize) -> (r: i64)
    ensures
        r == jlong_of(x),
{
    let wide: u64 = x as u64;
    if wide <= 0x7fff_ffff_ffff_ffff {
        wide as i64
    } else {
        ((wide - 0x8000_0000_0000_0000) as i64) + i64::MIN
    }
}

pub fn to_word(w: Option<u32>) -> (r: Option<i32>)
    ensures
        r == word_of(w),
{
    match w {
        Some(x) => Some(to_jint(x)),
        None => None,
    }
}

pub fn to_offset(p: (usize, usize)) -> (r: (i64, i64))
    ensures
        r == offset_of(p),
{
    (to_jlong(p.0), to_jlong(p.1))
}

/// Converts a native integer sequence, element by element.
pub fn marshal_ints(values: &[u32]) -> (r: Vec<i32>)
    ensures
        r@ == jints_of(values@),
{
    let mut out: Vec<i32> = Vec::new();
    let mut i: usize = 0;
    while i < values.len()
        invariant
            i <= values.len(),
            out@ == jints_of(values@.take(i as int)),
        decreases values.len() - i,
    {
        out.push(to_jint(values[i]));
        i += 1;
        assert(out@ =~= jints_of(values@.take(i as int)));
    }
    assert(values@.take(i as int) =~= values@);
    out
}

/// Converts a sequence of optional word indices, element by element.
pub fn marshal_words(values: &[Option<u32>]) -> (r: Vec<Option<i32>>)
    ensures
        r@ == words_of(values@),
{
    let mut out: Vec<Option<i32>> = Vec::new();
    let mut i: usize = 0;
    while i < values.len()
        invariant
            i <= values.len(),
            out@ == words_of(values@.take(i as int)),
        decreases values.len() - i,
    {
        out.push(to_word(values[i]));
        i += 1;
        assert(out@ =~= words_of(values@.take(i as int)));
    }
    assert(values@.take(i as int) =~= values@);
    out
}

/// Converts a sequence of offset pairs, element by element.
pub fn marshal_offsets(values: &[(usize, usize)]) -> (r: Vec<(i64, i64)>)
    ensures
        r@ == offsets_of(values@),
{
    let mut out: Vec<(i64, i64)> = Vec::new();
    let mut i: usize = 0;
    while i < values.len()
        invariant
            i <= values.len(),
            out@ == offsets_of(values@.take(i as int)),
        decreases values.len() - i,
    {
        out.push(to_offset(values[i]));
        i += 1;
        assert(out@ =~= offsets_of(values@.take(i as int)));
    }
    assert(values@.take(i as int) =~= values@);
    out
}

/// Copies a sequence of strings into owned strings, element by element.
/// Equal entries and empty entries are kept as they stand.
pub fn marshal_texts(values: &[String]) -> (r: Vec<String>)
    ensures
        r@ == values@,
        texts_of(r@) == texts_of(values@),
{
    let mut out: Vec<String> = Vec::new();
    let mut i: usize = 0;
    while i < values.len()
        invariant
            i <= values.len(),
            out@ == values@.take(i as int),
        decreases values.len() - i,
    {
        out.push(values[i].clone());
        i += 1;
        assert(out@ =~= values@.take(i as int));
    }
    assert(values@.take(i as int) =~= values@);
    out
}

/// The integer conversion loses nothing: the native value is found again
/// from the managed one, so two native values never share a managed value.
pub proof fn lemma_jint_is_lossless(x: u32, y: u32)
    ensures
        native_of_jint(jint_of(x)) == x,
        jint_of(x) == jint_of(y) ==> x == y,
{
}

/// A native size that fits the managed 64-bit integer crosses unchanged,
/// and two native sizes never share a managed value.
pub proof fn lemma_jlong_is_lossless(x: usize, y: usize)
    ensures
        x <= i64::MAX ==> jlong_of(x) == x,
        jlong_of(x) == jlong_of(y) ==> x == y,
{
}

/// An offset pair whose start is not after its end, and whose end fits
/// the managed 64-bit integer, keeps that order.
pub proof fn lemma_offset_order_is_kept(p: (usize, usize))
    requires
        p.0 <= p.1,
        p.1 <= i64::MAX,
    ensures
        offset_of(p) == (p.0 as i64, p.1 as i64),
        offset_of(p).0 <= offset_of(p).1,
{
}

/// An absent word index stays distinct from every present one, the index
/// zero included.
pub proof fn lemma_absent_word_is_distinct(w: Option<u32>)
    ensures
        word_of(w) is None <==> w is None,
        word_of(Some(0u32)) == Some(0i32),
        word_of(Some(0u32)) != word_of(None),
{
}

/// Each conversion keeps the count and the position of every element.
pub proof fn lemma_conversions_keep_order(
    ints: Seq<u32>,
    words: Seq<Option<u32>>,
    offsets: Seq<(usize, usize)>,
)
    ensures
        jints_of(ints).len() == ints.len(),
        words_of(words).len() == words.len(),
        offsets_of(offsets).len() == offsets.len(),
        forall|i: int| 0 <= i < ints.len() ==> #[trigger] jints_of(ints)[i] == jint_of(ints[i]),
        forall|i: int| 0 <= i < words.len() ==> #[trigger] words_of(words)[i] == word_of(words[i]),
        forall|i: int|
            0 <= i < offsets.len() ==> #[trigger] offsets_of(offsets)[i] == offset_of(offsets[i]),
{
}

} // verus!
