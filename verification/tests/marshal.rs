use tokenizer_bridge::marshal::{
    marshal_ints, marshal_offsets, marshal_texts, marshal_words, to_jint, to_jlong, to_offset,
    to_word,
};

#[test]
fn small_integers_cross_unchanged() {
    assert_eq!(to_jint(0), 0);
    assert_eq!(to_jint(1), 1);
    assert_eq!(to_jint(30522), 30522);
    assert_eq!(to_jint(0x7fff_ffff), i32::MAX);
}

#[test]
fn large_integers_keep_their_bits() {
    assert_eq!(to_jint(0x8000_0000), i32::MIN);
    assert_eq!(to_jint(0x8000_0001), i32::MIN + 1);
    assert_eq!(to_jint(u32::MAX), -1);
    assert_eq!(to_jint(u32::MAX) as u32, u32::MAX);
}

#[test]
fn integer_conversion_agrees_with_the_cast() {
    for value in [0u32, 1, 2, 255, 65536, 0x7fff_fffe, 0x7fff_ffff, 0x8000_0000, 0xdead_beef, u32::MAX] {
        assert_eq!(to_jint(value), value as i32);
    }
}

#[test]
fn sizes_cross_unchanged() {
    assert_eq!(to_jlong(0), 0);
    assert_eq!(to_jlong(11), 11);
    assert_eq!(to_jlong(1usize << 40), 1i64 << 40);
}

#[test]
fn size_conversion_agrees_with_the_cast() {
    for value in [0usize, 5, usize::MAX / 2, usize::MAX / 2 + 1, usize::MAX] {
        assert_eq!(to_jlong(value), value as i64);
    }
}

#[test]
fn absent_word_differs_from_word_zero() {
    assert_eq!(to_word(None), None);
    assert_eq!(to_word(Some(0)), Some(0));
    assert_ne!(to_word(Some(0)), to_word(None));
    assert_eq!(to_word(Some(u32::MAX)), Some(-1));
}

#[test]
fn offset_keeps_start_before_end() {
    assert_eq!(to_offset((0, 5)), (0, 5));
    assert_eq!(to_offset((6, 11)), (6, 11));
}

#[test]
fn integer_sequence_keeps_order_and_count() {
    assert_eq!(marshal_ints(&[]), Vec::<i32>::new());
    assert_eq!(marshal_ints(&[3, 1, 2, 1]), vec![3, 1, 2, 1]);
    assert_eq!(marshal_ints(&[0, 0x8000_0000, 7]), vec![0, i32::MIN, 7]);
}

#[test]
fn word_sequence_keeps_order_and_absence() {
    assert_eq!(
        marshal_words(&[None, Some(0), Some(1), None, Some(1)]),
        vec![None, Some(0), Some(1), None, Some(1)]
    );
    assert_eq!(marshal_words(&[]), Vec::<Option<i32>>::new());
}

#[test]
fn offset_sequence_keeps_order_and_count() {
    assert_eq!(
        marshal_offsets(&[(0, 5), (6, 11), (11, 11)]),
        vec![(0, 5), (6, 11), (11, 11)]
    );
}

#[test]
fn text_sequence_keeps_duplicates_and_empty_entries() {
    let texts = vec![
        "a".to_string(),
        "".to_string(),
        "a".to_string(),
        "héllo".to_string(),
    ];
    assert_eq!(marshal_texts(&texts), texts);
    assert_eq!(marshal_texts(&[]), Vec::<String>::new());
}
