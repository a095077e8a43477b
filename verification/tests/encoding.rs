use tokenizer_bridge::encoding::{
    get_attention_mask, get_ids, get_offsets, get_special_tokens_mask, get_tokens, get_type_ids,
    get_words, is_empty, release_handle, size, EncodingResult,
};
use tokenizer_bridge::error::{BridgeError, ErrorKind};
use tokenizer_bridge::handle::Handle;
use tokenizers::{Encoding, Token};

fn sample() -> Encoding {
    let mut encoding = Encoding::from_tokens(
        vec![
            Token::new(7, "hello".to_string(), (0, 5)),
            Token::new(0, "".to_string(), (5, 5)),
            Token::new(u32::MAX, "world".to_string(), (6, 11)),
        ],
        1,
    );
    let words = encoding.get_word_ids_mut();
    words[0] = Some(0);
    words[2] = Some(1);
    encoding
}

fn attached(encoding: Encoding) -> Handle<EncodingResult> {
    let mut handle = Handle::empty();
    handle
        .attach(EncodingResult::capture(encoding).unwrap())
        .unwrap();
    handle
}

#[test]
fn capture_takes_parallel_sequences() {
    let result = EncodingResult::capture(sample()).unwrap();
    assert_eq!(result.size(), 3);
    assert!(!result.is_empty());
}

#[test]
fn capture_refuses_sequences_of_different_lengths() {
    let mut encoding = sample();
    encoding.set_type_ids(vec![1]);
    match EncodingResult::capture(encoding) {
        Err(error) => {
            assert_eq!(error.kind(), ErrorKind::MarshalFailure);
            assert_eq!(
                error.message(),
                "MarshalFailure: the sequences of the encoding do not share one index"
            );
        }
        Ok(_) => panic!("sequences of different lengths were taken in"),
    }
}

#[test]
fn result_gives_out_each_sequence() {
    let result = EncodingResult::capture(sample()).unwrap();
    assert_eq!(
        result.tokens(),
        vec!["hello".to_string(), "".to_string(), "world".to_string()]
    );
    assert_eq!(result.ids(), vec![7, 0, -1]);
    assert_eq!(result.type_ids(), vec![1, 1, 1]);
    assert_eq!(result.offsets(), vec![(0, 5), (5, 5), (6, 11)]);
    assert_eq!(result.special_tokens_mask(), vec![0, 0, 0]);
    assert_eq!(result.attention_mask(), vec![1, 1, 1]);
    assert_eq!(result.words(), vec![Some(0), None, Some(1)]);
}

#[test]
fn sequences_share_one_length() {
    let result = EncodingResult::capture(sample()).unwrap();
    let n = result.size() as usize;
    assert_eq!(result.tokens().len(), n);
    assert_eq!(result.ids().len(), n);
    assert_eq!(result.type_ids().len(), n);
    assert_eq!(result.offsets().len(), n);
    assert_eq!(result.special_tokens_mask().len(), n);
    assert_eq!(result.attention_mask().len(), n);
    assert_eq!(result.words().len(), n);
}

#[test]
fn empty_encoding_has_size_zero() {
    let result = EncodingResult::capture(Encoding::default()).unwrap();
    assert_eq!(result.size(), 0);
    assert!(result.is_empty());
    assert_eq!(result.ids(), Vec::<i32>::new());
    assert_eq!(result.tokens(), Vec::<String>::new());
    assert_eq!(result.words(), Vec::<Option<i32>>::new());
}

#[test]
fn queries_read_the_attached_encoding() {
    let mut handle = attached(sample());
    assert_eq!(size(&mut handle), Ok(3));
    assert_eq!(is_empty(&mut handle), Ok(false));
    assert_eq!(
        get_tokens(&mut handle),
        Ok(vec!["hello".to_string(), "".to_string(), "world".to_string()])
    );
    assert_eq!(get_ids(&mut handle), Ok(vec![7, 0, -1]));
    assert_eq!(get_type_ids(&mut handle), Ok(vec![1, 1, 1]));
    assert_eq!(get_offsets(&mut handle), Ok(vec![(0, 5), (5, 5), (6, 11)]));
    assert_eq!(get_special_tokens_mask(&mut handle), Ok(vec![0, 0, 0]));
    assert_eq!(get_attention_mask(&mut handle), Ok(vec![1, 1, 1]));
    assert_eq!(get_words(&mut handle), Ok(vec![Some(0), None, Some(1)]));
    assert!(handle.is_attached());
}

#[test]
fn queries_do_not_change_the_encoding() {
    let mut handle = attached(sample());
    let first = get_ids(&mut handle);
    let second = get_ids(&mut handle);
    assert_eq!(first, second);
    assert_eq!(get_offsets(&mut handle), get_offsets(&mut handle));
    assert_eq!(get_tokens(&mut handle), get_tokens(&mut handle));
}

#[test]
fn is_empty_agrees_with_size() {
    let mut full = attached(sample());
    let mut none = attached(Encoding::default());
    assert_eq!(is_empty(&mut full).unwrap(), size(&mut full).unwrap() == 0);
    assert_eq!(is_empty(&mut none).unwrap(), size(&mut none).unwrap() == 0);
    assert_eq!(is_empty(&mut none), Ok(true));
    assert_eq!(size(&mut none), Ok(0));
}

#[test]
fn queries_on_an_empty_handle_fail() {
    let mut handle: Handle<EncodingResult> = Handle::empty();
    assert_eq!(size(&mut handle), Err(BridgeError::NotAttached));
    assert_eq!(is_empty(&mut handle), Err(BridgeError::NotAttached));
    assert_eq!(get_tokens(&mut handle), Err(BridgeError::NotAttached));
    assert_eq!(get_ids(&mut handle), Err(BridgeError::NotAttached));
    assert_eq!(get_type_ids(&mut handle), Err(BridgeError::NotAttached));
    assert_eq!(get_offsets(&mut handle), Err(BridgeError::NotAttached));
    assert_eq!(get_special_tokens_mask(&mut handle), Err(BridgeError::NotAttached));
    assert_eq!(get_attention_mask(&mut handle), Err(BridgeError::NotAttached));
    assert_eq!(get_words(&mut handle), Err(BridgeError::NotAttached));
}

#[test]
fn queries_after_release_fail() {
    let mut handle = attached(sample());
    assert_eq!(release_handle(&mut handle), Ok(()));
    assert_eq!(size(&mut handle), Err(BridgeError::NotAttached));
    assert_eq!(is_empty(&mut handle), Err(BridgeError::NotAttached));
    assert_eq!(get_tokens(&mut handle), Err(BridgeError::NotAttached));
    assert_eq!(get_ids(&mut handle), Err(BridgeError::NotAttached));
    assert_eq!(get_type_ids(&mut handle), Err(BridgeError::NotAttached));
    assert_eq!(get_offsets(&mut handle), Err(BridgeError::NotAttached));
    assert_eq!(get_special_tokens_mask(&mut handle), Err(BridgeError::NotAttached));
    assert_eq!(get_attention_mask(&mut handle), Err(BridgeError::NotAttached));
    assert_eq!(get_words(&mut handle), Err(BridgeError::NotAttached));
    assert_eq!(release_handle(&mut handle), Err(BridgeError::NotAttached));
}

#[test]
fn second_attach_of_an_encoding_fails_and_keeps_the_first() {
    let mut handle = attached(sample());
    let other = EncodingResult::capture(Encoding::default()).unwrap();
    assert_eq!(handle.attach(other), Err(BridgeError::AttachFailure));
    assert_eq!(size(&mut handle), Ok(3));
    assert_eq!(get_ids(&mut handle), Ok(vec![7, 0, -1]));
}
