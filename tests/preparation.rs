use std::collections::HashMap;

use rust_tokenizers::tokenizer::{BertTokenizer, RobertaTokenizer};
use rust_tokenizers::vocab::{BertVocab, BpePairVocab, RobertaVocab};
use zero_shot_classification::{
    attention_mask, default_hypothesis, label_sentences, pad_batch, premise_hypothesis_pairs,
    prepare_for_model, TokenizerOption, ZeroShotError,
};

const PAD: i64 = 0;
const UNK: i64 = 1;
const CLS: i64 = 2;
const SEP: i64 = 3;

fn vocab(with_pad: bool) -> BertVocab {
    let mut values: HashMap<String, i64> = HashMap::new();
    let mut special_values: HashMap<String, i64> = HashMap::new();
    let mut specials = vec![("[UNK]", UNK), ("[CLS]", CLS), ("[SEP]", SEP)];
    if with_pad {
        specials.push(("[PAD]", PAD));
    }
    for (token, id) in specials {
        values.insert(token.to_string(), id);
        special_values.insert(token.to_string(), id);
    }
    for (token, id) in [("who", 10), ("are", 11), ("you", 12), ("politics", 13), ("sports", 14)] {
        values.insert(token.to_string(), id);
    }
    let indices = values.iter().map(|(k, v)| (*v, k.clone())).collect();
    let special_indices = special_values.iter().map(|(k, v)| (*v, k.clone())).collect();
    BertVocab {
        values,
        indices,
        unknown_value: "[UNK]",
        special_values,
        special_indices,
    }
}

fn tokenizer(with_pad: bool) -> TokenizerOption {
    TokenizerOption::Bert(BertTokenizer::from_existing_vocab(vocab(with_pad), true, false))
}

fn tokenizer_without_unknown() -> TokenizerOption {
    let mut vocab = vocab(true);
    vocab.values.remove("[UNK]");
    vocab.special_values.remove("[UNK]");
    TokenizerOption::Bert(BertTokenizer::from_existing_vocab(vocab, true, false))
}

fn no_template() -> Option<fn(&str) -> String> {
    None
}

#[test]
fn default_hypothesis_sentence() {
    assert_eq!(default_hypothesis("politics"), "This example is about politics.");
    assert_eq!(default_hypothesis(""), "This example is about .");
}

#[test]
fn label_sentences_default_template() {
    let sentences = label_sentences(&["politics", "sports"], no_template());
    assert_eq!(
        sentences,
        vec!["This example is about politics.".to_string(), "This example is about sports.".to_string()]
    );
}

#[test]
fn label_sentences_custom_template() {
    let template = |label: &str| format!("This text is about {}.", label);
    let sentences = label_sentences(&["politics", "sports"], Some(template));
    assert_eq!(
        sentences,
        vec!["This text is about politics.".to_string(), "This text is about sports.".to_string()]
    );
}

#[test]
fn pairs_are_input_major() {
    let sentences = vec!["h0".to_string(), "h1".to_string(), "h2".to_string()];
    let pairs = premise_hypothesis_pairs(&["a", "b"], &sentences);
    let expected: Vec<(String, String)> = [
        ("a", "h0"),
        ("a", "h1"),
        ("a", "h2"),
        ("b", "h0"),
        ("b", "h1"),
        ("b", "h2"),
    ]
    .iter()
    .map(|(p, h)| (p.to_string(), h.to_string()))
    .collect();
    assert_eq!(pairs, expected);
}

#[test]
fn pad_batch_pads_to_longest() {
    let batch = pad_batch(&vec![vec![5, 6, 7], vec![8], vec![]], -1);
    assert_eq!(batch, vec![vec![5, 6, 7], vec![8, -1, -1], vec![-1, -1, -1]]);
    assert_eq!(pad_batch(&vec![], 0), Vec::<Vec<i64>>::new());
}

#[test]
fn attention_mask_marks_non_padding() {
    let mask = attention_mask(&vec![vec![5, 0, 7], vec![0, 0, 9]], 0);
    assert_eq!(mask, vec![vec![true, false, true], vec![false, false, true]]);
}

#[test]
fn prepare_rejects_empty_inputs() {
    let r = prepare_for_model(&tokenizer(true), &[], &["politics"], no_template(), 128);
    assert!(matches!(r, Err(ZeroShotError::EmptyInputs)));
}

#[test]
fn prepare_rejects_empty_labels() {
    let r = prepare_for_model(&tokenizer(true), &["who are you"], &[], no_template(), 128);
    assert!(matches!(r, Err(ZeroShotError::EmptyLabels)));
}

#[test]
fn prepare_rejects_too_short_max_length() {
    let r = prepare_for_model(&tokenizer(true), &["who are you"], &["politics"], no_template(), 2);
    assert!(matches!(r, Err(ZeroShotError::MaxLengthTooShort)));
}

#[test]
fn prepare_rejects_missing_pad_id() {
    let r = prepare_for_model(&tokenizer(false), &["who are you"], &["politics"], no_template(), 128);
    assert!(matches!(r, Err(ZeroShotError::MissingPadId)));
}

#[test]
fn prepare_encodes_pads_and_masks() {
    let template = |label: &str| label.to_string();
    let batch = prepare_for_model(&tokenizer(true), &["who are you", "you"], &["politics", "sports"], Some(template), 128)
        .unwrap();
    assert_eq!(batch.pad_id, PAD);
    assert_eq!(
        batch.token_ids,
        vec![
            vec![CLS, 10, 11, 12, SEP, 13, SEP],
            vec![CLS, 10, 11, 12, SEP, 14, SEP],
            vec![CLS, 12, SEP, 13, SEP, PAD, PAD],
            vec![CLS, 12, SEP, 14, SEP, PAD, PAD],
        ]
    );
    assert_eq!(batch.mask[2], vec![true, true, true, true, true, false, false]);
    assert_eq!(batch.mask[0], vec![true; 7]);
}

#[test]
fn prepare_truncates_long_pairs() {
    let template = |label: &str| label.to_string();
    let batch = prepare_for_model(
        &tokenizer(true),
        &["who are you who are you who are you"],
        &["politics"],
        Some(template),
        6,
    )
    .unwrap();
    assert_eq!(batch.token_ids, vec![vec![CLS, 10, 11, SEP, 13, SEP]]);
    assert!(batch.token_ids.iter().all(|row| row.len() <= 6));
}

#[test]
fn prepare_shape_does_not_depend_on_template() {
    let custom = |label: &str| format!("This text is about {}.", label);
    let a = prepare_for_model(&tokenizer(true), &["who are you"], &["politics", "sports"], no_template(), 128).unwrap();
    let b = prepare_for_model(&tokenizer(true), &["who are you"], &["politics", "sports"], Some(custom), 128).unwrap();
    assert_eq!(a.token_ids.len(), 2);
    assert_eq!(b.token_ids.len(), 2);
    assert_eq!(a.mask.len(), b.mask.len());
}

fn roberta_tokenizer() -> TokenizerOption {
    let mut values: HashMap<String, i64> = HashMap::new();
    let mut special_values: HashMap<String, i64> = HashMap::new();
    for (token, id) in [("<s>", 0), ("<pad>", 1), ("</s>", 2), ("<unk>", 3)] {
        values.insert(token.to_string(), id);
        special_values.insert(token.to_string(), id);
    }
    for (token, id) in [("a", 10), ("b", 11), ("c", 12)] {
        values.insert(token.to_string(), id);
    }
    let indices = values.iter().map(|(k, v)| (*v, k.clone())).collect();
    let special_indices = special_values.iter().map(|(k, v)| (*v, k.clone())).collect();
    let vocab = RobertaVocab { values, indices, unknown_value: "<unk>", special_values, special_indices };
    let merges = BpePairVocab { values: HashMap::new() };
    TokenizerOption::Roberta(RobertaTokenizer::from_existing_vocab_and_merges(vocab, merges, false, false))
}

#[test]
fn prepare_with_roberta_tokenizer() {
    let template = |label: &str| label.to_string();
    let batch = prepare_for_model(&roberta_tokenizer(), &["ab"], &["c", "ab"], Some(template), 64).unwrap();
    assert_eq!(batch.pad_id, 1);
    assert_eq!(
        batch.token_ids,
        vec![vec![0, 10, 11, 2, 2, 12, 2, 1], vec![0, 10, 11, 2, 2, 10, 11, 2]]
    );
    assert_eq!(batch.mask[0], vec![true, true, true, true, true, true, true, false]);
}

#[test]
fn roberta_needs_room_for_four_special_tokens() {
    let r = prepare_for_model(&roberta_tokenizer(), &["ab"], &["c"], no_template(), 3);
    assert!(matches!(r, Err(ZeroShotError::MaxLengthTooShort)));
    let ok = prepare_for_model(&roberta_tokenizer(), &["ab"], &["c"], no_template(), 4).unwrap();
    assert_eq!(ok.token_ids, vec![vec![0, 2, 2, 2]]);
}

#[test]
fn prepare_rejects_vocabulary_without_unknown_token() {
    let tok = tokenizer_without_unknown();
    assert!(!tok.knows_unknown_token());
    assert_eq!(tok.get_pad_id(), Some(PAD));
    let r = prepare_for_model(&tok, &["who are you"], &["politics"], no_template(), 128);
    assert!(matches!(r, Err(ZeroShotError::MissingUnknownToken)));
}

#[test]
fn pad_id_and_unknown_token_lookups() {
    assert_eq!(tokenizer(true).get_pad_id(), Some(PAD));
    assert_eq!(tokenizer(false).get_pad_id(), None);
    assert!(tokenizer(true).knows_unknown_token());
    assert_eq!(roberta_tokenizer().get_pad_id(), Some(1));
    assert!(roberta_tokenizer().knows_unknown_token());
}
