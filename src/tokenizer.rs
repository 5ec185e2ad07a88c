use vstd::prelude::*;
use rust_tokenizers::tokenizer::{
    AlbertTokenizer, BertTokenizer, RobertaTokenizer, Tokenizer, TruncationStrategy, XLMRobertaTokenizer,
    XLNetTokenizer,
};
use rust_tokenizers::vocab::{AlbertVocab, BertVocab, RobertaVocab, XLMRobertaVocab, XLNetVocab};

verus! {
#[verifier::external_type_specification]
#[verifier::external_body]
pub struct ExBertTokenizer(BertTokenizer);

/// Special tokens that a Bert tokenizer adds to a pair: `[CLS] a [SEP] b [SEP]`.
pub const BERT_PAIR_SPECIAL_TOKENS: usize = 3;

/// The id that the vocabulary of a Bert tokenizer registers for `[PAD]`, if any.
pub uninterp spec fn bert_pad_of(tok: BertTokenizer) -> Option<i64>;

/// Whether the vocabulary of a Bert tokenizer has an entry for its own unknown token.
pub uninterp spec fn bert_knows_unknown(tok: BertTokenizer) -> bool;

/// Relies on `Tokenizer::encode_pair_list` of `BertTokenizer`, with longest-first
/// truncation and no stride: one encoding per pair, each cut down to at most
/// `max_len` ids. It panics when `max_len` cannot hold the special tokens, and
/// when a token is missing from a vocabulary without an unknown-token entry.
#[verifier::external_body]
fn bert_encode_pairs(tok: &BertTokenizer, pairs: &Vec<(String, String)>, max_len: usize) -> (r: Vec<Vec<i64>>)
    requires
        max_len >= BERT_PAIR_SPECIAL_TOKENS,
        bert_knows_unknown(*tok),
    ensures
        r@.len() == pairs@.len(),
        forall|i: int| 0 <= i < r@.len() ==> #[trigger] r@[i]@.len() <= max_len,
{
    tok.encode_pair_list(pairs, max_len, &TruncationStrategy::LongestFirst, 0)
        .into_iter()
        .map(|t| t.token_ids)
        .collect()
}

/// Relies on the `special_values` map of the `BertVocab` that `Tokenizer::vocab`
/// returns: the id registered for `[PAD]`, if the vocabulary registered one.
#[verifier::external_body]
fn bert_pad_id(tok: &BertTokenizer) -> (r: Option<i64>)
    ensures
        r == bert_pad_of(*tok),
{
    tok.vocab().special_values.get(BertVocab::pad_value()).copied()
}

/// Relies on the `values` map and `unknown_value` of the `BertVocab` that
/// `Tokenizer::vocab` returns: whether the unknown token has an id.
#[verifier::external_body]
fn bert_has_unknown(tok: &BertTokenizer) -> (r: bool)
    ensures
        r == bert_knows_unknown(*tok),
{
    tok.vocab().values.contains_key(tok.vocab().unknown_value)
}

#[verifier::external_type_specification]
#[verifier::external_body]
pub struct ExRobertaTokenizer(RobertaTokenizer);

/// Special tokens that a Roberta tokenizer adds to a pair: `<s> a </s></s> b </s>`.
pub const ROBERTA_PAIR_SPECIAL_TOKENS: usize = 4;

/// The id that the vocabulary of a Roberta tokenizer registers for `<pad>`, if any.
pub uninterp spec fn roberta_pad_of(tok: RobertaTokenizer) -> Option<i64>;

/// Whether the vocabulary of a Roberta tokenizer has an entry for its own unknown token.
pub uninterp spec fn roberta_knows_unknown(tok: RobertaTokenizer) -> bool;

/// Relies on `Tokenizer::encode_pair_list` of `RobertaTokenizer`, with longest-first
/// truncation and no stride: one encoding per pair, each cut down to at most
/// `max_len` ids. It panics when `max_len` cannot hold the special tokens, and
/// when a token is missing from a vocabulary without an unknown-token entry.
#[verifier::external_body]
fn roberta_encode_pairs(tok: &RobertaTokenizer, pairs: &Vec<(String, String)>, max_len: usize) -> (r: Vec<Vec<i64>>)
    requires
        max_len >= ROBERTA_PAIR_SPECIAL_TOKENS,
        roberta_knows_unknown(*tok),
    ensures
        r@.len() == pairs@.len(),
        forall|i: int| 0 <= i < r@.len() ==> #[trigger] r@[i]@.len() <= max_len,
{
    tok.encode_pair_list(pairs, max_len, &TruncationStrategy::LongestFirst, 0)
        .into_iter()
        .map(|t| t.token_ids)
        .collect()
}

/// Relies on the `special_values` map of the `RobertaVocab` that `Tokenizer::vocab`
/// returns: the id registered for `<pad>`, if the vocabulary registered one.
#[verifier::external_body]
fn roberta_pad_id(tok: &RobertaTokenizer) -> (r: Option<i64>)
    ensures
        r == roberta_pad_of(*tok),
{
    tok.vocab().special_values.get(RobertaVocab::pad_value()).copied()
}

/// Relies on the `values` map and `unknown_value` of the `RobertaVocab` that
/// `Tokenizer::vocab` returns: whether the unknown token has an id.
#[verifier::external_body]
fn roberta_has_unknown(tok: &RobertaTokenizer) -> (r: bool)
    ensures
        r == roberta_knows_unknown(*tok),
{
    tok.vocab().values.contains_key(tok.vocab().unknown_value)
}

#[verifier::external_type_specification]
#[verifier::external_body]
pub struct ExXLMRobertaTokenizer(XLMRobertaTokenizer);

/// Special tokens that an XLMRoberta tokenizer adds to a pair: `<s> a </s></s> b </s>`.
pub const XLM_ROBERTA_PAIR_SPECIAL_TOKENS: usize = 4;

/// The id that the vocabulary of a XLMRoberta tokenizer registers for `<pad>`, if any.
pub uninterp spec fn xlm_roberta_pad_of(tok: XLMRobertaTokenizer) -> Option<i64>;

/// Whether the vocabulary of a XLMRoberta tokenizer has an entry for its own unknown token.
pub uninterp spec fn xlm_roberta_knows_unknown(tok: XLMRobertaTokenizer) -> bool;

/// Relies on `Tokenizer::encode_pair_list` of `XLMRobertaTokenizer`, with longest-first
/// truncation and no stride: one encoding per pair, each cut down to at most
/// `max_len` ids. It panics when `max_len` cannot hold the special tokens, and
/// when a token is missing from a vocabulary without an unknown-token entry.
#[verifier::external_body]
fn xlm_roberta_encode_pairs(tok: &XLMRobertaTokenizer, pairs: &Vec<(String, String)>, max_len: usize) -> (r: Vec<Vec<i64>>)
    requires
        max_len >= XLM_ROBERTA_PAIR_SPECIAL_TOKENS,
        xlm_roberta_knows_unknown(*tok),
    ensures
        r@.len() == pairs@.len(),
        forall|i: int| 0 <= i < r@.len() ==> #[trigger] r@[i]@.len() <= max_len,
{
    tok.encode_pair_list(pairs, max_len, &TruncationStrategy::LongestFirst, 0)
        .into_iter()
        .map(|t| t.token_ids)
        .collect()
}

/// Relies on the `special_values` map of the `XLMRobertaVocab` that `Tokenizer::vocab`
/// returns: the id registered for `<pad>`, if the vocabulary registered one.
#[verifier::external_body]
fn xlm_roberta_pad_id(tok: &XLMRobertaTokenizer) -> (r: Option<i64>)
    ensures
        r == xlm_roberta_pad_of(*tok),
{
    tok.vocab().special_values.get(XLMRobertaVocab::pad_value()).copied()
}

/// Relies on the `values` map and `unknown_value` of the `XLMRobertaVocab` that
/// `Tokenizer::vocab` returns: whether the unknown token has an id.
#[verifier::external_body]
fn xlm_roberta_has_unknown(tok: &XLMRobertaTokenizer) -> (r: bool)
    ensures
        r == xlm_roberta_knows_unknown(*tok),
{
    tok.vocab().values.contains_key(tok.vocab().unknown_value)
}

#[verifier::external_type_specification]
#[verifier::external_body]
pub struct ExAlbertTokenizer(AlbertTokenizer);

/// Special tokens that an Albert tokenizer adds to a pair: `[CLS] a [SEP] b [SEP]`.
pub const ALBERT_PAIR_SPECIAL_TOKENS: usize = 3;

/// The id that the vocabulary of a Albert tokenizer registers for `<pad>`, if any.
pub uninterp spec fn albert_pad_of(tok: AlbertTokenizer) -> Option<i64>;

/// Whether the vocabulary of a Albert tokenizer has an entry for its own unknown token.
pub uninterp spec fn albert_knows_unknown(tok: AlbertTokenizer) -> bool;

/// Relies on `Tokenizer::encode_pair_list` of `AlbertTokenizer`, with longest-first
/// truncation and no stride: one encoding per pair, each cut down to at most
/// `max_len` ids. It panics when `max_len` cannot hold the special tokens, and
/// when a token is missing from a vocabulary without an unknown-token entry.
#[verifier::external_body]
fn albert_encode_pairs(tok: &AlbertTokenizer, pairs: &Vec<(String, String)>, max_len: usize) -> (r: Vec<Vec<i64>>)
    requires
        max_len >= ALBERT_PAIR_SPECIAL_TOKENS,
        albert_knows_unknown(*tok),
    ensures
        r@.len() == pairs@.len(),
        forall|i: int| 0 <= i < r@.len() ==> #[trigger] r@[i]@.len() <= max_len,
{
    tok.encode_pair_list(pairs, max_len, &TruncationStrategy::LongestFirst, 0)
        .into_iter()
        .map(|t| t.token_ids)
        .collect()
}

/// Relies on the `special_values` map of the `AlbertVocab` that `Tokenizer::vocab`
/// returns: the id registered for `<pad>`, if the vocabulary registered one.
#[verifier::external_body]
fn albert_pad_id(tok: &AlbertTokenizer) -> (r: Option<i64>)
    ensures
        r == albert_pad_of(*tok),
{
    tok.vocab().special_values.get(AlbertVocab::pad_value()).copied()
}

/// Relies on the `values` map and `unknown_value` of the `AlbertVocab` that
/// `Tokenizer::vocab` returns: whether the unknown token has an id.
#[verifier::external_body]
fn albert_has_unknown(tok: &AlbertTokenizer) -> (r: bool)
    ensures
        r == albert_knows_unknown(*tok),
{
    tok.vocab().values.contains_key(tok.vocab().unknown_value)
}

#[verifier::external_type_specification]
#[verifier::external_body]
pub struct ExXLNetTokenizer(XLNetTokenizer);

/// Special tokens that an XLNet tokenizer adds to a pair: `a <sep> b <sep> <cls>`.
pub const XLNET_PAIR_SPECIAL_TOKENS: usize = 3;

/// The id that the vocabulary of a XLNet tokenizer registers for `<pad>`, if any.
pub uninterp spec fn xlnet_pad_of(tok: XLNetTokenizer) -> Option<i64>;

/// Whether the vocabulary of a XLNet tokenizer has an entry for its own unknown token.
pub uninterp spec fn xlnet_knows_unknown(tok: XLNetTokenizer) -> bool;

/// Relies on `Tokenizer::encode_pair_list` of `XLNetTokenizer`, with longest-first
/// truncation and no stride: one encoding per pair, each cut down to at most
/// `max_len` ids. It panics when `max_len` cannot hold the special tokens, and
/// when a token is missing from a vocabulary without an unknown-token entry.
#[verifier::external_body]
fn xlnet_encode_pairs(tok: &XLNetTokenizer, pairs: &Vec<(String, String)>, max_len: usize) -> (r: Vec<Vec<i64>>)
    requires
        max_len >= XLNET_PAIR_SPECIAL_TOKENS,
        xlnet_knows_unknown(*tok),
    ensures
        r@.len() == pairs@.len(),
        forall|i: int| 0 <= i < r@.len() ==> #[trigger] r@[i]@.len() <= max_len,
{
    tok.encode_pair_list(pairs, max_len, &TruncationStrategy::LongestFirst, 0)
        .into_iter()
        .map(|t| t.token_ids)
        .collect()
}

/// Relies on the `special_values` map of the `XLNetVocab` that `Tokenizer::vocab`
/// returns: the id registered for `<pad>`, if the vocabulary registered one.
#[verifier::external_body]
fn xlnet_pad_id(tok: &XLNetTokenizer) -> (r: Option<i64>)
    ensures
        r == xlnet_pad_of(*tok),
{
    tok.vocab().special_values.get(XLNetVocab::pad_value()).copied()
}

/// Relies on the `values` map and `unknown_value` of the `XLNetVocab` that
/// `Tokenizer::vocab` returns: whether the unknown token has an id.
#[verifier::external_body]
fn xlnet_has_unknown(tok: &XLNetTokenizer) -> (r: bool)
    ensures
        r == xlnet_knows_unknown(*tok),
{
    tok.vocab().values.contains_key(tok.vocab().unknown_value)
}

/// A loaded tokenizer of one of the supported families.
pub enum TokenizerOption {
    /// WordPiece tokenizer of Bert, DistilBert and MobileBert models.
    Bert(BertTokenizer),
    /// Byte-level BPE tokenizer of Bart, Roberta and Longformer models.
    Roberta(RobertaTokenizer),
    /// SentencePiece tokenizer of XLM-Roberta models.
    XLMRoberta(XLMRobertaTokenizer),
    /// SentencePiece tokenizer of Albert models.
    Albert(AlbertTokenizer),
    /// SentencePiece tokenizer of XLNet models.
    XLNet(XLNetTokenizer),
}

impl TokenizerOption {
    /// The least maximum length that can hold the special tokens of a pair.
    pub open spec fn spec_min_pair_length(&self) -> nat {
        match self {
            Self::Bert(_) => BERT_PAIR_SPECIAL_TOKENS as nat,
            Self::Roberta(_) => ROBERTA_PAIR_SPECIAL_TOKENS as nat,
            Self::XLMRoberta(_) => XLM_ROBERTA_PAIR_SPECIAL_TOKENS as nat,
            Self::Albert(_) => ALBERT_PAIR_SPECIAL_TOKENS as nat,
            Self::XLNet(_) => XLNET_PAIR_SPECIAL_TOKENS as nat,
        }
    }

    /// The padding id that the vocabulary registers, if any.
    pub open spec fn spec_pad_id(&self) -> Option<i64> {
        match self {
            Self::Bert(tok) => bert_pad_of(*tok),
            Self::Roberta(tok) => roberta_pad_of(*tok),
            Self::XLMRoberta(tok) => xlm_roberta_pad_of(*tok),
            Self::Albert(tok) => albert_pad_of(*tok),
            Self::XLNet(tok) => xlnet_pad_of(*tok),
        }
    }

    /// Whether the vocabulary can map every token: it has an entry for its
    /// unknown token.
    pub open spec fn spec_knows_unknown(&self) -> bool {
        match self {
            Self::Bert(tok) => bert_knows_unknown(*tok),
            Self::Roberta(tok) => roberta_knows_unknown(*tok),
            Self::XLMRoberta(tok) => xlm_roberta_knows_unknown(*tok),
            Self::Albert(tok) => albert_knows_unknown(*tok),
            Self::XLNet(tok) => xlnet_knows_unknown(*tok),
        }
    }

    pub fn min_pair_length(&self) -> (r: usize)
        ensures
            r == self.spec_min_pair_length(),
    {
        match self {
            Self::Bert(_) => BERT_PAIR_SPECIAL_TOKENS,
            Self::Roberta(_) => ROBERTA_PAIR_SPECIAL_TOKENS,
            Self::XLMRoberta(_) => XLM_ROBERTA_PAIR_SPECIAL_TOKENS,
            Self::Albert(_) => ALBERT_PAIR_SPECIAL_TOKENS,
            Self::XLNet(_) => XLNET_PAIR_SPECIAL_TOKENS,
        }
    }

    /// Encodes each (premise, hypothesis) pair, truncating the longest of the
    /// two first so that no encoding exceeds `max_len` ids.
    pub fn encode_pair_list(&self, pairs: &Vec<(String, String)>, max_len: usize) -> (r: Vec<Vec<i64>>)
        requires
            max_len >= self.spec_min_pair_length(),
            self.spec_knows_unknown(),
        ensures
            r@.len() == pairs@.len(),
            forall|i: int| 0 <= i < r@.len() ==> #[trigger] r@[i]@.len() <= max_len,
    {
        match self {
            Self::Bert(tok) => bert_encode_pairs(tok, pairs, max_len),
            Self::Roberta(tok) => roberta_encode_pairs(tok, pairs, max_len),
            Self::XLMRoberta(tok) => xlm_roberta_encode_pairs(tok, pairs, max_len),
            Self::Albert(tok) => albert_encode_pairs(tok, pairs, max_len),
            Self::XLNet(tok) => xlnet_encode_pairs(tok, pairs, max_len),
        }
    }

    /// The padding id of the vocabulary, if it defines one.
    pub fn get_pad_id(&self) -> (r: Option<i64>)
        ensures
            r == self.spec_pad_id(),
    {
        match self {
            Self::Bert(tok) => bert_pad_id(tok),
            Self::Roberta(tok) => roberta_pad_id(tok),
            Self::XLMRoberta(tok) => xlm_roberta_pad_id(tok),
            Self::Albert(tok) => albert_pad_id(tok),
            Self::XLNet(tok) => xlnet_pad_id(tok),
        }
    }

    /// Whether the vocabulary has an entry for its unknown token, without
    /// which encoding a word outside the vocabulary cannot succeed.
    pub fn knows_unknown_token(&self) -> (r: bool)
        ensures
            r == self.spec_knows_unknown(),
    {
        match self {
            Self::Bert(tok) => bert_has_unknown(tok),
            Self::Roberta(tok) => roberta_has_unknown(tok),
            Self::XLMRoberta(tok) => xlm_roberta_has_unknown(tok),
            Self::Albert(tok) => albert_has_unknown(tok),
            Self::XLNet(tok) => xlnet_has_unknown(tok),
        }
    }
}

} // verus!
