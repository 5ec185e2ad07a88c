use vstd::prelude::*;
use vstd::string::*;
use crate::error::ZeroShotError;
use crate::tokenizer::TokenizerOption;

verus! {

/// The hypothesis that the default template builds for a label.
pub open spec fn hypothesis_of(label: Seq<char>) -> Seq<char> {
    "This example is about "@ + label + "."@
}

/// Builds the default hypothesis `This example is about {label}.`.
pub fn default_hypothesis(label: &str) -> (r: String)
    ensures
        r@ == hypothesis_of(label@),
{
    let mut sentence = String::from_str("This example is about ");
    sentence.append(label);
    sentence.append(".");
    sentence
}

/// Turns each label into its hypothesis sentence, in label order: through
/// `template` when one is given, else through the default template.
pub fn label_sentences<F: Fn(&str) -> String>(labels: &[&str], template: Option<F>) -> (r: Vec<String>)
    requires
        template matches Some(f) ==> forall|s: &str| #[trigger] f.requires((s,)),
    ensures
        r@.len() == labels@.len(),
        template is None ==> forall|j: int|
            0 <= j < labels@.len() ==> #[trigger] r@[j]@ == hypothesis_of(labels@[j]@),
        template matches Some(f) ==> forall|j: int|
            0 <= j < labels@.len() ==> f.ensures((labels@[j],), #[trigger] r@[j]),
{
    let mut sentences: Vec<String> = Vec::new();
    let mut j: usize = 0;
    while j < labels.len()
        invariant
            j <= labels@.len(),
            sentences@.len() == j,
            template matches Some(f) ==> forall|s: &str| #[trigger] f.requires((s,)),
            template is None ==> forall|k: int|
                0 <= k < j ==> #[trigger] sentences@[k]@ == hypothesis_of(labels@[k]@),
            template matches Some(f) ==> forall|k: int|
                0 <= k < j ==> f.ensures((labels@[k],), #[trigger] sentences@[k]),
        decreases labels@.len() - j,
    {
        let sentence = match &template {
            Some(f) => f(labels[j]),
            None => default_hypothesis(labels[j]),
        };
        sentences.push(sentence);
        j = j + 1;
    }
    sentences
}

/// Position of the pair (input `i`, label `j`) in the row-major cross-product
/// over `num_labels` labels.
pub open spec fn pair_index(i: int, j: int, num_labels: int) -> int {
    i * num_labels + j
}

pub(crate) proof fn lemma_pair_index_bounds(i: int, j: int, n: int, l: int)
    requires
        0 <= i < n,
        0 <= j < l,
    ensures
        0 <= pair_index(i, j, l),
        pair_index(i, j, l) < i * l + l,
        i * l + l <= n * l,
{
    assert(0 <= i * l) by (nonlinear_arith)
        requires
            0 <= i,
            0 <= l,
    ;
    assert(i * l + l <= n * l) by (nonlinear_arith)
        requires
            i < n,
            0 <= l,
    ;
}

/// Builds every (input, hypothesis) pair, input-major: all hypotheses of the
/// first input in label order, then those of the second input, and so on.
pub fn premise_hypothesis_pairs(inputs: &[&str], sentences: &Vec<String>) -> (r: Vec<(String, String)>)
    requires
        inputs@.len() * sentences@.len() <= usize::MAX,
    ensures
        r@.len() == inputs@.len() * sentences@.len(),
        forall|i: int, j: int|
            0 <= i < inputs@.len() && 0 <= j < sentences@.len() ==> {
                let pair = #[trigger] r@[pair_index(i, j, sentences@.len() as int)];
                pair.0@ == inputs@[i]@ && pair.1@ == sentences@[j]@
            },
{
    let n = inputs.len();
    let l = sentences.len();
    let mut pairs: Vec<(String, String)> = Vec::new();
    let mut i: usize = 0;
    while i < n
        invariant
            n == inputs@.len(),
            l == sentences@.len(),
            n * l <= usize::MAX,
            i <= n,
            pairs@.len() == i * l,
            forall|a: int, b: int|
                0 <= a < i && 0 <= b < l ==> {
                    let pair = #[trigger] pairs@[pair_index(a, b, l as int)];
                    pair.0@ == inputs@[a]@ && pair.1@ == sentences@[b]@
                },
        decreases n - i,
    {
        let mut j: usize = 0;
        while j < l
            invariant
                n == inputs@.len(),
                l == sentences@.len(),
                n * l <= usize::MAX,
                i < n,
                j <= l,
                pairs@.len() == i * l + j,
                forall|a: int, b: int|
                    0 <= a < i && 0 <= b < l ==> {
                        let pair = #[trigger] pairs@[pair_index(a, b, l as int)];
                        pair.0@ == inputs@[a]@ && pair.1@ == sentences@[b]@
                    },
                forall|b: int|
                    0 <= b < j ==> {
                        let pair = #[trigger] pairs@[pair_index(i as int, b, l as int)];
                        pair.0@ == inputs@[i as int]@ && pair.1@ == sentences@[b]@
                    },
            decreases l - j,
        {
            proof {
                lemma_pair_index_bounds(i as int, j as int, n as int, l as int);
                assert forall|a: int, b: int| 0 <= a < i && 0 <= b < l implies pair_index(a, b, l as int)
                    < pairs@.len() by {
                    lemma_pair_index_bounds(a, b, i as int, l as int);
                }
            }
            let premise = String::from_str(inputs[i]);
            let hypothesis = sentences[j].clone();
            pairs.push((premise, hypothesis));
            j = j + 1;
        }
        assert((i as int + 1) * l as int == i as int * l as int + l as int) by (nonlinear_arith);
        i = i + 1;
    }
    pairs
}

/// The length of the longest row.
pub open spec fn longest(rows: Seq<Vec<i64>>) -> nat
    decreases rows.len(),
{
    if rows.len() == 0 {
        0
    } else {
        let rest = longest(rows.drop_last());
        if rows.last()@.len() > rest {
            rows.last()@.len()
        } else {
            rest
        }
    }
}

proof fn lemma_longest_bounds(rows: Seq<Vec<i64>>, bound: nat)
    ensures
        forall|k: int| 0 <= k < rows.len() ==> #[trigger] rows[k]@.len() <= longest(rows),
        (forall|k: int| 0 <= k < rows.len() ==> #[trigger] rows[k]@.len() <= bound) ==> longest(rows)
            <= bound,
    decreases rows.len(),
{
    if rows.len() > 0 {
        lemma_longest_bounds(rows.drop_last(), bound);
        assert forall|k: int| 0 <= k < rows.len() implies #[trigger] rows[k]@.len() <= longest(rows) by {
            if k < rows.len() - 1 {
                assert(rows.drop_last()[k] == rows[k]);
            }
        }
        if forall|k: int| 0 <= k < rows.len() ==> #[trigger] rows[k]@.len() <= bound {
            assert forall|k: int| 0 <= k < rows.drop_last().len() implies #[trigger] rows.drop_last()[k]@.len()
                <= bound by {
                assert(rows.drop_last()[k] == rows[k]);
            }
        }
    }
}

/// A row extended with `pad_id` up to `width`.
pub open spec fn padded(row: Seq<i64>, width: nat, pad_id: i64) -> Seq<i64> {
    Seq::new(width, |k: int| if k < row.len() { row[k] } else { pad_id })
}

/// Right-pads every encoding with `pad_id` to the length of the longest one.
pub fn pad_batch(encodings: &Vec<Vec<i64>>, pad_id: i64) -> (r: Vec<Vec<i64>>)
    ensures
        r@.len() == encodings@.len(),
        forall|i: int|
            0 <= i < r@.len() ==> #[trigger] r@[i]@ == padded(encodings@[i]@, longest(encodings@), pad_id),
{
    let mut width: usize = 0;
    let mut i: usize = 0;
    while i < encodings.len()
        invariant
            i <= encodings@.len(),
            width == longest(encodings@.subrange(0, i as int)),
        decreases encodings@.len() - i,
    {
        assert(encodings@.subrange(0, i + 1).drop_last() == encodings@.subrange(0, i as int));
        if encodings[i].len() > width {
            width = encodings[i].len();
        }
        i = i + 1;
    }
    assert(encodings@.subrange(0, encodings@.len() as int) == encodings@);
    let mut batch: Vec<Vec<i64>> = Vec::new();
    let mut i: usize = 0;
    while i < encodings.len()
        invariant
            i <= encodings@.len(),
            width == longest(encodings@),
            batch@.len() == i,
            forall|a: int| 0 <= a < i ==> #[trigger] batch@[a]@ == padded(encodings@[a]@, width as nat, pad_id),
        decreases encodings@.len() - i,
    {
        let row = &encodings[i];
        let mut out: Vec<i64> = Vec::new();
        let mut k: usize = 0;
        while k < width
            invariant
                k <= width,
                out@.len() == k,
                forall|c: int| 0 <= c < k ==> #[trigger] out@[c] == (if c < row@.len() {
                    row@[c]
                } else {
                    pad_id
                }),
            decreases width - k,
        {
            if k < row.len() {
                out.push(row[k]);
            } else {
                out.push(pad_id);
            }
            k = k + 1;
        }
        assert(out@ == padded(row@, width as nat, pad_id));
        batch.push(out);
        i = i + 1;
    }
    batch
}

/// The attention mask of a row: true wherever the id is not the padding id.
pub open spec fn mask_of(row: Seq<i64>, pad_id: i64) -> Seq<bool> {
    row.map_values(|t: i64| t != pad_id)
}

/// Marks, position by position, which ids of the batch are not padding.
pub fn attention_mask(batch: &Vec<Vec<i64>>, pad_id: i64) -> (r: Vec<Vec<bool>>)
    ensures
        r@.len() == batch@.len(),
        forall|i: int| 0 <= i < r@.len() ==> #[trigger] r@[i]@ == mask_of(batch@[i]@, pad_id),
{
    let mut mask: Vec<Vec<bool>> = Vec::new();
    let mut i: usize = 0;
    while i < batch.len()
        invariant
            i <= batch@.len(),
            mask@.len() == i,
            forall|a: int| 0 <= a < i ==> #[trigger] mask@[a]@ == mask_of(batch@[a]@, pad_id),
        decreases batch@.len() - i,
    {
        let row = &batch[i];
        let mut out: Vec<bool> = Vec::new();
        let mut k: usize = 0;
        while k < row.len()
            invariant
                k <= row@.len(),
                out@.len() == k,
                forall|c: int| 0 <= c < k ==> #[trigger] out@[c] == (row@[c] != pad_id),
            decreases row@.len() - k,
        {
            out.push(row[k] != pad_id);
            k = k + 1;
        }
        assert(out@ == mask_of(row@, pad_id));
        mask.push(out);
        i = i + 1;
    }
    mask
}

/// Token ids of the premise/hypothesis pairs, padded to a common length, with
/// their attention mask and the padding id used.
pub struct PreparedBatch {
    pub token_ids: Vec<Vec<i64>>,
    pub mask: Vec<Vec<bool>>,
    pub pad_id: i64,
}

impl PreparedBatch {
    /// Rows that all have one length no greater than `max_len`, with a mask of
    /// the same shape that marks the non-padding ids.
    pub open spec fn well_formed(&self, rows: nat, max_len: nat) -> bool {
        &&& self.token_ids@.len() == rows
        &&& self.mask@.len() == rows
        &&& rows > 0
        &&& self.token_ids@[0]@.len() <= max_len
        &&& forall|i: int|
            0 <= i < rows ==> #[trigger] self.token_ids@[i]@.len() == self.token_ids@[0]@.len()
        &&& forall|i: int|
            0 <= i < rows ==> #[trigger] self.mask@[i]@ == mask_of(self.token_ids@[i]@, self.pad_id)
    }
}

/// Builds the padded batch for every (input, label) pair, input-major. Fails
/// on an empty input or label list, on a maximum length too short for the
/// tokenizer's special tokens, on a tokenizer without a padding id and on a
/// vocabulary without an unknown-token entry, checked in that order.
pub fn prepare_for_model<F: Fn(&str) -> String>(
    tokenizer: &TokenizerOption,
    inputs: &[&str],
    labels: &[&str],
    template: Option<F>,
    max_len: usize,
) -> (r: Result<PreparedBatch, ZeroShotError>)
    requires
        inputs@.len() * labels@.len() <= usize::MAX,
        template matches Some(f) ==> forall|s: &str| #[trigger] f.requires((s,)),
    ensures
        inputs@.len() == 0 ==> r matches Err(ZeroShotError::EmptyInputs),
        inputs@.len() > 0 && labels@.len() == 0 ==> r matches Err(ZeroShotError::EmptyLabels),
        inputs@.len() > 0 && labels@.len() > 0 && max_len < tokenizer.spec_min_pair_length() ==> r matches Err(
            ZeroShotError::MaxLengthTooShort,
        ),
        inputs@.len() > 0 && labels@.len() > 0 && max_len >= tokenizer.spec_min_pair_length()
            && tokenizer.spec_pad_id() is None ==> r matches Err(ZeroShotError::MissingPadId),
        inputs@.len() > 0 && labels@.len() > 0 && max_len >= tokenizer.spec_min_pair_length()
            && tokenizer.spec_pad_id() is Some && !tokenizer.spec_knows_unknown() ==> r matches Err(
            ZeroShotError::MissingUnknownToken,
        ),
        inputs@.len() > 0 && labels@.len() > 0 && max_len >= tokenizer.spec_min_pair_length()
            && tokenizer.spec_pad_id() is Some && tokenizer.spec_knows_unknown() ==> r is Ok,
        r is Ok ==> r->Ok_0.pad_id == tokenizer.spec_pad_id()->Some_0,
        r is Ok ==> r->Ok_0.well_formed(inputs@.len() * labels@.len(), max_len as nat),
{
    if inputs.len() == 0 {
        return Err(ZeroShotError::EmptyInputs);
    }
    if labels.len() == 0 {
        return Err(ZeroShotError::EmptyLabels);
    }
    if max_len < tokenizer.min_pair_length() {
        return Err(ZeroShotError::MaxLengthTooShort);
    }
    let pad_id = match tokenizer.get_pad_id() {
        Some(id) => id,
        None => {
            return Err(ZeroShotError::MissingPadId);
        },
    };
    if !tokenizer.knows_unknown_token() {
        return Err(ZeroShotError::MissingUnknownToken);
    }
    let sentences = label_sentences(labels, template);
    let pairs = premise_hypothesis_pairs(inputs, &sentences);
    let encodings = tokenizer.encode_pair_list(&pairs, max_len);
    let token_ids = pad_batch(&encodings, pad_id);
    let mask = attention_mask(&token_ids, pad_id);
    proof {
        let rows = inputs@.len() * labels@.len();
        assert(rows > 0) by (nonlinear_arith)
            requires
                inputs@.len() > 0,
                labels@.len() > 0,
                rows == inputs@.len() * labels@.len(),
        ;
        lemma_longest_bounds(encodings@, max_len as nat);
    }
    Ok(PreparedBatch { token_ids, mask, pad_id })
}

} // verus!
