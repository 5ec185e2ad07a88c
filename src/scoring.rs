use vstd::prelude::*;
use crate::error::ZeroShotError;
use crate::preparer::{lemma_pair_index_bounds, pair_index};

verus! {

/// One classification result: the label text, its score, its position in the
/// label list and the position of the input it was chosen for.
pub struct Label<S> {
    pub text: String,
    pub score: S,
    pub id: i64,
    pub sentence: usize,
}

/// Logits of `num_inputs * num_labels` pairs, each with at least two classes.
pub open spec fn logits_shape_ok<T>(rows: Seq<Vec<T>>, num_inputs: int, num_labels: int) -> bool {
    &&& rows.len() == num_inputs * num_labels
    &&& forall|k: int| 0 <= k < rows.len() ==> #[trigger] rows[k]@.len() >= 2
}

fn check_logits_shape<T>(rows: &Vec<Vec<T>>, num_inputs: usize, num_labels: usize) -> (r: bool)
    ensures
        r == logits_shape_ok(rows@, num_inputs as int, num_labels as int),
{
    let len = rows.len();
    match num_inputs.checked_mul(num_labels) {
        None => {
            assert(len == rows@.len());
            false
        },
        Some(count) => {
            if len != count {
                return false;
            }
            let mut k: usize = 0;
            while k < rows.len()
                invariant
                    k <= rows@.len(),
                    forall|c: int| 0 <= c < k ==> #[trigger] rows@[c]@.len() >= 2,
                decreases rows@.len() - k,
            {
                if rows[k].len() < 2 {
                    return false;
                }
                k = k + 1;
            }
            true
        },
    }
}

/// Regroups the logits of the input-major pairs by input and picks, for each
/// (input, label), its entailment logit: the last class.
pub fn entailment_logits<T: Copy>(rows: &Vec<Vec<T>>, num_inputs: usize, num_labels: usize) -> (r: Result<
    Vec<Vec<T>>,
    ZeroShotError,
>)
    ensures
        !logits_shape_ok(rows@, num_inputs as int, num_labels as int) ==> r matches Err(
            ZeroShotError::LogitsShapeMismatch,
        ),
        logits_shape_ok(rows@, num_inputs as int, num_labels as int) ==> r is Ok,
        r is Ok ==> {
            let grid = r->Ok_0;
            &&& grid@.len() == num_inputs
            &&& forall|i: int| 0 <= i < num_inputs ==> #[trigger] grid@[i]@.len() == num_labels
            &&& forall|i: int, j: int|
                0 <= i < num_inputs && 0 <= j < num_labels ==> {
                    let row = rows@[pair_index(i, j, num_labels as int)]@;
                    #[trigger] grid@[i]@[j] == row.last()
                }
        },
{
    if !check_logits_shape(rows, num_inputs, num_labels) {
        return Err(ZeroShotError::LogitsShapeMismatch);
    }
    let mut grid: Vec<Vec<T>> = Vec::new();
    let total = rows.len();
    let mut i: usize = 0;
    while i < num_inputs
        invariant
            total == rows@.len(),
            logits_shape_ok(rows@, num_inputs as int, num_labels as int),
            i <= num_inputs,
            grid@.len() == i,
            forall|a: int| 0 <= a < i ==> #[trigger] grid@[a]@.len() == num_labels,
            forall|a: int, b: int|
                0 <= a < i && 0 <= b < num_labels ==> #[trigger] grid@[a]@[b] == rows@[pair_index(
                    a,
                    b,
                    num_labels as int,
                )]@.last(),
        decreases num_inputs - i,
    {
        let mut out: Vec<T> = Vec::new();
        let mut j: usize = 0;
        while j < num_labels
            invariant
                total == rows@.len(),
                logits_shape_ok(rows@, num_inputs as int, num_labels as int),
                i < num_inputs,
                j <= num_labels,
                out@.len() == j,
                forall|b: int|
                    0 <= b < j ==> #[trigger] out@[b] == rows@[pair_index(
                        i as int,
                        b,
                        num_labels as int,
                    )]@.last(),
            decreases num_labels - j,
        {
            proof {
                lemma_pair_index_bounds(i as int, j as int, num_inputs as int, num_labels as int);
            }
            let row = &rows[i * num_labels + j];
            out.push(row[row.len() - 1]);
            j = j + 1;
        }
        grid.push(out);
        i = i + 1;
    }
    Ok(grid)
}

/// Regroups the logits of the input-major pairs by input and picks, for each
/// (input, label), its contradiction logit (the first class) and its
/// entailment logit (the last class). Any classes between them are left out.
pub fn contradiction_entailment<T: Copy>(rows: &Vec<Vec<T>>, num_inputs: usize, num_labels: usize) -> (r:
    Result<Vec<Vec<(T, T)>>, ZeroShotError>)
    ensures
        !logits_shape_ok(rows@, num_inputs as int, num_labels as int) ==> r matches Err(
            ZeroShotError::LogitsShapeMismatch,
        ),
        logits_shape_ok(rows@, num_inputs as int, num_labels as int) ==> r is Ok,
        r is Ok ==> {
            let grid = r->Ok_0;
            &&& grid@.len() == num_inputs
            &&& forall|i: int| 0 <= i < num_inputs ==> #[trigger] grid@[i]@.len() == num_labels
            &&& forall|i: int, j: int|
                0 <= i < num_inputs && 0 <= j < num_labels ==> {
                    let row = rows@[pair_index(i, j, num_labels as int)]@;
                    #[trigger] grid@[i]@[j] == (row[0], row.last())
                }
        },
{
    if !check_logits_shape(rows, num_inputs, num_labels) {
        return Err(ZeroShotError::LogitsShapeMismatch);
    }
    let mut grid: Vec<Vec<(T, T)>> = Vec::new();
    let total = rows.len();
    let mut i: usize = 0;
    while i < num_inputs
        invariant
            total == rows@.len(),
            logits_shape_ok(rows@, num_inputs as int, num_labels as int),
            i <= num_inputs,
            grid@.len() == i,
            forall|a: int| 0 <= a < i ==> #[trigger] grid@[a]@.len() == num_labels,
            forall|a: int, b: int|
                0 <= a < i && 0 <= b < num_labels ==> {
                    let row = rows@[pair_index(a, b, num_labels as int)]@;
                    #[trigger] grid@[a]@[b] == (row[0], row.last())
                },
        decreases num_inputs - i,
    {
        let mut out: Vec<(T, T)> = Vec::new();
        let mut j: usize = 0;
        while j < num_labels
            invariant
                total == rows@.len(),
                logits_shape_ok(rows@, num_inputs as int, num_labels as int),
                i < num_inputs,
                j <= num_labels,
                out@.len() == j,
                forall|b: int|
                    0 <= b < j ==> {
                        let row = rows@[pair_index(i as int, b, num_labels as int)]@;
                        #[trigger] out@[b] == (row[0], row.last())
                    },
            decreases num_labels - j,
        {
            proof {
                lemma_pair_index_bounds(i as int, j as int, num_inputs as int, num_labels as int);
            }
            let row = &rows[i * num_labels + j];
            out.push((row[0], row[row.len() - 1]));
            j = j + 1;
        }
        grid.push(out);
        i = i + 1;
    }
    Ok(grid)
}

/// `a` holds the greatest key, and no earlier position holds a key as great:
/// ties go to the lowest position.
pub open spec fn is_stable_argmax(keys: Seq<i64>, a: int) -> bool {
    &&& 0 <= a < keys.len()
    &&& forall|j: int| 0 <= j < keys.len() ==> #[trigger] keys[j] <= keys[a]
    &&& forall|j: int| 0 <= j < a ==> #[trigger] keys[j] < keys[a]
}

/// The position of the greatest key, the lowest one among equal keys.
pub fn stable_argmax(keys: &Vec<i64>) -> (r: usize)
    requires
        keys@.len() > 0,
    ensures
        is_stable_argmax(keys@, r as int),
{
    let mut best: usize = 0;
    let mut j: usize = 1;
    while j < keys.len()
        invariant
            1 <= j <= keys@.len(),
            is_stable_argmax(keys@.subrange(0, j as int), best as int),
        decreases keys@.len() - j,
    {
        if keys[j] > keys[best] {
            best = j;
        }
        j = j + 1;
    }
    assert(keys@.subrange(0, keys@.len() as int) == keys@);
    best
}

/// The label chosen for input `sentence`: the stable argmax of its keys, with
/// the label's text and its score.
pub open spec fn is_chosen_label<S>(
    label: Label<S>,
    labels: Seq<&str>,
    keys: Seq<i64>,
    scores: Seq<S>,
    sentence: int,
) -> bool {
    &&& is_stable_argmax(keys, label.id as int)
    &&& label.text@ == labels[label.id as int]@
    &&& label.score == scores[label.id as int]
    &&& label.sentence == sentence
}

/// Label `j` of input `sentence`, with its own score.
pub open spec fn is_scored_label<S>(label: Label<S>, labels: Seq<&str>, scores: Seq<S>, j: int, sentence: int) -> bool {
    &&& label.text@ == labels[j]@
    &&& label.score == scores[j]
    &&& label.id == j
    &&& label.sentence == sentence
}

/// `r` is the single-label prediction for the given keys and scores.
pub open spec fn is_prediction<S>(r: Seq<Label<S>>, labels: Seq<&str>, keys: Seq<Vec<i64>>, scores: Seq<Vec<S>>) -> bool {
    &&& r.len() == keys.len()
    &&& forall|i: int| 0 <= i < r.len() ==> is_chosen_label(#[trigger] r[i], labels, keys[i]@, scores[i]@, i)
}

/// `r` is the multi-label scoring of every label for every input.
pub open spec fn is_multilabel_prediction<S>(r: Seq<Vec<Label<S>>>, labels: Seq<&str>, scores: Seq<Vec<S>>) -> bool {
    &&& r.len() == scores.len()
    &&& forall|i: int| 0 <= i < r.len() ==> #[trigger] r[i]@.len() == labels.len()
    &&& forall|i: int, j: int|
        0 <= i < r.len() && 0 <= j < labels.len() ==> is_scored_label(#[trigger] r[i]@[j], labels, scores[i]@, j, i)
}

/// Single-label choice: for each input, the label whose key is greatest (the
/// first of equal ones), with the score of that label. `keys[i][j]` orders the
/// scores `scores[i][j]` of label `j` for input `i`.
pub fn predict_labels<S: Copy>(labels: &[&str], keys: &Vec<Vec<i64>>, scores: &Vec<Vec<S>>) -> (r: Vec<Label<S>>)
    requires
        0 < labels@.len() <= i64::MAX,
        scores@.len() == keys@.len(),
        forall|i: int| 0 <= i < keys@.len() ==> #[trigger] keys@[i]@.len() == labels@.len(),
        forall|i: int| 0 <= i < scores@.len() ==> #[trigger] scores@[i]@.len() == labels@.len(),
    ensures
        is_prediction(r@, labels@, keys@, scores@),
{
    let mut out: Vec<Label<S>> = Vec::new();
    let mut i: usize = 0;
    while i < keys.len()
        invariant
            0 < labels@.len() <= i64::MAX,
            scores@.len() == keys@.len(),
            forall|a: int| 0 <= a < keys@.len() ==> #[trigger] keys@[a]@.len() == labels@.len(),
            forall|a: int| 0 <= a < scores@.len() ==> #[trigger] scores@[a]@.len() == labels@.len(),
            i <= keys@.len(),
            out@.len() == i,
            forall|a: int|
                0 <= a < i ==> is_chosen_label(#[trigger] out@[a], labels@, keys@[a]@, scores@[a]@, a),
        decreases keys@.len() - i,
    {
        let best = stable_argmax(&keys[i]);
        let label = Label {
            text: String::from_str(labels[best]),
            score: scores[i][best],
            id: best as i64,
            sentence: i,
        };
        out.push(label);
        i = i + 1;
    }
    out
}

/// Multi-label scoring: for each input, every label in label order, each
/// with its own score `scores[i][j]`.
pub fn predict_multilabel_labels<S: Copy>(labels: &[&str], scores: &Vec<Vec<S>>) -> (r: Vec<Vec<Label<S>>>)
    requires
        labels@.len() <= i64::MAX,
        forall|i: int| 0 <= i < scores@.len() ==> #[trigger] scores@[i]@.len() == labels@.len(),
    ensures
        is_multilabel_prediction(r@, labels@, scores@),
{
    let mut out: Vec<Vec<Label<S>>> = Vec::new();
    let mut i: usize = 0;
    while i < scores.len()
        invariant
            labels@.len() <= i64::MAX,
            forall|a: int| 0 <= a < scores@.len() ==> #[trigger] scores@[a]@.len() == labels@.len(),
            i <= scores@.len(),
            out@.len() == i,
            forall|a: int| 0 <= a < i ==> #[trigger] out@[a]@.len() == labels@.len(),
            forall|a: int, b: int|
                0 <= a < i && 0 <= b < labels@.len() ==> is_scored_label(
                    #[trigger] out@[a]@[b],
                    labels@,
                    scores@[a]@,
                    b,
                    a,
                ),
        decreases scores@.len() - i,
    {
        let mut row: Vec<Label<S>> = Vec::new();
        let mut j: usize = 0;
        while j < labels.len()
            invariant
                labels@.len() <= i64::MAX,
                i < scores@.len(),
                scores@[i as int]@.len() == labels@.len(),
                j <= labels@.len(),
                row@.len() == j,
                forall|b: int|
                    0 <= b < j ==> is_scored_label(#[trigger] row@[b], labels@, scores@[i as int]@, b, i as int),
            decreases labels@.len() - j,
        {
            let label = Label {
                text: String::from_str(labels[j]),
                score: scores[i][j],
                id: j as i64,
                sentence: i,
            };
            row.push(label);
            j = j + 1;
        }
        out.push(row);
        i = i + 1;
    }
    out
}

} // verus!
