use vstd::prelude::*;
use crate::scoring::{
    is_chosen_label, is_multilabel_prediction, is_prediction, is_scored_label, is_stable_argmax, Label,
};

verus! {

/// `perm` reorders the positions `0..n`: each position appears exactly once.
pub open spec fn is_permutation(perm: Seq<int>, n: int) -> bool {
    &&& perm.len() == n
    &&& forall|j: int| 0 <= j < n ==> 0 <= #[trigger] perm[j] < n
    &&& forall|a: int, b: int| 0 <= a < n && 0 <= b < n && a != b ==> #[trigger] perm[a] != #[trigger] perm[b]
    &&& forall|m: int| 0 <= m < n ==> #[trigger] perm.contains(m)
}

/// The key at `m` is strictly greater than all the others.
pub open spec fn is_unique_max(keys: Seq<i64>, m: int) -> bool {
    0 <= m < keys.len() && forall|j: int| 0 <= j < keys.len() && j != m ==> #[trigger] keys[j] < keys[m]
}

/// One key is strictly greater than all the others.
pub open spec fn has_unique_max(keys: Seq<i64>) -> bool {
    exists|m: int| #[trigger] is_unique_max(keys, m)
}

/// The label chosen for an input is determined by its keys: there is only one
/// stable argmax.
pub proof fn law_stable_argmax_unique(keys: Seq<i64>, a: int, b: int)
    requires
        is_stable_argmax(keys, a),
        is_stable_argmax(keys, b),
    ensures
        a == b,
{
    if a < b {
        assert(keys[a] < keys[b]);
        assert(keys[b] <= keys[a]);
    } else if b < a {
        assert(keys[b] < keys[a]);
        assert(keys[a] <= keys[b]);
    }
}

/// With a single candidate label, that label is always the one chosen.
pub proof fn law_single_label_wins(keys: Seq<i64>, a: int)
    requires
        keys.len() == 1,
        is_stable_argmax(keys, a),
    ensures
        a == 0,
{
}

/// Reordering the labels does not change which label wins where one key is
/// strictly greatest: the winner in the new order is the old winner moved.
pub proof fn law_argmax_follows_label_order(keys: Seq<i64>, reordered: Seq<i64>, perm: Seq<int>, a: int)
    requires
        is_permutation(perm, keys.len() as int),
        reordered.len() == keys.len(),
        forall|j: int| 0 <= j < keys.len() ==> #[trigger] reordered[j] == keys[perm[j]],
        has_unique_max(keys),
        is_stable_argmax(reordered, a),
    ensures
        is_stable_argmax(keys, perm[a]),
{
    let m = choose|m: int| #[trigger] is_unique_max(keys, m);
    assert(perm.contains(m));
    let j0 = choose|j: int| 0 <= j < perm.len() && #[trigger] perm[j] == m;
    assert(reordered[j0] == keys[m]);
    assert(reordered[j0] <= reordered[a]);
    assert(perm[a] == m);
}

/// Single-label prediction is determined by its arguments: two results for
/// the same labels, keys and scores agree record by record.
pub proof fn law_prediction_deterministic<S>(
    r1: Seq<Label<S>>,
    r2: Seq<Label<S>>,
    labels: Seq<&str>,
    keys: Seq<Vec<i64>>,
    scores: Seq<Vec<S>>,
)
    requires
        is_prediction(r1, labels, keys, scores),
        is_prediction(r2, labels, keys, scores),
    ensures
        r1.len() == r2.len(),
        forall|i: int|
            0 <= i < r1.len() ==> {
                &&& #[trigger] r1[i].id == r2[i].id
                &&& r1[i].text@ == r2[i].text@
                &&& r1[i].score == r2[i].score
                &&& r1[i].sentence == r2[i].sentence
            },
{
    assert forall|i: int| 0 <= i < r1.len() implies #[trigger] r1[i].id == r2[i].id by {
        assert(is_chosen_label(r1[i], labels, keys[i]@, scores[i]@, i));
        assert(is_chosen_label(r2[i], labels, keys[i]@, scores[i]@, i));
        law_stable_argmax_unique(keys[i]@, r1[i].id as int, r2[i].id as int);
    }
}

/// Reordering the inputs reorders the single-label predictions the same way:
/// each input keeps its label and score, under its new position.
pub proof fn law_prediction_follows_input_order<S>(
    r1: Seq<Label<S>>,
    r2: Seq<Label<S>>,
    labels: Seq<&str>,
    keys: Seq<Vec<i64>>,
    scores: Seq<Vec<S>>,
    keys2: Seq<Vec<i64>>,
    scores2: Seq<Vec<S>>,
    perm: Seq<int>,
)
    requires
        is_permutation(perm, keys.len() as int),
        keys2.len() == keys.len(),
        forall|i: int| 0 <= i < keys.len() ==> #[trigger] keys2[i] == keys[perm[i]],
        forall|i: int| 0 <= i < keys.len() ==> #[trigger] scores2[i] == scores[perm[i]],
        is_prediction(r1, labels, keys, scores),
        is_prediction(r2, labels, keys2, scores2),
    ensures
        r2.len() == r1.len(),
        forall|i: int|
            0 <= i < r2.len() ==> {
                &&& #[trigger] r2[i].id == r1[perm[i]].id
                &&& r2[i].text@ == r1[perm[i]].text@
                &&& r2[i].score == r1[perm[i]].score
                &&& r2[i].sentence == i
            },
{
    assert forall|i: int| 0 <= i < r2.len() implies #[trigger] r2[i].id == r1[perm[i]].id by {
        let p = perm[i];
        assert(is_chosen_label(r1[p], labels, keys[p]@, scores[p]@, p));
        assert(is_chosen_label(r2[i], labels, keys2[i]@, scores2[i]@, i));
        law_stable_argmax_unique(keys[p]@, r1[p].id as int, r2[i].id as int);
    }
    assert forall|i: int| 0 <= i < r2.len() implies #[trigger] r2[i].sentence == i by {
        assert(is_chosen_label(r2[i], labels, keys2[i]@, scores2[i]@, i));
    }
}

/// Reordering the labels, together with their keys and scores, reorders the
/// single-label predictions' ids the same way wherever one key of an input is
/// strictly greatest: the same label wins, with the same score.
pub proof fn law_prediction_follows_label_order<S>(
    r1: Seq<Label<S>>,
    r2: Seq<Label<S>>,
    labels: Seq<&str>,
    keys: Seq<Vec<i64>>,
    scores: Seq<Vec<S>>,
    labels2: Seq<&str>,
    keys2: Seq<Vec<i64>>,
    scores2: Seq<Vec<S>>,
    perm: Seq<int>,
)
    requires
        is_permutation(perm, labels.len() as int),
        labels2.len() == labels.len(),
        forall|j: int| 0 <= j < labels.len() ==> #[trigger] labels2[j] == labels[perm[j]],
        keys2.len() == keys.len(),
        scores.len() == keys.len(),
        scores2.len() == scores.len(),
        forall|i: int| 0 <= i < keys.len() ==> #[trigger] keys[i]@.len() == labels.len(),
        forall|i: int| 0 <= i < keys.len() ==> #[trigger] keys2[i]@.len() == labels.len(),
        forall|i: int, j: int|
            0 <= i < keys.len() && 0 <= j < labels.len() ==> #[trigger] keys2[i]@[j] == keys[i]@[perm[j]],
        forall|i: int, j: int|
            0 <= i < scores.len() && 0 <= j < labels.len() ==> #[trigger] scores2[i]@[j] == scores[i]@[perm[j]],
        forall|i: int| 0 <= i < keys.len() ==> has_unique_max(#[trigger] keys[i]@),
        is_prediction(r1, labels, keys, scores),
        is_prediction(r2, labels2, keys2, scores2),
    ensures
        r2.len() == r1.len(),
        forall|i: int|
            0 <= i < r2.len() ==> {
                &&& perm[#[trigger] r2[i].id as int] == r1[i].id
                &&& r2[i].text@ == r1[i].text@
                &&& r2[i].score == r1[i].score
                &&& r2[i].sentence == r1[i].sentence
            },
{
    assert forall|i: int| 0 <= i < r2.len() implies {
        &&& perm[#[trigger] r2[i].id as int] == r1[i].id
        &&& r2[i].text@ == r1[i].text@
        &&& r2[i].score == r1[i].score
        &&& r2[i].sentence == r1[i].sentence
    } by {
        assert(is_chosen_label(r1[i], labels, keys[i]@, scores[i]@, i));
        assert(is_chosen_label(r2[i], labels2, keys2[i]@, scores2[i]@, i));
        let a = r2[i].id as int;
        assert forall|j: int| 0 <= j < keys[i]@.len() implies #[trigger] keys2[i]@[j] == keys[i]@[perm[j]] by {}
        law_argmax_follows_label_order(keys[i]@, keys2[i]@, perm, a);
        law_stable_argmax_unique(keys[i]@, perm[a], r1[i].id as int);
        assert(labels2[a] == labels[perm[a]]);
        assert(scores2[i]@[a] == scores[i]@[perm[a]]);
    }
}

/// Reordering the labels, together with their scores, reorders each input's
/// multi-label records the same way: the record at a new position is the one
/// of the label moved there, with the new position as its id.
pub proof fn law_multilabel_follows_label_order<S>(
    r1: Seq<Vec<Label<S>>>,
    r2: Seq<Vec<Label<S>>>,
    labels: Seq<&str>,
    scores: Seq<Vec<S>>,
    labels2: Seq<&str>,
    scores2: Seq<Vec<S>>,
    perm: Seq<int>,
)
    requires
        is_permutation(perm, labels.len() as int),
        labels2.len() == labels.len(),
        forall|j: int| 0 <= j < labels.len() ==> #[trigger] labels2[j] == labels[perm[j]],
        scores2.len() == scores.len(),
        forall|i: int, j: int|
            0 <= i < scores.len() && 0 <= j < labels.len() ==> #[trigger] scores2[i]@[j] == scores[i]@[perm[j]],
        is_multilabel_prediction(r1, labels, scores),
        is_multilabel_prediction(r2, labels2, scores2),
    ensures
        r2.len() == r1.len(),
        forall|i: int, j: int|
            0 <= i < r2.len() && 0 <= j < labels.len() ==> {
                &&& (#[trigger] r2[i]@[j]).text@ == r1[i]@[perm[j]].text@
                &&& r2[i]@[j].score == r1[i]@[perm[j]].score
                &&& r2[i]@[j].id == j
                &&& r1[i]@[perm[j]].id == perm[j]
                &&& r2[i]@[j].sentence == r1[i]@[perm[j]].sentence
            },
{
    assert forall|i: int, j: int| 0 <= i < r2.len() && 0 <= j < labels.len() implies {
        &&& (#[trigger] r2[i]@[j]).text@ == r1[i]@[perm[j]].text@
        &&& r2[i]@[j].score == r1[i]@[perm[j]].score
        &&& r2[i]@[j].id == j
        &&& r1[i]@[perm[j]].id == perm[j]
        &&& r2[i]@[j].sentence == r1[i]@[perm[j]].sentence
    } by {
        assert(is_scored_label(r2[i]@[j], labels2, scores2[i]@, j, i));
        assert(is_scored_label(r1[i]@[perm[j]], labels, scores[i]@, perm[j], i));
    }
}

/// Reordering the inputs reorders the multi-label rows the same way, with
/// unchanged scores.
pub proof fn law_multilabel_follows_input_order<S>(
    r1: Seq<Vec<Label<S>>>,
    r2: Seq<Vec<Label<S>>>,
    labels: Seq<&str>,
    scores: Seq<Vec<S>>,
    scores2: Seq<Vec<S>>,
    perm: Seq<int>,
)
    requires
        is_permutation(perm, scores.len() as int),
        scores2.len() == scores.len(),
        forall|i: int| 0 <= i < scores.len() ==> #[trigger] scores2[i] == scores[perm[i]],
        is_multilabel_prediction(r1, labels, scores),
        is_multilabel_prediction(r2, labels, scores2),
    ensures
        r2.len() == r1.len(),
        forall|i: int, j: int|
            0 <= i < r2.len() && 0 <= j < labels.len() ==> {
                &&& (#[trigger] r2[i]@[j]).text@ == r1[perm[i]]@[j].text@
                &&& r2[i]@[j].score == r1[perm[i]]@[j].score
                &&& r2[i]@[j].id == r1[perm[i]]@[j].id
                &&& r2[i]@[j].sentence == i
            },
{
    assert forall|i: int, j: int| 0 <= i < r2.len() && 0 <= j < labels.len() implies {
        &&& (#[trigger] r2[i]@[j]).text@ == r1[perm[i]]@[j].text@
        &&& r2[i]@[j].score == r1[perm[i]]@[j].score
        &&& r2[i]@[j].id == r1[perm[i]]@[j].id
        &&& r2[i]@[j].sentence == i
    } by {
        assert(is_scored_label(r2[i]@[j], labels, scores2[i]@, j, i));
        assert(is_scored_label(r1[perm[i]]@[j], labels, scores[perm[i]]@, j, perm[i]));
    }
}

/// Single-label prediction gives one record per input, in input order, each
/// naming one of the labels by its position. This holds for any keys and
/// scores, hence whatever template produced the hypotheses.
pub proof fn law_prediction_shape<S>(r: Seq<Label<S>>, labels: Seq<&str>, keys: Seq<Vec<i64>>, scores: Seq<Vec<S>>)
    requires
        is_prediction(r, labels, keys, scores),
        forall|i: int| 0 <= i < keys.len() ==> #[trigger] keys[i]@.len() == labels.len(),
    ensures
        r.len() == keys.len(),
        forall|i: int|
            0 <= i < r.len() ==> {
                &&& (#[trigger] r[i]).sentence == i
                &&& 0 <= r[i].id < labels.len()
                &&& r[i].text@ == labels[r[i].id as int]@
            },
{
    assert forall|i: int| 0 <= i < r.len() implies {
        &&& (#[trigger] r[i]).sentence == i
        &&& 0 <= r[i].id < labels.len()
        &&& r[i].text@ == labels[r[i].id as int]@
    } by {
        assert(is_chosen_label(r[i], labels, keys[i]@, scores[i]@, i));
    }
}

/// Multi-label prediction gives, for every input, exactly one record per
/// label, in label order. This holds for any scores, hence whatever template
/// produced the hypotheses.
pub proof fn law_multilabel_shape<S>(r: Seq<Vec<Label<S>>>, labels: Seq<&str>, scores: Seq<Vec<S>>)
    requires
        is_multilabel_prediction(r, labels, scores),
    ensures
        r.len() == scores.len(),
        forall|i: int| 0 <= i < r.len() ==> #[trigger] r[i]@.len() == labels.len(),
        forall|i: int, j: int|
            0 <= i < r.len() && 0 <= j < labels.len() ==> {
                &&& (#[trigger] r[i]@[j]).id == j
                &&& r[i]@[j].sentence == i
                &&& r[i]@[j].text@ == labels[j]@
            },
{
    assert forall|i: int, j: int| 0 <= i < r.len() && 0 <= j < labels.len() implies {
        &&& (#[trigger] r[i]@[j]).id == j
        &&& r[i]@[j].sentence == i
        &&& r[i]@[j].text@ == labels[j]@
    } by {
        assert(is_scored_label(r[i]@[j], labels, scores[i]@, j, i));
    }
}

/// With a single candidate label, every input gets that label, with id 0 and
/// the label's own score.
pub proof fn law_single_label_prediction<S>(
    r: Seq<Label<S>>,
    labels: Seq<&str>,
    keys: Seq<Vec<i64>>,
    scores: Seq<Vec<S>>,
)
    requires
        labels.len() == 1,
        forall|i: int| 0 <= i < keys.len() ==> #[trigger] keys[i]@.len() == 1,
        is_prediction(r, labels, keys, scores),
    ensures
        r.len() == keys.len(),
        forall|i: int|
            0 <= i < r.len() ==> {
                &&& (#[trigger] r[i]).id == 0
                &&& r[i].text@ == labels[0]@
                &&& r[i].score == scores[i]@[0]
                &&& r[i].sentence == i
            },
{
    assert forall|i: int| 0 <= i < r.len() implies {
        &&& (#[trigger] r[i]).id == 0
        &&& r[i].text@ == labels[0]@
        &&& r[i].score == scores[i]@[0]
        &&& r[i].sentence == i
    } by {
        assert(is_chosen_label(r[i], labels, keys[i]@, scores[i]@, i));
        law_single_label_wins(keys[i]@, r[i].id as int);
    }
}

/// A multi-label score depends on its own label alone: where a label stands
/// at position `k` of one call and `j` of another with the same score, its
/// two records agree, whatever the other labels are.
pub proof fn law_multilabel_score_independent<S>(
    r1: Seq<Vec<Label<S>>>,
    r2: Seq<Vec<Label<S>>>,
    labels: Seq<&str>,
    scores: Seq<Vec<S>>,
    labels2: Seq<&str>,
    scores2: Seq<Vec<S>>,
    i: int,
    j: int,
    k: int,
)
    requires
        is_multilabel_prediction(r1, labels, scores),
        is_multilabel_prediction(r2, labels2, scores2),
        0 <= i < r1.len(),
        0 <= i < r2.len(),
        0 <= j < labels.len(),
        0 <= k < labels2.len(),
        labels2[k] == labels[j],
        scores2[i]@[k] == scores[i]@[j],
    ensures
        r2[i]@[k].score == r1[i]@[j].score,
        r2[i]@[k].text@ == r1[i]@[j].text@,
        r2[i]@[k].sentence == r1[i]@[j].sentence,
{
    assert(is_scored_label(r1[i]@[j], labels, scores[i]@, j, i));
    assert(is_scored_label(r2[i]@[k], labels2, scores2[i]@, k, i));
}

} // verus!
