use zero_shot_classification::{
    contradiction_entailment, entailment_logits, predict_labels, predict_multilabel_labels,
    stable_argmax, ZeroShotError,
};

fn rows() -> Vec<Vec<i32>> {
    // two inputs, three labels, three classes: value = 100 * input + 10 * label + class
    let mut rows = Vec::new();
    for i in 0..2 {
        for j in 0..3 {
            rows.push((0..3).map(|c| 100 * i + 10 * j + c).collect());
        }
    }
    rows
}

#[test]
fn entailment_logits_take_last_class_input_major() {
    let grid = entailment_logits(&rows(), 2, 3).unwrap();
    assert_eq!(grid, vec![vec![2, 12, 22], vec![102, 112, 122]]);
}

#[test]
fn contradiction_entailment_skip_neutral() {
    let grid = contradiction_entailment(&rows(), 2, 3).unwrap();
    assert_eq!(grid[0], vec![(0, 2), (10, 12), (20, 22)]);
    assert_eq!(grid[1], vec![(100, 102), (110, 112), (120, 122)]);
}

#[test]
fn four_classes_use_first_and_last() {
    let rows = vec![vec![1, 2, 3, 4]];
    assert_eq!(contradiction_entailment(&rows, 1, 1).unwrap(), vec![vec![(1, 4)]]);
    assert_eq!(entailment_logits(&rows, 1, 1).unwrap(), vec![vec![4]]);
}

#[test]
fn logits_shape_mismatch() {
    assert_eq!(entailment_logits(&rows(), 2, 2), Err(ZeroShotError::LogitsShapeMismatch));
    assert_eq!(contradiction_entailment(&rows(), 3, 3), Err(ZeroShotError::LogitsShapeMismatch));
    let one_class = vec![vec![1], vec![2]];
    assert_eq!(entailment_logits(&one_class, 1, 2), Err(ZeroShotError::LogitsShapeMismatch));
    assert_eq!(entailment_logits(&rows(), usize::MAX, 2), Err(ZeroShotError::LogitsShapeMismatch));
}

#[test]
fn argmax_picks_greatest() {
    assert_eq!(stable_argmax(&vec![3, 9, -4, 7]), 1);
    assert_eq!(stable_argmax(&vec![-5]), 0);
    assert_eq!(stable_argmax(&vec![i64::MIN, i64::MAX]), 1);
}

#[test]
fn argmax_ties_go_to_lowest_index() {
    assert_eq!(stable_argmax(&vec![1, 8, 3, 8, 8]), 1);
    assert_eq!(stable_argmax(&vec![4, 4, 4]), 0);
}

#[test]
fn predict_labels_one_per_input() {
    let labels = ["politics", "sports", "economics"];
    let keys = vec![vec![1, 5, 3], vec![9, 2, 9]];
    let scores = vec![vec![0.1, 0.6, 0.3], vec![0.45, 0.1, 0.45]];
    let out = predict_labels(&labels, &keys, &scores);
    assert_eq!(out.len(), 2);
    assert_eq!((out[0].text.as_str(), out[0].id, out[0].sentence, out[0].score), ("sports", 1, 0, 0.6));
    assert_eq!((out[1].text.as_str(), out[1].id, out[1].sentence, out[1].score), ("politics", 0, 1, 0.45));
}

#[test]
fn single_label_always_wins() {
    let keys = vec![vec![-7], vec![0], vec![42]];
    let scores = vec![vec![1.0], vec![1.0], vec![1.0]];
    let out = predict_labels(&["only"], &keys, &scores);
    assert_eq!(out.len(), 3);
    for (i, label) in out.iter().enumerate() {
        assert_eq!((label.text.as_str(), label.id, label.sentence, label.score), ("only", 0, i, 1.0));
    }
}

#[test]
fn politics_scenario_selection() {
    // scores of a calibrated NLI model on "Who are you voting for in 2020?"
    let scores = vec![vec![0.97, 0.03]];
    let keys = vec![vec![97, 3]];
    let out = predict_labels(&["politics", "sports"], &keys, &scores);
    assert_eq!(out.len(), 1);
    assert_eq!((out[0].text.as_str(), out[0].id, out[0].sentence), ("politics", 0, 0));
    assert!(out[0].score > 0.5);
}

#[test]
fn predict_follows_label_and_input_order() {
    let keys = vec![vec![1, 5, 3], vec![8, 2, 4]];
    let scores = vec![vec![10, 50, 30], vec![80, 20, 40]];
    let a = predict_labels(&["x", "y", "z"], &keys, &scores);
    // labels reordered as z, x, y
    let keys2 = vec![vec![3, 1, 5], vec![4, 8, 2]];
    let scores2 = vec![vec![30, 10, 50], vec![40, 80, 20]];
    let b = predict_labels(&["z", "x", "y"], &keys2, &scores2);
    for i in 0..2 {
        assert_eq!((a[i].text.as_str(), a[i].score), (b[i].text.as_str(), b[i].score));
    }
    assert_eq!((a[0].id, b[0].id), (1, 2));
    // inputs swapped
    let c = predict_labels(&["x", "y", "z"], &vec![keys[1].clone(), keys[0].clone()], &vec![scores[1].clone(), scores[0].clone()]);
    assert_eq!((c[0].text.as_str(), c[0].score, c[0].sentence), (a[1].text.as_str(), a[1].score, 0));
    assert_eq!((c[1].text.as_str(), c[1].score, c[1].sentence), (a[0].text.as_str(), a[0].score, 1));
}

#[test]
fn multilabel_every_label_in_order() {
    let scores = vec![vec![0.9, 0.8], vec![0.1, 0.2], vec![0.5, 0.5]];
    let out = predict_multilabel_labels(&["politics", "sports"], &scores);
    assert_eq!(out.len(), 3);
    for (i, row) in out.iter().enumerate() {
        assert_eq!(row.len(), 2);
        for (j, label) in row.iter().enumerate() {
            assert_eq!(label.text, ["politics", "sports"][j]);
            assert_eq!(label.id, j as i64);
            assert_eq!(label.sentence, i);
            assert_eq!(label.score, scores[i][j]);
        }
    }
}

#[test]
fn multilabel_follows_label_order() {
    let a = predict_multilabel_labels(&["x", "y"], &vec![vec![1, 2]]);
    let b = predict_multilabel_labels(&["y", "x"], &vec![vec![2, 1]]);
    assert_eq!((b[0][0].text.as_str(), b[0][0].score, b[0][0].id), ("y", a[0][1].score, 0));
    assert_eq!((b[0][1].text.as_str(), b[0][1].score, b[0][1].id), ("x", a[0][0].score, 1));
}

#[test]
fn predict_is_deterministic() {
    let keys = vec![vec![4, 4, 1], vec![0, 3, 3]];
    let scores = vec![vec![0.4, 0.4, 0.2], vec![0.2, 0.4, 0.4]];
    let a = predict_labels(&["x", "y", "z"], &keys, &scores);
    let b = predict_labels(&["x", "y", "z"], &keys, &scores);
    for i in 0..2 {
        assert_eq!((&a[i].text, a[i].id, a[i].score, a[i].sentence), (&b[i].text, b[i].id, b[i].score, b[i].sentence));
    }
    assert_eq!((a[0].id, a[1].id), (0, 1));
}

#[test]
fn multilabel_follows_input_order() {
    let a = predict_multilabel_labels(&["x", "y"], &vec![vec![1, 2], vec![3, 4]]);
    let b = predict_multilabel_labels(&["x", "y"], &vec![vec![3, 4], vec![1, 2]]);
    for j in 0..2 {
        assert_eq!((&b[0][j].text, b[0][j].score, b[0][j].id, b[0][j].sentence), (&a[1][j].text, a[1][j].score, a[1][j].id, 0));
        assert_eq!((&b[1][j].text, b[1][j].score, b[1][j].id, b[1][j].sentence), (&a[0][j].text, a[0][j].score, a[0][j].id, 1));
    }
}

#[test]
fn multilabel_score_ignores_other_labels() {
    let a = predict_multilabel_labels(&["x", "y"], &vec![vec![0.9, 0.2]]);
    let b = predict_multilabel_labels(&["z", "w", "x"], &vec![vec![0.7, 0.7, 0.9]]);
    assert_eq!((b[0][2].text.as_str(), b[0][2].score), ("x", a[0][0].score));
    let total: f64 = a[0].iter().map(|l| l.score).sum();
    assert!(total != 1.0);
}
