//! Zero-shot text classification through natural language inference.
//!
//! Each (text, label) pair becomes a premise/hypothesis pair; an NLI network
//! scores it, and the entailment/contradiction logits are turned into label
//! choices. This crate holds the dispatch over the supported architectures,
//! the construction of the batched inputs and the reduction of the logits.

pub mod error;
pub mod model_type;
pub mod classifier;
pub mod tokenizer;
pub mod preparer;
pub mod scoring;
pub mod laws;

pub use error::ZeroShotError;
pub use model_type::{ConfigOption, ModelType};
pub use classifier::{ForwardArgs, ZeroShotClassificationOption};
pub use tokenizer::TokenizerOption;
pub use preparer::{
    attention_mask, default_hypothesis, label_sentences, pad_batch, premise_hypothesis_pairs,
    prepare_for_model, PreparedBatch,
};
pub use scoring::{
    contradiction_entailment, entailment_logits, predict_labels, predict_multilabel_labels,
    stable_argmax, Label,
};
pub use laws::{
    law_argmax_follows_label_order, law_multilabel_follows_input_order,
    law_multilabel_follows_label_order, law_multilabel_score_independent, law_multilabel_shape,
    law_prediction_deterministic, law_prediction_follows_input_order,
    law_prediction_follows_label_order, law_prediction_shape, law_single_label_prediction,
    law_single_label_wins, law_stable_argmax_unique,
};
