use vstd::prelude::*;
use crate::model_type::ModelType;

verus! {

/// The ways a zero-shot classification step can fail.
#[derive(Debug, Clone, Copy, PartialEq, Eq, Structural)]
pub enum ZeroShotError {
    /// The architecture configuration does not have the shape that the model type needs.
    InvalidConfiguration(ModelType),
    /// No zero-shot adapter exists for this model type.
    NotImplemented(ModelType),
    /// The list of input texts is empty.
    EmptyInputs,
    /// The list of candidate labels is empty.
    EmptyLabels,
    /// The tokenizer defines no padding token.
    MissingPadId,
    /// The tokenizer's vocabulary has no entry for its unknown token.
    MissingUnknownToken,
    /// The maximum length cannot hold the special tokens of a sequence pair.
    MaxLengthTooShort,
    /// The architecture needs token ids and none were given.
    MissingInputIds,
    /// The logits do not have the shape `[inputs * labels, classes]` with at least two classes.
    LogitsShapeMismatch,
}

} // verus!
