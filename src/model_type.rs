use vstd::prelude::*;

verus! {

/// The model families known to the pipelines.
#[derive(Debug, Clone, Copy, PartialEq, Eq, Structural)]
pub enum ModelType {
    Bart,
    Bert,
    DistilBert,
    Roberta,
    XLMRoberta,
    Electra,
    Marian,
    MobileBert,
    T5,
    Albert,
    XLNet,
    GPT2,
    OpenAiGpt,
    Reformer,
    ProphetNet,
    Longformer,
    Pegasus,
}

/// The shape of a loaded architecture configuration. Roberta and XLM-Roberta
/// models are configured with the Bert shape.
#[derive(Debug, Clone, Copy, PartialEq, Eq, Structural)]
pub enum ConfigOption {
    Bart,
    Bert,
    DistilBert,
    Electra,
    Marian,
    MobileBert,
    T5,
    Albert,
    XLNet,
    GPT2,
    Reformer,
    ProphetNet,
    Longformer,
    Pegasus,
}

} // verus!
