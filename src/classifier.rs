use vstd::prelude::*;
use crate::error::ZeroShotError;
use crate::model_type::{ConfigOption, ModelType};

verus! {

/// The configuration shape that each model type with a zero-shot adapter
/// needs; `None` for model types without one.
pub open spec fn required_config(model_type: ModelType) -> Option<ConfigOption> {
    match model_type {
        ModelType::Bart => Some(ConfigOption::Bart),
        ModelType::Bert => Some(ConfigOption::Bert),
        ModelType::DistilBert => Some(ConfigOption::DistilBert),
        ModelType::MobileBert => Some(ConfigOption::MobileBert),
        ModelType::Roberta => Some(ConfigOption::Bert),
        ModelType::XLMRoberta => Some(ConfigOption::Bert),
        ModelType::Albert => Some(ConfigOption::Albert),
        ModelType::XLNet => Some(ConfigOption::XLNet),
        ModelType::Longformer => Some(ConfigOption::Longformer),
        _ => None,
    }
}

/// One NLI sequence-classification architecture. The network must produce
/// logits whose first class is contradiction and whose last is entailment.
#[derive(Debug, Clone, Copy, PartialEq, Eq, Structural)]
pub enum ZeroShotClassificationOption {
    Bart,
    Bert,
    DistilBert,
    MobileBert,
    Roberta,
    XLMRoberta,
    Albert,
    XLNet,
    Longformer,
}

/// The optional tensors handed to a network's forward pass.
pub struct ForwardArgs<T> {
    pub input_ids: Option<T>,
    pub mask: Option<T>,
    pub token_type_ids: Option<T>,
    pub position_ids: Option<T>,
    pub input_embeds: Option<T>,
}

impl ZeroShotClassificationOption {
    pub open spec fn spec_model_type(self) -> ModelType {
        match self {
            Self::Bart => ModelType::Bart,
            Self::Bert => ModelType::Bert,
            Self::DistilBert => ModelType::DistilBert,
            Self::MobileBert => ModelType::MobileBert,
            Self::Roberta => ModelType::Roberta,
            Self::XLMRoberta => ModelType::XLMRoberta,
            Self::Albert => ModelType::Albert,
            Self::XLNet => ModelType::XLNet,
            Self::Longformer => ModelType::Longformer,
        }
    }

    /// Whether the network of this architecture takes token type ids.
    pub open spec fn takes_token_type_ids(self) -> bool {
        !(self is Bart || self is DistilBert || self is MobileBert)
    }

    /// Whether the network of this architecture takes position ids.
    pub open spec fn takes_position_ids(self) -> bool {
        !(self is Bart || self is DistilBert || self is MobileBert || self is XLNet)
    }

    /// Whether the network of this architecture takes input embeddings.
    pub open spec fn takes_input_embeds(self) -> bool {
        !(self is Bart)
    }

    /// Selects the adapter for `model_type`, checking that the configuration
    /// has the shape that architecture needs.
    pub fn new(model_type: ModelType, config: &ConfigOption) -> (r: Result<Self, ZeroShotError>)
        ensures
            match required_config(model_type) {
                None => r == Err::<Self, ZeroShotError>(ZeroShotError::NotImplemented(model_type)),
                Some(shape) => if *config == shape {
                    r is Ok && r->Ok_0.spec_model_type() == model_type
                } else {
                    r == Err::<Self, ZeroShotError>(ZeroShotError::InvalidConfiguration(model_type))
                },
            },
    {
        let shape_ok = match model_type {
            ModelType::Bart => matches!(config, ConfigOption::Bart),
            ModelType::Bert | ModelType::Roberta | ModelType::XLMRoberta => matches!(
                config,
                ConfigOption::Bert
            ),
            ModelType::DistilBert => matches!(config, ConfigOption::DistilBert),
            ModelType::MobileBert => matches!(config, ConfigOption::MobileBert),
            ModelType::Albert => matches!(config, ConfigOption::Albert),
            ModelType::XLNet => matches!(config, ConfigOption::XLNet),
            ModelType::Longformer => matches!(config, ConfigOption::Longformer),
            _ => {
                return Err(ZeroShotError::NotImplemented(model_type));
            },
        };
        if !shape_ok {
            return Err(ZeroShotError::InvalidConfiguration(model_type));
        }
        let option = match model_type {
            ModelType::Bart => Self::Bart,
            ModelType::Bert => Self::Bert,
            ModelType::DistilBert => Self::DistilBert,
            ModelType::MobileBert => Self::MobileBert,
            ModelType::Roberta => Self::Roberta,
            ModelType::XLMRoberta => Self::XLMRoberta,
            ModelType::Albert => Self::Albert,
            ModelType::XLNet => Self::XLNet,
            _ => Self::Longformer,
        };
        Ok(option)
    }

    /// The model type this adapter was selected for.
    pub fn model_type(&self) -> (r: ModelType)
        ensures
            r == self.spec_model_type(),
    {
        match *self {
            Self::Bart => ModelType::Bart,
            Self::Bert => ModelType::Bert,
            Self::DistilBert => ModelType::DistilBert,
            Self::MobileBert => ModelType::MobileBert,
            Self::Roberta => ModelType::Roberta,
            Self::XLMRoberta => ModelType::XLMRoberta,
            Self::Albert => ModelType::Albert,
            Self::XLNet => ModelType::XLNet,
            Self::Longformer => ModelType::Longformer,
        }
    }

    /// The forward-pass interface of the adapter: routes the inputs to the
    /// arguments this architecture's network accepts. Ids and mask always
    /// pass; the other tensors pass only where the network takes them. Bart
    /// cannot run without token ids.
    pub fn forward_t<T>(&self, args: ForwardArgs<T>) -> (r: Result<ForwardArgs<T>, ZeroShotError>)
        ensures
            (*self is Bart && args.input_ids is None) ==> r == Err::<ForwardArgs<T>, ZeroShotError>(
                ZeroShotError::MissingInputIds,
            ),
            !(*self is Bart && args.input_ids is None) ==> r is Ok,
            r is Ok ==> {
                let routed = r->Ok_0;
                &&& routed.input_ids == args.input_ids
                &&& routed.mask == args.mask
                &&& routed.token_type_ids == (if self.takes_token_type_ids() {
                    args.token_type_ids
                } else {
                    None
                })
                &&& routed.position_ids == (if self.takes_position_ids() {
                    args.position_ids
                } else {
                    None
                })
                &&& routed.input_embeds == (if self.takes_input_embeds() {
                    args.input_embeds
                } else {
                    None
                })
            },
    {
        let ForwardArgs { input_ids, mask, token_type_ids, position_ids, input_embeds } = args;
        if matches!(self, Self::Bart) && input_ids.is_none() {
            return Err(ZeroShotError::MissingInputIds);
        }
        let token_type_ids = match self {
            Self::Bart | Self::DistilBert | Self::MobileBert => None,
            _ => token_type_ids,
        };
        let position_ids = match self {
            Self::Bart | Self::DistilBert | Self::MobileBert | Self::XLNet => None,
            _ => position_ids,
        };
        let input_embeds = match self {
            Self::Bart => None,
            _ => input_embeds,
        };
        Ok(ForwardArgs { input_ids, mask, token_type_ids, position_ids, input_embeds })
    }
}

} // verus!
