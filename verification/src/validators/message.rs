//! Rules for message fields.

use vstd::prelude::*;
use std::sync::Arc;

use crate::options::{Entries, ProtoOption, ValueModel};
use super::cel::CelRule;
use super::{cel_entry, entry_if, push_cel, push_if, Ignore, FIELD_RULES_OPTION};

verus! {

/// Rules for a message field.
#[derive(Debug, Clone)]
pub struct MessageValidator {
    /// Adds custom validation using one or more [`CelRule`]s to this field.
    pub cel: Option<Vec<CelRule>>,
    /// Marks the field as invalid if unset.
    pub required: Option<bool>,
    pub ignore: Option<Ignore>,
}

impl Default for MessageValidator {
    fn default() -> (r: Self)
        ensures
            r.cel is None,
            r.required is None,
            r.ignore is None,
    {
        MessageValidator { cel: None, required: None, ignore: None }
    }
}

impl MessageValidator {
    /// The value of the option: the CEL rules, then whether the field is required.
    pub open spec fn value_model(&self) -> ValueModel {
        ValueModel::Message(cel_entry(self.cel) + entry_if("required"@, self.required))
    }

    /// Builds the option that carries these rules.
    pub fn to_option(self) -> (r: ProtoOption)
        ensures
            r.name@ == FIELD_RULES_OPTION@,
            r.value.model() == self.value_model(),
    {
        let mut values = Entries::new();
        push_cel(&mut values, &self.cel);
        push_if(&mut values, "required", self.required);
        proof {
            assert(values.model() =~= cel_entry(self.cel) + entry_if("required"@, self.required));
        }
        ProtoOption { name: FIELD_RULES_OPTION, value: Arc::new(values.into_value()) }
    }
}

} // verus!

verus! {

impl MessageValidator {
    /// No rule set.
    pub open spec fn empty() -> MessageValidator {
        MessageValidator { cel: None, required: None, ignore: None }
    }
}

/// Builds the option for the rules that `config_fn` sets, starting from none.
pub fn build_message_validator_option<F: FnOnce(MessageValidator) -> MessageValidator>(config_fn: F) -> (r: ProtoOption)
    requires
        call_requires(config_fn, (MessageValidator::empty(),)),
    ensures
        exists|v: MessageValidator| #[trigger] call_ensures(config_fn, (MessageValidator::empty(),), v)
            && r.name@ == FIELD_RULES_OPTION@
            && r.value.model() == v.value_model(),
{
    let start = MessageValidator::default();
    assert(start == MessageValidator::empty());
    let validator = config_fn(start);
    validator.to_option()
}

} // verus!
