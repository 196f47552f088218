//! Custom validation rules written in CEL.

use vstd::prelude::*;
use std::sync::Arc;

use crate::options::{OptionValue, ValueModel};
use crate::text::share;

verus! {

/// The structure of a custom Cel rule used to define validation logic with protovalidate.
/// The id should be a unique identifier for the given rule, which will appear in error messages.
/// The message is the error message that will show up in case of validation failure.
/// The expression is a [Cel](https://cel.dev/) expression that will be executed on validation
/// by protovalidate-compatible libraries.
#[derive(Debug)]
pub struct CelRule {
    pub id: Arc<String>,
    pub message: Arc<String>,
    pub expression: Arc<String>,
}

impl Clone for CelRule {
    fn clone(&self) -> (r: Self)
        ensures
            r == *self,
    {
        CelRule { id: share(&self.id), message: share(&self.message), expression: share(&self.expression) }
    }
}

impl CelRule {
    /// The option value of this rule: a message with its id, message and expression.
    pub open spec fn value_model(&self) -> ValueModel {
        ValueModel::Message(seq![
            ("id"@, ValueModel::String(self.id@)),
            ("message"@, ValueModel::String(self.message@)),
            ("expression"@, ValueModel::String(self.expression@)),
        ])
    }

    /// Returns the option value of this rule: `{ id: "..", message: "..", expression: ".." }`.
    pub fn to_value(&self) -> (r: OptionValue)
        ensures
            r.model() == self.value_model(),
    {
        let entries: Vec<(Arc<String>, OptionValue)> = vec![
            (Arc::new(String::from_str("id")), OptionValue::String(share(&self.id))),
            (Arc::new(String::from_str("message")), OptionValue::String(share(&self.message))),
            (Arc::new(String::from_str("expression")), OptionValue::String(share(&self.expression))),
        ];
        let r = OptionValue::Message(Arc::new(entries));
        proof {
            OptionValue::lemma_entry_models(entries@, 3);
            assert(OptionValue::entry_models(entries@, 3) =~= seq![
                ("id"@, ValueModel::String(self.id@)),
                ("message"@, ValueModel::String(self.message@)),
                ("expression"@, ValueModel::String(self.expression@)),
            ]);
        }
        r
    }
}

/// The option values of a list of rules, in order.
pub open spec fn rules_model(rules: Seq<CelRule>) -> Seq<ValueModel> {
    rules.map_values(|r: CelRule| r.value_model())
}

/// Returns the option value of a list of rules: a list with each rule's value.
pub fn rules_value(rules: &Vec<CelRule>) -> (r: OptionValue)
    ensures
        r.model() == ValueModel::List(rules_model(rules@)),
{
    let mut values: Vec<OptionValue> = Vec::new();
    let mut i: usize = 0;
    while i < rules.len()
        invariant
            i <= rules@.len(),
            values@.len() == i,
            forall|j: int| 0 <= j < i ==> #[trigger] values@[j].model() == rules@[j].value_model(),
        decreases rules@.len() - i,
    {
        values.push(rules[i].to_value());
        i = i + 1;
    }
    proof {
        OptionValue::lemma_models(values@, values@.len());
        assert(OptionValue::models(values@, values@.len()) =~= rules_model(rules@));
    }
    OptionValue::List(Arc::new(values))
}

} // verus!
