//! Rules for `bool` fields.

use vstd::prelude::*;

use crate::options::{Entries, ProtoOption, ValueModel};
use super::{entry_if, field_rules_model, field_rules_option, push_if, FIELD_RULES_OPTION};

use super::{count_set, group_rule_named, rule_named, written};

use super::law_field_rules_layout;
verus! {

/// Rules for a `bool` field.
#[derive(Debug, Clone, Copy)]
pub struct BoolValidator {
    /// Only this specific value will be considered valid for this field.
    pub const_: Option<bool>,
    /// Marks the field as invalid if unset.
    pub required: Option<bool>,
}

impl Default for BoolValidator {
    fn default() -> (r: Self)
        ensures
            r.const_ is None,
            r.required is None,
    {
        BoolValidator { const_: None, required: None }
    }
}

impl BoolValidator {
    /// The rules written under `bool`.
    pub open spec fn rules_model(&self) -> Seq<(Seq<char>, ValueModel)> {
        entry_if("const"@, self.const_)
    }

    /// The value of the option: the rules under `bool`, then the CEL rules and
    /// whether the field is required.
    pub open spec fn value_model(&self) -> ValueModel {
        field_rules_model("bool"@, self.rules_model(), None, self.required)
    }

    /// Builds the option that carries these rules.
    pub fn to_option(self) -> (r: ProtoOption)
        ensures
            r.name@ == FIELD_RULES_OPTION@,
            r.value.model() == self.value_model(),
    {
        let mut rules = Entries::new();
        push_if(&mut rules, "const", self.const_);
        proof {
            assert(rules.model() =~= self.rules_model());
        }
        field_rules_option("bool", rules, &None, self.required)
    }
}

} // verus!

verus! {

impl BoolValidator {
    /// No rule set.
    pub open spec fn empty() -> BoolValidator {
        BoolValidator { const_: None, required: None }
    }
}

/// Builds the option for the rules that `config_fn` sets, starting from none.
pub fn build_bool_validator_option<F: FnOnce(BoolValidator) -> BoolValidator>(config_fn: F) -> (r: ProtoOption)
    requires
        call_requires(config_fn, (BoolValidator::empty(),)),
    ensures
        exists|v: BoolValidator| #[trigger] call_ensures(config_fn, (BoolValidator::empty(),), v)
            && r.name@ == FIELD_RULES_OPTION@
            && r.value.model() == v.value_model(),
{
    let start = BoolValidator::default();
    assert(start == BoolValidator::empty());
    let validator = config_fn(start);
    validator.to_option()
}

} // verus!

verus! {

/// Each rule that the validator sets is written under the name of its field,
/// holding the field's value, and no entry stands for a field left unset: one
/// entry per rule that is set.
pub proof fn law_bool_rules_named_after_fields(v: BoolValidator)
    ensures
        rule_named(v.rules_model(), "const"@) == written(v.const_),
        v.rules_model().len() == count_set(v.const_),
{
    broadcast use group_rule_named;
    reveal_strlit("const");
    assert("const"@.len() == 5 && "const"@[0] == 'c' && "const"@[1] == 'o' && "const"@[2] == 'n' && "const"@[3] == 's' && "const"@[4] == 't');
}

} // verus!

verus! {

/// The option holds the rules under `bool`, whether the field is required under
/// `required`, and otherwise only the CEL rules.
pub proof fn law_bool_option_layout(v: BoolValidator)
    ensures
        v.value_model() is Message,
        rule_named(v.value_model()->Message_0, "bool"@) == Some(ValueModel::Message(v.rules_model())),
        rule_named(v.value_model()->Message_0, "required"@) == written(v.required),
        v.value_model()->Message_0.len() == 1 + count_set(v.required),
{
    reveal_strlit("bool");
    reveal_strlit("cel");
    reveal_strlit("required");
    assert("bool"@.len() == 4 && "cel"@.len() == 3 && "required"@.len() == 8);
    assert("bool"@[0] == 'b' && "cel"@[0] == 'c' && "required"@[0] == 'r');
    law_field_rules_layout("bool"@, v.rules_model(), None, v.required);
}

} // verus!
