//! Rules for enum fields.

use vstd::prelude::*;

use crate::options::{Entries, ProtoOption, ValueModel};
use super::cel::CelRule;
use super::{
    entry_if, field_rules_model, field_rules_option, holds, list_entry_if, push_if, push_list_if, Ignore,
    FIELD_RULES_OPTION,
};

use super::{count_set, group_rule_named, rule_named, written, written_list};

use super::law_field_rules_layout;
verus! {

/// Rules for an enum field.
#[derive(Debug, Clone)]
pub struct EnumValidator {
    /// Only the values in this list will be considered valid for this field.
    pub in_: Option<Vec<i32>>,
    /// The values in this list will be considered invalid for this field.
    pub not_in: Option<Vec<i32>>,
    /// Only this specific value will be considered valid for this field.
    pub const_: Option<i32>,
    /// Marks that this field will only accept values that are defined in the enum that it's referring to.
    pub defined_only: Option<bool>,
    /// Adds custom validation using one or more [`CelRule`]s to this field.
    pub cel: Option<Vec<CelRule>>,
    /// Marks the field as invalid if unset.
    pub required: Option<bool>,
    pub ignore: Option<Ignore>,
}

impl Default for EnumValidator {
    fn default() -> (r: Self)
        ensures
            r.in_ is None,
            r.not_in is None,
            r.const_ is None,
            r.defined_only is None,
            r.cel is None,
            r.required is None,
            r.ignore is None,
    {
        EnumValidator { in_: None, not_in: None, const_: None, defined_only: None, cel: None, required: None, ignore: None }
    }
}

/// The values of a list that may be absent, as a sequence.
pub open spec fn vec_or_empty<T>(list: Option<Vec<T>>) -> Seq<T> {
    match list {
        Some(l) => l@,
        None => Seq::empty(),
    }
}

impl EnumValidator {
    /// No value is both in `in_` and in `not_in`.
    pub open spec fn is_valid(&self) -> bool {
        forall|i: int| 0 <= i < vec_or_empty(self.in_).len() ==> !holds(vec_or_empty(self.not_in), #[trigger] vec_or_empty(self.in_)[i])
    }

    /// The rules written under `enum`.
    pub open spec fn rules_model(&self) -> Seq<(Seq<char>, ValueModel)> {
        entry_if("const"@, self.const_) + entry_if("defined_only"@, self.defined_only)
            + list_entry_if("in"@, self.in_) + list_entry_if("not_in"@, self.not_in)
    }

    /// The value of the option: the rules under `enum`, then the CEL rules and
    /// whether the field is required.
    pub open spec fn value_model(&self) -> ValueModel {
        field_rules_model("enum"@, self.rules_model(), self.cel, self.required)
    }

    /// Builds the option that carries these rules.
    pub fn to_option(self) -> (r: ProtoOption)
        requires
            self.is_valid(),
        ensures
            r.name@ == FIELD_RULES_OPTION@,
            r.value.model() == self.value_model(),
    {
        let mut rules = Entries::new();
        push_if(&mut rules, "const", self.const_);
        push_if(&mut rules, "defined_only", self.defined_only);
        push_list_if(&mut rules, "in", &self.in_);
        push_list_if(&mut rules, "not_in", &self.not_in);
        proof {
            assert(rules.model() =~= self.rules_model());
        }
        field_rules_option("enum", rules, &self.cel, self.required)
    }
}

} // verus!

verus! {

impl EnumValidator {
    /// No rule set.
    pub open spec fn empty() -> EnumValidator {
        EnumValidator { in_: None, not_in: None, const_: None, defined_only: None, cel: None, required: None, ignore: None }
    }
}

/// Builds the option for the rules that `config_fn` sets, starting from none.
pub fn build_enum_validator_option<F: FnOnce(EnumValidator) -> EnumValidator>(config_fn: F) -> (r: ProtoOption)
    requires
        call_requires(config_fn, (EnumValidator::empty(),)),
        forall|v: EnumValidator| #[trigger] call_ensures(config_fn, (EnumValidator::empty(),), v) ==> v.is_valid(),
    ensures
        exists|v: EnumValidator| #[trigger] call_ensures(config_fn, (EnumValidator::empty(),), v)
            && r.name@ == FIELD_RULES_OPTION@
            && r.value.model() == v.value_model(),
{
    let start = EnumValidator::default();
    assert(start == EnumValidator::empty());
    let validator = config_fn(start);
    validator.to_option()
}

} // verus!

verus! {

/// Each rule that the validator sets is written under the name of its field,
/// holding the field's value, and no entry stands for a field left unset: one
/// entry per rule that is set.
pub proof fn law_enum_rules_named_after_fields(v: EnumValidator)
    ensures
        rule_named(v.rules_model(), "const"@) == written(v.const_),
        rule_named(v.rules_model(), "defined_only"@) == written(v.defined_only),
        rule_named(v.rules_model(), "in"@) == written_list(v.in_),
        rule_named(v.rules_model(), "not_in"@) == written_list(v.not_in),
        v.rules_model().len() == count_set(v.const_) + count_set(v.defined_only) + count_set(v.in_) + count_set(v.not_in),
{
    broadcast use group_rule_named;
    reveal_strlit("const");
    reveal_strlit("defined_only");
    reveal_strlit("in");
    reveal_strlit("not_in");
    assert("const"@.len() == 5 && "const"@[0] == 'c' && "const"@[1] == 'o' && "const"@[2] == 'n' && "const"@[3] == 's' && "const"@[4] == 't');
    assert("defined_only"@.len() == 12 && "defined_only"@[0] == 'd' && "defined_only"@[1] == 'e' && "defined_only"@[2] == 'f' && "defined_only"@[3] == 'i' && "defined_only"@[4] == 'n' && "defined_only"@[5] == 'e' && "defined_only"@[6] == 'd' && "defined_only"@[7] == '_' && "defined_only"@[8] == 'o' && "defined_only"@[9] == 'n' && "defined_only"@[10] == 'l' && "defined_only"@[11] == 'y');
    assert("in"@.len() == 2 && "in"@[0] == 'i' && "in"@[1] == 'n');
    assert("not_in"@.len() == 6 && "not_in"@[0] == 'n' && "not_in"@[1] == 'o' && "not_in"@[2] == 't' && "not_in"@[3] == '_' && "not_in"@[4] == 'i' && "not_in"@[5] == 'n');
}

} // verus!

verus! {

/// The option holds the rules under `enum`, whether the field is required under
/// `required`, and otherwise only the CEL rules.
pub proof fn law_enum_option_layout(v: EnumValidator)
    ensures
        v.value_model() is Message,
        rule_named(v.value_model()->Message_0, "enum"@) == Some(ValueModel::Message(v.rules_model())),
        rule_named(v.value_model()->Message_0, "required"@) == written(v.required),
        v.value_model()->Message_0.len() == 1 + count_set(v.cel) + count_set(v.required),
{
    reveal_strlit("enum");
    reveal_strlit("cel");
    reveal_strlit("required");
    assert("enum"@.len() == 4 && "cel"@.len() == 3 && "required"@.len() == 8);
    assert("enum"@[0] == 'e' && "cel"@[0] == 'c' && "required"@[0] == 'r');
    law_field_rules_layout("enum"@, v.rules_model(), v.cel, v.required);
}

} // verus!
