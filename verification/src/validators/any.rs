//! Rules for `google.protobuf.Any` fields.

use vstd::prelude::*;

use crate::options::{Entries, ProtoOption, ValueModel};
use super::cel::CelRule;
use super::enums::vec_or_empty;
use super::{field_rules_model, field_rules_option, holds, list_entry_if, push_list_if, Ignore, FIELD_RULES_OPTION};

use super::{count_set, group_rule_named, rule_named, written, written_list};

use super::law_field_rules_layout;
verus! {

/// Rules for a `google.protobuf.Any` field: which type URLs it may hold.
#[derive(Debug, Clone)]
pub struct AnyValidator<'a> {
    /// Only the type URLs in this list will be considered valid for this field.
    pub in_: Option<Vec<&'a str>>,
    /// The type URLs in this list will be considered invalid for this field.
    pub not_in: Option<Vec<&'a str>>,
    /// Adds custom validation using one or more [`CelRule`]s to this field.
    pub cel: Option<Vec<CelRule>>,
    /// Marks the field as invalid if unset.
    pub required: Option<bool>,
    pub ignore: Option<Ignore>,
}

impl<'a> Default for AnyValidator<'a> {
    fn default() -> (r: Self)
        ensures
            r.in_ is None,
            r.not_in is None,
            r.cel is None,
            r.required is None,
            r.ignore is None,
    {
        AnyValidator { in_: None, not_in: None, cel: None, required: None, ignore: None }
    }
}

impl<'a> AnyValidator<'a> {
    /// No type URL is both in `in_` and in `not_in`.
    pub open spec fn is_valid(&self) -> bool {
        forall|i: int| 0 <= i < vec_or_empty(self.in_).len() ==> !holds(vec_or_empty(self.not_in), #[trigger] vec_or_empty(self.in_)[i])
    }

    /// The rules written under `any`.
    pub open spec fn rules_model(&self) -> Seq<(Seq<char>, ValueModel)> {
        list_entry_if("in"@, self.in_) + list_entry_if("not_in"@, self.not_in)
    }

    /// The value of the option: the rules under `any`, then the CEL rules and
    /// whether the field is required.
    pub open spec fn value_model(&self) -> ValueModel {
        field_rules_model("any"@, self.rules_model(), self.cel, self.required)
    }

    /// Builds the option that carries these rules.
    pub fn to_option(self) -> (r: ProtoOption)
        requires
            self.is_valid(),
        ensures
            r.name@ == FIELD_RULES_OPTION@,
            r.value.model() == self.value_model(),
    {
        let mut rules = Entries::new();
        push_list_if(&mut rules, "in", &self.in_);
        push_list_if(&mut rules, "not_in", &self.not_in);
        proof {
            assert(rules.model() =~= self.rules_model());
        }
        field_rules_option("any", rules, &self.cel, self.required)
    }
}

} // verus!

verus! {

impl<'a> AnyValidator<'a> {
    /// No rule set.
    pub open spec fn empty() -> AnyValidator<'a> {
        AnyValidator { in_: None, not_in: None, cel: None, required: None, ignore: None }
    }
}

/// Builds the option for the rules that `config_fn` sets, starting from none.
pub fn build_any_validator_option<'a, F: FnOnce(AnyValidator<'a>) -> AnyValidator<'a>>(config_fn: F) -> (r: ProtoOption)
    requires
        call_requires(config_fn, (AnyValidator::empty(),)),
        forall|v: AnyValidator<'a>| #[trigger] call_ensures(config_fn, (AnyValidator::empty(),), v) ==> v.is_valid(),
    ensures
        exists|v: AnyValidator<'a>| #[trigger] call_ensures(config_fn, (AnyValidator::empty(),), v)
            && r.name@ == FIELD_RULES_OPTION@
            && r.value.model() == v.value_model(),
{
    let start = AnyValidator::default();
    assert(start == AnyValidator::empty());
    let validator = config_fn(start);
    validator.to_option()
}

} // verus!

verus! {

/// Each rule that the validator sets is written under the name of its field,
/// holding the field's value, and no entry stands for a field left unset: one
/// entry per rule that is set.
pub proof fn law_any_rules_named_after_fields<'a>(v: AnyValidator<'a>)
    ensures
        rule_named(v.rules_model(), "in"@) == written_list(v.in_),
        rule_named(v.rules_model(), "not_in"@) == written_list(v.not_in),
        v.rules_model().len() == count_set(v.in_) + count_set(v.not_in),
{
    broadcast use group_rule_named;
    reveal_strlit("in");
    reveal_strlit("not_in");
    assert("in"@.len() == 2 && "in"@[0] == 'i' && "in"@[1] == 'n');
    assert("not_in"@.len() == 6 && "not_in"@[0] == 'n' && "not_in"@[1] == 'o' && "not_in"@[2] == 't' && "not_in"@[3] == '_' && "not_in"@[4] == 'i' && "not_in"@[5] == 'n');
}

} // verus!

verus! {

/// The option holds the rules under `any`, whether the field is required under
/// `required`, and otherwise only the CEL rules.
pub proof fn law_any_option_layout<'a>(v: AnyValidator<'a>)
    ensures
        v.value_model() is Message,
        rule_named(v.value_model()->Message_0, "any"@) == Some(ValueModel::Message(v.rules_model())),
        rule_named(v.value_model()->Message_0, "required"@) == written(v.required),
        v.value_model()->Message_0.len() == 1 + count_set(v.cel) + count_set(v.required),
{
    reveal_strlit("any");
    reveal_strlit("cel");
    reveal_strlit("required");
    assert("any"@.len() == 3 && "cel"@.len() == 3 && "required"@.len() == 8);
    assert("any"@[0] == 'a' && "cel"@[0] == 'c' && "required"@[0] == 'r');
    law_field_rules_layout("any"@, v.rules_model(), v.cel, v.required);
}

} // verus!
