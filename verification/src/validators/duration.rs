//! Rules for `google.protobuf.Duration` fields.

use vstd::prelude::*;

use crate::field_type::Duration;
use crate::options::{Entries, ProtoOption, ValueModel};
use super::cel::CelRule;
use super::enums::vec_or_empty;
use super::{
    comparables_error, entry_if, field_rules_model, field_rules_option, holds, list_entry_if, push_if, push_list_if,
    Ignore, FIELD_RULES_OPTION,
};

use super::{count_set, group_rule_named, rule_named, written, written_list};

use super::law_field_rules_layout;
verus! {

/// Rules for a `google.protobuf.Duration` field.
#[derive(Debug, Clone)]
pub struct DurationValidator {
    /// Only the values in this list will be considered valid for this field.
    pub in_: Option<Vec<Duration>>,
    /// The values in this list will be considered invalid for this field.
    pub not_in: Option<Vec<Duration>>,
    /// Only this specific value will be considered valid for this field.
    pub const_: Option<Duration>,
    /// This field's value will be valid only if it is smaller than the specified amount
    pub lt: Option<Duration>,
    /// This field's value will be valid only if it is smaller than, or equal to, the specified amount
    pub lte: Option<Duration>,
    /// This field's value will be valid only if it is greater than the specified amount
    pub gt: Option<Duration>,
    /// This field's value will be valid only if it is greater than, or equal to, the specified amount
    pub gte: Option<Duration>,
    /// Adds custom validation using one or more [`CelRule`]s to this field.
    pub cel: Option<Vec<CelRule>>,
    /// Marks the field as invalid if unset.
    pub required: Option<bool>,
    pub ignore: Option<Ignore>,
}

impl Default for DurationValidator {
    fn default() -> (r: Self)
        ensures
            r.in_ is None,
            r.not_in is None,
            r.const_ is None,
            r.lt is None,
            r.lte is None,
            r.gt is None,
            r.gte is None,
            r.cel is None,
            r.required is None,
            r.ignore is None,
    {
        DurationValidator {
            in_: None,
            not_in: None,
            const_: None,
            lt: None,
            lte: None,
            gt: None,
            gte: None,
            cel: None,
            required: None,
            ignore: None,
        }
    }
}

impl DurationValidator {
    /// The bounds are consistent, and no value is both in `in_` and in `not_in`.
    pub open spec fn is_valid(&self) -> bool {
        &&& comparables_error(self.lt, self.lte, self.gt, self.gte) is None
        &&& forall|i: int| 0 <= i < vec_or_empty(self.in_).len() ==> !holds(vec_or_empty(self.not_in), #[trigger] vec_or_empty(self.in_)[i])
    }

    /// The rules written under `duration`.
    pub open spec fn rules_model(&self) -> Seq<(Seq<char>, ValueModel)> {
        entry_if("const"@, self.const_) + entry_if("lt"@, self.lt) + entry_if("lte"@, self.lte)
            + entry_if("gt"@, self.gt) + entry_if("gte"@, self.gte)
            + list_entry_if("in"@, self.in_) + list_entry_if("not_in"@, self.not_in)
    }

    /// The value of the option: the rules under `duration`, then the CEL rules and
    /// whether the field is required.
    pub open spec fn value_model(&self) -> ValueModel {
        field_rules_model("duration"@, self.rules_model(), self.cel, self.required)
    }

    /// Builds the option that carries these rules.
    pub fn to_option(self) -> (r: ProtoOption)
        requires
            self.is_valid(),
        ensures
            r.name@ == FIELD_RULES_OPTION@,
            r.value.model() == self.value_model(),
    {
        let mut rules = Entries::new();
        push_if(&mut rules, "const", self.const_);
        push_if(&mut rules, "lt", self.lt);
        push_if(&mut rules, "lte", self.lte);
        push_if(&mut rules, "gt", self.gt);
        push_if(&mut rules, "gte", self.gte);
        push_list_if(&mut rules, "in", &self.in_);
        push_list_if(&mut rules, "not_in", &self.not_in);
        proof {
            assert(rules.model() =~= self.rules_model());
        }
        field_rules_option("duration", rules, &self.cel, self.required)
    }
}

} // verus!

verus! {

impl DurationValidator {
    /// No rule set.
    pub open spec fn empty() -> DurationValidator {
        DurationValidator { in_: None, not_in: None, const_: None, lt: None, lte: None, gt: None, gte: None, cel: None, required: None, ignore: None }
    }
}

/// Builds the option for the rules that `config_fn` sets, starting from none.
pub fn build_duration_validator_option<F: FnOnce(DurationValidator) -> DurationValidator>(config_fn: F) -> (r: ProtoOption)
    requires
        call_requires(config_fn, (DurationValidator::empty(),)),
        forall|v: DurationValidator| #[trigger] call_ensures(config_fn, (DurationValidator::empty(),), v) ==> v.is_valid(),
    ensures
        exists|v: DurationValidator| #[trigger] call_ensures(config_fn, (DurationValidator::empty(),), v)
            && r.name@ == FIELD_RULES_OPTION@
            && r.value.model() == v.value_model(),
{
    let start = DurationValidator::default();
    assert(start == DurationValidator::empty());
    let validator = config_fn(start);
    validator.to_option()
}

} // verus!

verus! {

/// Each rule that the validator sets is written under the name of its field,
/// holding the field's value, and no entry stands for a field left unset: one
/// entry per rule that is set.
pub proof fn law_duration_rules_named_after_fields(v: DurationValidator)
    ensures
        rule_named(v.rules_model(), "const"@) == written(v.const_),
        rule_named(v.rules_model(), "lt"@) == written(v.lt),
        rule_named(v.rules_model(), "lte"@) == written(v.lte),
        rule_named(v.rules_model(), "gt"@) == written(v.gt),
        rule_named(v.rules_model(), "gte"@) == written(v.gte),
        rule_named(v.rules_model(), "in"@) == written_list(v.in_),
        rule_named(v.rules_model(), "not_in"@) == written_list(v.not_in),
        v.rules_model().len() == count_set(v.const_) + count_set(v.lt) + count_set(v.lte) + count_set(v.gt) + count_set(v.gte) + count_set(v.in_) + count_set(v.not_in),
{
    broadcast use group_rule_named;
    reveal_strlit("const");
    reveal_strlit("lt");
    reveal_strlit("lte");
    reveal_strlit("gt");
    reveal_strlit("gte");
    reveal_strlit("in");
    reveal_strlit("not_in");
    assert("const"@.len() == 5 && "const"@[0] == 'c' && "const"@[1] == 'o' && "const"@[2] == 'n' && "const"@[3] == 's' && "const"@[4] == 't');
    assert("lt"@.len() == 2 && "lt"@[0] == 'l' && "lt"@[1] == 't');
    assert("lte"@.len() == 3 && "lte"@[0] == 'l' && "lte"@[1] == 't' && "lte"@[2] == 'e');
    assert("gt"@.len() == 2 && "gt"@[0] == 'g' && "gt"@[1] == 't');
    assert("gte"@.len() == 3 && "gte"@[0] == 'g' && "gte"@[1] == 't' && "gte"@[2] == 'e');
    assert("in"@.len() == 2 && "in"@[0] == 'i' && "in"@[1] == 'n');
    assert("not_in"@.len() == 6 && "not_in"@[0] == 'n' && "not_in"@[1] == 'o' && "not_in"@[2] == 't' && "not_in"@[3] == '_' && "not_in"@[4] == 'i' && "not_in"@[5] == 'n');
}

} // verus!

verus! {

/// The option holds the rules under `duration`, whether the field is required under
/// `required`, and otherwise only the CEL rules.
pub proof fn law_duration_option_layout(v: DurationValidator)
    ensures
        v.value_model() is Message,
        rule_named(v.value_model()->Message_0, "duration"@) == Some(ValueModel::Message(v.rules_model())),
        rule_named(v.value_model()->Message_0, "required"@) == written(v.required),
        v.value_model()->Message_0.len() == 1 + count_set(v.cel) + count_set(v.required),
{
    reveal_strlit("duration");
    reveal_strlit("cel");
    reveal_strlit("required");
    assert("duration"@.len() == 8 && "cel"@.len() == 3 && "required"@.len() == 8);
    assert("duration"@[0] == 'd' && "cel"@[0] == 'c' && "required"@[0] == 'r');
    law_field_rules_layout("duration"@, v.rules_model(), v.cel, v.required);
}

} // verus!
