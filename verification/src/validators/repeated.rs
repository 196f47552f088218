//! Rules for repeated fields.

use vstd::prelude::*;

use crate::options::{Entries, ProtoOption, ValueModel};
use super::cel::CelRule;
use super::map::{nested_entry_if, push_nested_if};
use super::{entry_if, field_rules_model, field_rules_option, push_if, Ignore, FIELD_RULES_OPTION};

use super::map::written_nested;
use super::{count_set, group_rule_named, rule_named, written};

use super::law_field_rules_layout;
verus! {

/// Rules for a repeated field: on its size and its items, the rules of each item
/// given by the option that a validator of their kind builds.
#[derive(Debug, Clone)]
pub struct RepeatedValidator {
    /// The rules to apply to the individual items in this field's list.
    pub items: Option<ProtoOption>,
    /// The minimum amount of items that this field must contain in order to be valid.
    pub min_items: Option<u64>,
    /// The maximum amount of items that this field must contain in order to be valid.
    pub max_items: Option<u64>,
    /// Specifies that this field must contain only unique values (only applies to scalar fields).
    pub unique: Option<bool>,
    /// Adds custom validation using one or more [`CelRule`]s to this field, as a whole.
    pub cel: Option<Vec<CelRule>>,
    /// Marks the field as required.
    pub required: Option<bool>,
    pub ignore: Option<Ignore>,
}

impl Default for RepeatedValidator {
    fn default() -> (r: Self)
        ensures
            r.items is None,
            r.min_items is None,
            r.max_items is None,
            r.unique is None,
            r.cel is None,
            r.required is None,
            r.ignore is None,
    {
        RepeatedValidator { items: None, min_items: None, max_items: None, unique: None, cel: None, required: None, ignore: None }
    }
}

impl RepeatedValidator {
    /// The rules written under `repeated`.
    pub open spec fn rules_model(&self) -> Seq<(Seq<char>, ValueModel)> {
        entry_if("unique"@, self.unique) + entry_if("min_items"@, self.min_items)
            + entry_if("max_items"@, self.max_items) + nested_entry_if("items"@, self.items)
    }

    /// The value of the option: the rules under `repeated`, then the CEL rules and
    /// whether the field is required.
    pub open spec fn value_model(&self) -> ValueModel {
        field_rules_model("repeated"@, self.rules_model(), self.cel, self.required)
    }

    /// Builds the option that carries these rules.
    pub fn to_option(self) -> (r: ProtoOption)
        ensures
            r.name@ == FIELD_RULES_OPTION@,
            r.value.model() == self.value_model(),
    {
        let mut rules = Entries::new();
        push_if(&mut rules, "unique", self.unique);
        push_if(&mut rules, "min_items", self.min_items);
        push_if(&mut rules, "max_items", self.max_items);
        push_nested_if(&mut rules, "items", &self.items);
        proof {
            assert(rules.model() =~= self.rules_model());
        }
        field_rules_option("repeated", rules, &self.cel, self.required)
    }
}

} // verus!

verus! {

/// Each rule that the validator sets is written under the name of its field,
/// holding the field's value, and no entry stands for a field left unset: one
/// entry per rule that is set.
pub proof fn law_repeated_rules_named_after_fields(v: RepeatedValidator)
    ensures
        rule_named(v.rules_model(), "unique"@) == written(v.unique),
        rule_named(v.rules_model(), "min_items"@) == written(v.min_items),
        rule_named(v.rules_model(), "max_items"@) == written(v.max_items),
        rule_named(v.rules_model(), "items"@) == written_nested(v.items),
        v.rules_model().len() == count_set(v.unique) + count_set(v.min_items) + count_set(v.max_items) + count_set(v.items),
{
    broadcast use group_rule_named;
    reveal_strlit("unique");
    reveal_strlit("min_items");
    reveal_strlit("max_items");
    reveal_strlit("items");
    assert("unique"@.len() == 6 && "unique"@[0] == 'u' && "unique"@[1] == 'n' && "unique"@[2] == 'i' && "unique"@[3] == 'q' && "unique"@[4] == 'u' && "unique"@[5] == 'e');
    assert("min_items"@.len() == 9 && "min_items"@[0] == 'm' && "min_items"@[1] == 'i' && "min_items"@[2] == 'n' && "min_items"@[3] == '_' && "min_items"@[4] == 'i' && "min_items"@[5] == 't' && "min_items"@[6] == 'e' && "min_items"@[7] == 'm' && "min_items"@[8] == 's');
    assert("max_items"@.len() == 9 && "max_items"@[0] == 'm' && "max_items"@[1] == 'a' && "max_items"@[2] == 'x' && "max_items"@[3] == '_' && "max_items"@[4] == 'i' && "max_items"@[5] == 't' && "max_items"@[6] == 'e' && "max_items"@[7] == 'm' && "max_items"@[8] == 's');
    assert("items"@.len() == 5 && "items"@[0] == 'i' && "items"@[1] == 't' && "items"@[2] == 'e' && "items"@[3] == 'm' && "items"@[4] == 's');
}

} // verus!

verus! {

/// The option holds the rules under `repeated`, whether the field is required under
/// `required`, and otherwise only the CEL rules.
pub proof fn law_repeated_option_layout(v: RepeatedValidator)
    ensures
        v.value_model() is Message,
        rule_named(v.value_model()->Message_0, "repeated"@) == Some(ValueModel::Message(v.rules_model())),
        rule_named(v.value_model()->Message_0, "required"@) == written(v.required),
        v.value_model()->Message_0.len() == 1 + count_set(v.cel) + count_set(v.required),
{
    reveal_strlit("repeated");
    reveal_strlit("cel");
    reveal_strlit("required");
    assert("repeated"@.len() == 8 && "cel"@.len() == 3 && "required"@.len() == 8);
    assert("repeated"@[2] == 'p' && "cel"@[0] == 'c' && "required"@[2] == 'q');
    law_field_rules_layout("repeated"@, v.rules_model(), v.cel, v.required);
}

} // verus!
