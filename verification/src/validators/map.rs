//! Rules for map fields.

use vstd::prelude::*;

use crate::options::{Entries, ProtoOption, ValueModel};
use super::cel::CelRule;
use super::{entry_if, field_rules_model, field_rules_option, push_if, Ignore, FIELD_RULES_OPTION};

use super::{count_set, group_rule_named, rule_named, written};

use super::law_field_rules_layout;
verus! {

/// Rules for a map field: on its size, and on its keys and values, each given by
/// the option that a validator of their kind builds.
#[derive(Debug, Clone)]
pub struct MapValidator {
    /// The rules for the keys.
    pub keys: Option<ProtoOption>,
    /// The rules for the values.
    pub values: Option<ProtoOption>,
    /// The minimum number of pairs.
    pub min_pairs: Option<u64>,
    /// The maximum number of pairs.
    pub max_pairs: Option<u64>,
    /// Adds custom validation using one or more [`CelRule`]s to this field.
    pub cel: Option<Vec<CelRule>>,
    /// Marks the field as invalid if unset.
    pub required: Option<bool>,
    pub ignore: Option<Ignore>,
}

impl Default for MapValidator {
    fn default() -> (r: Self)
        ensures
            r.keys is None,
            r.values is None,
            r.min_pairs is None,
            r.max_pairs is None,
            r.cel is None,
            r.required is None,
            r.ignore is None,
    {
        MapValidator { keys: None, values: None, min_pairs: None, max_pairs: None, cel: None, required: None, ignore: None }
    }
}

/// The entry `name: value` holding the value of a nested option, when it is given.
pub open spec fn nested_entry_if(name: Seq<char>, option: Option<ProtoOption>) -> Seq<(Seq<char>, ValueModel)> {
    match option {
        Some(o) => seq![(name, o.value.model())],
        None => Seq::empty(),
    }
}

/// What a nested rule is written as when it is set: the value of its option.
pub open spec fn written_nested(option: Option<ProtoOption>) -> Option<ValueModel> {
    match option {
        Some(o) => Some(o.value.model()),
        None => None,
    }
}

/// Adds the value of a nested option as `name: value`, when it is given.
pub fn push_nested_if(entries: &mut Entries, name: &str, option: &Option<ProtoOption>)
    ensures
        final(entries).model() == old(entries).model() + nested_entry_if(name@, *option),
{
    match option {
        Some(o) => {
            entries.push(name, (*o.value).clone());
        },
        None => {},
    }
    assert(final(entries).model() =~= old(entries).model() + nested_entry_if(name@, *option));
}

impl MapValidator {
    /// The rules written under `map`.
    pub open spec fn rules_model(&self) -> Seq<(Seq<char>, ValueModel)> {
        entry_if("min_pairs"@, self.min_pairs) + entry_if("max_pairs"@, self.max_pairs)
            + nested_entry_if("keys"@, self.keys) + nested_entry_if("values"@, self.values)
    }

    /// The value of the option: the rules under `map`, then the CEL rules and
    /// whether the field is required.
    pub open spec fn value_model(&self) -> ValueModel {
        field_rules_model("map"@, self.rules_model(), self.cel, self.required)
    }

    /// Builds the option that carries these rules.
    pub fn to_option(self) -> (r: ProtoOption)
        ensures
            r.name@ == FIELD_RULES_OPTION@,
            r.value.model() == self.value_model(),
    {
        let mut rules = Entries::new();
        push_if(&mut rules, "min_pairs", self.min_pairs);
        push_if(&mut rules, "max_pairs", self.max_pairs);
        push_nested_if(&mut rules, "keys", &self.keys);
        push_nested_if(&mut rules, "values", &self.values);
        proof {
            assert(rules.model() =~= self.rules_model());
        }
        field_rules_option("map", rules, &self.cel, self.required)
    }
}

} // verus!

verus! {

/// Each rule that the validator sets is written under the name of its field,
/// holding the field's value, and no entry stands for a field left unset: one
/// entry per rule that is set.
pub proof fn law_map_rules_named_after_fields(v: MapValidator)
    ensures
        rule_named(v.rules_model(), "min_pairs"@) == written(v.min_pairs),
        rule_named(v.rules_model(), "max_pairs"@) == written(v.max_pairs),
        rule_named(v.rules_model(), "keys"@) == written_nested(v.keys),
        rule_named(v.rules_model(), "values"@) == written_nested(v.values),
        v.rules_model().len() == count_set(v.min_pairs) + count_set(v.max_pairs) + count_set(v.keys) + count_set(v.values),
{
    broadcast use group_rule_named;
    reveal_strlit("min_pairs");
    reveal_strlit("max_pairs");
    reveal_strlit("keys");
    reveal_strlit("values");
    assert("min_pairs"@.len() == 9 && "min_pairs"@[0] == 'm' && "min_pairs"@[1] == 'i' && "min_pairs"@[2] == 'n' && "min_pairs"@[3] == '_' && "min_pairs"@[4] == 'p' && "min_pairs"@[5] == 'a' && "min_pairs"@[6] == 'i' && "min_pairs"@[7] == 'r' && "min_pairs"@[8] == 's');
    assert("max_pairs"@.len() == 9 && "max_pairs"@[0] == 'm' && "max_pairs"@[1] == 'a' && "max_pairs"@[2] == 'x' && "max_pairs"@[3] == '_' && "max_pairs"@[4] == 'p' && "max_pairs"@[5] == 'a' && "max_pairs"@[6] == 'i' && "max_pairs"@[7] == 'r' && "max_pairs"@[8] == 's');
    assert("keys"@.len() == 4 && "keys"@[0] == 'k' && "keys"@[1] == 'e' && "keys"@[2] == 'y' && "keys"@[3] == 's');
    assert("values"@.len() == 6 && "values"@[0] == 'v' && "values"@[1] == 'a' && "values"@[2] == 'l' && "values"@[3] == 'u' && "values"@[4] == 'e' && "values"@[5] == 's');
}

} // verus!

verus! {

/// The option holds the rules under `map`, whether the field is required under
/// `required`, and otherwise only the CEL rules.
pub proof fn law_map_option_layout(v: MapValidator)
    ensures
        v.value_model() is Message,
        rule_named(v.value_model()->Message_0, "map"@) == Some(ValueModel::Message(v.rules_model())),
        rule_named(v.value_model()->Message_0, "required"@) == written(v.required),
        v.value_model()->Message_0.len() == 1 + count_set(v.cel) + count_set(v.required),
{
    reveal_strlit("map");
    reveal_strlit("cel");
    reveal_strlit("required");
    assert("map"@.len() == 3 && "cel"@.len() == 3 && "required"@.len() == 8);
    assert("map"@[0] == 'm' && "cel"@[0] == 'c' && "required"@[0] == 'r');
    law_field_rules_layout("map"@, v.rules_model(), v.cel, v.required);
}

} // verus!
