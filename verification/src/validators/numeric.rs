//! Rules for the integer fields, one validator per protobuf integer type.

use vstd::prelude::*;
use std::marker::PhantomData;

use crate::options::{Entries, ProtoOption, ValueModel};
use super::cel::CelRule;
use super::enums::vec_or_empty;
use super::{
    comparables_error, entry_if, field_rules_model, field_rules_option, holds, list_entry_if, push_if, push_list_if,
    count_set, group_rule_named, rule_named, written, written_list, Bound, Ignore, ListItem, RuleValue,
    FIELD_RULES_OPTION,
};

use crate::field_type::FieldType;
verus! {

/// A protobuf integer type: its name, and the Rust type of its values.
pub trait NumericKind {
    type Value: Bound + ListItem + RuleValue;

    /// The protobuf name of the type.
    spec fn spec_proto_name() -> Seq<char>;

    /// Returns the protobuf name of the type.
    fn proto_name() -> (r: &'static str)
        ensures
            r@ == Self::spec_proto_name(),
    ;
}

/// The protobuf `int64` type.
pub struct Int64;

/// The protobuf `int32` type.
pub struct Int32;

/// The protobuf `sint64` type.
pub struct Sint64;

/// The protobuf `sint32` type.
pub struct Sint32;

/// The protobuf `sfixed64` type.
pub struct Sfixed64;

/// The protobuf `sfixed32` type.
pub struct Sfixed32;

/// The protobuf `uint64` type.
pub struct Uint64;

/// The protobuf `uint32` type.
pub struct Uint32;

/// The protobuf `fixed64` type.
pub struct Fixed64;

/// The protobuf `fixed32` type.
pub struct Fixed32;

impl NumericKind for Int64 {
    type Value = i64;

    open spec fn spec_proto_name() -> Seq<char> {
        "int64"@
    }

    fn proto_name() -> (r: &'static str) {
        "int64"
    }
}

impl NumericKind for Int32 {
    type Value = i32;

    open spec fn spec_proto_name() -> Seq<char> {
        "int32"@
    }

    fn proto_name() -> (r: &'static str) {
        "int32"
    }
}

impl NumericKind for Sint64 {
    type Value = i64;

    open spec fn spec_proto_name() -> Seq<char> {
        "sint64"@
    }

    fn proto_name() -> (r: &'static str) {
        "sint64"
    }
}

impl NumericKind for Sint32 {
    type Value = i32;

    open spec fn spec_proto_name() -> Seq<char> {
        "sint32"@
    }

    fn proto_name() -> (r: &'static str) {
        "sint32"
    }
}

impl NumericKind for Sfixed64 {
    type Value = i64;

    open spec fn spec_proto_name() -> Seq<char> {
        "sfixed64"@
    }

    fn proto_name() -> (r: &'static str) {
        "sfixed64"
    }
}

impl NumericKind for Sfixed32 {
    type Value = i32;

    open spec fn spec_proto_name() -> Seq<char> {
        "sfixed32"@
    }

    fn proto_name() -> (r: &'static str) {
        "sfixed32"
    }
}

impl NumericKind for Uint64 {
    type Value = u64;

    open spec fn spec_proto_name() -> Seq<char> {
        "uint64"@
    }

    fn proto_name() -> (r: &'static str) {
        "uint64"
    }
}

impl NumericKind for Uint32 {
    type Value = u32;

    open spec fn spec_proto_name() -> Seq<char> {
        "uint32"@
    }

    fn proto_name() -> (r: &'static str) {
        "uint32"
    }
}

impl NumericKind for Fixed64 {
    type Value = u64;

    open spec fn spec_proto_name() -> Seq<char> {
        "fixed64"@
    }

    fn proto_name() -> (r: &'static str) {
        "fixed64"
    }
}

impl NumericKind for Fixed32 {
    type Value = u32;

    open spec fn spec_proto_name() -> Seq<char> {
        "fixed32"@
    }

    fn proto_name() -> (r: &'static str) {
        "fixed32"
    }
}

/// Rules for an integer field of the protobuf type `K`.
#[derive(Debug)]
pub struct NumericValidator<K: NumericKind> {
    /// Only this specific value will be considered valid for this field.
    pub const_: Option<K::Value>,
    /// This field's value will be valid only if it is smaller than the specified amount
    pub lt: Option<K::Value>,
    /// This field's value will be valid only if it is smaller than, or equal to, the specified amount
    pub lte: Option<K::Value>,
    /// This field's value will be valid only if it is greater than the specified amount
    pub gt: Option<K::Value>,
    /// This field's value will be valid only if it is greater than, or equal to, the specified amount
    pub gte: Option<K::Value>,
    /// Only the values in this list will be considered valid for this field.
    pub in_: Option<Vec<K::Value>>,
    /// The values in this list will be considered invalid for this field.
    pub not_in: Option<Vec<K::Value>>,
    /// Adds custom validation using one or more [`CelRule`]s to this field.
    pub cel: Option<Vec<CelRule>>,
    /// Marks the field as invalid if unset.
    pub required: Option<bool>,
    pub ignore: Option<Ignore>,
    pub kind: PhantomData<K>,
}

/// Rules for an `int64` field.
pub type Int64Validator = NumericValidator<Int64>;

/// Rules for an `int32` field.
pub type Int32Validator = NumericValidator<Int32>;

/// Rules for a `sint64` field.
pub type Sint64Validator = NumericValidator<Sint64>;

/// Rules for a `sint32` field.
pub type Sint32Validator = NumericValidator<Sint32>;

/// Rules for a `sfixed64` field.
pub type Sfixed64Validator = NumericValidator<Sfixed64>;

/// Rules for a `sfixed32` field.
pub type Sfixed32Validator = NumericValidator<Sfixed32>;

/// Rules for a `uint64` field.
pub type Uint64Validator = NumericValidator<Uint64>;

/// Rules for a `uint32` field.
pub type Uint32Validator = NumericValidator<Uint32>;

/// Rules for a `fixed64` field.
pub type Fixed64Validator = NumericValidator<Fixed64>;

/// Rules for a `fixed32` field.
pub type Fixed32Validator = NumericValidator<Fixed32>;

impl<K: NumericKind> Default for NumericValidator<K> {
    fn default() -> (r: Self)
        ensures
            r.const_ is None,
            r.lt is None,
            r.lte is None,
            r.gt is None,
            r.gte is None,
            r.in_ is None,
            r.not_in is None,
            r.cel is None,
            r.required is None,
            r.ignore is None,
    {
        NumericValidator {
            const_: None,
            lt: None,
            lte: None,
            gt: None,
            gte: None,
            in_: None,
            not_in: None,
            cel: None,
            required: None,
            ignore: None,
            kind: PhantomData,
        }
    }
}

impl<K: NumericKind> NumericValidator<K> {
    /// The bounds are consistent, and no value is both in `in_` and in `not_in`.
    pub open spec fn is_valid(&self) -> bool {
        &&& comparables_error(self.lt, self.lte, self.gt, self.gte) is None
        &&& forall|i: int| 0 <= i < vec_or_empty(self.in_).len() ==> !holds(vec_or_empty(self.not_in), #[trigger] vec_or_empty(self.in_)[i])
    }

    /// The rules written under the type's name.
    pub open spec fn rules_model(&self) -> Seq<(Seq<char>, ValueModel)> {
        entry_if("const"@, self.const_) + entry_if("lt"@, self.lt) + entry_if("lte"@, self.lte)
            + entry_if("gt"@, self.gt) + entry_if("gte"@, self.gte)
            + list_entry_if("in"@, self.in_) + list_entry_if("not_in"@, self.not_in)
    }

    /// Builds the option that carries these rules.
    pub fn to_option(self) -> (r: ProtoOption)
        requires
            self.is_valid(),
        ensures
            r.name@ == FIELD_RULES_OPTION@,
            r.value.model() == field_rules_model(K::spec_proto_name(), self.rules_model(), self.cel, self.required),
    {
        let mut rules = Entries::new();
        push_if(&mut rules, "const", self.const_);
        push_if(&mut rules, "lt", self.lt);
        push_if(&mut rules, "lte", self.lte);
        push_if(&mut rules, "gt", self.gt);
        push_if(&mut rules, "gte", self.gte);
        push_list_if(&mut rules, "in", &self.in_);
        push_list_if(&mut rules, "not_in", &self.not_in);
        proof {
            assert(rules.model() =~= self.rules_model());
        }
        field_rules_option(K::proto_name(), rules, &self.cel, self.required)
    }
}

} // verus!

verus! {

/// Each rule that an integer validator sets is written under the name of its
/// field, holding the field's value, and no entry stands for a field left unset:
/// `lt` under `lt`, `lte` under `lte`, and so on, one entry per field that is set.
pub proof fn law_numeric_rules_named_after_fields<K: NumericKind>(v: NumericValidator<K>)
    ensures
        rule_named(v.rules_model(), "const"@) == written(v.const_),
        rule_named(v.rules_model(), "lt"@) == written(v.lt),
        rule_named(v.rules_model(), "lte"@) == written(v.lte),
        rule_named(v.rules_model(), "gt"@) == written(v.gt),
        rule_named(v.rules_model(), "gte"@) == written(v.gte),
        rule_named(v.rules_model(), "in"@) == written_list(v.in_),
        rule_named(v.rules_model(), "not_in"@) == written_list(v.not_in),
        v.rules_model().len() == count_set(v.const_) + count_set(v.lt) + count_set(v.lte) + count_set(v.gt)
            + count_set(v.gte) + count_set(v.in_) + count_set(v.not_in),
{
    broadcast use group_rule_named;
    reveal_strlit("const");
    reveal_strlit("lt");
    reveal_strlit("lte");
    reveal_strlit("gt");
    reveal_strlit("gte");
    reveal_strlit("in");
    reveal_strlit("not_in");
    assert("const"@.len() == 5 && "const"@[0] == 'c');
    assert("lt"@.len() == 2 && "lt"@[0] == 'l');
    assert("lte"@.len() == 3 && "lte"@[0] == 'l');
    assert("gt"@.len() == 2 && "gt"@[0] == 'g');
    assert("gte"@.len() == 3 && "gte"@[0] == 'g');
    assert("in"@.len() == 2 && "in"@[0] == 'i');
    assert("not_in"@.len() == 6 && "not_in"@[0] == 'n');
}

} // verus!

verus! {

/// Each integer validator writes its rules under the protobuf name of the
/// field type that it is for.
pub proof fn law_numeric_kind_names()
    ensures
        Int64::spec_proto_name() == FieldType::Int64.spec_name(),
        Int32::spec_proto_name() == FieldType::Int32.spec_name(),
        Sint64::spec_proto_name() == FieldType::Sint64.spec_name(),
        Sint32::spec_proto_name() == FieldType::Sint32.spec_name(),
        Sfixed64::spec_proto_name() == FieldType::Sfixed64.spec_name(),
        Sfixed32::spec_proto_name() == FieldType::Sfixed32.spec_name(),
        Uint64::spec_proto_name() == FieldType::Uint64.spec_name(),
        Uint32::spec_proto_name() == FieldType::Uint32.spec_name(),
        Fixed64::spec_proto_name() == FieldType::Fixed64.spec_name(),
        Fixed32::spec_proto_name() == FieldType::Fixed32.spec_name(),
{
}

} // verus!
