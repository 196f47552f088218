//! Protovalidate rules for each kind of field, turned into the options that carry them.

pub mod any;
pub mod booleans;
pub mod bytes;
pub mod cel;
pub mod duration;
pub mod enums;
pub mod map;
pub mod message;
pub mod numeric;
pub mod repeated;
pub mod string;
pub mod timestamp;

use vstd::prelude::*;
use std::sync::Arc;

use crate::field_type::{Duration, Timestamp};
use crate::options::{Entries, OptionValue, ProtoOption, ValueModel, Values};
use crate::text::str_eq;
use self::cel::{rules_model, rules_value, CelRule};

verus! {

/// When the rules of a field are skipped.
#[derive(Debug, Clone, Copy, PartialEq, Eq)]
pub enum Ignore {
    Unspecified,
    IfZeroValue,
    Always,
}

/// The name of the option that carries the rules of a field.
pub const FIELD_RULES_OPTION: &'static str = "(buf.validate.field)";

/// A value that bounds a field from above or below, with the order that its type has.
pub trait Bound: Copy {
    /// Whether this value comes strictly before `other`.
    spec fn below(self, other: Self) -> bool;

    /// Whether this value comes strictly before `other`.
    fn is_below(&self, other: &Self) -> (r: bool)
        ensures
            r == self.below(*other),
    ;
}

impl Bound for i64 {
    open spec fn below(self, other: Self) -> bool {
        self < other
    }

    fn is_below(&self, other: &Self) -> (r: bool) {
        *self < *other
    }
}

impl Bound for i32 {
    open spec fn below(self, other: Self) -> bool {
        self < other
    }

    fn is_below(&self, other: &Self) -> (r: bool) {
        *self < *other
    }
}

impl Bound for u64 {
    open spec fn below(self, other: Self) -> bool {
        self < other
    }

    fn is_below(&self, other: &Self) -> (r: bool) {
        *self < *other
    }
}

impl Bound for u32 {
    open spec fn below(self, other: Self) -> bool {
        self < other
    }

    fn is_below(&self, other: &Self) -> (r: bool) {
        *self < *other
    }
}

/// The length of a duration in nanoseconds.
pub open spec fn total_nanos(d: Duration) -> int {
    d.seconds * 1_000_000_000 + d.nanos
}

/// `proto_types::Duration`'s order: `<` compares the total number of nanoseconds.
#[verifier::external_body]
fn duration_below(a: Duration, b: Duration) -> (r: bool)
    ensures
        r == (total_nanos(a) < total_nanos(b)),
{
    proto_types::Duration { seconds: a.seconds, nanos: a.nanos } < proto_types::Duration { seconds: b.seconds, nanos: b.nanos }
}

/// `proto_types::Timestamp`'s order: `<` compares the seconds, then the nanoseconds.
#[verifier::external_body]
fn timestamp_below(a: Timestamp, b: Timestamp) -> (r: bool)
    ensures
        r == (a.seconds < b.seconds || (a.seconds == b.seconds && a.nanos < b.nanos)),
{
    proto_types::Timestamp { seconds: a.seconds, nanos: a.nanos } < proto_types::Timestamp { seconds: b.seconds, nanos: b.nanos }
}

impl Bound for Duration {
    open spec fn below(self, other: Self) -> bool {
        total_nanos(self) < total_nanos(other)
    }

    fn is_below(&self, other: &Self) -> (r: bool) {
        duration_below(*self, *other)
    }
}

impl Bound for Timestamp {
    open spec fn below(self, other: Self) -> bool {
        self.seconds < other.seconds || (self.seconds == other.seconds && self.nanos < other.nanos)
    }

    fn is_below(&self, other: &Self) -> (r: bool) {
        timestamp_below(*self, *other)
    }
}

/// The ways in which the bounds of a field can contradict each other.
#[derive(Debug, Clone, Copy, PartialEq, Eq)]
pub enum ComparablesError {
    /// `lt` and `lte` were both given.
    LtWithLte,
    /// `gt` and `gte` were both given.
    GtWithGte,
    /// `lt` is at most `gt`.
    LtNotAboveGt,
    /// `lt` is below `gte`.
    LtBelowGte,
    /// `lte` is below `gt`.
    LteBelowGt,
    /// `lte` is below `gte`.
    LteBelowGte,
}

/// The first contradiction among the bounds of a field, in the order in which
/// they are checked; none when the bounds are consistent.
pub open spec fn comparables_error<T: Bound>(lt: Option<T>, lte: Option<T>, gt: Option<T>, gte: Option<T>) -> Option<ComparablesError> {
    if lt is Some && lte is Some {
        Some(ComparablesError::LtWithLte)
    } else if gt is Some && gte is Some {
        Some(ComparablesError::GtWithGte)
    } else if lt is Some && gt is Some && !gt.unwrap().below(lt.unwrap()) {
        Some(ComparablesError::LtNotAboveGt)
    } else if lt is Some && gte is Some && lt.unwrap().below(gte.unwrap()) {
        Some(ComparablesError::LtBelowGte)
    } else if lte is Some && gt is Some && lte.unwrap().below(gt.unwrap()) {
        Some(ComparablesError::LteBelowGt)
    } else if lte is Some && gte is Some && lte.unwrap().below(gte.unwrap()) {
        Some(ComparablesError::LteBelowGte)
    } else {
        None
    }
}

/// Checks that the bounds of a field can all hold at once: `lt` and `lte` are not
/// both given, nor `gt` and `gte`, and the upper bound lies above the lower one.
pub fn validate_comparables<T: Bound>(lt: Option<T>, lte: Option<T>, gt: Option<T>, gte: Option<T>) -> (r: Result<(), ComparablesError>)
    ensures
        r == match comparables_error(lt, lte, gt, gte) {
            Some(e) => Err(e),
            None => Ok(()),
        },
{
    if lt.is_some() && lte.is_some() {
        return Err(ComparablesError::LtWithLte);
    }
    if gt.is_some() && gte.is_some() {
        return Err(ComparablesError::GtWithGte);
    }
    if let Some(lt_val) = lt {
        if let Some(gt_val) = gt {
            if !gt_val.is_below(&lt_val) {
                return Err(ComparablesError::LtNotAboveGt);
            }
        }
        if let Some(gte_val) = gte {
            if lt_val.is_below(&gte_val) {
                return Err(ComparablesError::LtBelowGte);
            }
        }
    }
    if let Some(lte_val) = lte {
        if let Some(gt_val) = gt {
            if lte_val.is_below(&gt_val) {
                return Err(ComparablesError::LteBelowGt);
            }
        }
        if let Some(gte_val) = gte {
            if lte_val.is_below(&gte_val) {
                return Err(ComparablesError::LteBelowGte);
            }
        }
    }
    Ok(())
}

/// Whether a minimum and a maximum, when both are given, leave room for a value.
pub open spec fn lengths_consistent(min: Option<u64>, max: Option<u64>) -> bool {
    !(min is Some && max is Some && min.unwrap() > max.unwrap())
}

/// Checks that a minimum length is not above the maximum one.
pub fn validate_lengths(min: Option<u64>, max: Option<u64>) -> (r: bool)
    ensures
        r == lengths_consistent(min, max),
{
    match (min, max) {
        (Some(lo), Some(hi)) => lo <= hi,
        _ => true,
    }
}

/// A value that can appear in the `in` and `not_in` lists of a field's rules.
pub trait ListItem: Copy {
    type Key;

    /// What tells two values apart.
    spec fn key(self) -> Self::Key;

    /// Whether this value is the same as `other`.
    fn is_same(&self, other: &Self) -> (r: bool)
        ensures
            r == (self.key() == other.key()),
    ;
}

impl ListItem for i32 {
    type Key = i32;

    open spec fn key(self) -> i32 {
        self
    }

    fn is_same(&self, other: &Self) -> (r: bool) {
        *self == *other
    }
}

impl ListItem for i64 {
    type Key = i64;

    open spec fn key(self) -> i64 {
        self
    }

    fn is_same(&self, other: &Self) -> (r: bool) {
        *self == *other
    }
}

impl ListItem for u32 {
    type Key = u32;

    open spec fn key(self) -> u32 {
        self
    }

    fn is_same(&self, other: &Self) -> (r: bool) {
        *self == *other
    }
}

impl ListItem for u64 {
    type Key = u64;

    open spec fn key(self) -> u64 {
        self
    }

    fn is_same(&self, other: &Self) -> (r: bool) {
        *self == *other
    }
}

impl ListItem for Duration {
    type Key = Duration;

    open spec fn key(self) -> Duration {
        self
    }

    fn is_same(&self, other: &Self) -> (r: bool) {
        self.seconds == other.seconds && self.nanos == other.nanos
    }
}

impl<'a> ListItem for &'a str {
    type Key = Seq<char>;

    open spec fn key(self) -> Seq<char> {
        self@
    }

    fn is_same(&self, other: &Self) -> (r: bool) {
        str_eq(*self, *other)
    }
}

impl<'a> ListItem for &'a [u8] {
    type Key = Seq<u8>;

    open spec fn key(self) -> Seq<u8> {
        self@
    }

    fn is_same(&self, other: &Self) -> (r: bool) {
        bytes_eq(*self, *other)
    }
}

/// Whether two byte strings hold the same bytes.
pub fn bytes_eq(a: &[u8], b: &[u8]) -> (r: bool)
    ensures
        r == (a@ == b@),
{
    if a.len() != b.len() {
        return false;
    }
    let mut i: usize = 0;
    while i < a.len()
        invariant
            a@.len() == b@.len(),
            i <= a@.len(),
            forall|j: int| 0 <= j < i ==> a@[j] == b@[j],
        decreases a@.len() - i,
    {
        if a[i] != b[i] {
            return false;
        }
        i = i + 1;
    }
    assert(a@ =~= b@);
    true
}

/// The values of a list given or not: an absent list holds no value.
pub open spec fn listed<T>(list: Option<&[T]>) -> Seq<T> {
    match list {
        Some(l) => l@,
        None => Seq::empty(),
    }
}

/// Whether `s` holds a value the same as `x`.
pub open spec fn holds<T: ListItem>(s: Seq<T>, x: T) -> bool {
    exists|i: int| 0 <= i < s.len() && (#[trigger] s[i]).key() == x.key()
}

/// Whether `s` holds a value the same as `x`.
fn holds_item<T: ListItem>(s: &[T], x: &T) -> (r: bool)
    ensures
        r == holds(s@, *x),
{
    let mut i: usize = 0;
    while i < s.len()
        invariant
            i <= s@.len(),
            forall|j: int| 0 <= j < i ==> (#[trigger] s@[j]).key() != x.key(),
        decreases s@.len() - i,
    {
        if s[i].is_same(x) {
            return true;
        }
        i = i + 1;
    }
    false
}

/// Checks that no value is both in `in_list` and in `not_in_list`; when some
/// are, returns them, each once, in the order of `in_list`.
pub fn validate_lists<T: ListItem>(in_list: Option<&[T]>, not_in_list: Option<&[T]>) -> (r: Result<(), Vec<T>>)
    ensures
        r is Ok <==> forall|i: int| 0 <= i < listed(in_list).len() ==> !holds(listed(not_in_list), #[trigger] listed(in_list)[i]),
        r matches Err(shared) ==> {
            &&& shared@.len() > 0
            &&& forall|k: int| 0 <= k < shared@.len() ==> holds(listed(in_list), #[trigger] shared@[k])
                && holds(listed(not_in_list), shared@[k])
            &&& forall|i: int| 0 <= i < listed(in_list).len() && holds(listed(not_in_list), #[trigger] listed(in_list)[i])
                ==> holds(shared@, listed(in_list)[i])
            &&& forall|k1: int, k2: int| 0 <= k1 < k2 < shared@.len() ==> shared@[k1].key() != shared@[k2].key()
        },
{
    let a: &[T] = match in_list {
        Some(l) => l,
        None => &[],
    };
    let b: &[T] = match not_in_list {
        Some(l) => l,
        None => &[],
    };
    assert(a@ == listed(in_list));
    assert(b@ == listed(not_in_list));
    let mut shared: Vec<T> = Vec::new();
    let mut i: usize = 0;
    while i < a.len()
        invariant
            i <= a@.len(),
            forall|k: int| 0 <= k < shared@.len() ==> holds(a@, #[trigger] shared@[k]) && holds(b@, shared@[k]),
            forall|j: int| 0 <= j < i && holds(b@, #[trigger] a@[j]) ==> holds(shared@, a@[j]),
            forall|k1: int, k2: int| 0 <= k1 < k2 < shared@.len() ==> shared@[k1].key() != shared@[k2].key(),
            shared@.len() == 0 ==> forall|j: int| 0 <= j < i ==> !holds(b@, #[trigger] a@[j]),
        decreases a@.len() - i,
    {
        let x = a[i];
        if holds_item(b, &x) && !holds_item(shared.as_slice(), &x) {
            let ghost before = shared@;
            shared.push(x);
            proof {
                assert(shared@[shared@.len() - 1] == x);
                assert(holds(a@, x)) by {
                    assert(a@[i as int] == x);
                }
                assert forall|j: int| 0 <= j <= i && holds(b@, #[trigger] a@[j]) implies holds(shared@, a@[j]) by {
                    if j < i {
                        let k = choose|k: int| 0 <= k < before.len() && (#[trigger] before[k]).key() == a@[j].key();
                        assert(shared@[k] == before[k]);
                    } else {
                        assert(shared@[shared@.len() - 1].key() == a@[j].key());
                    }
                }
            }
        } else {
            proof {
                if holds(b@, x) {
                    let k = choose|k: int| 0 <= k < shared@.len() && (#[trigger] shared@[k]).key() == x.key();
                    assert forall|j: int| 0 <= j <= i && holds(b@, #[trigger] a@[j]) implies holds(shared@, a@[j]) by {
                        if j == i {
                            assert(shared@[k].key() == a@[j].key());
                        }
                    }
                }
            }
        }
        i = i + 1;
    }
    if shared.len() == 0 {
        Ok(())
    } else {
        proof {
            let k = 0int;
            assert(holds(a@, shared@[k]));
            let j = choose|j: int| 0 <= j < a@.len() && (#[trigger] a@[j]).key() == shared@[k].key();
            assert(holds(b@, a@[j])) by {
                let m = choose|m: int| 0 <= m < b@.len() && (#[trigger] b@[m]).key() == shared@[k].key();
                assert(b@[m].key() == a@[j].key());
            }
        }
        Err(shared)
    }
}

/// The name an option takes for the field `raw_name` of a validator: `const_`
/// and `in_` lose their trailing underscore.
pub open spec fn option_name(raw_name: Seq<char>) -> Seq<char> {
    if raw_name == "const_"@ {
        "const"@
    } else if raw_name == "in_"@ {
        "in"@
    } else {
        raw_name
    }
}

/// Returns the name an option takes for the field `raw_name` of a validator.
pub fn get_option_name(raw_name: &str) -> (r: String)
    ensures
        r@ == option_name(raw_name@),
{
    if str_eq(raw_name, "const_") {
        String::from_str("const")
    } else if str_eq(raw_name, "in_") {
        String::from_str("in")
    } else {
        String::from_str(raw_name)
    }
}

/// A value that a rule sets, written as an option value.
pub trait RuleValue: Copy {
    /// The option value this value is written as.
    spec fn value_model(self) -> ValueModel;

    /// Returns the option value this value is written as.
    fn to_value(&self) -> (r: OptionValue)
        ensures
            r.model() == self.value_model(),
    ;
}

impl RuleValue for bool {
    open spec fn value_model(self) -> ValueModel {
        ValueModel::Bool(self)
    }

    fn to_value(&self) -> (r: OptionValue) {
        OptionValue::Bool(*self)
    }
}

impl RuleValue for i64 {
    open spec fn value_model(self) -> ValueModel {
        ValueModel::Int(self)
    }

    fn to_value(&self) -> (r: OptionValue) {
        OptionValue::Int(*self)
    }
}

impl RuleValue for i32 {
    open spec fn value_model(self) -> ValueModel {
        ValueModel::Int(self as i64)
    }

    fn to_value(&self) -> (r: OptionValue) {
        OptionValue::Int(*self as i64)
    }
}

impl RuleValue for u64 {
    open spec fn value_model(self) -> ValueModel {
        ValueModel::Uint(self)
    }

    fn to_value(&self) -> (r: OptionValue) {
        OptionValue::Uint(*self)
    }
}

impl RuleValue for u32 {
    open spec fn value_model(self) -> ValueModel {
        ValueModel::Uint(self as u64)
    }

    fn to_value(&self) -> (r: OptionValue) {
        OptionValue::Uint(*self as u64)
    }
}

impl RuleValue for Duration {
    open spec fn value_model(self) -> ValueModel {
        ValueModel::Duration(self)
    }

    fn to_value(&self) -> (r: OptionValue) {
        OptionValue::Duration(*self)
    }
}

impl RuleValue for Timestamp {
    open spec fn value_model(self) -> ValueModel {
        ValueModel::Timestamp(self)
    }

    fn to_value(&self) -> (r: OptionValue) {
        OptionValue::Timestamp(*self)
    }
}

impl<'a> RuleValue for &'a str {
    open spec fn value_model(self) -> ValueModel {
        ValueModel::String(self@)
    }

    fn to_value(&self) -> (r: OptionValue) {
        OptionValue::string(*self)
    }
}

/// The contents of a list of rule values.
pub open spec fn values_model<T: RuleValue>(items: Seq<T>) -> Seq<ValueModel> {
    items.map_values(|x: T| x.value_model())
}

/// The entry `name: value` when a value is given, nothing otherwise.
pub open spec fn entry_if<T: RuleValue>(name: Seq<char>, value: Option<T>) -> Seq<(Seq<char>, ValueModel)> {
    match value {
        Some(x) => seq![(name, x.value_model())],
        None => Seq::empty(),
    }
}

/// The value that `rules` hold under `name`: that of the first entry so named,
/// none when no entry has that name.
pub open spec fn rule_named(rules: Seq<(Seq<char>, ValueModel)>, name: Seq<char>) -> Option<ValueModel>
    decreases rules.len(),
{
    if rules.len() == 0 {
        None
    } else if rules[0].0 == name {
        Some(rules[0].1)
    } else {
        rule_named(rules.skip(1), name)
    }
}

/// What a rule is written as when it is set: the option value of the field's value.
pub open spec fn written<T: RuleValue>(value: Option<T>) -> Option<ValueModel> {
    match value {
        Some(x) => Some(x.value_model()),
        None => None,
    }
}

/// What a list rule is written as when it is set: the list of its values.
pub open spec fn written_list<T: RuleValue>(list: Option<Vec<T>>) -> Option<ValueModel> {
    match list {
        Some(l) => Some(ValueModel::List(values_model(l@))),
        None => None,
    }
}

/// One if the field is set, zero otherwise.
pub open spec fn count_set<T>(value: Option<T>) -> int {
    if value is Some { 1 } else { 0 }
}

/// Looking a name up in two runs of entries, one after the other, finds it in the
/// first run if it is there, else in the second.
pub broadcast proof fn lemma_rule_named_concat(a: Seq<(Seq<char>, ValueModel)>, b: Seq<(Seq<char>, ValueModel)>, name: Seq<char>)
    ensures
        #[trigger] rule_named(a + b, name) == (if rule_named(a, name) is Some { rule_named(a, name) } else { rule_named(b, name) }),
    decreases a.len(),
{
    if a.len() == 0 {
        assert(a + b =~= b);
    } else {
        assert((a + b)[0] == a[0]);
        assert((a + b).skip(1) =~= a.skip(1) + b);
        lemma_rule_named_concat(a.skip(1), b, name);
    }
}

/// A single entry holds a value under its own name and under no other.
pub broadcast proof fn lemma_rule_named_single(rules: Seq<(Seq<char>, ValueModel)>, name: Seq<char>)
    requires
        rules.len() == 1,
    ensures
        #[trigger] rule_named(rules, name) == (if rules[0].0 == name { Some(rules[0].1) } else { None }),
{
    reveal_with_fuel(rule_named, 2);
    assert(rules.skip(1).len() == 0);
}

/// Two entries hold the value of the first under its name, then that of the
/// second under its own.
pub broadcast proof fn lemma_rule_named_pair(rules: Seq<(Seq<char>, ValueModel)>, name: Seq<char>)
    requires
        rules.len() == 2,
    ensures
        #[trigger] rule_named(rules, name) == (if rules[0].0 == name {
            Some(rules[0].1)
        } else if rules[1].0 == name {
            Some(rules[1].1)
        } else {
            None
        }),
{
    reveal_with_fuel(rule_named, 3);
    assert(rules.skip(1).len() == 1);
    assert(rules.skip(1)[0] == rules[1]);
    assert(rules.skip(1).skip(1).len() == 0);
}

/// The entry of a rule that may be set holds its value under its own name, and
/// nothing under any other.
pub broadcast proof fn lemma_rule_named_entry_if<T: RuleValue>(name: Seq<char>, value: Option<T>, other: Seq<char>)
    ensures
        #[trigger] rule_named(entry_if(name, value), other) == (if name == other { written(value) } else { None }),
{
    reveal_with_fuel(rule_named, 2);
}

/// The entry of a list rule that may be set holds its list under its own name,
/// and nothing under any other.
pub broadcast proof fn lemma_rule_named_list_entry_if<T: RuleValue>(name: Seq<char>, list: Option<Vec<T>>, other: Seq<char>)
    ensures
        #[trigger] rule_named(list_entry_if(name, list), other) == (if name == other { written_list(list) } else { None }),
{
    reveal_with_fuel(rule_named, 2);
}

/// The facts that looking up rules by name rests on.
pub broadcast group group_rule_named {
    lemma_rule_named_concat,
    lemma_rule_named_single,
    lemma_rule_named_pair,
    lemma_rule_named_entry_if,
    lemma_rule_named_list_entry_if,
}

/// The entry `name: [ values ]` when a list is given, nothing otherwise.
pub open spec fn list_entry_if<T: RuleValue>(name: Seq<char>, list: Option<Vec<T>>) -> Seq<(Seq<char>, ValueModel)> {
    match list {
        Some(l) => seq![(name, ValueModel::List(values_model(l@)))],
        None => Seq::empty(),
    }
}

/// The entry that lists the CEL rules of a field, when some are given.
pub open spec fn cel_entry(cel: Option<Vec<CelRule>>) -> Seq<(Seq<char>, ValueModel)> {
    match cel {
        Some(rules) => seq![("cel"@, ValueModel::List(rules_model(rules@)))],
        None => Seq::empty(),
    }
}

/// The value of the option that carries a field's rules: the rules of its kind
/// under the kind's name, then its CEL rules and whether it is required.
pub open spec fn field_rules_model(
    kind: Seq<char>,
    rules: Seq<(Seq<char>, ValueModel)>,
    cel: Option<Vec<CelRule>>,
    required: Option<bool>,
) -> ValueModel {
    ValueModel::Message(seq![(kind, ValueModel::Message(rules))] + cel_entry(cel) + entry_if("required"@, required))
}

/// The option value of a list of rule values.
pub fn list_of<T: RuleValue>(items: &[T]) -> (r: OptionValue)
    ensures
        r.model() == ValueModel::List(values_model(items@)),
{
    let mut values = Values::new();
    let mut i: usize = 0;
    while i < items.len()
        invariant
            i <= items@.len(),
            values.model() == values_model(items@.take(i as int)),
        decreases items@.len() - i,
    {
        values.push(items[i].to_value());
        proof {
            assert(values_model(items@.take(i + 1)) =~= values_model(items@.take(i as int)).push(items@[i as int].value_model()));
        }
        i = i + 1;
    }
    proof {
        assert(items@.take(i as int) =~= items@);
    }
    values.into_value()
}

/// Adds `name: value` to `entries` when a value is given.
pub fn push_if<T: RuleValue>(entries: &mut Entries, name: &str, value: Option<T>)
    ensures
        final(entries).model() == old(entries).model() + entry_if(name@, value),
{
    match value {
        Some(x) => {
            entries.push(name, x.to_value());
        },
        None => {},
    }
    assert(final(entries).model() =~= old(entries).model() + entry_if(name@, value));
}

/// Adds `name: [ values ]` to `entries` when a list is given.
pub fn push_list_if<T: RuleValue>(entries: &mut Entries, name: &str, list: &Option<Vec<T>>)
    ensures
        final(entries).model() == old(entries).model() + list_entry_if(name@, *list),
{
    match list {
        Some(l) => {
            entries.push(name, list_of(l.as_slice()));
        },
        None => {},
    }
    assert(final(entries).model() =~= old(entries).model() + list_entry_if(name@, *list));
}

/// Adds the CEL rules of a field to `entries`, when some are given.
pub fn push_cel(entries: &mut Entries, cel: &Option<Vec<CelRule>>)
    ensures
        final(entries).model() == old(entries).model() + cel_entry(*cel),
{
    match cel {
        Some(rules) => {
            entries.push("cel", rules_value(rules));
        },
        None => {},
    }
    assert(final(entries).model() =~= old(entries).model() + cel_entry(*cel));
}

/// Builds the option that carries a field's rules: the rules of its kind under
/// the kind's name, then its CEL rules and whether it is required.
pub fn field_rules_option(kind: &str, rules: Entries, cel: &Option<Vec<CelRule>>, required: Option<bool>) -> (r: ProtoOption)
    ensures
        r.name@ == FIELD_RULES_OPTION@,
        r.value.model() == field_rules_model(kind@, rules.model(), *cel, required),
{
    let mut outer = Entries::new();
    let ghost inner = rules.model();
    outer.push(kind, rules.into_value());
    push_cel(&mut outer, cel);
    push_if(&mut outer, "required", required);
    let value = outer.into_value();
    proof {
        assert(seq![(kind@, ValueModel::Message(inner))] =~= Seq::<(Seq<char>, ValueModel)>::empty().push((kind@, ValueModel::Message(inner))));
    }
    ProtoOption { name: FIELD_RULES_OPTION, value: Arc::new(value) }
}

/// The option that carries a field's rules holds the rules of its kind under the
/// kind's name, its CEL rules under `cel` and whether it is required under
/// `required`, and nothing else.
pub proof fn law_field_rules_layout(
    kind: Seq<char>,
    rules: Seq<(Seq<char>, ValueModel)>,
    cel: Option<Vec<CelRule>>,
    required: Option<bool>,
)
    requires
        kind != "cel"@,
        kind != "required"@,
    ensures
        field_rules_model(kind, rules, cel, required) is Message,
        rule_named(field_rules_model(kind, rules, cel, required)->Message_0, kind) == Some(ValueModel::Message(rules)),
        rule_named(field_rules_model(kind, rules, cel, required)->Message_0, "cel"@) == (match cel {
            Some(c) => Some(ValueModel::List(rules_model(c@))),
            None => None,
        }),
        rule_named(field_rules_model(kind, rules, cel, required)->Message_0, "required"@) == written(required),
        field_rules_model(kind, rules, cel, required)->Message_0.len() == 1 + count_set(cel) + count_set(required),
{
    broadcast use group_rule_named;
    reveal_strlit("cel");
    reveal_strlit("required");
    assert("cel"@.len() == 3 && "required"@.len() == 8);
}

} // verus!
