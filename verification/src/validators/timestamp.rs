//! Rules for `google.protobuf.Timestamp` fields.

use vstd::prelude::*;
use std::sync::Arc;

use crate::field_type::{Duration, Timestamp};
use crate::options::{Entries, OptionValue, ProtoOption, ValueModel};
use super::cel::CelRule;
use super::{
    comparables_error, entry_if, field_rules_model, field_rules_option, push_if, validate_comparables, Bound, ComparablesError,
    Ignore, FIELD_RULES_OPTION,
};

use super::{count_set, group_rule_named, rule_named, written};

use super::law_field_rules_layout;
verus! {

/// `proto_types::Timestamp::now`: the time that the system clock reads, as
/// seconds and nanoseconds since the Unix epoch. It depends on when it is asked,
/// so nothing is stated of it.
#[verifier::external_body]
fn now() -> Timestamp {
    let t = proto_types::Timestamp::now();
    Timestamp { seconds: t.seconds, nanos: t.nanos }
}

/// The ways in which the rules of a timestamp field can contradict each other.
#[derive(Debug, Clone, Copy, PartialEq, Eq)]
pub enum TimestampError {
    /// The bounds contradict each other.
    Comparables(ComparablesError),
    /// `lt_now` was given with `lt` or `lte`.
    LtNowWithLt,
    /// `gt` lies in the future while `lt_now` is set.
    GtInFuture,
    /// `gte` lies in the future while `lt_now` is set.
    GteInFuture,
    /// `gt_now` was given with `gt` or `gte`.
    GtNowWithGt,
    /// `lt` lies in the past while `gt_now` is set.
    LtInPast,
    /// `lte` lies in the past while `gt_now` is set.
    LteInPast,
}

/// Rules for a `google.protobuf.Timestamp` field.
#[derive(Clone, Debug)]
pub struct TimestampValidator {
    /// Only this specific value will be considered valid for this field.
    pub const_: Option<Timestamp>,
    /// The value must come before this one.
    pub lt: Option<Timestamp>,
    /// The value must come at or before this one.
    pub lte: Option<Timestamp>,
    /// The value must come before the time of validation.
    pub lt_now: Option<bool>,
    /// The value must come after this one.
    pub gt: Option<Timestamp>,
    /// The value must come at or after this one.
    pub gte: Option<Timestamp>,
    /// The value must come after the time of validation.
    pub gt_now: Option<bool>,
    /// The value must lie within this span of the time of validation.
    pub within: Option<Duration>,
    /// Adds custom validation using one or more [`CelRule`]s to this field.
    pub cel: Option<Vec<CelRule>>,
    /// Marks the field as invalid if unset.
    pub required: Option<bool>,
    pub ignore: Option<Ignore>,
}

impl Default for TimestampValidator {
    fn default() -> (r: Self)
        ensures
            r.const_ is None,
            r.lt is None,
            r.lte is None,
            r.lt_now is None,
            r.gt is None,
            r.gte is None,
            r.gt_now is None,
            r.within is None,
            r.cel is None,
            r.required is None,
            r.ignore is None,
    {
        TimestampValidator {
            const_: None,
            lt: None,
            lte: None,
            lt_now: None,
            gt: None,
            gte: None,
            gt_now: None,
            within: None,
            cel: None,
            required: None,
            ignore: None,
        }
    }
}

impl TimestampValidator {
    /// The first contradiction among the rules, in the order in which they are
    /// checked, given whether `gt` and `gte` lie in the future and `lt` and `lte`
    /// in the past; none for a constant value, which stands alone.
    pub open spec fn error_given(&self, gt_future: bool, gte_future: bool, lt_past: bool, lte_past: bool) -> Option<TimestampError> {
        let lt_now = self.lt_now == Some(true);
        let gt_now = self.gt_now == Some(true);
        if self.const_ is Some {
            None
        } else if comparables_error(self.lt, self.lte, self.gt, self.gte) is Some {
            Some(TimestampError::Comparables(comparables_error(self.lt, self.lte, self.gt, self.gte).unwrap()))
        } else if lt_now && (self.lt is Some || self.lte is Some) {
            Some(TimestampError::LtNowWithLt)
        } else if lt_now && self.gt is Some && gt_future {
            Some(TimestampError::GtInFuture)
        } else if lt_now && self.gte is Some && gte_future {
            Some(TimestampError::GteInFuture)
        } else if gt_now && (self.gt is Some || self.gte is Some) {
            Some(TimestampError::GtNowWithGt)
        } else if gt_now && self.lt is Some && lt_past {
            Some(TimestampError::LtInPast)
        } else if gt_now && self.lte is Some && lte_past {
            Some(TimestampError::LteInPast)
        } else {
            None
        }
    }

    /// The rules hold together whatever the time: no contradiction but those that
    /// depend on the clock.
    pub open spec fn is_valid(&self) -> bool {
        self.error_given(false, false, false, false) is None
    }

    /// Checks the rules, given whether `gt` and `gte` lie in the future and `lt`
    /// and `lte` in the past.
    pub fn check_with(&self, gt_future: bool, gte_future: bool, lt_past: bool, lte_past: bool) -> (r: Result<(), TimestampError>)
        ensures
            r == match self.error_given(gt_future, gte_future, lt_past, lte_past) {
                Some(e) => Err(e),
                None => Ok(()),
            },
    {
        if self.const_.is_some() {
            return Ok(());
        }
        match validate_comparables(self.lt, self.lte, self.gt, self.gte) {
            Err(e) => {
                return Err(TimestampError::Comparables(e));
            },
            Ok(()) => {},
        }
        if self.lt_now == Some(true) {
            if self.lt.is_some() || self.lte.is_some() {
                return Err(TimestampError::LtNowWithLt);
            }
            if self.gt.is_some() && gt_future {
                return Err(TimestampError::GtInFuture);
            }
            if self.gte.is_some() && gte_future {
                return Err(TimestampError::GteInFuture);
            }
        }
        if self.gt_now == Some(true) {
            if self.gt.is_some() || self.gte.is_some() {
                return Err(TimestampError::GtNowWithGt);
            }
            if self.lt.is_some() && lt_past {
                return Err(TimestampError::LtInPast);
            }
            if self.lte.is_some() && lte_past {
                return Err(TimestampError::LteInPast);
            }
        }
        Ok(())
    }

    /// The first contradiction among the rules when the time of validation is
    /// `now`: a bound from below lies in the future when `now` comes before it, a
    /// bound from above lies in the past when it comes before `now`.
    pub open spec fn error_at(&self, now: Timestamp) -> Option<TimestampError> {
        self.error_given(
            self.gt is Some && now.below(self.gt->0),
            self.gte is Some && now.below(self.gte->0),
            self.lt is Some && (self.lt->0).below(now),
            self.lte is Some && (self.lte->0).below(now),
        )
    }

    /// Checks the rules as of the time `now`: the bounds must be consistent,
    /// `lt_now` excludes `lt` and `lte` and bounds from below that lie after `now`,
    /// and `gt_now` excludes `gt` and `gte` and bounds from above that lie before `now`.
    pub fn validate_at(&self, now: Timestamp) -> (r: Result<(), TimestampError>)
        ensures
            r == match self.error_at(now) {
                Some(e) => Err(e),
                None => Ok(()),
            },
    {
        let gt_future = match self.gt {
            Some(t) => now.is_below(&t),
            None => false,
        };
        let gte_future = match self.gte {
            Some(t) => now.is_below(&t),
            None => false,
        };
        let lt_past = match self.lt {
            Some(t) => t.is_below(&now),
            None => false,
        };
        let lte_past = match self.lte {
            Some(t) => t.is_below(&now),
            None => false,
        };
        self.check_with(gt_future, gte_future, lt_past, lte_past)
    }

    /// Checks the rules against the time that the system clock reads, which is
    /// read once: the result is that of [`TimestampValidator::validate_at`] at that time.
    pub fn validate(&self) -> (r: Result<(), TimestampError>)
        ensures
            exists|now: Timestamp| r == match #[trigger] self.error_at(now) {
                Some(e) => Err(e),
                None => Ok(()),
            },
            !self.is_valid() ==> r is Err,
    {
        let t = now();
        self.validate_at(t)
    }

    /// The rules written under `timestamp`.
    pub open spec fn rules_model(&self) -> Seq<(Seq<char>, ValueModel)> {
        entry_if("lt"@, self.lt) + entry_if("lte"@, self.lte) + entry_if("gt"@, self.gt)
            + entry_if("gte"@, self.gte) + entry_if("lt_now"@, self.lt_now)
            + entry_if("gt_now"@, self.gt_now) + entry_if("within"@, self.within)
    }

    /// The value of the option: a constant value alone when one is given;
    /// otherwise the rules under `timestamp`, the CEL rules and whether the field is required.
    pub open spec fn value_model(&self) -> ValueModel {
        match self.const_ {
            Some(c) => ValueModel::Message(seq![("const"@, ValueModel::Timestamp(c))]),
            None => field_rules_model("timestamp"@, self.rules_model(), self.cel, self.required),
        }
    }

    /// Builds the option that carries these rules.
    pub fn to_option(self) -> (r: ProtoOption)
        requires
            self.is_valid(),
        ensures
            r.name@ == FIELD_RULES_OPTION@,
            r.value.model() == self.value_model(),
    {
        if let Some(c) = self.const_ {
            let mut values = Entries::new();
            values.push("const", OptionValue::Timestamp(c));
            proof {
                assert(values.model() =~= seq![("const"@, ValueModel::Timestamp(c))]);
            }
            return ProtoOption { name: FIELD_RULES_OPTION, value: Arc::new(values.into_value()) };
        }
        let mut rules = Entries::new();
        push_if(&mut rules, "lt", self.lt);
        push_if(&mut rules, "lte", self.lte);
        push_if(&mut rules, "gt", self.gt);
        push_if(&mut rules, "gte", self.gte);
        push_if(&mut rules, "lt_now", self.lt_now);
        push_if(&mut rules, "gt_now", self.gt_now);
        push_if(&mut rules, "within", self.within);
        proof {
            assert(rules.model() =~= self.rules_model());
        }
        field_rules_option("timestamp", rules, &self.cel, self.required)
    }
}

} // verus!

verus! {

impl TimestampValidator {
    /// No rule set.
    pub open spec fn empty() -> TimestampValidator {
        TimestampValidator { const_: None, lt: None, lte: None, lt_now: None, gt: None, gte: None, gt_now: None, within: None, cel: None, required: None, ignore: None }
    }
}

/// Builds the option for the rules that `config_fn` sets, starting from none.
/// The checks against the clock are those of [`TimestampValidator::validate`]; this
/// function does not read the clock.
pub fn build_timestamp_validator_option<F: FnOnce(TimestampValidator) -> TimestampValidator>(config_fn: F) -> (r: ProtoOption)
    requires
        call_requires(config_fn, (TimestampValidator::empty(),)),
        forall|v: TimestampValidator| #[trigger] call_ensures(config_fn, (TimestampValidator::empty(),), v) ==> v.is_valid(),
    ensures
        exists|v: TimestampValidator| #[trigger] call_ensures(config_fn, (TimestampValidator::empty(),), v)
            && r.name@ == FIELD_RULES_OPTION@
            && r.value.model() == v.value_model(),
{
    let start = TimestampValidator::default();
    assert(start == TimestampValidator::empty());
    let validator = config_fn(start);
    validator.to_option()
}

} // verus!

verus! {

/// Each rule that the validator sets is written under the name of its field,
/// holding the field's value, and no entry stands for a field left unset: one
/// entry per rule that is set.
pub proof fn law_timestamp_rules_named_after_fields(v: TimestampValidator)
    ensures
        rule_named(v.rules_model(), "lt"@) == written(v.lt),
        rule_named(v.rules_model(), "lte"@) == written(v.lte),
        rule_named(v.rules_model(), "gt"@) == written(v.gt),
        rule_named(v.rules_model(), "gte"@) == written(v.gte),
        rule_named(v.rules_model(), "lt_now"@) == written(v.lt_now),
        rule_named(v.rules_model(), "gt_now"@) == written(v.gt_now),
        rule_named(v.rules_model(), "within"@) == written(v.within),
        v.rules_model().len() == count_set(v.lt) + count_set(v.lte) + count_set(v.gt) + count_set(v.gte) + count_set(v.lt_now) + count_set(v.gt_now) + count_set(v.within),
{
    broadcast use group_rule_named;
    reveal_strlit("lt");
    reveal_strlit("lte");
    reveal_strlit("gt");
    reveal_strlit("gte");
    reveal_strlit("lt_now");
    reveal_strlit("gt_now");
    reveal_strlit("within");
    assert("lt"@.len() == 2 && "lt"@[0] == 'l' && "lt"@[1] == 't');
    assert("lte"@.len() == 3 && "lte"@[0] == 'l' && "lte"@[1] == 't' && "lte"@[2] == 'e');
    assert("gt"@.len() == 2 && "gt"@[0] == 'g' && "gt"@[1] == 't');
    assert("gte"@.len() == 3 && "gte"@[0] == 'g' && "gte"@[1] == 't' && "gte"@[2] == 'e');
    assert("lt_now"@.len() == 6 && "lt_now"@[0] == 'l' && "lt_now"@[1] == 't' && "lt_now"@[2] == '_' && "lt_now"@[3] == 'n' && "lt_now"@[4] == 'o' && "lt_now"@[5] == 'w');
    assert("gt_now"@.len() == 6 && "gt_now"@[0] == 'g' && "gt_now"@[1] == 't' && "gt_now"@[2] == '_' && "gt_now"@[3] == 'n' && "gt_now"@[4] == 'o' && "gt_now"@[5] == 'w');
    assert("within"@.len() == 6 && "within"@[0] == 'w' && "within"@[1] == 'i' && "within"@[2] == 't' && "within"@[3] == 'h' && "within"@[4] == 'i' && "within"@[5] == 'n');
}

} // verus!

verus! {

/// A constant value stands alone in the option, under `const`; otherwise the
/// option holds the rules under `timestamp`, whether the field is required under
/// `required`, and otherwise only the CEL rules.
pub proof fn law_timestamp_option_layout(v: TimestampValidator)
    ensures
        v.value_model() is Message,
        v.const_ is Some ==> rule_named(v.value_model()->Message_0, "const"@) == Some(ValueModel::Timestamp(v.const_->0))
            && v.value_model()->Message_0.len() == 1,
        v.const_ is None ==> rule_named(v.value_model()->Message_0, "timestamp"@) == Some(ValueModel::Message(v.rules_model()))
            && rule_named(v.value_model()->Message_0, "required"@) == written(v.required)
            && v.value_model()->Message_0.len() == 1 + count_set(v.cel) + count_set(v.required),
{
    broadcast use group_rule_named;
    reveal_strlit("timestamp");
    reveal_strlit("cel");
    reveal_strlit("required");
    assert("timestamp"@.len() == 9 && "cel"@.len() == 3 && "required"@.len() == 8);
    if v.const_ is None {
        law_field_rules_layout("timestamp"@, v.rules_model(), v.cel, v.required);
    }
}

} // verus!
