use protoschema::validators::any::build_any_validator_option;
use protoschema::validators::booleans::build_bool_validator_option;
use protoschema::validators::bytes::build_bytes_validator_option;
use protoschema::validators::duration::build_duration_validator_option;
use protoschema::validators::enums::build_enum_validator_option;
use protoschema::validators::message::build_message_validator_option;
use protoschema::validators::string::build_string_validator_option;
use protoschema::validators::timestamp::build_timestamp_validator_option;
use std::sync::Arc;

use protoschema::field_type::{Duration, Timestamp};
use protoschema::validators::any::AnyValidator;
use protoschema::validators::booleans::BoolValidator;
use protoschema::validators::bytes::{format_bytes_as_proto_string_literal, BytesValidator, WellKnown as BytesWellKnown};
use protoschema::validators::cel::CelRule;
use protoschema::validators::duration::DurationValidator;
use protoschema::validators::enums::EnumValidator;
use protoschema::validators::map::MapValidator;
use protoschema::validators::message::MessageValidator;
use protoschema::validators::numeric::{Fixed32Validator, Int64Validator, Sint32Validator, Uint64Validator};
use protoschema::validators::repeated::RepeatedValidator;
use protoschema::validators::string::{StringValidator, WellKnown};
use protoschema::validators::timestamp::{TimestampError, TimestampValidator};
use protoschema::validators::{get_option_name, validate_comparables, validate_lengths, validate_lists, ComparablesError};

fn text(s: &str) -> Arc<String> {
    Arc::new(s.to_string())
}

#[test]
fn comparables_errors() {
    assert_eq!(validate_comparables::<i64>(Some(1), Some(2), None, None), Err(ComparablesError::LtWithLte));
    assert_eq!(validate_comparables::<i64>(None, None, Some(1), Some(2)), Err(ComparablesError::GtWithGte));
    assert_eq!(validate_comparables::<i64>(Some(5), None, Some(5), None), Err(ComparablesError::LtNotAboveGt));
    assert_eq!(validate_comparables::<i64>(Some(4), None, None, Some(5)), Err(ComparablesError::LtBelowGte));
    assert_eq!(validate_comparables::<u32>(None, Some(4), Some(5), None), Err(ComparablesError::LteBelowGt));
    assert_eq!(validate_comparables::<u32>(None, Some(4), None, Some(5)), Err(ComparablesError::LteBelowGte));
    assert_eq!(validate_comparables::<i32>(Some(6), None, Some(5), None), Ok(()));
    assert_eq!(validate_comparables::<i32>(None, Some(5), None, Some(5)), Ok(()));
    assert_eq!(validate_comparables::<i32>(None, None, None, None), Ok(()));
    let short = Duration { seconds: 1, nanos: 0 };
    let long = Duration { seconds: 0, nanos: 2_000_000_000 };
    assert_eq!(validate_comparables(Some(short), None, Some(long), None), Err(ComparablesError::LtNotAboveGt));
    assert_eq!(validate_comparables(Some(long), None, Some(short), None), Ok(()));
    let early = Timestamp { seconds: 10, nanos: 5 };
    let late = Timestamp { seconds: 10, nanos: 6 };
    assert_eq!(validate_comparables(None, Some(early), None, Some(late)), Err(ComparablesError::LteBelowGte));
}

#[test]
fn shared_values_are_reported() {
    let a = [1, 2, 3, 2];
    let b = [2, 4];
    assert_eq!(validate_lists(Some(&a[..]), Some(&b[..])), Err(vec![2]));
    assert_eq!(validate_lists(Some(&a[..]), None), Ok(()));
    assert_eq!(validate_lists::<i32>(None, Some(&b[..])), Ok(()));
    let c = [5, 6];
    assert_eq!(validate_lists(Some(&a[..]), Some(&c[..])), Ok(()));
    let s1 = ["x", "y", "z"];
    let s2 = ["z", "x"];
    assert_eq!(validate_lists(Some(&s1[..]), Some(&s2[..])), Err(vec!["x", "z"]));
}

#[test]
fn option_names() {
    assert_eq!(get_option_name("const_"), "const");
    assert_eq!(get_option_name("in_"), "in");
    assert_eq!(get_option_name("min_len"), "min_len");
}

#[test]
fn string_rules() {
    let option = StringValidator { min_len: Some(8), ..Default::default() }.to_option();
    assert_eq!(option.name, "(buf.validate.field)");
    assert_eq!(option.value.to_string(), "{ string: { min_len: 8 } }");
    let exact = StringValidator {
        len: Some(3),
        min_len: Some(1),
        max_bytes: Some(9),
        in_: Some(vec!["abc", "def"]),
        well_known: Some(WellKnown::HeaderNameStrict),
        const_: Some("abc"),
        required: Some(true),
        ..Default::default()
    }
    .to_option();
    assert_eq!(
        exact.value.to_string(),
        "{ string: { const: \"abc\", len: 3, max_bytes: 9, in: [  \"abc\", \"def\" ], well_known_regex: KNOWN_REGEX_HTTP_HEADER_NAME, strict: true }, required: true }"
    );
    let email = StringValidator { well_known: Some(WellKnown::Email), pattern: Some("^a+$"), ..Default::default() }.to_option();
    assert_eq!(email.value.to_string(), "{ string: { pattern: \"^a+$\", email: true } }");
}

#[test]
fn bytes_literals() {
    assert_eq!(format_bytes_as_proto_string_literal(b"abc"), "\"abc\"");
    assert_eq!(format_bytes_as_proto_string_literal(b"a\"b\\c"), "\"a\\\"b\\\\c\"");
    assert_eq!(format_bytes_as_proto_string_literal(&[0x00, 0x1f, 0x7f, 0xff, 0x20]), "\"\\x00\\x1f\\x7f\\xff \"");
    assert_eq!(format_bytes_as_proto_string_literal(&[]), "\"\"");
}

#[test]
fn bytes_rules() {
    let constant = BytesValidator { const_: Some(b"\x01"), min_len: Some(3), ..Default::default() }.to_option();
    assert_eq!(constant.value.to_string(), "{ const: \"\"\\x01\"\" }");
    let rules = BytesValidator {
        min_len: Some(2),
        prefix: Some(b"ab"),
        in_: Some(vec![&b"x"[..], &b"y"[..]]),
        well_known: Some(BytesWellKnown::Ipv4),
        required: Some(true),
        ..Default::default()
    }
    .to_option();
    assert_eq!(
        rules.value.to_string(),
        "{ bytes: { min_len: 2, prefix: \"\"ab\"\", in: [  \"\"x\"\", \"\"y\"\" ], ipv4: true }, required: true }"
    );
}

#[test]
fn numeric_rules() {
    let option = Uint64Validator { gt: Some(0), ..Default::default() }.to_option();
    assert_eq!(option.value.to_string(), "{ uint64: { gt: 0 } }");
    let signed = Sint32Validator { lt: Some(-1), in_: Some(vec![-5, -3]), ..Default::default() }.to_option();
    assert_eq!(signed.value.to_string(), "{ sint32: { lt: -1, in: [  -5, -3 ] } }");
    let fixed = Fixed32Validator { const_: Some(7), required: Some(false), ..Default::default() }.to_option();
    assert_eq!(fixed.value.to_string(), "{ fixed32: { const: 7 }, required: false }");
    let with_cel = Int64Validator {
        gte: Some(1),
        cel: Some(vec![CelRule { id: text("r"), message: text("m"), expression: text("e") }]),
        ..Default::default()
    }
    .to_option();
    assert_eq!(
        with_cel.value.to_string(),
        "{ int64: { gte: 1 }, cel: [  { id: \"r\", message: \"m\", expression: \"e\" } ] }"
    );
}

#[test]
fn other_rules() {
    let b = BoolValidator { const_: Some(true), ..Default::default() }.to_option();
    assert_eq!(b.value.to_string(), "{ bool: { const: true } }");
    let m = MessageValidator { required: Some(true), ..Default::default() }.to_option();
    assert_eq!(m.value.to_string(), "{ required: true }");
    let e = EnumValidator { const_: Some(2), defined_only: Some(true), not_in: Some(vec![3]), ..Default::default() }.to_option();
    assert_eq!(e.value.to_string(), "{ enum: { const: 2, defined_only: true, not_in: [  3 ] } }");
    let a = AnyValidator { in_: Some(vec!["type.googleapis.com/A"]), ..Default::default() }.to_option();
    assert_eq!(a.value.to_string(), "{ any: { in: [  \"type.googleapis.com/A\" ] } }");
    let d = DurationValidator { lt: Some(Duration { seconds: 5, nanos: 0 }), ..Default::default() }.to_option();
    assert_eq!(d.value.to_string(), "{ duration: { lt: { seconds: 5, nanos: 0 } } }");
}

#[test]
fn nested_rules() {
    let map = MapValidator {
        min_pairs: Some(5),
        keys: Some(Uint64Validator { gt: Some(15), ..Default::default() }.to_option()),
        values: Some(StringValidator { min_len: Some(10), well_known: Some(WellKnown::Email), ..Default::default() }.to_option()),
        ..Default::default()
    }
    .to_option();
    assert_eq!(
        map.value.to_string(),
        "{ map: { min_pairs: 5, keys: { uint64: { gt: 15 } }, values: { string: { min_len: 10, email: true } } } }"
    );
    let repeated = RepeatedValidator {
        min_items: Some(5),
        unique: Some(true),
        items: Some(StringValidator { min_len: Some(10), ..Default::default() }.to_option()),
        ..Default::default()
    }
    .to_option();
    assert_eq!(
        repeated.value.to_string(),
        "{ repeated: { unique: true, min_items: 5, items: { string: { min_len: 10 } } } }"
    );
}

#[test]
fn timestamp_rules() {
    let constant = TimestampValidator { const_: Some(Timestamp { seconds: 1, nanos: 2 }), lt_now: Some(true), ..Default::default() };
    assert_eq!(constant.validate(), Ok(()));
    assert_eq!(constant.to_option().value.to_string(), "{ const: { seconds: 1, nanos: 2 } }");
    let rules = TimestampValidator { lt_now: Some(true), within: Some(Duration { seconds: 60, nanos: 0 }), ..Default::default() };
    assert_eq!(rules.validate(), Ok(()));
    assert_eq!(
        rules.to_option().value.to_string(),
        "{ timestamp: { lt_now: true, within: { seconds: 60, nanos: 0 } } }"
    );
    let clash = TimestampValidator { lt_now: Some(true), lt: Some(Timestamp { seconds: 0, nanos: 0 }), ..Default::default() };
    assert_eq!(clash.validate(), Err(TimestampError::LtNowWithLt));
    let future_gt = TimestampValidator { lt_now: Some(true), gt: Some(Timestamp { seconds: 32_503_680_000, nanos: 0 }), ..Default::default() };
    assert_eq!(future_gt.validate(), Err(TimestampError::GtInFuture));
    assert_eq!(future_gt.check_with(false, false, false, false), Ok(()));
    let past_lt = TimestampValidator { gt_now: Some(true), lt: Some(Timestamp { seconds: 0, nanos: 0 }), ..Default::default() };
    assert_eq!(past_lt.validate(), Err(TimestampError::LtInPast));
    let future_gte = TimestampValidator { lt_now: Some(true), gte: Some(Timestamp { seconds: 32_503_680_000, nanos: 0 }), ..Default::default() };
    assert_eq!(future_gte.check_with(false, true, false, false), Err(TimestampError::GteInFuture));
    let both = TimestampValidator { gt_now: Some(true), gt: Some(Timestamp { seconds: 0, nanos: 0 }), ..Default::default() };
    assert_eq!(both.validate(), Err(TimestampError::GtNowWithGt));
    let past_lte = TimestampValidator { gt_now: Some(true), lte: Some(Timestamp { seconds: 0, nanos: 0 }), ..Default::default() };
    assert_eq!(past_lte.check_with(false, false, false, true), Err(TimestampError::LteInPast));
    assert_eq!(past_lte.validate(), Err(TimestampError::LteInPast));
    let bounds = TimestampValidator { gt: Some(Timestamp { seconds: 5, nanos: 0 }), gte: Some(Timestamp { seconds: 5, nanos: 0 }), ..Default::default() };
    assert_eq!(bounds.validate(), Err(TimestampError::Comparables(ComparablesError::GtWithGte)));
}

#[test]
fn length_bounds() {
    assert!(validate_lengths(Some(1), Some(2)));
    assert!(validate_lengths(Some(2), Some(2)));
    assert!(!validate_lengths(Some(3), Some(2)));
    assert!(validate_lengths(Some(3), None));
    assert!(validate_lengths(None, Some(0)));
}

#[test]
fn rules_from_closures() {

    let s = build_string_validator_option(|v| StringValidator { min_len: Some(8), ..v });
    assert_eq!(s.value.to_string(), "{ string: { min_len: 8 } }");
    let b = build_bool_validator_option(|v| BoolValidator { required: Some(true), ..v });
    assert_eq!(b.value.to_string(), "{ bool: {  }, required: true }");
    let e = build_enum_validator_option(|v| EnumValidator { defined_only: Some(true), ..v });
    assert_eq!(e.value.to_string(), "{ enum: { defined_only: true } }");
    let m = build_message_validator_option(|v| v);
    assert_eq!(m.value.to_string(), "{  }");
    let a = build_any_validator_option(|v| AnyValidator { not_in: Some(vec!["x"]), ..v });
    assert_eq!(a.value.to_string(), "{ any: { not_in: [  \"x\" ] } }");
    let d = build_duration_validator_option(|v| DurationValidator { gte: Some(Duration { seconds: 0, nanos: 1 }), ..v });
    assert_eq!(d.value.to_string(), "{ duration: { gte: { seconds: 0, nanos: 1 } } }");
    let by = build_bytes_validator_option(|v| BytesValidator { len: Some(4), min_len: Some(1), ..v });
    assert_eq!(by.value.to_string(), "{ bytes: { len: 4 } }");
    let t = build_timestamp_validator_option(|v| TimestampValidator { gt_now: Some(true), ..v });
    assert_eq!(t.value.to_string(), "{ timestamp: { gt_now: true } }");
}

#[test]
fn timestamp_rules_at_a_given_time() {
    let now = Timestamp { seconds: 1_000, nanos: 500 };
    let gt_after = TimestampValidator { lt_now: Some(true), gt: Some(Timestamp { seconds: 1_000, nanos: 501 }), ..Default::default() };
    assert_eq!(gt_after.validate_at(now), Err(TimestampError::GtInFuture));
    let gt_same = TimestampValidator { lt_now: Some(true), gt: Some(now), ..Default::default() };
    assert_eq!(gt_same.validate_at(now), Ok(()));
    let gte_after = TimestampValidator { lt_now: Some(true), gte: Some(Timestamp { seconds: 1_001, nanos: 0 }), ..Default::default() };
    assert_eq!(gte_after.validate_at(now), Err(TimestampError::GteInFuture));
    assert_eq!(gte_after.validate_at(Timestamp { seconds: 1_001, nanos: 0 }), Ok(()));
    let lt_before = TimestampValidator { gt_now: Some(true), lt: Some(Timestamp { seconds: 1_000, nanos: 499 }), ..Default::default() };
    assert_eq!(lt_before.validate_at(now), Err(TimestampError::LtInPast));
    let lte_before = TimestampValidator { gt_now: Some(true), lte: Some(Timestamp { seconds: 999, nanos: 900 }), ..Default::default() };
    assert_eq!(lte_before.validate_at(now), Err(TimestampError::LteInPast));
    let lte_later = TimestampValidator { gt_now: Some(true), lte: Some(Timestamp { seconds: 1_000, nanos: 500 }), ..Default::default() };
    assert_eq!(lte_later.validate_at(now), Ok(()));
}
