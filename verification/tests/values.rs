use std::sync::Arc;

use protoschema::field_type::{get_shortest_item_name, Duration, ImportedItemPath, Timestamp};
use protoschema::fields::FieldKind;
use protoschema::options::{enum_values_list, list_value, message_value, proto_option, OptionValue};
use protoschema::sorting::sort_by_tag;
use protoschema::{FieldType, MapKey};

fn text(s: &str) -> Arc<String> {
    Arc::new(s.to_string())
}

fn path(full_name: &str, package: &str, file: &str) -> Arc<ImportedItemPath> {
    Arc::new(ImportedItemPath {
        full_name: text(full_name),
        full_name_with_package: text(&format!("{}.{}", package, full_name)),
        file: text(file),
        package: text(package),
    })
}

#[test]
fn field_type_names() {
    assert_eq!(FieldType::Int64.name(), "int64");
    assert_eq!(FieldType::Duration.name(), "google.protobuf.Duration");
    assert_eq!(FieldType::TimeZone.name(), "google.type.TimeZone");
    assert_eq!(FieldType::Link.name(), "google.rpc.Help.Link");
    assert_eq!(FieldType::QuotaFailureViolation.to_string(), "google.rpc.QuotaFailure.Violation");
    assert_eq!(MapKey::Sfixed64.name(), "sfixed64");
    assert_eq!(MapKey::String.to_string(), "string");
    let msg = FieldType::Message(path("Post.Metadata", "myapp.v2", "myapp/v2/post.proto"));
    assert_eq!(msg.name(), "Post.Metadata");
}

#[test]
fn shortest_names() {
    let p = path("Post.Metadata", "myapp.v2", "myapp/v2/post.proto");
    assert_eq!(get_shortest_item_name(&p, "myapp/v2/post.proto", "other").as_str(), "Post.Metadata");
    assert_eq!(get_shortest_item_name(&p, "other.proto", "myapp.v2").as_str(), "Post.Metadata");
    assert_eq!(get_shortest_item_name(&p, "myapp/v1/user.proto", "myapp.v1").as_str(), "myapp.v2.Post.Metadata");
}

#[test]
fn render_names() {
    let p = path("user_status", "myapp.v1", "myapp/v1/user.proto");
    let map = FieldType::MapType(MapKey::Int32, Box::new(FieldType::Enum(p.clone())));
    assert_eq!(map.render_name("myapp/v1/user.proto", "myapp.v1"), "map<int32, user_status>");
    assert_eq!(map.render_name("myapp/v2/post.proto", "myapp.v2"), "map<int32, myapp.v1.user_status>");
    assert_eq!(map.name(), "map");
    assert_eq!(FieldType::Bytes.render_name("a", "b"), "bytes");
}

#[test]
fn field_kind_keywords() {
    assert_eq!(FieldKind::Normal.to_string(), "");
    assert_eq!(FieldKind::Repeated.to_string(), "repeated ");
    assert_eq!(FieldKind::Optional.to_string(), "optional ");
    assert_eq!(FieldKind::default(), FieldKind::Normal);
}

#[test]
fn option_values_are_written() {
    assert_eq!(OptionValue::Bool(true).to_string(), "true");
    assert_eq!(OptionValue::Int(-42).to_string(), "-42");
    assert_eq!(OptionValue::Int(i64::MIN).to_string(), "-9223372036854775808");
    assert_eq!(OptionValue::Uint(u64::MAX).to_string(), "18446744073709551615");
    assert_eq!(OptionValue::string("abc").to_string(), "\"abc\"");
    assert_eq!(OptionValue::enum_value("UNSPECIFIED").to_string(), "UNSPECIFIED");
    assert_eq!(OptionValue::Float(text("1.5")).to_string(), "1.5");
    assert_eq!(OptionValue::from(Duration { seconds: 3600, nanos: 0 }).to_string(), "{ seconds: 3600, nanos: 0 }");
    assert_eq!(OptionValue::from(Timestamp { seconds: -5, nanos: 7 }).to_string(), "{ seconds: -5, nanos: 7 }");
    let list = list_value(vec![OptionValue::from(1i32), OptionValue::from(2u32)]);
    assert_eq!(list.to_string(), "[  1, 2 ]");
    assert_eq!(list_value(vec![]).to_string(), "[   ]");
    let msg = message_value(vec![("name", OptionValue::string("cats")), ("are_cute", OptionValue::Bool(true))]);
    assert_eq!(msg.to_string(), "{ name: \"cats\", are_cute: true }");
    assert_eq!(enum_values_list(&vec!["A", "B"]).to_string(), "[  A, B ]");
    let opt = proto_option("example", msg);
    assert_eq!(opt.name, "example");
    assert_eq!(opt.value.to_string(), "{ name: \"cats\", are_cute: true }");
}

#[test]
fn short_values() {
    assert!(OptionValue::Bool(true).is_short());
    assert!(OptionValue::string("abcde").is_short());
    assert!(!OptionValue::string("abcdef").is_short());
    assert!(!OptionValue::from(Duration { seconds: 1, nanos: 0 }).is_short());
    assert!(!message_value(vec![]).is_short());
    let five: Vec<OptionValue> = (0..5).map(|i| OptionValue::Int(i)).collect();
    assert!(list_value(five).is_short());
    let six: Vec<OptionValue> = (0..6).map(|i| OptionValue::Int(i)).collect();
    assert!(!list_value(six).is_short());
    assert!(!list_value(vec![OptionValue::string("too long")]).is_short());
}

#[test]
fn sorting_keeps_equal_tags_in_order() {
    let items = vec![(3u32, "c"), (1, "a"), (2, "b1"), (1, "a2"), (2, "b2"), (0, "z")];
    let sorted = sort_by_tag(items);
    assert_eq!(sorted, vec![(0, "z"), (1, "a"), (1, "a2"), (2, "b1"), (2, "b2"), (3, "c")]);
    let negative = sort_by_tag(vec![(5i32, 'x'), (-3, 'y'), (0, 'z'), (-3, 'w')]);
    assert_eq!(negative, vec![(-3, 'y'), (-3, 'w'), (0, 'z'), (5, 'x')]);
}
