use std::sync::Arc;

use protoschema::common::{allow_alias, VALIDATE_PROTO_FILE};
use protoschema::enums::EnumVariant;
use protoschema::extensions::{Extension, ExtensionKind};
use protoschema::field_type::Duration;
use protoschema::fields::{Field, FieldBuilder, FieldKind};
use protoschema::oneofs::Oneof;
use protoschema::options::{list_value, message_value, proto_option, OptionValue, ProtoOption};
use protoschema::rendering::EnumTemplate;
use protoschema::services::ServiceHandler;
use protoschema::validators::cel::CelRule;
use protoschema::validators::enums::EnumValidator;
use protoschema::validators::map::MapValidator;
use protoschema::validators::numeric::{Int32Validator, Uint64Validator};
use protoschema::validators::repeated::RepeatedValidator;
use protoschema::validators::string::{StringValidator, WellKnown};
use protoschema::{FieldType, MapKey, Package, Range};

fn text(s: &str) -> Arc<String> {
    Arc::new(s.to_string())
}

fn variant(name: &str) -> EnumVariant {
    EnumVariant { name: text(name), options: Arc::new(Vec::new()) }
}

fn variant_with(name: &str, options: Vec<ProtoOption>) -> EnumVariant {
    EnumVariant { name: text(name), options: Arc::new(options) }
}

fn field(name: &str, field_type: FieldType) -> FieldBuilder {
    Field::builder().name(name).field_type(field_type)
}

fn cats_and_dogs() -> OptionValue {
    list_value(vec![
        message_value(vec![("name", OptionValue::string("cats")), ("are_cute", OptionValue::Bool(true))]),
        message_value(vec![("name", OptionValue::string("dogs")), ("are_cute", OptionValue::Bool(true))]),
    ])
}

fn lists_value() -> OptionValue {
    message_value(vec![
        (
            "num_list",
            list_value(vec![OptionValue::from(1i32), OptionValue::from(2i32), OptionValue::from(4i32), OptionValue::from(5i32)]),
        ),
        (
            "string_list",
            list_value(vec![
                OptionValue::string("hello"),
                OptionValue::string("there"),
                OptionValue::string("general"),
                OptionValue::string("kenobi"),
            ]),
        ),
        ("list_of_messages", cats_and_dogs()),
    ])
}

#[test]
fn main_test() {
    let mut package = Package::new("myapp.v1");

    let mut second_package = Package::new("myapp.v2");
    let external_file = second_package.new_file("post");
    let post_msg = external_file.new_message(&mut second_package, "Post");
    let post_status_enum = external_file.new_enum(&mut second_package, "post_status");
    let post_metadata_msg = post_msg.new_message(&mut second_package, "Metadata");
    let post_category_enum = post_msg.new_enum(&mut second_package, "post_category");

    let file = package.new_file("user");

    let example_option = proto_option("example", lists_value());

    let test_opts = vec![
        proto_option("string_opt", OptionValue::string("abcde")),
        proto_option("duration_opt", OptionValue::from(Duration { seconds: 3600, nanos: 0 })),
        proto_option("enum_value", OptionValue::enum_value("UNSPECIFIED")),
        proto_option(
            "message_option",
            message_value(vec![("subject", OptionValue::string("hobbits")), ("location", OptionValue::string("isengard"))]),
        ),
        proto_option("lists", lists_value()),
    ];

    file.add_options(&mut package, test_opts.clone());

    let user_msg = file.new_message(&mut package, "User");
    let section_msg = file.new_message(&mut package, "Section");
    let subsection_msg = section_msg.new_message(&mut package, "Subsection");
    let sub_subsection_msg = subsection_msg.new_message(&mut package, "SubSubsection");

    let ext = Extension::builder()
        .fields(vec![(15, field("abc", FieldType::String))])
        .kind(ExtensionKind::MessageOptions)
        .build();
    file.add_extension(&mut package, ext);
    let ext = Extension::builder()
        .fields(vec![(15, field("abc", FieldType::String))])
        .kind(ExtensionKind::FileOptions)
        .build();
    file.add_extension(&mut package, ext);

    let reusable_variants = vec![(0, variant("UNSPECIFIED"))];

    let user_status_enum = file.new_enum(&mut package, "user_status");
    let mut user_status_variants = vec![
        (1, variant_with("ACTIVE", vec![example_option.clone()])),
        (2, variant("INACTIVE")),
        (2, variant("PASSIVE")),
    ];
    user_status_variants.extend(reusable_variants.clone());
    let user_status_enum = user_status_enum
        .options(&mut package, vec![allow_alias()])
        .reserved_ranges(&mut package, vec![Range { start: 200, end: 205 }])
        .reserved_numbers(&mut package, vec![405])
        .variants(&mut package, user_status_variants);

    let referrers_enum = file.new_enum(&mut package, "referrers");
    let mut referrer_variants = vec![(1, variant("GITHUB")), (2, variant("REDDIT"))];
    referrer_variants.extend(reusable_variants.clone());
    let referrers_enum = referrers_enum.variants(&mut package, referrer_variants);

    let handler1 = ServiceHandler::new("Handler1")
        .request(&package, &user_msg)
        .response(&package, &section_msg)
        .options(vec![example_option.clone()])
        .build();
    let handler2 = ServiceHandler::new("Handler2")
        .request(&second_package, &post_msg)
        .response(&second_package, &post_metadata_msg)
        .build();
    let service = file.new_service(&mut package, "MyService1");
    service
        .handlers(&mut package, vec![handler1, handler2])
        .options(&mut package, vec![example_option.clone()]);

    let reusable_fields = vec![
        (100, field("created_at", FieldType::Timestamp).add_import("google/protobuf/timestamp.proto")),
        (101, field("updated_at", FieldType::Timestamp).add_import("google/protobuf/timestamp.proto")),
    ];

    let id_rules = Uint64Validator { gt: Some(0), ..Default::default() }.to_option();
    let password_rules = StringValidator { min_len: Some(8), ..Default::default() }.to_option();
    let status_rules = EnumValidator { defined_only: Some(true), ..Default::default() }.to_option();
    let statuses_rules = MapValidator {
        min_pairs: Some(30),
        keys: Some(Int32Validator { lt: Some(31), ..Default::default() }.to_option()),
        values: Some(EnumValidator { defined_only: Some(true), ..Default::default() }.to_option()),
        ..Default::default()
    }
    .to_option();

    let mut user_fields = vec![
        (1, field("id", FieldType::Uint64).add_option(id_rules).add_import(VALIDATE_PROTO_FILE)),
        (
            2,
            field("best_friend", user_msg.get_type(&package))
                .repeated()
                .add_import(user_msg.get_file(&package).as_str()),
        ),
        (3, field("password", FieldType::String).add_option(password_rules.clone()).add_import(VALIDATE_PROTO_FILE)),
        (4, field("repeated_password", FieldType::String).add_option(password_rules).add_import(VALIDATE_PROTO_FILE)),
        (
            5,
            field("last_status", user_status_enum.get_type(&package))
                .add_option(status_rules)
                .add_import(VALIDATE_PROTO_FILE)
                .add_import(user_status_enum.get_file(&package).as_str()),
        ),
        (
            6,
            field(
                "last_30_days_statuses",
                FieldType::MapType(MapKey::Int32, Box::new(user_status_enum.get_type(&package))),
            )
            .add_option(statuses_rules)
            .add_import(VALIDATE_PROTO_FILE)
            .add_import(user_status_enum.get_file(&package).as_str()),
        ),
        (
            7,
            field("friends", FieldType::MapType(MapKey::Uint64, Box::new(user_msg.get_type(&package))))
                .add_import(user_msg.get_file(&package).as_str()),
        ),
        (
            8,
            field("last_post", post_msg.get_type(&second_package))
                .add_import(post_msg.get_file(&second_package).as_str()),
        ),
        (
            9,
            field("last_post_status", post_status_enum.get_type(&second_package))
                .add_import(post_status_enum.get_file(&second_package).as_str()),
        ),
        (
            10,
            field("last_post_metadata", post_metadata_msg.get_type(&second_package))
                .add_import(post_metadata_msg.get_file(&second_package).as_str()),
        ),
    ];
    user_fields.extend(reusable_fields);

    let contact = Oneof::builder()
        .name("contact")
        .add_options(vec![example_option.clone()])
        .fields(vec![
            (
                11,
                field("email", FieldType::String)
                    .add_option(StringValidator { well_known: Some(WellKnown::Email), ..Default::default() }.to_option())
                    .add_import(VALIDATE_PROTO_FILE),
            ),
            (
                12,
                field("referrer", referrers_enum.get_type(&package))
                    .add_import(referrers_enum.get_file(&package).as_str()),
            ),
        ])
        .build();

    let user_msg = user_msg
        .add_options(&mut package, vec![example_option.clone()])
        .reserved_names(&mut package, vec!["one".to_string(), "two".to_string()])
        .reserved_ranges(&mut package, vec![Range { start: 200, end: 205 }])
        .reserved_numbers(&mut package, vec![405])
        .cel_rules(
            &mut package,
            vec![CelRule {
                id: text("passwords_match"),
                message: text("the passwords do not match"),
                expression: text("this.password == this.repeated_password"),
            }],
        )
        .fields(&mut package, user_fields);

    let favorite_category = user_msg.new_enum(&mut package, "favorite_category");
    let mut favorite_variants = vec![(1, variant("PETS")), (2, variant("COOKING"))];
    favorite_variants.extend(reusable_variants.clone());
    favorite_category.variants(&mut package, favorite_variants);

    let tier = user_msg.new_enum(&mut package, "tier");
    let mut tier_variants = vec![(1, variant("SILVER")), (2, variant("GOLD"))];
    tier_variants.extend(reusable_variants.clone());
    tier.options(&mut package, vec![example_option.clone()])
        .reserved_names(&mut package, vec!["one".to_string(), "two".to_string()])
        .reserved_ranges(&mut package, vec![Range { start: 200, end: 205 }])
        .reserved_numbers(&mut package, vec![405])
        .variants(&mut package, tier_variants);

    let user_msg = user_msg.add_oneofs(&mut package, vec![contact]);

    subsection_msg
        .add_options(&mut package, vec![example_option.clone()])
        .fields(
            &mut package,
            vec![
                (1, field("name", FieldType::String)),
                (
                    2,
                    field("top_trending_post", post_msg.get_type(&second_package))
                        .add_import(post_msg.get_file(&second_package).as_str()),
                ),
            ],
        );

    sub_subsection_msg.fields(
        &mut package,
        vec![
            (1, field("id", FieldType::Uint64)),
            (2, field("name", FieldType::String)),
            (
                3,
                field("category", post_category_enum.get_type(&second_package))
                    .add_import(post_category_enum.get_file(&second_package).as_str()),
            ),
        ],
    );

    let templates = package.build_templates();
    assert_eq!(templates.len(), 1);
    let user_file = &templates[0];
    assert_eq!(user_file.name.as_str(), "myapp/v1/user.proto");
    assert_eq!(user_file.package.as_str(), "myapp.v1");
    assert_eq!(user_file.messages.len(), 2);
    assert_eq!(user_file.enums.len(), 2);
    assert_eq!(user_file.services.len(), 1);
    assert_eq!(user_file.extensions.len(), 2);
    assert_eq!(user_file.options.len(), 5);

    let imports: Vec<&str> = user_file.imports.iter().map(|i| i.as_str()).collect();
    assert!(imports.contains(&"google/protobuf/descriptor.proto"));
    assert!(imports.contains(&"buf/validate/validate.proto"));
    assert!(imports.contains(&"google/protobuf/timestamp.proto"));
    assert!(imports.contains(&"myapp/v2/post.proto"));
    assert!(!imports.contains(&"myapp/v1/user.proto"));
    let mut sorted = imports.clone();
    sorted.sort();
    sorted.dedup();
    assert_eq!(sorted.len(), imports.len());

    let user = &user_file.messages[0];
    assert_eq!(user.name.as_str(), "User");
    let tags: Vec<u32> = user.fields.iter().map(|(t, _)| *t).collect();
    assert_eq!(tags, vec![1, 2, 3, 4, 5, 6, 7, 8, 9, 10, 100, 101]);
    assert_eq!(user.fields[1].1.kind, FieldKind::Repeated);
    assert_eq!(user.oneofs.len(), 1);
    assert_eq!(user.enums.len(), 2);
    assert_eq!(user.enums[1].variants[0].1.name.as_str(), "TIER_UNSPECIFIED");
    assert_eq!(user.options.len(), 2);
    assert_eq!(user.options[1].name, "(buf.validate.message)");

    let section = &user_file.messages[1];
    assert_eq!(section.messages.len(), 1);
    assert_eq!(section.messages[0].name.as_str(), "Subsection");
    assert_eq!(section.messages[0].messages[0].name.as_str(), "SubSubsection");

    let status = &user_file.enums[0];
    let names: Vec<(i32, &str)> = status.variants.iter().map(|(t, v)| (*t, v.name.as_str())).collect();
    assert_eq!(
        names,
        vec![(0, "USER_STATUS_UNSPECIFIED"), (1, "USER_STATUS_ACTIVE"), (2, "USER_STATUS_INACTIVE"), (2, "USER_STATUS_PASSIVE")]
    );
    let _ = EnumTemplate::from_data(&package.data.enums[0]);
}

#[test]
fn builtin_type_names_are_distinct() {
    let builtins = vec![
        FieldType::Double,
        FieldType::Float,
        FieldType::Int64,
        FieldType::Uint64,
        FieldType::Int32,
        FieldType::Fixed64,
        FieldType::Fixed32,
        FieldType::Bool,
        FieldType::String,
        FieldType::Bytes,
        FieldType::Uint32,
        FieldType::Sfixed32,
        FieldType::Sfixed64,
        FieldType::Sint32,
        FieldType::Sint64,
        FieldType::Duration,
        FieldType::Timestamp,
        FieldType::Any,
        FieldType::FieldMask,
        FieldType::Empty,
        FieldType::Struct,
        FieldType::Money,
        FieldType::Interval,
        FieldType::Color,
        FieldType::Date,
        FieldType::DateTime,
        FieldType::TimeZone,
        FieldType::DayOfWeek,
        FieldType::Decimal,
        FieldType::Expr,
        FieldType::Fraction,
        FieldType::LatLng,
        FieldType::LocalizedText,
        FieldType::Month,
        FieldType::PhoneNumber,
        FieldType::PostalAddress,
        FieldType::Quaternion,
        FieldType::TimeOfDay,
        FieldType::Status,
        FieldType::Code,
        FieldType::HttpRequest,
        FieldType::HttpResponse,
        FieldType::HttpHeader,
        FieldType::ErrorInfo,
        FieldType::RetryInfo,
        FieldType::DebugInfo,
        FieldType::QuotaFailure,
        FieldType::QuotaFailureViolation,
        FieldType::PreconditionFailure,
        FieldType::PreconditionFailureViolation,
        FieldType::BadRequest,
        FieldType::FieldViolation,
        FieldType::RequestInfo,
        FieldType::ResourceInfo,
        FieldType::Help,
        FieldType::LocalizedMessage,
        FieldType::Link,
    ];
    let mut seen = std::collections::HashSet::new();
    for t in &builtins {
        assert!(seen.insert(t.name().to_string()), "name used twice: {}", t.name());
    }
    assert_eq!(seen.len(), 57);
    assert_ne!(FieldType::Int32.name(), FieldType::Sint32.name());
    assert_eq!(FieldType::QuotaFailureViolation.name(), "google.rpc.QuotaFailure.Violation");
}
