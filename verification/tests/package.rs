use std::sync::Arc;

use protoschema::extensions::{Extension, ExtensionKind};
use protoschema::fields::{Field, FieldBuilder};
use protoschema::enums::EnumVariant;
use protoschema::oneofs::Oneof;
use protoschema::options::OptionValue;
use protoschema::rendering::EnumTemplate;
use protoschema::services::ServiceHandler;
use protoschema::validators::cel::CelRule;
use protoschema::field_type::ImportedItemPath;
use protoschema::messages::MessageData;
use protoschema::packages::PackageData;
use protoschema::{FieldType, Package};

fn text(s: &str) -> Arc<String> {
    Arc::new(s.to_string())
}

fn field(name: &str, field_type: FieldType) -> FieldBuilder {
    Field::builder().name(name).field_type(field_type)
}

fn imports_of(package: &Package, file: usize) -> Vec<String> {
    package.data.files[file].imports.iter().map(|i| i.to_string()).collect()
}

#[test]
fn package_paths_and_file_names() {
    let mut package = Package::new("my_pkg.v1");
    assert_eq!(package.path, "my_pkg/v1");
    assert_eq!(package.get_name().as_str(), "my_pkg.v1");
    let file = package.new_file("my_file");
    assert_eq!(file.id, 0);
    assert_eq!(file.get_name(&package).as_str(), "my_pkg/v1/my_file.proto");
    let other = package.new_file("other");
    assert_eq!(other.id, 1);
    assert_eq!(other.get_name(&package).as_str(), "my_pkg/v1/other.proto");
}

#[test]
fn nested_names() {
    let mut package = Package::new("my_pkg.v1");
    let file = package.new_file("my_file");
    let outer = file.new_message(&mut package, "Outer");
    let inner = outer.new_message(&mut package, "Inner");
    let deepest = inner.new_message(&mut package, "Deepest");
    let nested_enum = inner.new_enum(&mut package, "kind");
    let top_enum = file.new_enum(&mut package, "status");

    assert_eq!(outer.get_full_name(&package).as_str(), "Outer");
    assert_eq!(outer.get_full_name_with_package(&package).as_str(), "my_pkg.v1.Outer");
    assert_eq!(inner.get_full_name(&package).as_str(), "Outer.Inner");
    assert_eq!(deepest.get_full_name(&package).as_str(), "Outer.Inner.Deepest");
    assert_eq!(deepest.get_name(&package).as_str(), "Deepest");
    assert_eq!(deepest.get_full_name_with_package(&package).as_str(), "my_pkg.v1.Outer.Inner.Deepest");
    assert_eq!(deepest.get_package(&package).as_str(), "my_pkg.v1");
    assert_eq!(deepest.get_file(&package).as_str(), "my_pkg/v1/my_file.proto");
    assert_eq!(nested_enum.get_full_name(&package).as_str(), "Outer.Inner.kind");
    assert_eq!(nested_enum.get_full_name_with_package(&package).as_str(), "my_pkg.v1.Outer.Inner.kind");
    assert_eq!(nested_enum.get_file(&package).as_str(), "my_pkg/v1/my_file.proto");
    assert_eq!(top_enum.get_full_name(&package).as_str(), "status");
    assert_eq!(top_enum.get_package(&package).as_str(), "my_pkg.v1");

    let walked = package.data.get_full_message_name("Deepest", Some(inner.id));
    assert_eq!(walked.as_str(), "my_pkg.v1.Outer.Inner.Deepest");
    let top = package.data.get_full_message_name("Outer", None);
    assert_eq!(top.as_str(), "my_pkg.v1.Outer");

    let outer = outer.fields(&mut package, vec![]);
    let template = outer.get_data(&package);
    assert_eq!(template.messages.len(), 1);
    assert_eq!(template.messages[0].messages[0].name.as_str(), "Deepest");
    assert_eq!(template.messages[0].enums[0].name.as_str(), "kind");
}

#[test]
fn fields_are_sorted_and_bring_imports() {
    let mut package = Package::new("pkg");
    let file = package.new_file("main");
    let msg = file.new_message(&mut package, "Msg");
    let msg = msg.fields(
        &mut package,
        vec![
            (3, field("c", FieldType::String).add_import("a.proto")),
            (1, field("a", FieldType::Bool).add_import("pkg/main.proto").add_import("b.proto")),
            (2, field("b1", FieldType::Int32).add_import("a.proto")),
            (2, field("b2", FieldType::Int32).repeated()),
        ],
    );
    let data = &package.data.messages[msg.id];
    let names: Vec<(u32, String)> = data.fields.iter().map(|(t, f)| (*t, f.name.to_string())).collect();
    assert_eq!(
        names,
        vec![(1, "a".to_string()), (2, "b1".to_string()), (2, "b2".to_string()), (3, "c".to_string())]
    );
    assert_eq!(imports_of(&package, 0), vec!["a.proto".to_string(), "b.proto".to_string()]);
}

#[test]
fn file_imports_skip_itself_and_repeats() {
    let mut package = Package::new("pkg");
    let file = package.new_file("main");
    file.add_imports(&mut package, vec![text("x.proto"), text("pkg/main.proto"), text("x.proto"), text("y.proto")]);
    assert_eq!(imports_of(&package, 0), vec!["x.proto".to_string(), "y.proto".to_string()]);
    file.add_imports(&mut package, vec![text("x.proto"), text("pkg/main.proto"), text("x.proto"), text("y.proto")]);
    assert_eq!(imports_of(&package, 0), vec!["x.proto".to_string(), "y.proto".to_string()]);
    let msg = file.new_message(&mut package, "Msg");
    msg.add_imports(&mut package, vec![text("z.proto"), text("y.proto")]);
    assert_eq!(imports_of(&package, 0), vec!["x.proto".to_string(), "y.proto".to_string(), "z.proto".to_string()]);
}

#[test]
fn oneofs_and_required() {
    let mut package = Package::new("pkg");
    let file = package.new_file("main");
    let msg = file.new_message(&mut package, "Msg");
    let oneof = Oneof::builder()
        .name("contact")
        .fields(vec![
            (12, field("phone", FieldType::String).add_import("phone.proto")),
            (11, field("email", FieldType::String)),
        ])
        .required()
        .build();
    assert_eq!(oneof.options.len(), 1);
    assert_eq!(oneof.options[0].name, "(buf.validate.oneof).required");
    assert_eq!(oneof.options[0].value.to_string(), "true");
    let msg = msg.add_oneofs(&mut package, vec![oneof]);
    let data = &package.data.messages[msg.id];
    assert_eq!(data.oneofs.len(), 1);
    let tags: Vec<u32> = data.oneofs[0].fields.iter().map(|(t, _)| *t).collect();
    assert_eq!(tags, vec![11, 12]);
    assert_eq!(imports_of(&package, 0), vec!["buf/validate/validate.proto".to_string(), "phone.proto".to_string()]);
}

#[test]
fn cel_rules_option() {
    let mut package = Package::new("pkg");
    let file = package.new_file("main");
    let msg = file.new_message(&mut package, "Msg");
    let msg = msg.cel_rules(
        &mut package,
        vec![CelRule { id: text("id1"), message: text("must match"), expression: text("this.a == this.b") }],
    );
    let data = &package.data.messages[msg.id];
    assert_eq!(data.imports.len(), 1);
    assert_eq!(data.imports[0].as_str(), "buf/validate/validate.proto");
    assert_eq!(data.options[0].name, "(buf.validate.message)");
    assert_eq!(
        data.options[0].value.to_string(),
        "{ cel: [  { id: \"id1\", message: \"must match\", expression: \"this.a == this.b\" } ] }"
    );
    let template = file.get_data(&package);
    assert_eq!(template.imports.len(), 1);
    assert_eq!(template.imports[0].as_str(), "buf/validate/validate.proto");
}

#[test]
fn extensions_import_the_descriptor() {
    let mut package = Package::new("pkg");
    let file = package.new_file("main");
    let ext = Extension::builder()
        .kind(ExtensionKind::FieldOptions)
        .fields(vec![
            (20, field("second", FieldType::String).add_import("dep.proto")),
            (10, field("first", FieldType::Bool)),
        ])
        .build();
    file.add_extension(&mut package, ext);
    assert_eq!(
        imports_of(&package, 0),
        vec!["google/protobuf/descriptor.proto".to_string(), "dep.proto".to_string()]
    );
    let ext_data = &package.data.files[0].extensions[0];
    assert_eq!(ext_data.kind.get_target(), "google.protobuf.FieldOptions");
    let tags: Vec<u32> = ext_data.fields.iter().map(|(t, _)| *t).collect();
    assert_eq!(tags, vec![10, 20]);
    let again = Extension::builder().kind(ExtensionKind::FileOptions).fields(vec![]).build();
    file.add_extension(&mut package, again);
    assert_eq!(imports_of(&package, 0).len(), 2);
}

#[test]
fn services_import_their_messages() {
    let mut package = Package::new("pkg.v1");
    let mut other = Package::new("other.v1");
    let file = package.new_file("svc");
    let other_file = other.new_file("types");
    let request = file.new_message(&mut package, "Request");
    let response = other_file.new_message(&mut other, "Response");
    let handler = ServiceHandler::new("Call").request(&package, &request).response(&other, &response).build();
    assert_eq!(handler.render_request("pkg/v1/svc.proto", "pkg.v1").as_str(), "Request");
    assert_eq!(handler.render_response("pkg/v1/svc.proto", "pkg.v1").as_str(), "other.v1.Response");
    let service = file.new_service(&mut package, "MyService");
    assert_eq!(service.get_name(&package).as_str(), "MyService");
    assert_eq!(service.get_file(&package).as_str(), "pkg/v1/svc.proto");
    let service = service.handlers(&mut package, vec![handler]);
    assert_eq!(imports_of(&package, 0), vec!["other/v1/types.proto".to_string()]);
    let data = service.get_data(&package);
    assert_eq!(data.handlers.len(), 1);
    assert_eq!(data.handlers[0].name.as_str(), "Call");
}

#[test]
fn enum_values_take_the_enum_name_as_prefix() {
    let mut package = Package::new("pkg");
    let file = package.new_file("main");
    let status = file.new_enum(&mut package, "userStatus");
    let status = status.variants(
        &mut package,
        vec![
            (2, EnumVariant { name: text("ACTIVE"), options: Arc::new(vec![]) }),
            (0, EnumVariant { name: text("UNSPECIFIED"), options: Arc::new(vec![]) }),
        ],
    );
    let template = status.get_data(&package);
    let names: Vec<(i32, String)> = template.variants.iter().map(|(t, v)| (*t, v.name.to_string())).collect();
    assert_eq!(names, vec![(0, "USER_STATUS_UNSPECIFIED".to_string()), (2, "USER_STATUS_ACTIVE".to_string())]);
    let prefixed = EnumTemplate::with_prefix(&package.data.enums[status.id], "P");
    assert_eq!(prefixed.variants[1].1.name.as_str(), "P_ACTIVE");
    assert_eq!(status.get_type(&package).name(), "userStatus");
    assert!(matches!(OptionValue::Bool(true), OptionValue::Bool(true)));
}

#[test]
fn readme_enum_prefix() {
    let mut package = Package::new("my_pkg.v1");
    let file = package.new_file("my_file");
    let my_enum = file.new_enum(&mut package, "my_enum");
    let my_enum = my_enum.variants(
        &mut package,
        vec![
            (1, EnumVariant { name: text("PASSIVE"), options: Arc::new(vec![]) }),
            (1, EnumVariant { name: text("INACTIVE"), options: Arc::new(vec![]) }),
            (2, EnumVariant { name: text("ACTIVE"), options: Arc::new(vec![]) }),
            (0, EnumVariant { name: text("UNSPECIFIED"), options: Arc::new(vec![]) }),
        ],
    );
    let template = my_enum.get_data(&package);
    let names: Vec<&str> = template.variants.iter().map(|(_, v)| v.name.as_str()).collect();
    assert_eq!(names, vec!["MY_ENUM_UNSPECIFIED", "MY_ENUM_PASSIVE", "MY_ENUM_INACTIVE", "MY_ENUM_ACTIVE"]);
    assert_eq!(file.get_name(&package).as_str(), "my_pkg/v1/my_file.proto");
}

#[test]
fn packages_check_their_own_shape() {
    let mut package = Package::new("a.b");
    let file = package.new_file("f");
    let msg = file.new_message(&mut package, "M");
    let _inner = msg.new_message(&mut package, "N");
    let _e = msg.new_enum(&mut package, "E");
    file.add_imports(&mut package, vec![text("x.proto")]);
    assert!(package.is_well_formed());
    let mut broken_path = Package::new("a.b");
    broken_path.path = "a.b".to_string();
    assert!(!broken_path.is_well_formed());
    package.data.files[0].imports.push(text("x.proto"));
    assert!(!package.is_well_formed());
}

fn bare_message(name: &str, parent_message: Option<usize>) -> MessageData {
    MessageData {
        name: text(name),
        import_path: Arc::new(ImportedItemPath::empty()),
        fields: Arc::new(vec![]),
        oneofs: vec![],
        reserved_numbers: Arc::new(vec![]),
        reserved_ranges: Arc::new(vec![]),
        reserved_names: Arc::new(vec![]),
        options: vec![],
        enums: vec![],
        messages: vec![],
        imports: vec![],
        file_id: 0,
        parent_message,
    }
}

#[test]
fn full_message_name_walks_names_of_a_hand_built_package() {
    let data = PackageData {
        name: text("pkg"),
        files: vec![],
        messages: vec![bare_message("A", None), bare_message("B", Some(0))],
        enums: vec![],
        services: vec![],
    };
    assert_eq!(data.get_full_message_name("C", Some(1)).as_str(), "pkg.A.B.C");
    assert_eq!(data.get_full_message_name("C", Some(0)).as_str(), "pkg.A.C");
    assert_eq!(data.get_full_message_name("C", None).as_str(), "pkg.C");
}
