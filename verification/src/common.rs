//! A collection of common protobuf items, such as the [`ProtoOption`]s for
//! 'deprecated' or 'allow_alias', and the paths of the files they come from.

use vstd::prelude::*;
use std::sync::Arc;

use crate::options::{OptionValue, ProtoOption};

verus! {

/// The path to the validate.proto file.
pub const VALIDATE_PROTO_FILE: &'static str = "buf/validate/validate.proto";

/// The path to the descriptor file in the google.protobuf package.
pub const DESCRIPTOR_PROTO_FILE: &'static str = "google/protobuf/descriptor.proto";

/// The name of the option that makes a oneof required.
pub const REQUIRED_ONEOF_OPTION: &'static str = "(buf.validate.oneof).required";

/// The name of the option that holds the CEL rules of a message.
pub const CEL_RULES_OPTION: &'static str = "(buf.validate.message)";

/// The text of [`VALIDATE_PROTO_FILE`].
pub open spec fn validate_proto_file() -> Seq<char> {
    VALIDATE_PROTO_FILE@
}

/// The text of [`DESCRIPTOR_PROTO_FILE`].
pub open spec fn descriptor_proto_file() -> Seq<char> {
    DESCRIPTOR_PROTO_FILE@
}

/// [`VALIDATE_PROTO_FILE`] as a new string.
pub fn validate_proto_file_name() -> (r: String)
    ensures
        r@ == validate_proto_file(),
{
    String::from_str(VALIDATE_PROTO_FILE)
}

/// [`DESCRIPTOR_PROTO_FILE`] as a new string.
pub fn descriptor_proto_file_name() -> (r: String)
    ensures
        r@ == descriptor_proto_file(),
{
    String::from_str(DESCRIPTOR_PROTO_FILE)
}

/// The allow_alias option for enums.
pub fn allow_alias() -> (r: ProtoOption)
    ensures
        r.name@ == "allow_alias"@,
        *r.value == OptionValue::Bool(true),
{
    ProtoOption { name: "allow_alias", value: Arc::new(OptionValue::Bool(true)) }
}

/// A helper to create the [`ProtoOption`] that corresponds to 'deprecated = true'.
pub fn deprecated() -> (r: ProtoOption)
    ensures
        r.name@ == "deprecated"@,
        *r.value == OptionValue::Bool(true),
{
    ProtoOption { name: "deprecated", value: Arc::new(OptionValue::Bool(true)) }
}

} // verus!
