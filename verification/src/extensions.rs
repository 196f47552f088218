//! Protobuf extensions of the descriptor messages, used to define custom options.

use vstd::prelude::*;
use std::sync::Arc;

use crate::fields::{build_all, built_fields, Field, FieldBuilder, FieldData};
use crate::text::share;

verus! {

/// The kind of proto3 extension
#[derive(Debug, Clone, Copy, PartialEq, Eq)]
pub enum ExtensionKind {
    MessageOptions,
    FieldOptions,
    ServiceOptions,
    MethodOptions,
    OneofOptions,
    FileOptions,
    EnumOptions,
    EnumValueOptions,
}

impl ExtensionKind {
    /// The full name of the message that this kind of extension extends.
    pub open spec fn spec_target(&self) -> Seq<char> {
        match self {
            ExtensionKind::MessageOptions => "google.protobuf.MessageOptions"@,
            ExtensionKind::FieldOptions => "google.protobuf.FieldOptions"@,
            ExtensionKind::ServiceOptions => "google.protobuf.ServiceOptions"@,
            ExtensionKind::MethodOptions => "google.protobuf.MethodOptions"@,
            ExtensionKind::OneofOptions => "google.protobuf.OneofOptions"@,
            ExtensionKind::FileOptions => "google.protobuf.FileOptions"@,
            ExtensionKind::EnumOptions => "google.protobuf.EnumOptions"@,
            ExtensionKind::EnumValueOptions => "google.protobuf.EnumValueOptions"@,
        }
    }

    /// Returns the name of the message being extended
    pub fn get_target(&self) -> (r: &'static str)
        ensures
            r@ == self.spec_target(),
    {
        match self {
            ExtensionKind::MessageOptions => "google.protobuf.MessageOptions",
            ExtensionKind::FieldOptions => "google.protobuf.FieldOptions",
            ExtensionKind::ServiceOptions => "google.protobuf.ServiceOptions",
            ExtensionKind::MethodOptions => "google.protobuf.MethodOptions",
            ExtensionKind::OneofOptions => "google.protobuf.OneofOptions",
            ExtensionKind::FileOptions => "google.protobuf.FileOptions",
            ExtensionKind::EnumOptions => "google.protobuf.EnumOptions",
            ExtensionKind::EnumValueOptions => "google.protobuf.EnumValueOptions",
        }
    }
}

impl ExtensionKind {
    /// The identifier of this kind, which is also the name of the descriptor
    /// options message that it extends.
    pub open spec fn spec_identifier(&self) -> Seq<char> {
        match self {
            ExtensionKind::MessageOptions => "MessageOptions"@,
            ExtensionKind::FieldOptions => "FieldOptions"@,
            ExtensionKind::ServiceOptions => "ServiceOptions"@,
            ExtensionKind::MethodOptions => "MethodOptions"@,
            ExtensionKind::OneofOptions => "OneofOptions"@,
            ExtensionKind::FileOptions => "FileOptions"@,
            ExtensionKind::EnumOptions => "EnumOptions"@,
            ExtensionKind::EnumValueOptions => "EnumValueOptions"@,
        }
    }
}

/// The target of an extension is the options message of `google.protobuf` named
/// after its kind, so that distinct kinds extend distinct messages.
pub proof fn law_extension_target(a: ExtensionKind, b: ExtensionKind)
    ensures
        a.spec_target() == "google.protobuf."@ + a.spec_identifier(),
        a != b ==> a.spec_target() != b.spec_target(),
{
    reveal_strlit("google.protobuf.");
    reveal_strlit("google.protobuf.MessageOptions");
    reveal_strlit("MessageOptions");
    reveal_strlit("google.protobuf.FieldOptions");
    reveal_strlit("FieldOptions");
    reveal_strlit("google.protobuf.ServiceOptions");
    reveal_strlit("ServiceOptions");
    reveal_strlit("google.protobuf.MethodOptions");
    reveal_strlit("MethodOptions");
    reveal_strlit("google.protobuf.OneofOptions");
    reveal_strlit("OneofOptions");
    reveal_strlit("google.protobuf.FileOptions");
    reveal_strlit("FileOptions");
    reveal_strlit("google.protobuf.EnumOptions");
    reveal_strlit("EnumOptions");
    reveal_strlit("google.protobuf.EnumValueOptions");
    reveal_strlit("EnumValueOptions");
    assert(a.spec_target() =~= "google.protobuf."@ + a.spec_identifier());
    assert("google.protobuf.MessageOptions"@.len() == 30 && "google.protobuf.MessageOptions"@[16] == 'M');
    assert("google.protobuf.FieldOptions"@.len() == 28 && "google.protobuf.FieldOptions"@[16] == 'F');
    assert("google.protobuf.ServiceOptions"@.len() == 30 && "google.protobuf.ServiceOptions"@[16] == 'S');
    assert("google.protobuf.MethodOptions"@.len() == 29 && "google.protobuf.MethodOptions"@[16] == 'M');
    assert("google.protobuf.OneofOptions"@.len() == 28 && "google.protobuf.OneofOptions"@[16] == 'O');
    assert("google.protobuf.FileOptions"@.len() == 27 && "google.protobuf.FileOptions"@[16] == 'F');
    assert("google.protobuf.EnumOptions"@.len() == 27 && "google.protobuf.EnumOptions"@[16] == 'E');
    assert("google.protobuf.EnumValueOptions"@.len() == 32 && "google.protobuf.EnumValueOptions"@[16] == 'E');
}

/// A struct representing a protobuf extension
#[derive(Debug)]
pub struct Extension {
    pub kind: ExtensionKind,
    pub fields: Vec<(u32, Field)>,
}

/// What a file keeps of an extension: its kind and its fields, sorted by number.
#[derive(Debug)]
pub struct ExtensionData {
    pub kind: ExtensionKind,
    pub fields: Arc<Vec<(u32, FieldData)>>,
}

impl Clone for ExtensionData {
    fn clone(&self) -> (r: Self)
        ensures
            r == *self,
    {
        ExtensionData { kind: self.kind, fields: share(&self.fields) }
    }
}

impl Extension {
    /// Starts describing a new extension.
    pub fn builder() -> (b: ExtensionBuilder)
        ensures
            b.kind.is_none(),
            b.fields.is_none(),
    {
        ExtensionBuilder { kind: None, fields: None }
    }
}

/// Collects the parts of an [`Extension`]; both must be given before it is built.
#[derive(Debug)]
pub struct ExtensionBuilder {
    pub kind: Option<ExtensionKind>,
    pub fields: Option<Vec<(u32, Field)>>,
}

impl ExtensionBuilder {
    /// Whether the kind and the fields were given.
    pub open spec fn is_complete(&self) -> bool {
        self.kind.is_some() && self.fields.is_some()
    }

    /// Sets the kind of this extension.
    pub fn kind(self, kind: ExtensionKind) -> (r: Self)
        ensures
            r == (ExtensionBuilder { kind: Some(kind), ..self }),
    {
        ExtensionBuilder { kind: Some(kind), ..self }
    }

    /// Sets the fields for this extension
    pub fn fields(self, fields: Vec<(u32, FieldBuilder)>) -> (r: Self)
        requires
            forall|i: int| 0 <= i < fields@.len() ==> (#[trigger] fields@[i]).1.is_complete(),
        ensures
            r.kind == self.kind,
            r.fields.is_some(),
            r.fields.unwrap()@ == built_fields(fields@),
    {
        let built = build_all(fields);
        ExtensionBuilder { fields: Some(built), ..self }
    }

    /// Builds the extension.
    pub fn build(self) -> (r: Extension)
        requires
            self.is_complete(),
        ensures
            r == (Extension { kind: self.kind.unwrap(), fields: self.fields.unwrap() }),
    {
        match (self.kind, self.fields) {
            (Some(kind), Some(fields)) => Extension { kind, fields },
            _ => {
                assert(false);
                Extension { kind: ExtensionKind::FileOptions, fields: Vec::new() }
            },
        }
    }
}

} // verus!
