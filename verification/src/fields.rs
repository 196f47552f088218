//! Protobuf fields: how they are described, and what is kept of them once
//! they belong to a message, a oneof or an extension.

use vstd::prelude::*;
use std::sync::Arc;

use crate::field_type::FieldType;
use crate::options::ProtoOption;
use crate::text::share;

verus! {

/// The cardinality of a field.
#[derive(Debug, Copy, Clone, PartialEq, Eq)]
pub enum FieldKind {
    Normal,
    Repeated,
    Optional,
}

impl Default for FieldKind {
    fn default() -> (r: Self)
        ensures
            r == FieldKind::Normal,
    {
        FieldKind::Normal
    }
}

impl FieldKind {
    /// The keyword written before the field's type, followed by a space; nothing for a plain field.
    pub open spec fn spec_keyword(&self) -> Seq<char> {
        match self {
            FieldKind::Normal => Seq::empty(),
            FieldKind::Repeated => "repeated "@,
            FieldKind::Optional => "optional "@,
        }
    }

    /// Returns the keyword written before the field's type: `repeated `, `optional ` or nothing.
    pub fn to_string(&self) -> (r: String)
        ensures
            r@ == self.spec_keyword(),
    {
        match self {
            FieldKind::Normal => String::new(),
            FieldKind::Repeated => String::from_str("repeated "),
            FieldKind::Optional => String::from_str("optional "),
        }
    }
}

/// A struct representing a protobuf field
#[derive(Debug)]
pub struct Field {
    pub options: Vec<ProtoOption>,
    pub imports: Vec<Arc<String>>,
    pub kind: FieldKind,
    pub field_type: FieldType,
    pub name: Arc<String>,
}

/// A struct representing the processed data for a protobuf field, after it's been
/// added to a message or extension
#[derive(Debug)]
pub struct FieldData {
    pub options: Arc<Vec<ProtoOption>>,
    pub kind: FieldKind,
    pub field_type: FieldType,
    pub name: Arc<String>,
}

impl Clone for FieldData {
    fn clone(&self) -> (r: Self)
        ensures
            r == *self,
    {
        FieldData {
            options: share(&self.options),
            kind: self.kind,
            field_type: self.field_type.clone(),
            name: share(&self.name),
        }
    }
}

/// What a message, oneof or extension keeps of a field: everything but its imports,
/// which go to the receiving file.
pub open spec fn data_of(f: Field) -> FieldData {
    FieldData { options: Arc::new(f.options), kind: f.kind, field_type: f.field_type, name: f.name }
}

impl Field {
    /// Starts describing a new field.
    pub fn builder() -> (b: FieldBuilder)
        ensures
            b.name.is_none(),
            b.field_type.is_none(),
            b.kind == FieldKind::Normal,
            b.options@.len() == 0,
            b.imports@.len() == 0,
    {
        FieldBuilder {
            options: Vec::new(),
            imports: Vec::new(),
            kind: FieldKind::Normal,
            field_type: None,
            name: None,
        }
    }

    /// Splits this field into the data that its owner keeps and the imports
    /// that go to the receiving file.
    pub fn into_data(self) -> (r: (FieldData, Vec<Arc<String>>))
        ensures
            r.0 == data_of(self),
            r.1 == self.imports,
    {
        let Field { options, imports, kind, field_type, name } = self;
        (FieldData { options: Arc::new(options), kind, field_type, name }, imports)
    }
}

/// Collects the parts of a [`Field`]; its name and type must be given before it is built.
#[derive(Debug)]
pub struct FieldBuilder {
    pub options: Vec<ProtoOption>,
    pub imports: Vec<Arc<String>>,
    pub kind: FieldKind,
    pub field_type: Option<FieldType>,
    pub name: Option<Arc<String>>,
}

impl FieldBuilder {
    /// Whether the name and the type were given.
    pub open spec fn is_complete(&self) -> bool {
        self.name.is_some() && self.field_type.is_some()
    }

    /// The field this builder describes.
    pub open spec fn spec_build(self) -> Field {
        Field {
            options: self.options,
            imports: self.imports,
            kind: self.kind,
            field_type: self.field_type.unwrap(),
            name: self.name.unwrap(),
        }
    }

    /// Sets the name of this field
    pub fn name(self, name: &str) -> (r: Self)
        ensures
            r.name.is_some(),
            r.name.unwrap()@ == name@,
            r.field_type == self.field_type,
            r.kind == self.kind,
            r.options == self.options,
            r.imports == self.imports,
    {
        FieldBuilder { name: Some(Arc::new(String::from_str(name))), ..self }
    }

    /// Marks this field as `repeated`
    pub fn repeated(self) -> (r: Self)
        ensures
            r == (FieldBuilder { kind: FieldKind::Repeated, ..self }),
    {
        FieldBuilder { kind: FieldKind::Repeated, ..self }
    }

    /// Marks this field as `optional`
    pub fn optional(self) -> (r: Self)
        ensures
            r == (FieldBuilder { kind: FieldKind::Optional, ..self }),
    {
        FieldBuilder { kind: FieldKind::Optional, ..self }
    }

    /// Sets the [`FieldType`] for this field
    pub fn field_type(self, field_type: FieldType) -> (r: Self)
        ensures
            r == (FieldBuilder { field_type: Some(field_type), ..self }),
    {
        FieldBuilder { field_type: Some(field_type), ..self }
    }

    /// Adds an option to this field
    pub fn add_option(self, option: ProtoOption) -> (r: Self)
        ensures
            r.options@ == self.options@.push(option),
            r.imports == self.imports,
            r.kind == self.kind,
            r.field_type == self.field_type,
            r.name == self.name,
    {
        let mut b = self;
        b.options.push(option);
        b
    }

    /// Adds multiple options to this field
    pub fn add_options(self, options: Vec<ProtoOption>) -> (r: Self)
        ensures
            r.options@ == self.options@ + options@,
            r.imports == self.imports,
            r.kind == self.kind,
            r.field_type == self.field_type,
            r.name == self.name,
    {
        let mut b = self;
        let mut more = options;
        b.options.append(&mut more);
        b
    }

    /// Adds an import to this field.
    /// When this field is cloned and reused in other messages, the receiving file
    /// will automatically add this import to its list.
    pub fn add_import(self, import: &str) -> (r: Self)
        ensures
            r.imports@.len() == self.imports@.len() + 1,
            r.imports@.drop_last() == self.imports@,
            r.imports@.last()@ == import@,
            r.options == self.options,
            r.kind == self.kind,
            r.field_type == self.field_type,
            r.name == self.name,
    {
        let mut b = self;
        b.imports.push(Arc::new(String::from_str(import)));
        b
    }

    /// Builds the field.
    pub fn build(self) -> (f: Field)
        requires
            self.is_complete(),
        ensures
            f == self.spec_build(),
    {
        match (self.name, self.field_type) {
            (Some(name), Some(field_type)) => Field {
                options: self.options,
                imports: self.imports,
                kind: self.kind,
                field_type,
                name,
            },
            _ => {
                assert(false);
                Field {
                    options: Vec::new(),
                    imports: Vec::new(),
                    kind: FieldKind::Normal,
                    field_type: FieldType::Bool,
                    name: Arc::new(String::new()),
                }
            },
        }
    }
}

} // verus!

verus! {

/// The fields that numbered field builders describe, with their numbers.
pub open spec fn built_fields(builders: Seq<(u32, FieldBuilder)>) -> Seq<(u32, Field)> {
    builders.map_values(|e: (u32, FieldBuilder)| (e.0, e.1.spec_build()))
}

/// The imports of numbered fields, one field after the other.
pub open spec fn imports_of_fields(fields: Seq<(u32, Field)>) -> Seq<Arc<String>>
    decreases fields.len(),
{
    if fields.len() == 0 {
        Seq::empty()
    } else {
        imports_of_fields(fields.drop_last()) + fields.last().1.imports@
    }
}

/// What is kept of numbered fields: each one's number and data.
pub open spec fn data_of_fields(fields: Seq<(u32, Field)>) -> Seq<(u32, FieldData)> {
    fields.map_values(|e: (u32, Field)| (e.0, data_of(e.1)))
}

/// Builds every field of a list of numbered field builders, keeping the numbers and the order.
pub fn build_all(builders: Vec<(u32, FieldBuilder)>) -> (r: Vec<(u32, Field)>)
    requires
        forall|i: int| 0 <= i < builders@.len() ==> (#[trigger] builders@[i]).1.is_complete(),
    ensures
        r@ == built_fields(builders@),
{
    let ghost orig = builders@;
    let mut rest = builders;
    let mut out: Vec<(u32, Field)> = Vec::new();
    while rest.len() > 0
        invariant
            out@.len() + rest@.len() == orig.len(),
            rest@ == orig.skip(out@.len() as int),
            forall|i: int| 0 <= i < orig.len() ==> (#[trigger] orig[i]).1.is_complete(),
            forall|i: int|
                0 <= i < out@.len() ==> #[trigger] out@[i] == (orig[i].0, orig[i].1.spec_build()),
        decreases rest@.len(),
    {
        let (tag, b) = rest.remove(0);
        assert(orig[out@.len() as int] == (tag, b));
        let f = b.build();
        out.push((tag, f));
        assert(rest@ =~= orig.skip(out@.len() as int));
    }
    assert(out@ =~= built_fields(orig));
    out
}

} // verus!
