//! Protobuf oneofs.

use vstd::prelude::*;
use std::sync::Arc;

use crate::common::{validate_proto_file, REQUIRED_ONEOF_OPTION};
use crate::fields::{build_all, built_fields, Field, FieldBuilder, FieldData};
use crate::options::{OptionValue, ProtoOption};
use crate::text::share;

verus! {

/// A struct representing a protobuf Oneof
#[derive(Debug)]
pub struct Oneof {
    pub imports: Vec<Arc<String>>,
    pub options: Vec<ProtoOption>,
    pub name: Arc<String>,
    pub fields: Vec<(u32, Field)>,
}

/// What a message keeps of a oneof: its name, its fields sorted by number, and its options.
#[derive(Debug)]
pub struct OneofData {
    pub name: Arc<String>,
    pub fields: Arc<Vec<(u32, FieldData)>>,
    pub options: Arc<Vec<ProtoOption>>,
}

impl Clone for OneofData {
    fn clone(&self) -> (r: Self)
        ensures
            r == *self,
    {
        OneofData { name: share(&self.name), fields: share(&self.fields), options: share(&self.options) }
    }
}

impl Oneof {
    /// Starts describing a new oneof.
    pub fn builder() -> (b: OneofBuilder)
        ensures
            b.name.is_none(),
            b.fields.is_none(),
            b.imports@.len() == 0,
            b.options@.len() == 0,
    {
        OneofBuilder { imports: Vec::new(), options: Vec::new(), name: None, fields: None }
    }
}

/// Collects the parts of a [`Oneof`]; its name and fields must be given before it is built.
#[derive(Debug)]
pub struct OneofBuilder {
    pub imports: Vec<Arc<String>>,
    pub options: Vec<ProtoOption>,
    pub name: Option<Arc<String>>,
    pub fields: Option<Vec<(u32, Field)>>,
}

impl OneofBuilder {
    /// Whether the name and the fields were given.
    pub open spec fn is_complete(&self) -> bool {
        self.name.is_some() && self.fields.is_some()
    }

    /// Sets the name of this oneof.
    pub fn name(self, name: &str) -> (r: Self)
        ensures
            r.name.is_some(),
            r.name.unwrap()@ == name@,
            r.fields == self.fields,
            r.imports == self.imports,
            r.options == self.options,
    {
        OneofBuilder { name: Some(Arc::new(String::from_str(name))), ..self }
    }

    /// Makes the oneof required, using the related protovalidate option, meaning that
    /// at least one field in this oneof will have to be set in order for it to be considered valid.
    pub fn required(self) -> (r: Self)
        ensures
            r.imports@.len() == self.imports@.len() + 1,
            r.imports@.drop_last() == self.imports@,
            r.imports@.last()@ == validate_proto_file(),
            r.options@.len() == self.options@.len() + 1,
            r.options@.drop_last() == self.options@,
            r.options@.last().name@ == REQUIRED_ONEOF_OPTION@,
            *r.options@.last().value == OptionValue::Bool(true),
            r.name == self.name,
            r.fields == self.fields,
    {
        let mut b = self;
        b.imports.push(Arc::new(crate::common::validate_proto_file_name()));
        b.options.push(ProtoOption { name: REQUIRED_ONEOF_OPTION, value: Arc::new(OptionValue::Bool(true)) });
        b
    }

    /// Adds a list of imports to this oneof. These will be added to the receiving file.
    pub fn add_imports(self, imports: Vec<Arc<String>>) -> (r: Self)
        ensures
            r.imports@ == self.imports@ + imports@,
            r.options == self.options,
            r.name == self.name,
            r.fields == self.fields,
    {
        let mut b = self;
        let mut more = imports;
        b.imports.append(&mut more);
        b
    }

    /// Sets the fields for this oneof, building each of them.
    pub fn fields(self, fields: Vec<(u32, FieldBuilder)>) -> (r: Self)
        requires
            forall|i: int| 0 <= i < fields@.len() ==> (#[trigger] fields@[i]).1.is_complete(),
        ensures
            r.fields.is_some(),
            r.fields.unwrap()@ == built_fields(fields@),
            r.imports == self.imports,
            r.options == self.options,
            r.name == self.name,
    {
        let built = build_all(fields);
        OneofBuilder { fields: Some(built), ..self }
    }

    /// Adds the given options to this oneof.
    pub fn add_options(self, options: Vec<ProtoOption>) -> (r: Self)
        ensures
            r.options@ == self.options@ + options@,
            r.imports == self.imports,
            r.name == self.name,
            r.fields == self.fields,
    {
        let mut b = self;
        let mut more = options;
        b.options.append(&mut more);
        b
    }

    /// Builds the oneof.
    pub fn build(self) -> (r: Oneof)
        requires
            self.is_complete(),
        ensures
            r == (Oneof {
                imports: self.imports,
                options: self.options,
                name: self.name.unwrap(),
                fields: self.fields.unwrap(),
            }),
    {
        match (self.name, self.fields) {
            (Some(name), Some(fields)) => Oneof { imports: self.imports, options: self.options, name, fields },
            _ => {
                assert(false);
                Oneof { imports: Vec::new(), options: Vec::new(), name: Arc::new(String::new()), fields: Vec::new() }
            },
        }
    }
}

} // verus!
