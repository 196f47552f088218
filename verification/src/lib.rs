//! Programmatic definition of protobuf schemas: packages, files, messages, enums,
//! services, extensions and protovalidate rules, collected into templates that
//! describe the `.proto` files to write.

use vstd::prelude::*;
use std::marker::PhantomData;

pub mod common;
pub mod enums;
pub mod extensions;
pub mod field_type;
pub mod fields;
pub mod files;
pub mod messages;
pub mod oneofs;
pub mod options;
pub mod packages;
pub mod rendering;
mod sealed;
pub mod services;
pub mod sorting;
pub mod text;
pub mod validators;

pub use crate::field_type::{FieldType, MapKey};
pub use crate::options::{OptionValue, ProtoOption};
pub use crate::packages::Package;

verus! {

/// Marks a member of a typestate builder as already set.
pub struct SetMember<T>(PhantomData<T>);

/// Marks a member of a typestate builder as not set yet.
pub struct Unset<T>(PhantomData<T>);

/// Implemented by the markers of members that were set.
pub trait IsSet {}

/// Implemented by the markers of members that were not set.
pub trait IsUnset {}

impl<T> IsSet for SetMember<T> {}

impl<T> IsUnset for Unset<T> {}

/// The starting state of every typestate builder: nothing set.
pub struct Empty;

/// A range of tag numbers, from `start` to `end`; as in protobuf, reserved ranges
/// are taken to include both ends.
#[derive(Clone, Copy, Debug, PartialEq, Eq)]
pub struct Range<Idx> {
    pub start: Idx,
    pub end: Idx,
}

} // verus!
