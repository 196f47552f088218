//! Protobuf enums: their values, their data, and the builder that fills it in.

use vstd::prelude::*;
use std::sync::Arc;

use std::marker::PhantomData;

use crate::field_type::{FieldType, ImportedItemPath};
use crate::options::ProtoOption;
use crate::packages::{qualified, Package, PackageData};
use crate::sealed::Sealed;
use crate::text::share;
use crate::{Empty, IsSet, IsUnset, Range, SetMember, Unset};

pub mod members;

verus! {

/// A struct representing an enum value
#[derive(Debug)]
pub struct EnumVariant {
    pub name: Arc<String>,
    pub options: Arc<Vec<ProtoOption>>,
}

impl Clone for EnumVariant {
    fn clone(&self) -> (r: Self)
        ensures
            r == *self,
    {
        EnumVariant { name: share(&self.name), options: share(&self.options) }
    }
}

/// The stored information for a given enum.
#[derive(Debug)]
pub struct EnumData {
    pub name: Arc<String>,
    pub variants: Arc<Vec<(i32, EnumVariant)>>,
    pub import_path: Arc<ImportedItemPath>,
    pub file_id: usize,
    pub reserved_numbers: Arc<Vec<i32>>,
    pub reserved_ranges: Arc<Vec<Range<i32>>>,
    pub reserved_names: Arc<Vec<String>>,
    pub options: Arc<Vec<ProtoOption>>,
    pub parent_message: Option<usize>,
}

impl Clone for EnumData {
    fn clone(&self) -> (r: Self)
        ensures
            r == *self,
    {
        EnumData {
            name: share(&self.name),
            variants: share(&self.variants),
            import_path: share(&self.import_path),
            file_id: self.file_id,
            reserved_numbers: share(&self.reserved_numbers),
            reserved_ranges: share(&self.reserved_ranges),
            reserved_names: share(&self.reserved_names),
            options: share(&self.options),
            parent_message: self.parent_message,
        }
    }
}

impl EnumData {
    /// Whether this is an enum just created with the given name, full name, file
    /// and parent, in the package `pkg`: nothing is defined in it yet.
    pub open spec fn is_new(&self, name: Seq<char>, full_name: Seq<char>, pkg: PackageData, file_id: int, parent: Option<usize>) -> bool {
        &&& self.name@ == name
        &&& self.import_path.full_name@ == full_name
        &&& self.import_path.full_name_with_package@ == qualified(pkg.name@, full_name)
        &&& self.import_path.file@ == pkg.files@[file_id].name@
        &&& self.import_path.package@ == pkg.name@
        &&& self.file_id == file_id
        &&& self.parent_message == parent
        &&& self.variants@.len() == 0
        &&& self.reserved_numbers@.len() == 0
        &&& self.reserved_ranges@.len() == 0
        &&& self.reserved_names@.len() == 0
        &&& self.options@.len() == 0
    }

    /// An enum with nothing in it yet.
    pub fn new_empty(name: Arc<String>, import_path: Arc<ImportedItemPath>, file_id: usize, parent_message: Option<usize>) -> (r: EnumData)
        ensures
            r.name == name,
            r.import_path == import_path,
            r.file_id == file_id,
            r.parent_message == parent_message,
            r.variants@.len() == 0,
            r.reserved_numbers@.len() == 0,
            r.reserved_ranges@.len() == 0,
            r.reserved_names@.len() == 0,
            r.options@.len() == 0,
    {
        EnumData {
            name,
            variants: Arc::new(Vec::new()),
            import_path,
            file_id,
            reserved_numbers: Arc::new(Vec::new()),
            reserved_ranges: Arc::new(Vec::new()),
            reserved_names: Arc::new(Vec::new()),
            options: Arc::new(Vec::new()),
            parent_message,
        }
    }
}

/// The typestate of an [`EnumBuilder`]: which of its members were set.
pub trait EnumState: Sized {
    type Variants;
    type ReservedNumbers;
    type ReservedRanges;
    type ReservedNames;
    type Options;
    const SEALED: Sealed;
}

/// Implemented by the states in which every member of an enum was set.
pub trait IsComplete: EnumState {
    const SEALED: Sealed;
}

impl<S: EnumState> IsComplete for S where
    S::Variants: IsSet,
    S::ReservedNumbers: IsSet,
    S::ReservedRanges: IsSet,
    S::ReservedNames: IsSet,
    S::Options: IsSet,
 {
    const SEALED: Sealed = Sealed;
}

/// The state after the variants were set.
pub struct SetVariants<S: EnumState = Empty>(PhantomData<S>);

/// The state after the reserved numbers were set.
pub struct SetReservedNumbers<S: EnumState = Empty>(PhantomData<S>);

/// The state after the reserved ranges were set.
pub struct SetReservedRanges<S: EnumState = Empty>(PhantomData<S>);

/// The state after the reserved names were set.
pub struct SetReservedNames<S: EnumState = Empty>(PhantomData<S>);

/// The state after the options were set.
pub struct SetOptions<S: EnumState = Empty>(PhantomData<S>);

impl EnumState for Empty {
    type Variants = Unset<members::variants>;
    type ReservedNumbers = Unset<members::reserved_numbers>;
    type ReservedRanges = Unset<members::reserved_ranges>;
    type ReservedNames = Unset<members::reserved_names>;
    type Options = Unset<members::options>;
    const SEALED: Sealed = Sealed;
}

impl<S: EnumState> EnumState for SetVariants<S> {
    type Variants = SetMember<members::variants>;
    type ReservedNumbers = S::ReservedNumbers;
    type ReservedRanges = S::ReservedRanges;
    type ReservedNames = S::ReservedNames;
    type Options = S::Options;
    const SEALED: Sealed = Sealed;
}

impl<S: EnumState> EnumState for SetReservedNumbers<S> {
    type Variants = S::Variants;
    type ReservedNumbers = SetMember<members::reserved_numbers>;
    type ReservedRanges = S::ReservedRanges;
    type ReservedNames = S::ReservedNames;
    type Options = S::Options;
    const SEALED: Sealed = Sealed;
}

impl<S: EnumState> EnumState for SetReservedRanges<S> {
    type Variants = S::Variants;
    type ReservedNumbers = S::ReservedNumbers;
    type ReservedRanges = SetMember<members::reserved_ranges>;
    type ReservedNames = S::ReservedNames;
    type Options = S::Options;
    const SEALED: Sealed = Sealed;
}

impl<S: EnumState> EnumState for SetReservedNames<S> {
    type Variants = S::Variants;
    type ReservedNumbers = S::ReservedNumbers;
    type ReservedRanges = S::ReservedRanges;
    type ReservedNames = SetMember<members::reserved_names>;
    type Options = S::Options;
    const SEALED: Sealed = Sealed;
}

impl<S: EnumState> EnumState for SetOptions<S> {
    type Variants = S::Variants;
    type ReservedNumbers = S::ReservedNumbers;
    type ReservedRanges = S::ReservedRanges;
    type ReservedNames = S::ReservedNames;
    type Options = SetMember<members::options>;
    const SEALED: Sealed = Sealed;
}

/// The builder for a protobuf enum: the index of the enum in its package, and the
/// members already set.
#[derive(Debug)]
pub struct EnumBuilder<S: EnumState = Empty> {
    pub id: usize,
    pub state: PhantomData<S>,
}

/// `after` is `before` with the enum at `id` replaced by `data`, all else alike.
pub open spec fn enum_replaced(before: Package, after: Package, id: int, data: EnumData) -> bool {
    &&& after.path == before.path
    &&& after.data.name == before.data.name
    &&& after.data.files == before.data.files
    &&& after.data.messages == before.data.messages
    &&& after.data.services == before.data.services
    &&& after.data.enums@ == before.data.enums@.update(id, data)
}

impl<S: EnumState> EnumBuilder<S> {
    /// The data of this builder's enum in `pkg`.
    pub open spec fn data_in(&self, pkg: &Package) -> EnumData {
        pkg.data.enums@[self.id as int]
    }

    /// Whether this builder refers to an enum of `pkg`.
    pub open spec fn valid_in(&self, pkg: &Package) -> bool {
        self.id < pkg.data.enums@.len()
    }

    /// The same enum, in the next state.
    fn advance<T: EnumState>(self) -> (r: EnumBuilder<T>)
        ensures
            r.id == self.id,
    {
        EnumBuilder { id: self.id, state: PhantomData }
    }

    /// Replaces the data of this builder's enum, which keeps the package well formed
    /// as long as the name, path, file and parent stay the same.
    fn replace_data(&self, pkg: &mut Package, data: EnumData)
        requires
            old(pkg).wf(),
            self.valid_in(old(pkg)),
            data.name == self.data_in(old(pkg)).name,
            data.import_path == self.data_in(old(pkg)).import_path,
            data.file_id == self.data_in(old(pkg)).file_id,
            data.parent_message == self.data_in(old(pkg)).parent_message,
        ensures
            final(pkg).wf(),
            enum_replaced(*old(pkg), *final(pkg), self.id as int, data),
    {
        let ghost before = pkg.data;
        pkg.data.enums.set(self.id, data);
        proof {
            assert forall|f: int| 0 <= f < pkg.data.files@.len() implies #[trigger] pkg.data.file_wf(f) by {
                assert(before.file_wf(f));
            }
            assert forall|m: int| 0 <= m < pkg.data.messages@.len() implies #[trigger] pkg.data.message_wf(m) by {
                assert(before.message_wf(m));
            }
            assert forall|e: int| 0 <= e < pkg.data.enums@.len() implies #[trigger] pkg.data.enum_wf(e) by {
                assert(before.enum_wf(e));
            }
        }
    }

    /// Returns the import path for this enum
    pub fn get_import_path(&self, pkg: &Package) -> (r: Arc<ImportedItemPath>)
        requires
            self.valid_in(pkg),
        ensures
            r == self.data_in(pkg).import_path,
    {
        share(&pkg.data.enums[self.id].import_path)
    }

    /// Returns the field type that refers to this enum
    pub fn get_type(&self, pkg: &Package) -> (r: FieldType)
        requires
            self.valid_in(pkg),
        ensures
            r == FieldType::Enum(self.data_in(pkg).import_path),
    {
        FieldType::Enum(self.get_import_path(pkg))
    }

    /// Returns the name of the file containing this enum
    pub fn get_file(&self, pkg: &Package) -> (r: Arc<String>)
        requires
            pkg.wf(),
            self.valid_in(pkg),
        ensures
            r == pkg.data.files@[self.data_in(pkg).file_id as int].name,
            r@ == self.data_in(pkg).import_path.file@,
    {
        proof {
            assert(pkg.data.enum_wf(self.id as int));
        }
        let file_id = pkg.data.enums[self.id].file_id;
        share(&pkg.data.files[file_id].name)
    }

    /// Returns the full name of this enum
    pub fn get_full_name(&self, pkg: &Package) -> (r: Arc<String>)
        requires
            self.valid_in(pkg),
        ensures
            r == self.data_in(pkg).import_path.full_name,
    {
        share(&pkg.data.enums[self.id].import_path.full_name)
    }

    /// Returns the name of the package containing this enum
    pub fn get_package(&self, pkg: &Package) -> (r: Arc<String>)
        ensures
            r == pkg.data.name,
    {
        share(&pkg.data.name)
    }

    /// Returns the full name of this enum, with the package prefix included
    pub fn get_full_name_with_package(&self, pkg: &Package) -> (r: Arc<String>)
        requires
            self.valid_in(pkg),
        ensures
            r == self.data_in(pkg).import_path.full_name_with_package,
    {
        share(&pkg.data.enums[self.id].import_path.full_name_with_package)
    }

    /// Sets the variants for this enum.
    pub fn variants(self, pkg: &mut Package, variants: Vec<(i32, EnumVariant)>) -> (r: EnumBuilder<SetVariants<S>>)
        where
            S::Variants: IsUnset,
        requires
            old(pkg).wf(),
            self.valid_in(old(pkg)),
        ensures
            final(pkg).wf(),
            r.id == self.id,
            enum_replaced(*old(pkg), *final(pkg), self.id as int,
                EnumData { variants: Arc::new(variants), ..self.data_in(old(pkg)) }),
    {
        let old_data = pkg.data.enums[self.id].clone();
        let data = EnumData { variants: Arc::new(variants), ..old_data };
        self.replace_data(pkg, data);
        self.advance()
    }

    /// Sets the options for this enum.
    pub fn options(self, pkg: &mut Package, options: Vec<ProtoOption>) -> (r: EnumBuilder<SetOptions<S>>)
        where
            S::Options: IsUnset,
        requires
            old(pkg).wf(),
            self.valid_in(old(pkg)),
        ensures
            final(pkg).wf(),
            r.id == self.id,
            enum_replaced(*old(pkg), *final(pkg), self.id as int,
                EnumData { options: Arc::new(options), ..self.data_in(old(pkg)) }),
    {
        let old_data = pkg.data.enums[self.id].clone();
        let data = EnumData { options: Arc::new(options), ..old_data };
        self.replace_data(pkg, data);
        self.advance()
    }

    /// Sets the reserved names for this enum.
    pub fn reserved_names(self, pkg: &mut Package, names: Vec<String>) -> (r: EnumBuilder<SetReservedNames<S>>)
        where
            S::ReservedNames: IsUnset,
        requires
            old(pkg).wf(),
            self.valid_in(old(pkg)),
        ensures
            final(pkg).wf(),
            r.id == self.id,
            enum_replaced(*old(pkg), *final(pkg), self.id as int,
                EnumData { reserved_names: Arc::new(names), ..self.data_in(old(pkg)) }),
    {
        let old_data = pkg.data.enums[self.id].clone();
        let data = EnumData { reserved_names: Arc::new(names), ..old_data };
        self.replace_data(pkg, data);
        self.advance()
    }

    /// Sets the reserved numbers for this enum
    pub fn reserved_numbers(self, pkg: &mut Package, numbers: Vec<i32>) -> (r: EnumBuilder<SetReservedNumbers<S>>)
        where
            S::ReservedNumbers: IsUnset,
        requires
            old(pkg).wf(),
            self.valid_in(old(pkg)),
        ensures
            final(pkg).wf(),
            r.id == self.id,
            enum_replaced(*old(pkg), *final(pkg), self.id as int,
                EnumData { reserved_numbers: Arc::new(numbers), ..self.data_in(old(pkg)) }),
    {
        let old_data = pkg.data.enums[self.id].clone();
        let data = EnumData { reserved_numbers: Arc::new(numbers), ..old_data };
        self.replace_data(pkg, data);
        self.advance()
    }

    /// Sets the reserved ranges for this enum.
    /// Just like in protobuf, ranges are considered to be inclusive.
    pub fn reserved_ranges(self, pkg: &mut Package, ranges: Vec<Range<i32>>) -> (r: EnumBuilder<SetReservedRanges<S>>)
        where
            S::ReservedRanges: IsUnset,
        requires
            old(pkg).wf(),
            self.valid_in(old(pkg)),
        ensures
            final(pkg).wf(),
            r.id == self.id,
            enum_replaced(*old(pkg), *final(pkg), self.id as int,
                EnumData { reserved_ranges: Arc::new(ranges), ..self.data_in(old(pkg)) }),
    {
        let old_data = pkg.data.enums[self.id].clone();
        let data = EnumData { reserved_ranges: Arc::new(ranges), ..old_data };
        self.replace_data(pkg, data);
        self.advance()
    }
}

} // verus!
