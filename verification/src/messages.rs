//! Protobuf messages: their data, and the builder that fills it in.

use vstd::prelude::*;
use std::sync::Arc;

use std::marker::PhantomData;

use crate::common::{validate_proto_file, validate_proto_file_name, CEL_RULES_OPTION};
use crate::enums::{EnumBuilder, EnumData};
use crate::field_type::{FieldType, ImportedItemPath};
use crate::fields::{build_all, built_fields, data_of_fields, imports_of_fields, FieldBuilder, FieldData};
use crate::oneofs::{Oneof, OneofData};
use crate::options::{OptionValue, ProtoOption, ValueModel};
use crate::packages::{
    files_with_imports, imports_after_all, lemma_file_imports_set_trans, lemma_imports_after_all_concat,
    qualified, file_imports_set, Package, PackageData,
};
use crate::sorting::is_stable_sort;
use crate::text::{dotted, share};
use crate::validators::cel::{rules_model, rules_value, CelRule};
use crate::sealed::Sealed;
use crate::{Empty, IsUnset, Range, SetMember, Unset};

pub mod members;

verus! {

/// The data of a protobuf message.
#[derive(Debug)]
pub struct MessageData {
    pub name: Arc<String>,
    pub import_path: Arc<ImportedItemPath>,
    pub fields: Arc<Vec<(u32, FieldData)>>,
    pub oneofs: Vec<OneofData>,
    pub reserved_numbers: Arc<Vec<u32>>,
    pub reserved_ranges: Arc<Vec<Range<u32>>>,
    pub reserved_names: Arc<Vec<String>>,
    pub options: Vec<ProtoOption>,
    pub enums: Vec<usize>,
    pub messages: Vec<usize>,
    pub imports: Vec<Arc<String>>,
    pub file_id: usize,
    pub parent_message: Option<usize>,
}

impl MessageData {
    /// Whether this is a message just created with the given name, full name,
    /// file and parent, in the package `pkg`: nothing is defined in it yet.
    pub open spec fn is_new(&self, name: Seq<char>, full_name: Seq<char>, pkg: PackageData, file_id: int, parent: Option<usize>) -> bool {
        &&& self.name@ == name
        &&& self.import_path.full_name@ == full_name
        &&& self.import_path.full_name_with_package@ == qualified(pkg.name@, full_name)
        &&& self.import_path.file@ == pkg.files@[file_id].name@
        &&& self.import_path.package@ == pkg.name@
        &&& self.file_id == file_id
        &&& self.parent_message == parent
        &&& self.fields@.len() == 0
        &&& self.oneofs@.len() == 0
        &&& self.reserved_numbers@.len() == 0
        &&& self.reserved_ranges@.len() == 0
        &&& self.reserved_names@.len() == 0
        &&& self.options@.len() == 0
        &&& self.enums@.len() == 0
        &&& self.messages@.len() == 0
        &&& self.imports@.len() == 0
    }

    /// A message with nothing in it yet.
    pub fn new_empty(name: Arc<String>, import_path: Arc<ImportedItemPath>, file_id: usize, parent_message: Option<usize>) -> (r: MessageData)
        ensures
            r.name == name,
            r.import_path == import_path,
            r.file_id == file_id,
            r.parent_message == parent_message,
            r.fields@.len() == 0,
            r.oneofs@.len() == 0,
            r.reserved_numbers@.len() == 0,
            r.reserved_ranges@.len() == 0,
            r.reserved_names@.len() == 0,
            r.options@.len() == 0,
            r.enums@.len() == 0,
            r.messages@.len() == 0,
            r.imports@.len() == 0,
    {
        MessageData {
            name,
            import_path,
            fields: Arc::new(Vec::new()),
            oneofs: Vec::new(),
            reserved_numbers: Arc::new(Vec::new()),
            reserved_ranges: Arc::new(Vec::new()),
            reserved_names: Arc::new(Vec::new()),
            options: Vec::new(),
            enums: Vec::new(),
            messages: Vec::new(),
            imports: Vec::new(),
            file_id,
            parent_message,
        }
    }
}

/// The typestate of a [`MessageBuilder`]: which of its members were set.
pub trait MessageState: Sized {
    type Fields;
    type ReservedNumbers;
    type ReservedRanges;
    type ReservedNames;
    type Oneofs;
    const SEALED: Sealed;
}

/// The state after the fields were set.
pub struct SetFields<S: MessageState = Empty>(PhantomData<S>);

/// The state after the reserved numbers were set.
pub struct SetReservedNumbers<S: MessageState = Empty>(PhantomData<S>);

/// The state after the reserved ranges were set.
pub struct SetReservedRanges<S: MessageState = Empty>(PhantomData<S>);

/// The state after the reserved names were set.
pub struct SetReservedNames<S: MessageState = Empty>(PhantomData<S>);

/// The state after the oneofs were added.
pub struct SetOneofs<S: MessageState = Empty>(PhantomData<S>);

impl MessageState for Empty {
    type Fields = Unset<members::fields>;
    type ReservedNumbers = Unset<members::reserved_numbers>;
    type ReservedRanges = Unset<members::reserved_ranges>;
    type ReservedNames = Unset<members::reserved_names>;
    type Oneofs = Unset<members::oneofs>;
    const SEALED: Sealed = Sealed;
}

impl<S: MessageState> MessageState for SetFields<S> {
    type Fields = SetMember<members::fields>;
    type ReservedNumbers = S::ReservedNumbers;
    type ReservedRanges = S::ReservedRanges;
    type ReservedNames = S::ReservedNames;
    type Oneofs = S::Oneofs;
    const SEALED: Sealed = Sealed;
}

impl<S: MessageState> MessageState for SetReservedNumbers<S> {
    type Fields = S::Fields;
    type ReservedNumbers = SetMember<members::reserved_numbers>;
    type ReservedRanges = S::ReservedRanges;
    type ReservedNames = S::ReservedNames;
    type Oneofs = S::Oneofs;
    const SEALED: Sealed = Sealed;
}

impl<S: MessageState> MessageState for SetReservedRanges<S> {
    type Fields = S::Fields;
    type ReservedNumbers = S::ReservedNumbers;
    type ReservedRanges = SetMember<members::reserved_ranges>;
    type ReservedNames = S::ReservedNames;
    type Oneofs = S::Oneofs;
    const SEALED: Sealed = Sealed;
}

impl<S: MessageState> MessageState for SetReservedNames<S> {
    type Fields = S::Fields;
    type ReservedNumbers = S::ReservedNumbers;
    type ReservedRanges = S::ReservedRanges;
    type ReservedNames = SetMember<members::reserved_names>;
    type Oneofs = S::Oneofs;
    const SEALED: Sealed = Sealed;
}

impl<S: MessageState> MessageState for SetOneofs<S> {
    type Fields = S::Fields;
    type ReservedNumbers = S::ReservedNumbers;
    type ReservedRanges = S::ReservedRanges;
    type ReservedNames = S::ReservedNames;
    type Oneofs = SetMember<members::oneofs>;
    const SEALED: Sealed = Sealed;
}

/// The builder for a protobuf Message: the index of the message in its package,
/// and the members already set.
#[derive(Debug)]
pub struct MessageBuilder<S: MessageState = Empty> {
    pub id: usize,
    pub state: PhantomData<S>,
}

/// `after` is `before` with the message at `id` replaced by `data`, all else alike.
pub open spec fn message_replaced(before: Package, after: Package, id: int, data: MessageData) -> bool {
    &&& after.path == before.path
    &&& after.data.name == before.data.name
    &&& after.data.files == before.data.files
    &&& after.data.enums == before.data.enums
    &&& after.data.services == before.data.services
    &&& after.data.messages@ == before.data.messages@.update(id, data)
}

/// `after` is `before` with the message at `id` replaced by `data` and the imports
/// of the file at `f` replaced by `imports`, all else alike.
pub open spec fn message_and_imports_replaced(before: Package, after: Package, id: int, data: MessageData, f: int, imports: Seq<Arc<String>>) -> bool {
    &&& after.path == before.path
    &&& after.data.name == before.data.name
    &&& after.data.enums == before.data.enums
    &&& after.data.services == before.data.services
    &&& after.data.messages@ == before.data.messages@.update(id, data)
    &&& files_with_imports(before.data.files@, after.data.files@, f, imports)
}

/// What a message keeps of a oneof: its name, its options, and its fields sorted by number.
pub open spec fn oneof_kept(kept: OneofData, oneof: Oneof) -> bool {
    &&& kept.name == oneof.name
    &&& *kept.options == oneof.options
    &&& is_stable_sort(kept.fields@, data_of_fields(oneof.fields@))
}

/// The imports that oneofs bring along: for each oneof, its own imports, then
/// those of its fields.
pub open spec fn imports_of_oneofs(oneofs: Seq<Oneof>) -> Seq<Arc<String>>
    decreases oneofs.len(),
{
    if oneofs.len() == 0 {
        Seq::empty()
    } else {
        imports_of_oneofs(oneofs.drop_last()) + oneofs.last().imports@ + imports_of_fields(oneofs.last().fields@)
    }
}

/// The option that holds the CEL rules of a message: a message with a `cel` list.
pub open spec fn cel_option_model(rules: Seq<CelRule>) -> ValueModel {
    ValueModel::Message(seq![("cel"@, ValueModel::List(rules_model(rules)))])
}

impl<S: MessageState> MessageBuilder<S> {
    /// Whether this builder refers to a message of `pkg`.
    pub open spec fn valid_in(&self, pkg: &Package) -> bool {
        self.id < pkg.data.messages@.len()
    }

    /// The data of this builder's message in `pkg`.
    pub open spec fn data_in(&self, pkg: &Package) -> MessageData {
        pkg.data.messages@[self.id as int]
    }

    /// The same message, in the next state.
    fn advance<T: MessageState>(self) -> (r: MessageBuilder<T>)
        ensures
            r.id == self.id,
    {
        MessageBuilder { id: self.id, state: PhantomData }
    }

    /// Takes this builder's message out of `pkg`, leaving an empty message of the same name in its place.
    fn take_data(&self, pkg: &mut Package) -> (r: MessageData)
        requires
            self.valid_in(old(pkg)),
        ensures
            r == self.data_in(old(pkg)),
            final(pkg).path == old(pkg).path,
            final(pkg).data.name == old(pkg).data.name,
            final(pkg).data.files == old(pkg).data.files,
            final(pkg).data.enums == old(pkg).data.enums,
            final(pkg).data.services == old(pkg).data.services,
            final(pkg).data.messages@.len() == old(pkg).data.messages@.len(),
            forall|i: int| 0 <= i < final(pkg).data.messages@.len() && i != self.id ==>
                final(pkg).data.messages@[i] == old(pkg).data.messages@[i],
    {
        let old_data = &pkg.data.messages[self.id];
        let stand_in = MessageData::new_empty(
            share(&old_data.name),
            share(&old_data.import_path),
            old_data.file_id,
            old_data.parent_message,
        );
        let mut taken = stand_in;
        std::mem::swap(&mut taken, &mut pkg.data.messages[self.id]);
        taken
    }

    /// Puts `data` back as this builder's message, which keeps the package well
    /// formed as long as its name, path, file and parent are those that were
    /// there, and its nested items exist.
    fn put_data(&self, pkg: &mut Package, data: MessageData, Ghost(wf_pkg): Ghost<Package>)
        requires
            wf_pkg.wf(),
            self.valid_in(&wf_pkg),
            old(pkg).path == wf_pkg.path,
            old(pkg).data.name == wf_pkg.data.name,
            old(pkg).data.enums == wf_pkg.data.enums,
            old(pkg).data.services == wf_pkg.data.services,
            old(pkg).data.files == wf_pkg.data.files,
            old(pkg).data.messages@.len() == wf_pkg.data.messages@.len(),
            forall|i: int| 0 <= i < old(pkg).data.messages@.len() && i != self.id ==>
                old(pkg).data.messages@[i] == wf_pkg.data.messages@[i],
            data.name == self.data_in(&wf_pkg).name,
            data.import_path == self.data_in(&wf_pkg).import_path,
            data.file_id == self.data_in(&wf_pkg).file_id,
            data.parent_message == self.data_in(&wf_pkg).parent_message,
            data.messages == self.data_in(&wf_pkg).messages,
            data.enums == self.data_in(&wf_pkg).enums,
        ensures
            final(pkg).wf(),
            final(pkg).path == old(pkg).path,
            final(pkg).data.name == old(pkg).data.name,
            final(pkg).data.files == old(pkg).data.files,
            final(pkg).data.enums == old(pkg).data.enums,
            final(pkg).data.services == old(pkg).data.services,
            final(pkg).data.messages@ == wf_pkg.data.messages@.update(self.id as int, data),
    {
        pkg.data.messages.set(self.id, data);
        proof {
            assert(pkg.data.messages@ =~= wf_pkg.data.messages@.update(self.id as int, data));
            assert forall|m: int| 0 <= m < pkg.data.messages@.len() implies #[trigger] pkg.data.message_wf(m) by {
                assert(wf_pkg.data.message_wf(m));
            }
            assert forall|e: int| 0 <= e < pkg.data.enums@.len() implies #[trigger] pkg.data.enum_wf(e) by {
                assert(wf_pkg.data.enum_wf(e));
            }
            assert forall|f: int| 0 <= f < pkg.data.files@.len() implies #[trigger] pkg.data.file_wf(f) by {
                assert(wf_pkg.data.file_wf(f));
            }
            assert(pkg.data.wf());
        }
    }

    /// Returns the import path for this message
    pub fn get_import_path(&self, pkg: &Package) -> (r: Arc<ImportedItemPath>)
        requires
            self.valid_in(pkg),
        ensures
            r == self.data_in(pkg).import_path,
    {
        share(&pkg.data.messages[self.id].import_path)
    }

    /// Returns the field type that refers to this message
    pub fn get_type(&self, pkg: &Package) -> (r: FieldType)
        requires
            self.valid_in(pkg),
        ensures
            r == FieldType::Message(self.data_in(pkg).import_path),
    {
        FieldType::Message(self.get_import_path(pkg))
    }

    /// Returns the index of this message in its package
    pub fn get_id(&self) -> (r: usize)
        ensures
            r == self.id,
    {
        self.id
    }

    /// Returns the name of this message, without the names of the messages it is nested in
    pub fn get_name(&self, pkg: &Package) -> (r: Arc<String>)
        requires
            self.valid_in(pkg),
        ensures
            r == self.data_in(pkg).name,
    {
        share(&pkg.data.messages[self.id].name)
    }

    /// Returns the full name for this message
    pub fn get_full_name(&self, pkg: &Package) -> (r: Arc<String>)
        requires
            self.valid_in(pkg),
        ensures
            r == self.data_in(pkg).import_path.full_name,
    {
        share(&pkg.data.messages[self.id].import_path.full_name)
    }

    /// Returns the full name for this message with the package prefix included
    pub fn get_full_name_with_package(&self, pkg: &Package) -> (r: Arc<String>)
        requires
            self.valid_in(pkg),
        ensures
            r == self.data_in(pkg).import_path.full_name_with_package,
    {
        share(&pkg.data.messages[self.id].import_path.full_name_with_package)
    }

    /// Returns the name of this message's package
    pub fn get_package(&self, pkg: &Package) -> (r: Arc<String>)
        requires
            self.valid_in(pkg),
        ensures
            r == self.data_in(pkg).import_path.package,
    {
        share(&pkg.data.messages[self.id].import_path.package)
    }

    /// Returns the name of this message's file
    pub fn get_file(&self, pkg: &Package) -> (r: Arc<String>)
        requires
            pkg.wf(),
            self.valid_in(pkg),
        ensures
            r == pkg.data.files@[self.data_in(pkg).file_id as int].name,
            r@ == self.data_in(pkg).import_path.file@,
    {
        proof {
            assert(pkg.data.message_wf(self.id as int));
        }
        let file_id = pkg.data.messages[self.id].file_id;
        share(&pkg.data.files[file_id].name)
    }

    /// The file of this builder's message, which exists in a well formed package.
    fn file_id(&self, pkg: &Package) -> (r: usize)
        requires
            pkg.wf(),
            self.valid_in(pkg),
        ensures
            r == self.data_in(pkg).file_id,
            r < pkg.data.files@.len(),
    {
        proof {
            assert(pkg.data.message_wf(self.id as int));
        }
        pkg.data.messages[self.id].file_id
    }

    /// Creates a new message belonging to this message, and returns its builder
    pub fn new_message(&self, pkg: &mut Package, name: &str) -> (r: MessageBuilder)
        requires
            old(pkg).wf(),
            self.valid_in(old(pkg)),
        ensures
            final(pkg).wf(),
            r.id == old(pkg).data.messages@.len(),
            final(pkg).path == old(pkg).path,
            final(pkg).data.name == old(pkg).data.name,
            final(pkg).data.files == old(pkg).data.files,
            final(pkg).data.enums == old(pkg).data.enums,
            final(pkg).data.services == old(pkg).data.services,
            final(pkg).data.messages@.len() == old(pkg).data.messages@.len() + 1,
            forall|i: int| 0 <= i < old(pkg).data.messages@.len() && i != self.id ==>
                final(pkg).data.messages@[i] == old(pkg).data.messages@[i],
            self.data_in(final(pkg)) == (MessageData { messages: self.data_in(final(pkg)).messages, ..self.data_in(old(pkg)) }),
            self.data_in(final(pkg)).messages@ == self.data_in(old(pkg)).messages@.push(r.id),
            final(pkg).data.messages@.last().is_new(
                name@,
                qualified(self.data_in(old(pkg)).import_path.full_name@, name@),
                old(pkg).data,
                self.data_in(old(pkg)).file_id as int,
                Some(self.id),
            ),
    {
        let ghost before = pkg.data;
        proof {
            assert(before.message_wf(self.id as int));
        }
        let child_id = pkg.data.messages.len();
        let file_id = pkg.data.messages[self.id].file_id;
        let parent_path = share(&pkg.data.messages[self.id].import_path);
        let full_name = dotted(parent_path.full_name.as_str(), name);
        let path = ImportedItemPath {
            full_name_with_package: Arc::new(dotted(parent_path.package.as_str(), full_name.as_str())),
            full_name: Arc::new(full_name),
            file: share(&pkg.data.files[file_id].name),
            package: share(&parent_path.package),
        };
        let data = MessageData::new_empty(Arc::new(String::from_str(name)), Arc::new(path), file_id, Some(self.id));
        pkg.data.messages[self.id].messages.push(child_id);
        pkg.data.messages.push(data);
        proof {
            assert forall|g: int| 0 <= g < pkg.data.files@.len() implies #[trigger] pkg.data.file_wf(g) by {
                assert(before.file_wf(g));
            }
            assert forall|m: int| 0 <= m < pkg.data.messages@.len() implies #[trigger] pkg.data.message_wf(m) by {
                if m < child_id {
                    assert(before.message_wf(m));
                }
            }
            assert forall|e: int| 0 <= e < pkg.data.enums@.len() implies #[trigger] pkg.data.enum_wf(e) by {
                assert(before.enum_wf(e));
            }
        }
        MessageBuilder { id: child_id, state: PhantomData }
    }

    /// Creates a new enum belonging to this message, and returns its builder
    pub fn new_enum(&self, pkg: &mut Package, name: &str) -> (r: EnumBuilder)
        requires
            old(pkg).wf(),
            self.valid_in(old(pkg)),
        ensures
            final(pkg).wf(),
            r.id == old(pkg).data.enums@.len(),
            final(pkg).path == old(pkg).path,
            final(pkg).data.name == old(pkg).data.name,
            final(pkg).data.files == old(pkg).data.files,
            final(pkg).data.services == old(pkg).data.services,
            final(pkg).data.messages@ == old(pkg).data.messages@.update(
                self.id as int,
                MessageData { enums: self.data_in(final(pkg)).enums, ..self.data_in(old(pkg)) },
            ),
            self.data_in(final(pkg)).enums@ == self.data_in(old(pkg)).enums@.push(r.id),
            final(pkg).data.enums@.len() == old(pkg).data.enums@.len() + 1,
            final(pkg).data.enums@.drop_last() == old(pkg).data.enums@,
            final(pkg).data.enums@.last().is_new(
                name@,
                qualified(self.data_in(old(pkg)).import_path.full_name@, name@),
                old(pkg).data,
                self.data_in(old(pkg)).file_id as int,
                Some(self.id),
            ),
    {
        let ghost before = pkg.data;
        proof {
            assert(before.message_wf(self.id as int));
        }
        let enum_id = pkg.data.enums.len();
        let file_id = pkg.data.messages[self.id].file_id;
        let parent_path = share(&pkg.data.messages[self.id].import_path);
        let full_name = dotted(parent_path.full_name.as_str(), name);
        let path = ImportedItemPath {
            full_name_with_package: Arc::new(dotted(parent_path.package.as_str(), full_name.as_str())),
            full_name: Arc::new(full_name),
            file: share(&pkg.data.files[file_id].name),
            package: share(&parent_path.package),
        };
        let data = EnumData::new_empty(Arc::new(String::from_str(name)), Arc::new(path), file_id, Some(self.id));
        pkg.data.messages[self.id].enums.push(enum_id);
        pkg.data.enums.push(data);
        proof {
            assert(pkg.data.messages@ =~= before.messages@.update(
                self.id as int,
                MessageData { enums: pkg.data.messages@[self.id as int].enums, ..before.messages@[self.id as int] },
            ));
            assert forall|g: int| 0 <= g < pkg.data.files@.len() implies #[trigger] pkg.data.file_wf(g) by {
                assert(before.file_wf(g));
            }
            assert forall|m: int| 0 <= m < pkg.data.messages@.len() implies #[trigger] pkg.data.message_wf(m) by {
                assert(before.message_wf(m));
            }
            assert forall|e: int| 0 <= e < pkg.data.enums@.len() implies #[trigger] pkg.data.enum_wf(e) by {
                if e < enum_id {
                    assert(before.enum_wf(e));
                }
            }
            assert(pkg.data.enums@.drop_last() =~= before.enums@);
        }
        EnumBuilder { id: enum_id, state: PhantomData }
    }

    /// Adds a list of imports to the file containing this message.
    pub fn add_imports(&self, pkg: &mut Package, imports: Vec<Arc<String>>)
        requires
            old(pkg).wf(),
            self.valid_in(old(pkg)),
        ensures
            final(pkg).wf(),
            final(pkg).path == old(pkg).path,
            file_imports_set(old(pkg).data, final(pkg).data, self.data_in(old(pkg)).file_id as int,
                imports_after_all(
                    old(pkg).data.files@[self.data_in(old(pkg)).file_id as int].imports@,
                    old(pkg).data.files@[self.data_in(old(pkg)).file_id as int].name@,
                    imports@,
                )),
    {
        let file_id = self.file_id(pkg);
        pkg.data.add_file_imports(file_id, &imports);
    }

    /// Sets the fields for this message: each field is built, its imports go to the
    /// message's file, and the fields are kept sorted by number.
    pub fn fields(self, pkg: &mut Package, fields: Vec<(u32, FieldBuilder)>) -> (r: MessageBuilder<SetFields<S>>)
        where
            S::Fields: IsUnset,
        requires
            old(pkg).wf(),
            self.valid_in(old(pkg)),
            forall|i: int| 0 <= i < fields@.len() ==> (#[trigger] fields@[i]).1.is_complete(),
        ensures
            final(pkg).wf(),
            r.id == self.id,
            message_and_imports_replaced(*old(pkg), *final(pkg), self.id as int,
                MessageData { fields: self.data_in(final(pkg)).fields, ..self.data_in(old(pkg)) },
                self.data_in(old(pkg)).file_id as int,
                imports_after_all(
                    old(pkg).data.files@[self.data_in(old(pkg)).file_id as int].imports@,
                    old(pkg).data.files@[self.data_in(old(pkg)).file_id as int].name@,
                    imports_of_fields(built_fields(fields@)),
                )),
            is_stable_sort(self.data_in(final(pkg)).fields@, data_of_fields(built_fields(fields@))),
    {
        let built = build_all(fields);
        let file_id = self.file_id(pkg);
        let sorted = pkg.data.take_fields(file_id, built);
        let ghost mid = *pkg;
        let mut data = self.take_data(pkg);
        data.fields = Arc::new(sorted);
        self.put_data(pkg, data, Ghost(mid));
        self.advance()
    }

    /// Adds the given oneofs to this message: for each oneof, its imports and
    /// those of its fields go to the message's file, and its fields are kept
    /// sorted by number.
    pub fn add_oneofs(self, pkg: &mut Package, oneofs: Vec<Oneof>) -> (r: MessageBuilder<SetOneofs<S>>)
        where
            S::Oneofs: IsUnset,
        requires
            old(pkg).wf(),
            self.valid_in(old(pkg)),
        ensures
            final(pkg).wf(),
            r.id == self.id,
            message_and_imports_replaced(*old(pkg), *final(pkg), self.id as int,
                MessageData { oneofs: self.data_in(final(pkg)).oneofs, ..self.data_in(old(pkg)) },
                self.data_in(old(pkg)).file_id as int,
                imports_after_all(
                    old(pkg).data.files@[self.data_in(old(pkg)).file_id as int].imports@,
                    old(pkg).data.files@[self.data_in(old(pkg)).file_id as int].name@,
                    imports_of_oneofs(oneofs@),
                )),
            self.data_in(final(pkg)).oneofs@.len() == self.data_in(old(pkg)).oneofs@.len() + oneofs@.len(),
            self.data_in(final(pkg)).oneofs@.take(self.data_in(old(pkg)).oneofs@.len() as int)
                == self.data_in(old(pkg)).oneofs@,
            forall|i: int| 0 <= i < oneofs@.len() ==> oneof_kept(
                #[trigger] self.data_in(final(pkg)).oneofs@[self.data_in(old(pkg)).oneofs@.len() + i],
                oneofs@[i],
            ),
    {
        let file_id = self.file_id(pkg);
        let mut kept = take_oneofs(&mut pkg.data, file_id, oneofs);
        let ghost mid = *pkg;
        let mut data = self.take_data(pkg);
        let ghost old_oneofs = data.oneofs@;
        data.oneofs.append(&mut kept);
        proof {
            assert(data.oneofs@.take(old_oneofs.len() as int) =~= old_oneofs);
        }
        self.put_data(pkg, data, Ghost(mid));
        self.advance()
    }

    /// Adds the given options to the message's list of options
    pub fn add_options(self, pkg: &mut Package, options: Vec<ProtoOption>) -> (r: MessageBuilder<S>)
        requires
            old(pkg).wf(),
            self.valid_in(old(pkg)),
        ensures
            final(pkg).wf(),
            r.id == self.id,
            message_replaced(*old(pkg), *final(pkg), self.id as int,
                MessageData { options: self.data_in(final(pkg)).options, ..self.data_in(old(pkg)) }),
            self.data_in(final(pkg)).options@ == self.data_in(old(pkg)).options@ + options@,
    {
        let ghost before = *pkg;
        let mut data = self.take_data(pkg);
        let mut more = options;
        data.options.append(&mut more);
        self.put_data(pkg, data, Ghost(before));
        self.advance()
    }

    /// Sets the Cel rules for this message, to be used with protovalidate: the
    /// message imports validate.proto, and gets an option that lists the rules.
    pub fn cel_rules(self, pkg: &mut Package, rules: Vec<CelRule>) -> (r: MessageBuilder<S>)
        requires
            old(pkg).wf(),
            self.valid_in(old(pkg)),
        ensures
            final(pkg).wf(),
            r.id == self.id,
            message_replaced(*old(pkg), *final(pkg), self.id as int,
                MessageData {
                    imports: self.data_in(final(pkg)).imports,
                    options: self.data_in(final(pkg)).options,
                    ..self.data_in(old(pkg))
                }),
            self.data_in(final(pkg)).imports@.drop_last() == self.data_in(old(pkg)).imports@,
            self.data_in(final(pkg)).imports@.len() == self.data_in(old(pkg)).imports@.len() + 1,
            self.data_in(final(pkg)).imports@.last()@ == validate_proto_file(),
            self.data_in(final(pkg)).options@.drop_last() == self.data_in(old(pkg)).options@,
            self.data_in(final(pkg)).options@.len() == self.data_in(old(pkg)).options@.len() + 1,
            self.data_in(final(pkg)).options@.last().name@ == CEL_RULES_OPTION@,
            self.data_in(final(pkg)).options@.last().value.model() == cel_option_model(rules@),
    {
        let ghost before = *pkg;
        let list = rules_value(&rules);
        let entries: Vec<(Arc<String>, OptionValue)> = vec![(Arc::new(String::from_str("cel")), list)];
        proof {
            OptionValue::lemma_entry_models(entries@, 1);
            assert(OptionValue::entry_models(entries@, 1) =~= seq![("cel"@, ValueModel::List(rules_model(rules@)))]);
        }
        let option = ProtoOption { name: CEL_RULES_OPTION, value: Arc::new(OptionValue::Message(Arc::new(entries))) };
        let mut data = self.take_data(pkg);
        data.imports.push(Arc::new(validate_proto_file_name()));
        data.options.push(option);
        proof {
            assert(data.imports@.drop_last() =~= before.data.messages@[self.id as int].imports@);
            assert(data.options@.drop_last() =~= before.data.messages@[self.id as int].options@);
        }
        self.put_data(pkg, data, Ghost(before));
        self.advance()
    }

    /// Sets the reserved names for this message
    pub fn reserved_names(self, pkg: &mut Package, names: Vec<String>) -> (r: MessageBuilder<SetReservedNames<S>>)
        where
            S::ReservedNames: IsUnset,
        requires
            old(pkg).wf(),
            self.valid_in(old(pkg)),
        ensures
            final(pkg).wf(),
            r.id == self.id,
            message_replaced(*old(pkg), *final(pkg), self.id as int,
                MessageData { reserved_names: Arc::new(names), ..self.data_in(old(pkg)) }),
    {
        let ghost before = *pkg;
        let mut data = self.take_data(pkg);
        data.reserved_names = Arc::new(names);
        self.put_data(pkg, data, Ghost(before));
        self.advance()
    }

    /// Sets the reserved numbers for this message
    pub fn reserved_numbers(self, pkg: &mut Package, numbers: Vec<u32>) -> (r: MessageBuilder<SetReservedNumbers<S>>)
        where
            S::ReservedNumbers: IsUnset,
        requires
            old(pkg).wf(),
            self.valid_in(old(pkg)),
        ensures
            final(pkg).wf(),
            r.id == self.id,
            message_replaced(*old(pkg), *final(pkg), self.id as int,
                MessageData { reserved_numbers: Arc::new(numbers), ..self.data_in(old(pkg)) }),
    {
        let ghost before = *pkg;
        let mut data = self.take_data(pkg);
        data.reserved_numbers = Arc::new(numbers);
        self.put_data(pkg, data, Ghost(before));
        self.advance()
    }

    /// Sets the reserved ranges for this message.
    /// As in protobuf, the ranges are considered to be inclusive.
    pub fn reserved_ranges(self, pkg: &mut Package, ranges: Vec<Range<u32>>) -> (r: MessageBuilder<SetReservedRanges<S>>)
        where
            S::ReservedRanges: IsUnset,
        requires
            old(pkg).wf(),
            self.valid_in(old(pkg)),
        ensures
            final(pkg).wf(),
            r.id == self.id,
            message_replaced(*old(pkg), *final(pkg), self.id as int,
                MessageData { reserved_ranges: Arc::new(ranges), ..self.data_in(old(pkg)) }),
    {
        let ghost before = *pkg;
        let mut data = self.take_data(pkg);
        data.reserved_ranges = Arc::new(ranges);
        self.put_data(pkg, data, Ghost(before));
        self.advance()
    }
}

/// Takes oneofs in for the file at `f`: for each oneof, its imports and those of
/// its fields are offered to the file, and what is kept of it comes back.
fn take_oneofs(pkg: &mut PackageData, f: usize, oneofs: Vec<Oneof>) -> (r: Vec<OneofData>)
    requires
        old(pkg).wf(),
        f < old(pkg).files@.len(),
    ensures
        final(pkg).wf(),
        file_imports_set(*old(pkg), *final(pkg), f as int,
            imports_after_all(old(pkg).files@[f as int].imports@, old(pkg).files@[f as int].name@,
                imports_of_oneofs(oneofs@))),
        r@.len() == oneofs@.len(),
        forall|i: int| 0 <= i < r@.len() ==> oneof_kept(#[trigger] r@[i], oneofs@[i]),
{
    let ghost before = *pkg;
    let ghost orig = oneofs@;
    let ghost start = before.files@[f as int].imports@;
    let ghost file_name = before.files@[f as int].name@;
    let mut rest = oneofs;
    let mut out: Vec<OneofData> = Vec::new();
    while rest.len() > 0
        invariant
            out@.len() + rest@.len() == orig.len(),
            rest@ == orig.skip(out@.len() as int),
            forall|i: int| 0 <= i < out@.len() ==> oneof_kept(#[trigger] out@[i], orig[i]),
            pkg.wf(),
            f < pkg.files@.len(),
            f < before.files@.len(),
            start == before.files@[f as int].imports@,
            file_name == before.files@[f as int].name@,
            file_imports_set(before, *pkg, f as int,
                imports_after_all(start, file_name, imports_of_oneofs(orig.take(out@.len() as int)))),
        decreases rest@.len(),
    {
        let ghost k = out@.len() as int;
        let oneof = rest.remove(0);
        assert(orig[k] == oneof);
        let Oneof { imports, options, name, fields } = oneof;
        let ghost field_list = fields@;
        let ghost prior = imports_after_all(start, file_name, imports_of_oneofs(orig.take(k)));
        let ghost mid1 = *pkg;
        pkg.add_file_imports(f, &imports);
        let ghost mid2 = *pkg;
        let sorted = pkg.take_fields(f, fields);
        out.push(OneofData { name, fields: Arc::new(sorted), options: Arc::new(options) });
        proof {
            lemma_file_imports_set_trans(before, mid1, mid2, f as int, prior,
                imports_after_all(prior, file_name, imports@));
            lemma_file_imports_set_trans(before, mid2, *pkg, f as int,
                imports_after_all(prior, file_name, imports@),
                imports_after_all(imports_after_all(prior, file_name, imports@), file_name, imports_of_fields(field_list)));
            lemma_imports_after_all_concat(start, file_name, imports_of_oneofs(orig.take(k)), imports@);
            lemma_imports_after_all_concat(start, file_name, imports_of_oneofs(orig.take(k)) + imports@, imports_of_fields(field_list));
            assert(orig.take(k + 1).drop_last() =~= orig.take(k));
            assert(orig.take(k + 1).last() == orig[k]);
            assert(imports_of_oneofs(orig.take(k + 1)) == imports_of_oneofs(orig.take(k)) + imports@ + imports_of_fields(field_list));
            assert(rest@ =~= orig.skip(k + 1));
        }
    }
    proof {
        assert(orig.take(orig.len() as int) =~= orig);
    }
    out
}

} // verus!
