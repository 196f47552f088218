//! Protobuf files: what each one holds, and the builder that adds items to it.

use vstd::prelude::*;
use std::sync::Arc;

use std::marker::PhantomData;

use crate::enums::{EnumBuilder, EnumData};
use crate::common::{descriptor_proto_file, descriptor_proto_file_name};
use crate::extensions::{Extension, ExtensionData};
use crate::fields::{data_of_fields, imports_of_fields};
use crate::sorting::is_stable_sort;
use crate::field_type::ImportedItemPath;
use crate::messages::{MessageBuilder, MessageData};
use crate::options::ProtoOption;
use crate::packages::{file_imports_set, imports_after_all, lemma_file_imports_set_trans, Package};
use crate::services::{ServiceBuilder, ServiceData};
use crate::text::{contains_text, distinct_texts, dotted, share, str_eq, texts};

verus! {

/// The data of a protobuf file: its name, the ids of the items defined at its top
/// level, the files it imports, its extensions and its options.
#[derive(Debug)]
pub struct FileData {
    pub name: Arc<String>,
    pub messages: Vec<usize>,
    pub enums: Vec<usize>,
    pub imports: Vec<Arc<String>>,
    pub services: Vec<usize>,
    pub extensions: Vec<ExtensionData>,
    pub options: Vec<ProtoOption>,
}

/// The imports of a file after `import` was offered to it: unchanged when it is the
/// file itself or is imported already, `import` added at the end otherwise.
pub open spec fn imports_after(imports: Seq<Arc<String>>, file_name: Seq<char>, import: Arc<String>) -> Seq<Arc<String>> {
    if import@ == file_name || texts(imports).contains(import@) {
        imports
    } else {
        imports.push(import)
    }
}

/// The imports of a file after `import` was added to them, unless a file of that
/// name is imported already.
pub open spec fn import_added(imports: Seq<Arc<String>>, import: Arc<String>) -> Seq<Arc<String>> {
    if texts(imports).contains(import@) {
        imports
    } else {
        imports.push(import)
    }
}

/// Offers `import` to the imports of the file named `file_name`: it is added
/// unless it is that file or is imported already.
pub fn offer_import(imports: &mut Vec<Arc<String>>, file_name: &str, import: &Arc<String>)
    requires
        distinct_texts(old(imports)@),
    ensures
        distinct_texts(final(imports)@),
        final(imports)@ == imports_after(old(imports)@, file_name@, *import),
{
    if !str_eq(import.as_str(), file_name) && !contains_text(imports, import.as_str()) {
        imports.push(share(import));
        proof {
            assert forall|i: int, j: int| 0 <= i < j < imports@.len() implies imports@[i]@ != imports@[j]@ by {
                if j == imports@.len() - 1 {
                    assert(texts(old(imports)@)[i] == old(imports)@[i]@);
                }
            }
        }
    }
}

impl FileData {
    /// Whether this file holds nothing yet.
    pub open spec fn is_empty_file(&self) -> bool {
        &&& self.messages@.len() == 0
        &&& self.enums@.len() == 0
        &&& self.imports@.len() == 0
        &&& self.services@.len() == 0
        &&& self.extensions@.len() == 0
        &&& self.options@.len() == 0
    }

    /// A new file with the given name and nothing in it.
    pub fn empty(name: Arc<String>) -> (r: FileData)
        ensures
            r.name == name,
            r.is_empty_file(),
    {
        FileData {
            name,
            messages: Vec::new(),
            enums: Vec::new(),
            imports: Vec::new(),
            services: Vec::new(),
            extensions: Vec::new(),
            options: Vec::new(),
        }
    }

    /// Adds `import` to this file's imports, unless it is this very file or is
    /// imported already.
    pub fn conditionally_add_import(&mut self, import: &Arc<String>)
        requires
            distinct_texts(old(self).imports@),
        ensures
            distinct_texts(final(self).imports@),
            final(self).imports@ == imports_after(old(self).imports@, old(self).name@, *import),
            final(self).name == old(self).name,
            final(self).messages == old(self).messages,
            final(self).enums == old(self).enums,
            final(self).services == old(self).services,
            final(self).extensions == old(self).extensions,
            final(self).options == old(self).options,
    {
        if !str_eq(import.as_str(), self.name.as_str()) && !contains_text(&self.imports, import.as_str()) {
            self.imports.push(share(import));
            proof {
                assert forall|i: int, j: int| 0 <= i < j < self.imports@.len() implies self.imports@[i]@ != self.imports@[j]@ by {
                    if j == self.imports@.len() - 1 {
                        assert(texts(old(self).imports@)[i] == old(self).imports@[i]@);
                    }
                }
            }
        }
    }
}

impl FileData {
    /// Adds `import` to this file's imports, unless it is imported already.
    pub fn insert_import(&mut self, import: &Arc<String>)
        requires
            distinct_texts(old(self).imports@),
        ensures
            distinct_texts(final(self).imports@),
            final(self).imports@ == import_added(old(self).imports@, *import),
            final(self).name == old(self).name,
            final(self).messages == old(self).messages,
            final(self).enums == old(self).enums,
            final(self).services == old(self).services,
            final(self).extensions == old(self).extensions,
            final(self).options == old(self).options,
    {
        if !contains_text(&self.imports, import.as_str()) {
            self.imports.push(share(import));
            proof {
                assert forall|i: int, j: int| 0 <= i < j < self.imports@.len() implies self.imports@[i]@ != self.imports@[j]@ by {
                    if j == self.imports@.len() - 1 {
                        assert(texts(old(self).imports@)[i] == old(self).imports@[i]@);
                    }
                }
            }
        }
    }
}

/// `after` holds what `before` holds, but for the ids of the items defined in it.
pub open spec fn same_file_contents(before: FileData, after: FileData) -> bool {
    &&& after.name == before.name
    &&& after.imports == before.imports
    &&& after.extensions == before.extensions
    &&& after.options == before.options
}

/// The files of `after` are those of `before`, but for the one at `f`.
pub open spec fn other_files_same(before: Seq<FileData>, after: Seq<FileData>, f: int) -> bool {
    &&& after.len() == before.len()
    &&& forall|i: int| 0 <= i < after.len() && i != f ==> after[i] == before[i]
}

/// The builder for a protobuf file: the index of the file in its package.
#[derive(Debug, Clone, Copy)]
pub struct FileBuilder {
    pub id: usize,
}

impl FileBuilder {
    /// Whether this builder refers to a file of `pkg`.
    pub open spec fn valid_in(&self, pkg: &Package) -> bool {
        self.id < pkg.data.files@.len()
    }

    /// The data of this builder's file in `pkg`.
    pub open spec fn data_in(&self, pkg: &Package) -> FileData {
        pkg.data.files@[self.id as int]
    }

    /// Returns this file's name
    pub fn get_name(&self, pkg: &Package) -> (r: Arc<String>)
        requires
            self.valid_in(pkg),
        ensures
            r == self.data_in(pkg).name,
    {
        share(&pkg.data.files[self.id].name)
    }

    /// Creates a new message belonging to this file and returns its builder.
    /// To define a message inside another message, use [`MessageBuilder::new_message`] instead.
    pub fn new_message(&self, pkg: &mut Package, name: &str) -> (r: MessageBuilder)
        requires
            old(pkg).wf(),
            self.valid_in(old(pkg)),
        ensures
            final(pkg).wf(),
            r.id == old(pkg).data.messages@.len(),
            final(pkg).path == old(pkg).path,
            final(pkg).data.name == old(pkg).data.name,
            final(pkg).data.enums == old(pkg).data.enums,
            final(pkg).data.services == old(pkg).data.services,
            other_files_same(old(pkg).data.files@, final(pkg).data.files@, self.id as int),
            same_file_contents(self.data_in(old(pkg)), self.data_in(final(pkg))),
            self.data_in(final(pkg)).messages@ == self.data_in(old(pkg)).messages@.push(r.id),
            self.data_in(final(pkg)).enums == self.data_in(old(pkg)).enums,
            self.data_in(final(pkg)).services == self.data_in(old(pkg)).services,
            final(pkg).data.messages@.len() == old(pkg).data.messages@.len() + 1,
            final(pkg).data.messages@.drop_last() == old(pkg).data.messages@,
            final(pkg).data.messages@.last().is_new(name@, name@, old(pkg).data, self.id as int, None),
    {
        let ghost before = pkg.data;
        let msg_id = pkg.data.messages.len();
        let package = share(&pkg.data.name);
        let path = ImportedItemPath {
            full_name: Arc::new(String::from_str(name)),
            full_name_with_package: Arc::new(dotted(package.as_str(), name)),
            file: share(&pkg.data.files[self.id].name),
            package,
        };
        let data = MessageData::new_empty(Arc::new(String::from_str(name)), Arc::new(path), self.id, None);
        pkg.data.files[self.id].messages.push(msg_id);
        pkg.data.messages.push(data);
        proof {
            assert forall|g: int| 0 <= g < pkg.data.files@.len() implies #[trigger] pkg.data.file_wf(g) by {
                assert(before.file_wf(g));
            }
            assert forall|m: int| 0 <= m < pkg.data.messages@.len() implies #[trigger] pkg.data.message_wf(m) by {
                if m < msg_id {
                    assert(before.message_wf(m));
                }
            }
            assert forall|e: int| 0 <= e < pkg.data.enums@.len() implies #[trigger] pkg.data.enum_wf(e) by {
                assert(before.enum_wf(e));
            }
            assert(pkg.data.messages@.drop_last() =~= before.messages@);
        }
        MessageBuilder { id: msg_id, state: PhantomData }
    }

    /// Creates a new enum belonging to this file and returns its builder.
    /// To define an enum inside a message, use [`MessageBuilder::new_enum`] instead.
    pub fn new_enum(&self, pkg: &mut Package, name: &str) -> (r: EnumBuilder)
        requires
            old(pkg).wf(),
            self.valid_in(old(pkg)),
        ensures
            final(pkg).wf(),
            r.id == old(pkg).data.enums@.len(),
            final(pkg).path == old(pkg).path,
            final(pkg).data.name == old(pkg).data.name,
            final(pkg).data.messages == old(pkg).data.messages,
            final(pkg).data.services == old(pkg).data.services,
            other_files_same(old(pkg).data.files@, final(pkg).data.files@, self.id as int),
            same_file_contents(self.data_in(old(pkg)), self.data_in(final(pkg))),
            self.data_in(final(pkg)).enums@ == self.data_in(old(pkg)).enums@.push(r.id),
            self.data_in(final(pkg)).messages == self.data_in(old(pkg)).messages,
            self.data_in(final(pkg)).services == self.data_in(old(pkg)).services,
            final(pkg).data.enums@.len() == old(pkg).data.enums@.len() + 1,
            final(pkg).data.enums@.drop_last() == old(pkg).data.enums@,
            final(pkg).data.enums@.last().is_new(name@, name@, old(pkg).data, self.id as int, None),
    {
        let ghost before = pkg.data;
        let enum_id = pkg.data.enums.len();
        let package = share(&pkg.data.name);
        let path = ImportedItemPath {
            full_name: Arc::new(String::from_str(name)),
            full_name_with_package: Arc::new(dotted(package.as_str(), name)),
            file: share(&pkg.data.files[self.id].name),
            package,
        };
        let data = EnumData::new_empty(Arc::new(String::from_str(name)), Arc::new(path), self.id, None);
        pkg.data.files[self.id].enums.push(enum_id);
        pkg.data.enums.push(data);
        proof {
            assert forall|g: int| 0 <= g < pkg.data.files@.len() implies #[trigger] pkg.data.file_wf(g) by {
                assert(before.file_wf(g));
            }
            assert forall|m: int| 0 <= m < pkg.data.messages@.len() implies #[trigger] pkg.data.message_wf(m) by {
                assert(before.message_wf(m));
            }
            assert forall|e: int| 0 <= e < pkg.data.enums@.len() implies #[trigger] pkg.data.enum_wf(e) by {
                if e < enum_id {
                    assert(before.enum_wf(e));
                }
            }
            assert(pkg.data.enums@.drop_last() =~= before.enums@);
        }
        EnumBuilder { id: enum_id, state: PhantomData }
    }

    /// Creates a new service belonging to this file and returns its builder.
    pub fn new_service(&self, pkg: &mut Package, name: &str) -> (r: ServiceBuilder)
        requires
            old(pkg).wf(),
            self.valid_in(old(pkg)),
        ensures
            final(pkg).wf(),
            r.id == old(pkg).data.services@.len(),
            r.file_id == self.id,
            final(pkg).path == old(pkg).path,
            final(pkg).data.name == old(pkg).data.name,
            final(pkg).data.messages == old(pkg).data.messages,
            final(pkg).data.enums == old(pkg).data.enums,
            other_files_same(old(pkg).data.files@, final(pkg).data.files@, self.id as int),
            same_file_contents(self.data_in(old(pkg)), self.data_in(final(pkg))),
            self.data_in(final(pkg)).services@ == self.data_in(old(pkg)).services@.push(r.id),
            self.data_in(final(pkg)).messages == self.data_in(old(pkg)).messages,
            self.data_in(final(pkg)).enums == self.data_in(old(pkg)).enums,
            final(pkg).data.services@.len() == old(pkg).data.services@.len() + 1,
            final(pkg).data.services@.drop_last() == old(pkg).data.services@,
            final(pkg).data.services@.last().name@ == name@,
            final(pkg).data.services@.last().handlers@.len() == 0,
            final(pkg).data.services@.last().options@.len() == 0,
    {
        let ghost before = pkg.data;
        let service_id = pkg.data.services.len();
        let data = ServiceData {
            name: Arc::new(String::from_str(name)),
            handlers: Arc::new(Vec::new()),
            options: Arc::new(Vec::new()),
        };
        pkg.data.files[self.id].services.push(service_id);
        pkg.data.services.push(data);
        proof {
            assert forall|g: int| 0 <= g < pkg.data.files@.len() implies #[trigger] pkg.data.file_wf(g) by {
                assert(before.file_wf(g));
            }
            assert forall|m: int| 0 <= m < pkg.data.messages@.len() implies #[trigger] pkg.data.message_wf(m) by {
                assert(before.message_wf(m));
            }
            assert forall|e: int| 0 <= e < pkg.data.enums@.len() implies #[trigger] pkg.data.enum_wf(e) by {
                assert(before.enum_wf(e));
            }
            assert(pkg.data.services@.drop_last() =~= before.services@);
        }
        ServiceBuilder { id: service_id, file_id: self.id, state: PhantomData }
    }

    /// Adds the given options to this file's options.
    pub fn add_options(&self, pkg: &mut Package, options: Vec<ProtoOption>)
        requires
            old(pkg).wf(),
            self.valid_in(old(pkg)),
        ensures
            final(pkg).wf(),
            final(pkg).path == old(pkg).path,
            final(pkg).data.name == old(pkg).data.name,
            final(pkg).data.messages == old(pkg).data.messages,
            final(pkg).data.enums == old(pkg).data.enums,
            final(pkg).data.services == old(pkg).data.services,
            other_files_same(old(pkg).data.files@, final(pkg).data.files@, self.id as int),
            self.data_in(final(pkg)).options@ == self.data_in(old(pkg)).options@ + options@,
            self.data_in(final(pkg)).name == self.data_in(old(pkg)).name,
            self.data_in(final(pkg)).imports == self.data_in(old(pkg)).imports,
            self.data_in(final(pkg)).extensions == self.data_in(old(pkg)).extensions,
            self.data_in(final(pkg)).messages == self.data_in(old(pkg)).messages,
            self.data_in(final(pkg)).enums == self.data_in(old(pkg)).enums,
            self.data_in(final(pkg)).services == self.data_in(old(pkg)).services,
    {
        let ghost before = pkg.data;
        let mut more = options;
        pkg.data.files[self.id].options.append(&mut more);
        proof {
            assert forall|g: int| 0 <= g < pkg.data.files@.len() implies #[trigger] pkg.data.file_wf(g) by {
                assert(before.file_wf(g));
            }
            assert forall|m: int| 0 <= m < pkg.data.messages@.len() implies #[trigger] pkg.data.message_wf(m) by {
                assert(before.message_wf(m));
            }
            assert forall|e: int| 0 <= e < pkg.data.enums@.len() implies #[trigger] pkg.data.enum_wf(e) by {
                assert(before.enum_wf(e));
            }
        }
    }

    /// Adds the given extension to this file: the file imports descriptor.proto,
    /// the imports of the extension's fields are offered to it, and the extension
    /// is kept with its fields sorted by number.
    pub fn add_extension(&self, pkg: &mut Package, extension: Extension)
        requires
            old(pkg).wf(),
            self.valid_in(old(pkg)),
        ensures
            final(pkg).wf(),
            final(pkg).path == old(pkg).path,
            final(pkg).data.name == old(pkg).data.name,
            final(pkg).data.messages == old(pkg).data.messages,
            final(pkg).data.enums == old(pkg).data.enums,
            final(pkg).data.services == old(pkg).data.services,
            other_files_same(old(pkg).data.files@, final(pkg).data.files@, self.id as int),
            self.data_in(final(pkg)).name == self.data_in(old(pkg)).name,
            self.data_in(final(pkg)).messages == self.data_in(old(pkg)).messages,
            self.data_in(final(pkg)).enums == self.data_in(old(pkg)).enums,
            self.data_in(final(pkg)).services == self.data_in(old(pkg)).services,
            self.data_in(final(pkg)).options == self.data_in(old(pkg)).options,
            exists|d: Arc<String>| d@ == descriptor_proto_file() && self.data_in(final(pkg)).imports@ == imports_after_all(
                import_added(self.data_in(old(pkg)).imports@, d),
                self.data_in(old(pkg)).name@,
                imports_of_fields(extension.fields@),
            ),
            self.data_in(final(pkg)).extensions@.len() == self.data_in(old(pkg)).extensions@.len() + 1,
            self.data_in(final(pkg)).extensions@.drop_last() == self.data_in(old(pkg)).extensions@,
            self.data_in(final(pkg)).extensions@.last().kind == extension.kind,
            is_stable_sort(self.data_in(final(pkg)).extensions@.last().fields@, data_of_fields(extension.fields@)),
    {
        let ghost before = pkg.data;
        let descriptor = Arc::new(descriptor_proto_file_name());
        proof {
            assert(before.file_wf(self.id as int));
        }
        pkg.data.files[self.id].insert_import(&descriptor);
        let ghost mid = pkg.data;
        proof {
            assert forall|g: int| 0 <= g < pkg.data.files@.len() implies #[trigger] pkg.data.file_wf(g) by {
                assert(before.file_wf(g));
            }
            assert forall|m: int| 0 <= m < pkg.data.messages@.len() implies #[trigger] pkg.data.message_wf(m) by {
                assert(before.message_wf(m));
            }
            assert forall|e: int| 0 <= e < pkg.data.enums@.len() implies #[trigger] pkg.data.enum_wf(e) by {
                assert(before.enum_wf(e));
            }
            assert(file_imports_set(before, mid, self.id as int, import_added(before.files@[self.id as int].imports@, descriptor)));
        }
        let Extension { kind, fields } = extension;
        let sorted = pkg.data.take_fields(self.id, fields);
        let ghost mid2 = pkg.data;
        pkg.data.files[self.id].extensions.push(ExtensionData { kind, fields: Arc::new(sorted) });
        proof {
            lemma_file_imports_set_trans(before, mid, mid2, self.id as int,
                import_added(before.files@[self.id as int].imports@, descriptor),
                imports_after_all(import_added(before.files@[self.id as int].imports@, descriptor),
                    before.files@[self.id as int].name@, imports_of_fields(fields@)));
            assert forall|g: int| 0 <= g < pkg.data.files@.len() implies #[trigger] pkg.data.file_wf(g) by {
                assert(mid2.file_wf(g));
            }
            assert forall|m: int| 0 <= m < pkg.data.messages@.len() implies #[trigger] pkg.data.message_wf(m) by {
                assert(mid2.message_wf(m));
            }
            assert forall|e: int| 0 <= e < pkg.data.enums@.len() implies #[trigger] pkg.data.enum_wf(e) by {
                assert(mid2.enum_wf(e));
            }
            assert(pkg.data.files@[self.id as int].extensions@.drop_last() =~= before.files@[self.id as int].extensions@);
        }
    }

    /// Adds the given imports to this file, leaving out this file itself and the
    /// files it imports already.
    pub fn add_imports(&self, pkg: &mut Package, imports: Vec<Arc<String>>)
        requires
            old(pkg).wf(),
            self.valid_in(old(pkg)),
        ensures
            final(pkg).wf(),
            final(pkg).path == old(pkg).path,
            crate::packages::file_imports_set(old(pkg).data, final(pkg).data, self.id as int,
                imports_after_all(self.data_in(old(pkg)).imports@, self.data_in(old(pkg)).name@, imports@)),
    {
        pkg.data.add_file_imports(self.id, &imports);
    }
}

} // verus!
