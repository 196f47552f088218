//! The templates that describe each `.proto` file to write: the data of a file,
//! of its messages and of its enums, gathered from the package and put in order.

use vstd::prelude::*;
use std::sync::Arc;

use convert_case::{Case, Casing};

use crate::enums::{EnumBuilder, EnumData, EnumState, EnumVariant};
use crate::extensions::ExtensionData;
use crate::fields::FieldData;
use crate::files::{offer_import, FileBuilder};
use crate::messages::{MessageBuilder, MessageState};
use crate::oneofs::OneofData;
use crate::options::ProtoOption;
use crate::packages::{imports_after_all, law_offered_imports_distinct, law_offered_imports_exclude_self, law_offered_imports_set, Package, PackageData};
use crate::services::ServiceData;
use crate::sorting::{is_stable_sort, sort_by_tag};
use crate::text::{distinct_texts, push_char, share, texts};
use crate::{IsSet, Range};

verus! {

/// The name that `convert_case` gives to `s` in upper snake case, such as
/// `MY_ENUM` for `my_enum` or `MyEnum`.
pub uninterp spec fn upper_snake_case(s: Seq<char>) -> Seq<char>;

/// `Casing::to_case` of `convert_case`, with `Case::UpperSnake`: the result is
/// the name that `upper_snake_case` gives to the text of `s`, which depends on
/// that text alone.
#[verifier::external_body]
fn to_upper_snake_case(s: &str) -> (r: String)
    ensures
        r@ == upper_snake_case(s@),
{
    s.to_case(Case::UpperSnake)
}

/// The struct containing all of the processed data for a protobuf enum template
#[derive(Debug)]
pub struct EnumTemplate {
    pub name: Arc<String>,
    pub variants: Vec<(i32, EnumVariant)>,
    pub reserved_numbers: Arc<Vec<i32>>,
    pub reserved_ranges: Arc<Vec<Range<i32>>>,
    pub reserved_names: Arc<Vec<String>>,
    pub options: Arc<Vec<ProtoOption>>,
}

/// The struct containing all of the processed data for a protobuf message template
#[derive(Debug)]
pub struct MessageTemplate {
    pub name: Arc<String>,
    pub package: Arc<String>,
    pub file: Arc<String>,
    pub fields: Arc<Vec<(u32, FieldData)>>,
    pub messages: Vec<MessageTemplate>,
    pub oneofs: Vec<OneofData>,
    pub enums: Vec<EnumTemplate>,
    pub options: Vec<ProtoOption>,
    pub reserved_names: Arc<Vec<String>>,
    pub reserved_numbers: Arc<Vec<u32>>,
    pub reserved_ranges: Arc<Vec<Range<u32>>>,
}

/// The struct containing all of the processed data for a protobuf file template
#[derive(Debug)]
pub struct FileTemplate {
    pub name: Arc<String>,
    pub imports: Vec<Arc<String>>,
    pub package: Arc<String>,
    pub messages: Vec<MessageTemplate>,
    pub enums: Vec<EnumTemplate>,
    pub services: Vec<ServiceData>,
    pub extensions: Vec<ExtensionData>,
    pub options: Vec<ProtoOption>,
}

/// `renamed` is the value `given` with its name prefixed by `prefix` and an underscore.
pub open spec fn variant_renamed(renamed: (i32, EnumVariant), given: (i32, EnumVariant), prefix: Seq<char>) -> bool {
    &&& renamed.0 == given.0
    &&& renamed.1.name@ == prefix + seq!['_'] + given.1.name@
    &&& renamed.1.options == given.1.options
}

/// Whether `t` is the template of the enum `data` when its values are prefixed by
/// `prefix`: the values sorted by number (values with the same number in the order
/// they were given), each one's name prefixed, the rest as stored.
pub open spec fn enum_template_with_prefix(t: EnumTemplate, data: EnumData, prefix: Seq<char>) -> bool {
    &&& t.name == data.name
    &&& t.reserved_numbers == data.reserved_numbers
    &&& t.reserved_ranges == data.reserved_ranges
    &&& t.reserved_names == data.reserved_names
    &&& t.options == data.options
    &&& exists|sorted: Seq<(i32, EnumVariant)>| {
        &&& is_stable_sort(sorted, data.variants@)
        &&& t.variants@.len() == sorted.len()
        &&& forall|i: int| 0 <= i < sorted.len() ==> variant_renamed(#[trigger] t.variants@[i], sorted[i], prefix)
    }
}

/// Whether `t` is the template of the enum `data`: its values are prefixed by the
/// enum's name in upper snake case.
pub open spec fn enum_template_of(t: EnumTemplate, data: EnumData) -> bool {
    enum_template_with_prefix(t, data, upper_snake_case(data.name@))
}

impl EnumTemplate {
    /// Builds the template of the enum `data`, its values named with `prefix`, an
    /// underscore, and their own name.
    pub fn with_prefix(data: &EnumData, prefix: &str) -> (r: EnumTemplate)
        ensures
            enum_template_with_prefix(r, *data, prefix@),
    {
        let variants: &Vec<(i32, EnumVariant)> = &*data.variants;
        let mut copy: Vec<(i32, EnumVariant)> = Vec::new();
        let mut i: usize = 0;
        while i < variants.len()
            invariant
                i <= variants@.len(),
                copy@ == variants@.take(i as int),
            decreases variants@.len() - i,
        {
            copy.push((variants[i].0, variants[i].1.clone()));
            proof {
                assert(copy@ =~= variants@.take(i + 1));
            }
            i = i + 1;
        }
        proof {
            assert(copy@ =~= variants@);
        }
        let sorted = sort_by_tag(copy);
        let ghost sorted_seq = sorted@;
        let mut rest = sorted;
        let mut renamed: Vec<(i32, EnumVariant)> = Vec::new();
        while rest.len() > 0
            invariant
                renamed@.len() + rest@.len() == sorted_seq.len(),
                rest@ == sorted_seq.skip(renamed@.len() as int),
                forall|j: int| 0 <= j < renamed@.len() ==> variant_renamed(#[trigger] renamed@[j], sorted_seq[j], prefix@),
            decreases rest@.len(),
        {
            let ghost k = renamed@.len() as int;
            let (tag, variant) = rest.remove(0);
            assert(sorted_seq[k] == (tag, variant));
            let mut name = String::from_str(prefix);
            push_char(&mut name, '_');
            name.append(variant.name.as_str());
            let ghost given = variant;
            assert(name@ == prefix@ + seq!['_'] + given.name@);
            renamed.push((tag, EnumVariant { name: Arc::new(name), options: variant.options }));
            proof {
                assert(variant_renamed(renamed@[k], sorted_seq[k], prefix@));
                assert(rest@ =~= sorted_seq.skip(k + 1));
            }
        }
        EnumTemplate {
            name: share(&data.name),
            variants: renamed,
            reserved_numbers: share(&data.reserved_numbers),
            reserved_ranges: share(&data.reserved_ranges),
            reserved_names: share(&data.reserved_names),
            options: share(&data.options),
        }
    }

    /// Builds the template of the enum `data`: its values sorted by number and
    /// prefixed by the enum's name in upper snake case.
    pub fn from_data(data: &EnumData) -> (r: EnumTemplate)
        ensures
            enum_template_of(r, *data),
    {
        let prefix = to_upper_snake_case(data.name.as_str());
        EnumTemplate::with_prefix(data, prefix.as_str())
    }
}

/// Whether `t` is the template of the message at `id` in `pkg`: the message's own
/// data as stored, with the templates of its nested messages and enums.
pub open spec fn message_template_of(t: MessageTemplate, pkg: PackageData, id: int) -> bool
    decreases pkg.messages@.len() - id,
{
    &&& 0 <= id < pkg.messages@.len()
    &&& t.name == pkg.messages@[id].name
    &&& t.package == pkg.messages@[id].import_path.package
    &&& t.file == pkg.messages@[id].import_path.file
    &&& t.fields == pkg.messages@[id].fields
    &&& t.oneofs@ == pkg.messages@[id].oneofs@
    &&& t.options@ == pkg.messages@[id].options@
    &&& t.reserved_names == pkg.messages@[id].reserved_names
    &&& t.reserved_numbers == pkg.messages@[id].reserved_numbers
    &&& t.reserved_ranges == pkg.messages@[id].reserved_ranges
    &&& t.enums@.len() == pkg.messages@[id].enums@.len()
    &&& forall|i: int| 0 <= i < t.enums@.len() ==> enum_template_of(
        #[trigger] t.enums@[i],
        pkg.enums@[pkg.messages@[id].enums@[i] as int],
    )
    &&& t.messages@.len() == pkg.messages@[id].messages@.len()
    &&& forall|i: int| 0 <= i < t.messages@.len() ==> {
        &&& id < pkg.messages@[id].messages@[i] < pkg.messages@.len()
        &&& message_template_of(#[trigger] t.messages@[i], pkg, pkg.messages@[id].messages@[i] as int)
    }
}

/// The imports of the messages whose ids are `ids`, one message after the other.
pub open spec fn imports_of_messages(pkg: PackageData, ids: Seq<usize>) -> Seq<Arc<String>>
    decreases ids.len(),
{
    if ids.len() == 0 {
        Seq::empty()
    } else {
        imports_of_messages(pkg, ids.drop_last()) + pkg.messages@[ids.last() as int].imports@
    }
}

/// Whether `t` is the template of the file at `f` in `pkg`: its imports are those
/// of the file, then those of its messages, leaving out the file itself and the
/// files imported already; then the templates of its messages and enums, its
/// services, extensions and options.
pub open spec fn file_template_of(t: FileTemplate, pkg: PackageData, f: int) -> bool {
    let file = pkg.files@[f];
    &&& 0 <= f < pkg.files@.len()
    &&& t.name == file.name
    &&& t.package == pkg.name
    &&& t.imports@ == imports_after_all(file.imports@, file.name@, imports_of_messages(pkg, file.messages@))
    &&& t.messages@.len() == file.messages@.len()
    &&& forall|i: int| 0 <= i < t.messages@.len() ==> message_template_of(
        #[trigger] t.messages@[i],
        pkg,
        file.messages@[i] as int,
    )
    &&& t.enums@.len() == file.enums@.len()
    &&& forall|i: int| 0 <= i < t.enums@.len() ==> enum_template_of(
        #[trigger] t.enums@[i],
        pkg.enums@[file.enums@[i] as int],
    )
    &&& t.services@.len() == file.services@.len()
    &&& forall|i: int| 0 <= i < t.services@.len() ==> #[trigger] t.services@[i] == pkg.services@[file.services@[i] as int]
    &&& t.extensions@ == file.extensions@
    &&& t.options@ == file.options@
}

/// Shares every string of `v` in a new list.
fn share_all(v: &Vec<Arc<String>>) -> (r: Vec<Arc<String>>)
    ensures
        r@ == v@,
{
    let mut out: Vec<Arc<String>> = Vec::new();
    let mut i: usize = 0;
    while i < v.len()
        invariant
            i <= v@.len(),
            out@ == v@.take(i as int),
        decreases v@.len() - i,
    {
        out.push(share(&v[i]));
        proof {
            assert(out@ =~= v@.take(i + 1));
        }
        i = i + 1;
    }
    proof {
        assert(out@ =~= v@);
    }
    out
}

/// The templates of the enums whose ids are `ids`.
fn enum_templates(pkg: &PackageData, ids: &Vec<usize>) -> (r: Vec<EnumTemplate>)
    requires
        forall|i: int| 0 <= i < ids@.len() ==> (#[trigger] ids@[i]) < pkg.enums@.len(),
    ensures
        r@.len() == ids@.len(),
        forall|i: int| 0 <= i < r@.len() ==> enum_template_of(#[trigger] r@[i], pkg.enums@[ids@[i] as int]),
{
    let mut out: Vec<EnumTemplate> = Vec::new();
    let mut i: usize = 0;
    while i < ids.len()
        invariant
            i <= ids@.len(),
            out@.len() == i,
            forall|j: int| 0 <= j < ids@.len() ==> (#[trigger] ids@[j]) < pkg.enums@.len(),
            forall|j: int| 0 <= j < i ==> enum_template_of(#[trigger] out@[j], pkg.enums@[ids@[j] as int]),
        decreases ids@.len() - i,
    {
        let id = ids[i];
        out.push(EnumTemplate::from_data(&pkg.enums[id]));
        i = i + 1;
    }
    out
}

/// Builds the template of the message at `id`, and those of the messages nested in it.
pub fn build_message_template(pkg: &PackageData, id: usize) -> (r: MessageTemplate)
    requires
        pkg.wf(),
        id < pkg.messages@.len(),
    ensures
        message_template_of(r, *pkg, id as int),
    decreases pkg.messages@.len() - id,
{
    proof {
        assert(pkg.message_wf(id as int));
    }
    let msg = &pkg.messages[id];
    let mut nested: Vec<MessageTemplate> = Vec::new();
    let mut i: usize = 0;
    while i < msg.messages.len()
        invariant
            pkg.wf(),
            id < pkg.messages@.len(),
            *msg == pkg.messages@[id as int],
            pkg.message_wf(id as int),
            i <= msg.messages@.len(),
            nested@.len() == i,
            forall|j: int| 0 <= j < i ==> {
                &&& id < msg.messages@[j] < pkg.messages@.len()
                &&& message_template_of(#[trigger] nested@[j], *pkg, msg.messages@[j] as int)
            },
        decreases msg.messages@.len() - i,
    {
        let child = msg.messages[i];
        assert(id < child < pkg.messages@.len());
        nested.push(build_message_template(pkg, child));
        i = i + 1;
    }
    let enums = enum_templates(pkg, &msg.enums);
    let r = MessageTemplate {
        name: share(&msg.name),
        package: share(&msg.import_path.package),
        file: share(&msg.import_path.file),
        fields: share(&msg.fields),
        messages: nested,
        oneofs: msg.oneofs.clone(),
        enums,
        options: msg.options.clone(),
        reserved_names: share(&msg.reserved_names),
        reserved_numbers: share(&msg.reserved_numbers),
        reserved_ranges: share(&msg.reserved_ranges),
    };
    proof {
        assert(r.oneofs@ =~= msg.oneofs@);
        assert(r.options@ =~= msg.options@);
    }
    r
}

/// Builds the template of the file at `f`.
pub fn build_file_template(pkg: &PackageData, f: usize) -> (r: FileTemplate)
    requires
        pkg.wf(),
        f < pkg.files@.len(),
    ensures
        file_template_of(r, *pkg, f as int),
{
    proof {
        assert(pkg.file_wf(f as int));
    }
    let file = &pkg.files[f];
    let mut imports = share_all(&file.imports);
    let mut messages: Vec<MessageTemplate> = Vec::new();
    let mut i: usize = 0;
    while i < file.messages.len()
        invariant
            pkg.wf(),
            f < pkg.files@.len(),
            *file == pkg.files@[f as int],
            pkg.file_wf(f as int),
            i <= file.messages@.len(),
            messages@.len() == i,
            distinct_texts(imports@),
            imports@ == imports_after_all(file.imports@, file.name@, imports_of_messages(*pkg, file.messages@.take(i as int))),
            forall|j: int| 0 <= j < i ==> message_template_of(#[trigger] messages@[j], *pkg, file.messages@[j] as int),
        decreases file.messages@.len() - i,
    {
        let id = file.messages[i];
        let ghost before = imports@;
        let msg_imports = &pkg.messages[id].imports;
        let mut k: usize = 0;
        while k < msg_imports.len()
            invariant
                k <= msg_imports@.len(),
                distinct_texts(imports@),
                imports@ == imports_after_all(before, file.name@, msg_imports@.take(k as int)),
            decreases msg_imports@.len() - k,
        {
            offer_import(&mut imports, file.name.as_str(), &msg_imports[k]);
            proof {
                assert(msg_imports@.take(k + 1).drop_last() =~= msg_imports@.take(k as int));
            }
            k = k + 1;
        }
        proof {
            assert(msg_imports@.take(k as int) =~= msg_imports@);
            assert(file.messages@.take(i + 1).drop_last() =~= file.messages@.take(i as int));
            crate::packages::lemma_imports_after_all_concat(file.imports@, file.name@,
                imports_of_messages(*pkg, file.messages@.take(i as int)), msg_imports@);
        }
        messages.push(build_message_template(pkg, id));
        i = i + 1;
    }
    proof {
        assert(file.messages@.take(i as int) =~= file.messages@);
    }
    let enums = enum_templates(pkg, &file.enums);
    let mut services: Vec<ServiceData> = Vec::new();
    let mut j: usize = 0;
    while j < file.services.len()
        invariant
            pkg.file_wf(f as int),
            *file == pkg.files@[f as int],
            j <= file.services@.len(),
            services@.len() == j,
            forall|x: int| 0 <= x < j ==> #[trigger] services@[x] == pkg.services@[file.services@[x] as int],
        decreases file.services@.len() - j,
    {
        let sid = file.services[j];
        services.push(pkg.services[sid].clone());
        j = j + 1;
    }
    let r = FileTemplate {
        name: share(&file.name),
        imports,
        package: share(&pkg.name),
        messages,
        enums,
        services,
        extensions: file.extensions.clone(),
        options: file.options.clone(),
    };
    proof {
        assert(r.extensions@ =~= file.extensions@);
        assert(r.options@ =~= file.options@);
    }
    r
}

impl Package {
    /// Builds the template of every file of this package, in the order the files
    /// were created.
    pub fn build_templates(&self) -> (r: Vec<FileTemplate>)
        requires
            self.wf(),
        ensures
            r@.len() == self.data.files@.len(),
            forall|f: int| 0 <= f < r@.len() ==> file_template_of(#[trigger] r@[f], self.data, f),
    {
        let mut out: Vec<FileTemplate> = Vec::new();
        let mut f: usize = 0;
        while f < self.data.files.len()
            invariant
                self.wf(),
                f <= self.data.files@.len(),
                out@.len() == f,
                forall|g: int| 0 <= g < f ==> file_template_of(#[trigger] out@[g], self.data, g),
            decreases self.data.files@.len() - f,
        {
            out.push(build_file_template(&self.data, f));
            f = f + 1;
        }
        out
    }
}

impl FileBuilder {
    /// Builds the full template for this file, and returns it.
    pub fn get_data(&self, pkg: &Package) -> (r: FileTemplate)
        requires
            pkg.wf(),
            self.valid_in(pkg),
        ensures
            file_template_of(r, pkg.data, self.id as int),
    {
        build_file_template(&pkg.data, self.id)
    }
}

impl<S: MessageState> MessageBuilder<S> {
    /// Builds the full template for this message and returns it, once its fields are set.
    pub fn get_data(self, pkg: &Package) -> (r: MessageTemplate)
        where
            S::Fields: IsSet,
        requires
            pkg.wf(),
            self.valid_in(pkg),
        ensures
            message_template_of(r, pkg.data, self.id as int),
    {
        build_message_template(&pkg.data, self.id)
    }
}

impl<S: EnumState> EnumBuilder<S> {
    /// Builds the full template for this enum and returns it.
    pub fn get_data(&self, pkg: &Package) -> (r: EnumTemplate)
        requires
            self.valid_in(pkg),
        ensures
            enum_template_of(r, self.data_in(pkg)),
    {
        EnumTemplate::from_data(&pkg.data.enums[self.id])
    }
}

} // verus!

verus! {

/// The imports of a file's template never repeat; as a set, they are the file's
/// own imports and those of its messages, the file itself left out; and the file
/// never imports itself unless its own imports named it.
pub proof fn law_template_imports(t: FileTemplate, pkg: PackageData, f: int)
    requires
        pkg.wf(),
        file_template_of(t, pkg, f),
    ensures
        distinct_texts(t.imports@),
        texts(t.imports@).to_set() == texts(pkg.files@[f].imports@).to_set().union(
            texts(imports_of_messages(pkg, pkg.files@[f].messages@)).to_set().remove(pkg.files@[f].name@),
        ),
        !texts(pkg.files@[f].imports@).contains(pkg.files@[f].name@)
            ==> !texts(t.imports@).contains(pkg.files@[f].name@),
{
    let file = pkg.files@[f];
    assert(pkg.file_wf(f));
    law_offered_imports_distinct(file.imports@, file.name@, imports_of_messages(pkg, file.messages@));
    law_offered_imports_set(file.imports@, file.name@, imports_of_messages(pkg, file.messages@));
    if !texts(file.imports@).contains(file.name@) {
        law_offered_imports_exclude_self(file.imports@, file.name@, imports_of_messages(pkg, file.messages@));
    }
}

} // verus!
