//! Protobuf packages: the arena that holds every file, message, enum and
//! service defined in a package, which the builders refer to by index.

use vstd::prelude::*;
use std::sync::Arc;

use crate::enums::EnumData;
use crate::fields::{data_of_fields, imports_of_fields, Field, FieldData};
use crate::files::{imports_after, FileBuilder, FileData};
use crate::sorting::{is_stable_sort, sort_by_tag};
use crate::messages::MessageData;
use crate::services::ServiceData;
use crate::text::{distinct_texts, dotted, texts, push_char, replace_char, replace_chars, share};

verus! {

/// `name` qualified by `prefix`, as protobuf writes it: `prefix.name`.
pub open spec fn qualified(prefix: Seq<char>, name: Seq<char>) -> Seq<char> {
    prefix + seq!['.'] + name
}

/// The data of a package: its name, and every item defined in it, each list
/// indexed by the ids that the builders hold.
#[derive(Debug)]
pub struct PackageData {
    pub name: Arc<String>,
    pub files: Vec<FileData>,
    pub messages: Vec<MessageData>,
    pub enums: Vec<EnumData>,
    pub services: Vec<ServiceData>,
}

impl PackageData {
    /// The file at index `f` refers only to items that exist, and imports no
    /// file twice.
    pub open spec fn file_wf(&self, f: int) -> bool {
        let file = self.files@[f];
        &&& forall|i: int|
            0 <= i < file.messages@.len() ==> (#[trigger] file.messages@[i]) < self.messages@.len()
        &&& forall|i: int| 0 <= i < file.enums@.len() ==> (#[trigger] file.enums@[i]) < self.enums@.len()
        &&& forall|i: int|
            0 <= i < file.services@.len() ==> (#[trigger] file.services@[i]) < self.services@.len()
        &&& distinct_texts(file.imports@)
    }

    /// The message at index `m` belongs to an existing file of this package, its
    /// full name is its parent's full name followed by its own (or its own alone at
    /// the top of a file), and its nested items exist, nested messages coming after it.
    pub open spec fn message_wf(&self, m: int) -> bool {
        let msg = self.messages@[m];
        let path = msg.import_path;
        &&& msg.file_id < self.files@.len()
        &&& path.package@ == self.name@
        &&& path.file@ == self.files@[msg.file_id as int].name@
        &&& path.full_name_with_package@ == qualified(self.name@, path.full_name@)
        &&& match msg.parent_message {
            None => path.full_name@ == msg.name@,
            Some(p) => {
                &&& p < m
                &&& self.messages@[p as int].file_id == msg.file_id
                &&& path.full_name@ == qualified(self.messages@[p as int].import_path.full_name@, msg.name@)
            },
        }
        &&& forall|i: int|
            0 <= i < msg.messages@.len() ==> m < (#[trigger] msg.messages@[i]) < self.messages@.len()
        &&& forall|i: int| 0 <= i < msg.enums@.len() ==> (#[trigger] msg.enums@[i]) < self.enums@.len()
    }

    /// The enum at index `e` belongs to an existing file of this package, and its
    /// full name is its parent message's full name followed by its own (or its own
    /// alone at the top of a file).
    pub open spec fn enum_wf(&self, e: int) -> bool {
        let data = self.enums@[e];
        let path = data.import_path;
        &&& data.file_id < self.files@.len()
        &&& path.package@ == self.name@
        &&& path.file@ == self.files@[data.file_id as int].name@
        &&& path.full_name_with_package@ == qualified(self.name@, path.full_name@)
        &&& match data.parent_message {
            None => path.full_name@ == data.name@,
            Some(p) => {
                &&& p < self.messages@.len()
                &&& self.messages@[p as int].file_id == data.file_id
                &&& path.full_name@ == qualified(self.messages@[p as int].import_path.full_name@, data.name@)
            },
        }
    }

    /// Every file, message and enum of the package is well formed.
    pub open spec fn wf(&self) -> bool {
        &&& forall|f: int| 0 <= f < self.files@.len() ==> #[trigger] self.file_wf(f)
        &&& forall|m: int| 0 <= m < self.messages@.len() ==> #[trigger] self.message_wf(m)
        &&& forall|e: int| 0 <= e < self.enums@.len() ==> #[trigger] self.enum_wf(e)
    }
}

/// The imports of a file after each of `list` was offered to it, in order.
pub open spec fn imports_after_all(imports: Seq<Arc<String>>, file_name: Seq<char>, list: Seq<Arc<String>>) -> Seq<Arc<String>>
    decreases list.len(),
{
    if list.len() == 0 {
        imports
    } else {
        imports_after(imports_after_all(imports, file_name, list.drop_last()), file_name, list.last())
    }
}

/// Offering two lists in turn is offering them joined.
pub proof fn lemma_imports_after_all_concat(imports: Seq<Arc<String>>, file_name: Seq<char>, a: Seq<Arc<String>>, b: Seq<Arc<String>>)
    ensures
        imports_after_all(imports_after_all(imports, file_name, a), file_name, b)
            == imports_after_all(imports, file_name, a + b),
    decreases b.len(),
{
    if b.len() == 0 {
        assert(a + b =~= a);
    } else {
        lemma_imports_after_all_concat(imports, file_name, a, b.drop_last());
        assert((a + b).drop_last() =~= a + b.drop_last());
        assert((a + b).last() == b.last());
    }
}

/// The files `after` are the files `before`, but for the imports of the file at
/// `f`, which are `imports`.
pub open spec fn files_with_imports(before: Seq<FileData>, after: Seq<FileData>, f: int, imports: Seq<Arc<String>>) -> bool {
    &&& after.len() == before.len()
    &&& forall|i: int| 0 <= i < after.len() && i != f ==> after[i] == before[i]
    &&& after[f].name == before[f].name
    &&& after[f].messages == before[f].messages
    &&& after[f].enums == before[f].enums
    &&& after[f].services == before[f].services
    &&& after[f].extensions == before[f].extensions
    &&& after[f].options == before[f].options
    &&& after[f].imports@ == imports
}

/// Offering imports to a file that does not import itself never makes it import
/// itself.
pub proof fn law_offered_imports_exclude_self(imports: Seq<Arc<String>>, file_name: Seq<char>, list: Seq<Arc<String>>)
    requires
        !texts(imports).contains(file_name),
    ensures
        !texts(imports_after_all(imports, file_name, list)).contains(file_name),
    decreases list.len(),
{
    if list.len() > 0 {
        law_offered_imports_exclude_self(imports, file_name, list.drop_last());
        let prior = imports_after_all(imports, file_name, list.drop_last());
        if !(list.last()@ == file_name || texts(prior).contains(list.last()@)) {
            assert(texts(prior.push(list.last())) =~= texts(prior).push(list.last()@));
        }
    }
}

/// Offering imports keeps them free of repeats.
pub proof fn law_offered_imports_distinct(imports: Seq<Arc<String>>, file_name: Seq<char>, list: Seq<Arc<String>>)
    requires
        distinct_texts(imports),
    ensures
        distinct_texts(imports_after_all(imports, file_name, list)),
    decreases list.len(),
{
    if list.len() > 0 {
        law_offered_imports_distinct(imports, file_name, list.drop_last());
        let prior = imports_after_all(imports, file_name, list.drop_last());
        let x = list.last();
        if !(x@ == file_name || texts(prior).contains(x@)) {
            assert forall|i: int, j: int| 0 <= i < j < prior.push(x).len() implies prior.push(x)[i]@ != prior.push(x)[j]@ by {
                if j == prior.len() {
                    assert(texts(prior)[i] == prior[i]@);
                }
            }
        }
    }
}

/// The files a file imports after imports were offered to it, as a set: those it
/// imported, and every offered one but itself.
pub proof fn law_offered_imports_set(imports: Seq<Arc<String>>, file_name: Seq<char>, list: Seq<Arc<String>>)
    ensures
        texts(imports_after_all(imports, file_name, list)).to_set()
            == texts(imports).to_set().union(texts(list).to_set().remove(file_name)),
    decreases list.len(),
{
    if list.len() == 0 {
        assert(texts(list).to_set() =~= Set::<Seq<char>>::empty());
        assert(texts(imports).to_set().union(texts(list).to_set().remove(file_name)) =~= texts(imports).to_set());
    } else {
        law_offered_imports_set(imports, file_name, list.drop_last());
        let prior = imports_after_all(imports, file_name, list.drop_last());
        let x = list.last();
        assert(texts(list) =~= texts(list.drop_last()).push(x@));
        assert(texts(prior.push(x)) =~= texts(prior).push(x@));
        texts(list.drop_last()).lemma_push_to_set_commute(x@);
        texts(prior).lemma_push_to_set_commute(x@);
        if x@ == file_name {
        } else if texts(prior).contains(x@) {
            assert(texts(prior).to_set().contains(x@));
        }
        assert(texts(imports_after_all(imports, file_name, list)).to_set()
            =~= texts(imports).to_set().union(texts(list).to_set().remove(file_name)));
    }
}

/// After imports were offered to a file, each of them is the file itself or is
/// imported by it.
proof fn lemma_offered_imports_present(imports: Seq<Arc<String>>, file_name: Seq<char>, list: Seq<Arc<String>>)
    ensures
        forall|i: int| 0 <= i < list.len() ==> (#[trigger] list[i])@ == file_name
            || texts(imports_after_all(imports, file_name, list)).contains(list[i]@),
    decreases list.len(),
{
    if list.len() > 0 {
        let before = list.drop_last();
        lemma_offered_imports_present(imports, file_name, before);
        let prior = imports_after_all(imports, file_name, before);
        let x = list.last();
        lemma_offered_imports_grow(prior, file_name, x);
        assert forall|i: int| 0 <= i < list.len() implies (#[trigger] list[i])@ == file_name
            || texts(imports_after_all(imports, file_name, list)).contains(list[i]@) by {
            if i < list.len() - 1 {
                assert(list[i] == before[i]);
            } else if x@ != file_name && !texts(prior).contains(x@) {
                assert(texts(prior.push(x))[prior.len() as int] == x@);
            }
        }
    }
}

/// Offering an import keeps every file imported before.
proof fn lemma_offered_imports_grow(imports: Seq<Arc<String>>, file_name: Seq<char>, x: Arc<String>)
    ensures
        forall|t: Seq<char>| texts(imports).contains(t) ==> texts(imports_after(imports, file_name, x)).contains(t),
{
    assert forall|t: Seq<char>| texts(imports).contains(t) implies texts(imports_after(imports, file_name, x)).contains(t) by {
        let i = choose|i: int| 0 <= i < texts(imports).len() && texts(imports)[i] == t;
        if !(x@ == file_name || texts(imports).contains(x@)) {
            assert(texts(imports.push(x))[i] == t);
        }
    }
}

/// Offering imports the files already imported, or the file itself, changes nothing.
proof fn lemma_offered_imports_none_new(imports: Seq<Arc<String>>, file_name: Seq<char>, list: Seq<Arc<String>>)
    requires
        forall|i: int| 0 <= i < list.len() ==> (#[trigger] list[i])@ == file_name || texts(imports).contains(list[i]@),
    ensures
        imports_after_all(imports, file_name, list) == imports,
    decreases list.len(),
{
    if list.len() > 0 {
        let before = list.drop_last();
        assert forall|i: int| 0 <= i < before.len() implies (#[trigger] before[i])@ == file_name || texts(imports).contains(before[i]@) by {
            assert(before[i] == list[i]);
        }
        lemma_offered_imports_none_new(imports, file_name, before);
        assert(list.last() == list[list.len() - 1]);
    }
}

/// Offering the same imports a second time changes nothing: a file's imports
/// behave as a set.
pub proof fn law_offered_imports_idempotent(imports: Seq<Arc<String>>, file_name: Seq<char>, list: Seq<Arc<String>>)
    ensures
        imports_after_all(imports_after_all(imports, file_name, list), file_name, list)
            == imports_after_all(imports, file_name, list),
{
    lemma_offered_imports_present(imports, file_name, list);
    lemma_offered_imports_none_new(imports_after_all(imports, file_name, list), file_name, list);
}

/// `after` is `before` with the imports of file `f` replaced by `imports`, all else alike.
pub open spec fn file_imports_set(before: PackageData, after: PackageData, f: int, imports: Seq<Arc<String>>) -> bool {
    &&& after.name == before.name
    &&& after.messages == before.messages
    &&& after.enums == before.enums
    &&& after.services == before.services
    &&& files_with_imports(before.files@, after.files@, f, imports)
}

/// Changing a file's imports twice is changing them once, to the second value.
pub proof fn lemma_file_imports_set_trans(a: PackageData, b: PackageData, c: PackageData, f: int, x: Seq<Arc<String>>, y: Seq<Arc<String>>)
    requires
        0 <= f < a.files@.len(),
        file_imports_set(a, b, f, x),
        file_imports_set(b, c, f, y),
    ensures
        file_imports_set(a, c, f, y),
{
    assert forall|i: int| 0 <= i < c.files@.len() && i != f implies c.files@[i] == a.files@[i] by {
        assert(c.files@[i] == b.files@[i]);
    }
}

impl PackageData {
    /// Offers `import` to the file at `f`: it is added unless it is that file or is
    /// imported there already.
    pub fn add_file_import(&mut self, f: usize, import: &Arc<String>)
        requires
            old(self).wf(),
            f < old(self).files@.len(),
        ensures
            final(self).wf(),
            file_imports_set(*old(self), *final(self), f as int,
                imports_after(old(self).files@[f as int].imports@, old(self).files@[f as int].name@, *import)),
    {
        let ghost before = *self;
        proof {
            assert(before.file_wf(f as int));
        }
        self.files[f].conditionally_add_import(import);
        proof {
            assert forall|g: int| 0 <= g < self.files@.len() implies #[trigger] self.file_wf(g) by {
                assert(before.file_wf(g));
            }
            assert forall|m: int| 0 <= m < self.messages@.len() implies #[trigger] self.message_wf(m) by {
                assert(before.message_wf(m));
            }
            assert forall|e: int| 0 <= e < self.enums@.len() implies #[trigger] self.enum_wf(e) by {
                assert(before.enum_wf(e));
            }
        }
    }

    /// Offers each of `list`, in order, to the file at `f`.
    pub fn add_file_imports(&mut self, f: usize, list: &Vec<Arc<String>>)
        requires
            old(self).wf(),
            f < old(self).files@.len(),
        ensures
            final(self).wf(),
            file_imports_set(*old(self), *final(self), f as int,
                imports_after_all(old(self).files@[f as int].imports@, old(self).files@[f as int].name@, list@)),
    {
        let ghost before = *self;
        let mut i: usize = 0;
        while i < list.len()
            invariant
                i <= list@.len(),
                self.wf(),
                f < self.files@.len(),
                file_imports_set(before, *self, f as int,
                    imports_after_all(before.files@[f as int].imports@, before.files@[f as int].name@, list@.take(i as int))),
            decreases list@.len() - i,
        {
            self.add_file_import(f, &list[i]);
            proof {
                assert(list@.take(i + 1).drop_last() =~= list@.take(i as int));
            }
            i = i + 1;
        }
        proof {
            assert(list@.take(i as int) =~= list@);
        }
    }
}

impl PackageData {
    /// Takes numbered fields in for the file at `f`: their imports, field after
    /// field, are offered to the file, and what is kept of them comes back sorted
    /// by number.
    pub fn take_fields(&mut self, f: usize, fields: Vec<(u32, Field)>) -> (r: Vec<(u32, FieldData)>)
        requires
            old(self).wf(),
            f < old(self).files@.len(),
        ensures
            final(self).wf(),
            file_imports_set(*old(self), *final(self), f as int,
                imports_after_all(old(self).files@[f as int].imports@, old(self).files@[f as int].name@,
                    imports_of_fields(fields@))),
            is_stable_sort(r@, data_of_fields(fields@)),
    {
        let ghost before = *self;
        let ghost orig = fields@;
        let ghost start = before.files@[f as int].imports@;
        let ghost file_name = before.files@[f as int].name@;
        let mut rest = fields;
        let mut out: Vec<(u32, FieldData)> = Vec::new();
        while rest.len() > 0
            invariant
                out@.len() + rest@.len() == orig.len(),
                rest@ == orig.skip(out@.len() as int),
                out@ == data_of_fields(orig.take(out@.len() as int)),
                self.wf(),
                f < self.files@.len(),
                f < before.files@.len(),
                start == before.files@[f as int].imports@,
                file_name == before.files@[f as int].name@,
                file_imports_set(before, *self, f as int,
                    imports_after_all(start, file_name, imports_of_fields(orig.take(out@.len() as int)))),
            decreases rest@.len(),
        {
            let ghost k = out@.len() as int;
            let (tag, field) = rest.remove(0);
            assert(orig[k] == (tag, field));
            let (data, imports) = field.into_data();
            let ghost mid = *self;
            self.add_file_imports(f, &imports);
            out.push((tag, data));
            proof {
                assert(mid.files@[f as int].imports@ == imports_after_all(start, file_name, imports_of_fields(orig.take(k))));
                assert(orig.take(k + 1).drop_last() =~= orig.take(k));
                assert(orig.take(k + 1).last() == (tag, field));
                lemma_file_imports_set_trans(before, mid, *self, f as int,
                    imports_after_all(start, file_name, imports_of_fields(orig.take(k))),
                    imports_after_all(imports_after_all(start, file_name, imports_of_fields(orig.take(k))), file_name, imports@));
                assert(imports_of_fields(orig.take(k + 1)) == imports_of_fields(orig.take(k)) + imports@);
                lemma_imports_after_all_concat(start, file_name, imports_of_fields(orig.take(k)), imports@);
                assert(out@ =~= data_of_fields(orig.take(k + 1)));
                assert(rest@ =~= orig.skip(k + 1));
            }
        }
        proof {
            assert(orig.take(orig.len() as int) =~= orig);
        }
        sort_by_tag(out)
    }
}

impl PackageData {
    /// Every message's parent message, where it has one, is a message created
    /// before it, so that walking up from any message ends at the top of a file.
    pub open spec fn parents_come_first(&self) -> bool {
        forall|m: int|
            0 <= m < self.messages@.len() ==> match (#[trigger] self.messages@[m]).parent_message {
                Some(p) => p < m,
                None => true,
            }
    }
}

/// The full name, without the package, of the message at index `m` of `pkg`,
/// spelled from the names alone: the names of its enclosing messages, outermost
/// first, then its own, joined by dots.
pub open spec fn message_path(pkg: PackageData, m: int) -> Seq<char>
    decreases m,
{
    let msg = pkg.messages@[m];
    match msg.parent_message {
        Some(p) => if 0 <= p < m {
            qualified(message_path(pkg, p as int), msg.name@)
        } else {
            msg.name@
        },
        None => msg.name@,
    }
}

/// The full name, without the package, of an item named `base` defined in the
/// message `parent` of `pkg`, or at the top of a file when there is no parent.
pub open spec fn full_name_in(pkg: PackageData, base: Seq<char>, parent: Option<usize>) -> Seq<char> {
    match parent {
        None => base,
        Some(p) => qualified(message_path(pkg, p as int), base),
    }
}

/// In a well formed package, the full name stored with each message is the one
/// spelled from the names of its chain of parent messages.
pub proof fn lemma_message_path_stored(pkg: PackageData, m: int)
    requires
        pkg.wf(),
        0 <= m < pkg.messages@.len(),
    ensures
        message_path(pkg, m) == pkg.messages@[m].import_path.full_name@,
    decreases m,
{
    assert(pkg.message_wf(m));
    match pkg.messages@[m].parent_message {
        Some(p) => lemma_message_path_stored(pkg, p as int),
        None => {},
    }
}

/// A well formed package has every parent message created before its children.
pub proof fn lemma_wf_parents_come_first(pkg: PackageData)
    requires
        pkg.wf(),
    ensures
        pkg.parents_come_first(),
{
    assert forall|m: int| 0 <= m < pkg.messages@.len() implies match (#[trigger] pkg.messages@[m]).parent_message {
        Some(p) => p < m,
        None => true,
    } by {
        assert(pkg.message_wf(m));
    }
}

impl PackageData {
    /// Returns the full name, with the package prefix, of an item named `base_name`
    /// defined in the message at `parent_message_id` (or at the top of a file), found
    /// by walking up the chain of parent messages and joining their names with dots.
    pub fn get_full_message_name(&self, base_name: &str, parent_message_id: Option<usize>) -> (r: Arc<String>)
        requires
            self.parents_come_first(),
            parent_message_id matches Some(p) ==> p < self.messages@.len(),
        ensures
            r@ == qualified(self.name@, full_name_in(*self, base_name@, parent_message_id)),
    {
        let ghost target = full_name_in(*self, base_name@, parent_message_id);
        let mut path = String::from_str(base_name);
        let mut current = parent_message_id;
        while current.is_some()
            invariant
                self.parents_come_first(),
                current matches Some(c) ==> c < self.messages@.len(),
                target == match current {
                    None => path@,
                    Some(c) => qualified(message_path(*self, c as int), path@),
                },
            decreases match current {
                Some(c) => c + 1,
                None => 0,
            },
        {
            let id = current.unwrap();
            let message = &self.messages[id];
            let next = dotted(message.name.as_str(), path.as_str());
            proof {
                assert(match self.messages@[id as int].parent_message {
                    Some(p) => p < id,
                    None => true,
                });
                match message.parent_message {
                    None => {
                        assert(qualified(message_path(*self, id as int), path@) =~= next@);
                    },
                    Some(p) => {
                        assert(qualified(message_path(*self, p as int), next@)
                            =~= qualified(message_path(*self, id as int), path@));
                    },
                }
            }
            path = next;
            current = message.parent_message;
        }
        Arc::new(dotted(self.name.as_str(), path.as_str()))
    }
}

/// In a well formed package, the full name of every message, package prefix
/// included, is the one found by walking up its chain of parent messages:
/// the package, then the names of the enclosing messages, then its own name,
/// joined by dots.
pub proof fn law_message_full_name(pkg: PackageData, m: int)
    requires
        pkg.wf(),
        0 <= m < pkg.messages@.len(),
    ensures
        pkg.messages@[m].import_path.full_name_with_package@
            == qualified(pkg.name@, full_name_in(pkg, pkg.messages@[m].name@, pkg.messages@[m].parent_message)),
        pkg.messages@[m].import_path.package@ == pkg.name@,
{
    assert(pkg.message_wf(m));
    if let Some(p) = pkg.messages@[m].parent_message {
        lemma_message_path_stored(pkg, p as int);
    }
}

/// In a well formed package, the full name of every enum, package prefix
/// included, is the one found by walking up its chain of parent messages.
pub proof fn law_enum_full_name(pkg: PackageData, e: int)
    requires
        pkg.wf(),
        0 <= e < pkg.enums@.len(),
    ensures
        pkg.enums@[e].import_path.full_name_with_package@
            == qualified(pkg.name@, full_name_in(pkg, pkg.enums@[e].name@, pkg.enums@[e].parent_message)),
        pkg.enums@[e].import_path.package@ == pkg.name@,
{
    assert(pkg.enum_wf(e));
    if let Some(p) = pkg.enums@[e].parent_message {
        lemma_message_path_stored(pkg, p as int);
    }
}

/// A nested message lives in the file of the message it is defined in, and that
/// message was created before it.
pub proof fn law_nested_message_same_file(pkg: PackageData, m: int)
    requires
        pkg.wf(),
        0 <= m < pkg.messages@.len(),
        pkg.messages@[m].parent_message is Some,
    ensures
        pkg.messages@[m].parent_message.unwrap() < m,
        pkg.messages@[pkg.messages@[m].parent_message.unwrap() as int].file_id == pkg.messages@[m].file_id,
        pkg.messages@[m].import_path.file@ == pkg.files@[pkg.messages@[m].file_id as int].name@,
{
    assert(pkg.message_wf(m));
}

/// Whether every id of `ids` lies strictly between `low` and `high`, or is
/// just below `high` when there is no lower bound.
fn ids_between(ids: &Vec<usize>, low: Option<usize>, high: usize) -> (r: bool)
    ensures
        r == forall|i: int| 0 <= i < ids@.len() ==> (match low {
            Some(l) => l < #[trigger] ids@[i],
            None => true,
        }) && ids@[i] < high,
{
    let mut i: usize = 0;
    while i < ids.len()
        invariant
            i <= ids@.len(),
            forall|j: int| 0 <= j < i ==> (match low {
                Some(l) => l < #[trigger] ids@[j],
                None => true,
            }) && ids@[j] < high,
        decreases ids@.len() - i,
    {
        let id = ids[i];
        let above = match low {
            Some(l) => l < id,
            None => true,
        };
        if !above || id >= high {
            return false;
        }
        i = i + 1;
    }
    true
}

/// Whether no two strings of `v` hold the same text.
fn all_distinct(v: &Vec<Arc<String>>) -> (r: bool)
    ensures
        r == distinct_texts(v@),
{
    let mut j: usize = 0;
    while j < v.len()
        invariant
            j <= v@.len(),
            forall|a: int, b: int| 0 <= a < b < j ==> v@[a]@ != v@[b]@,
        decreases v@.len() - j,
    {
        let mut i: usize = 0;
        while i < j
            invariant
                i <= j < v@.len(),
                forall|a: int| 0 <= a < i ==> v@[a]@ != v@[j as int]@,
            decreases j - i,
        {
            if crate::text::str_eq(v[i].as_str(), v[j].as_str()) {
                return false;
            }
            i = i + 1;
        }
        j = j + 1;
    }
    true
}

/// Whether `whole` is `name` qualified by `prefix`.
fn is_qualified(whole: &str, prefix: &str, name: &str) -> (r: bool)
    ensures
        r == (whole@ == qualified(prefix@, name@)),
{
    let expected = dotted(prefix, name);
    crate::text::str_eq(whole, expected.as_str())
}

impl PackageData {
    /// Checks that the file at `f` is well formed.
    fn check_file(&self, f: usize) -> (r: bool)
        requires
            f < self.files@.len(),
        ensures
            r == self.file_wf(f as int),
    {
        let file = &self.files[f];
        ids_between(&file.messages, None, self.messages.len())
            && ids_between(&file.enums, None, self.enums.len())
            && ids_between(&file.services, None, self.services.len())
            && all_distinct(&file.imports)
    }

    /// Checks that the message at `m` is well formed.
    fn check_message(&self, m: usize) -> (r: bool)
        requires
            m < self.messages@.len(),
        ensures
            r == self.message_wf(m as int),
    {
        let msg = &self.messages[m];
        let path = &*msg.import_path;
        if msg.file_id >= self.files.len() {
            return false;
        }
        if !crate::text::str_eq(path.package.as_str(), self.name.as_str())
            || !crate::text::str_eq(path.file.as_str(), self.files[msg.file_id].name.as_str())
            || !is_qualified(path.full_name_with_package.as_str(), self.name.as_str(), path.full_name.as_str()) {
            return false;
        }
        let parent_ok = match msg.parent_message {
            None => crate::text::str_eq(path.full_name.as_str(), msg.name.as_str()),
            Some(p) => p < m && self.messages[p].file_id == msg.file_id
                && is_qualified(path.full_name.as_str(), self.messages[p].import_path.full_name.as_str(), msg.name.as_str()),
        };
        parent_ok && ids_between(&msg.messages, Some(m), self.messages.len())
            && ids_between(&msg.enums, None, self.enums.len())
    }

    /// Checks that the enum at `e` is well formed.
    fn check_enum(&self, e: usize) -> (r: bool)
        requires
            e < self.enums@.len(),
        ensures
            r == self.enum_wf(e as int),
    {
        let data = &self.enums[e];
        let path = &*data.import_path;
        if data.file_id >= self.files.len() {
            return false;
        }
        if !crate::text::str_eq(path.package.as_str(), self.name.as_str())
            || !crate::text::str_eq(path.file.as_str(), self.files[data.file_id].name.as_str())
            || !is_qualified(path.full_name_with_package.as_str(), self.name.as_str(), path.full_name.as_str()) {
            return false;
        }
        match data.parent_message {
            None => crate::text::str_eq(path.full_name.as_str(), data.name.as_str()),
            Some(p) => p < self.messages.len() && self.messages[p].file_id == data.file_id
                && is_qualified(path.full_name.as_str(), self.messages[p].import_path.full_name.as_str(), data.name.as_str()),
        }
    }

    /// Checks that every file, message and enum of the package is well formed.
    pub fn is_well_formed(&self) -> (r: bool)
        ensures
            r == self.wf(),
    {
        let mut f: usize = 0;
        while f < self.files.len()
            invariant
                f <= self.files@.len(),
                forall|g: int| 0 <= g < f ==> #[trigger] self.file_wf(g),
            decreases self.files@.len() - f,
        {
            if !self.check_file(f) {
                return false;
            }
            f = f + 1;
        }
        let mut m: usize = 0;
        while m < self.messages.len()
            invariant
                m <= self.messages@.len(),
                forall|g: int| 0 <= g < self.files@.len() ==> #[trigger] self.file_wf(g),
                forall|n: int| 0 <= n < m ==> #[trigger] self.message_wf(n),
            decreases self.messages@.len() - m,
        {
            if !self.check_message(m) {
                return false;
            }
            m = m + 1;
        }
        let mut e: usize = 0;
        while e < self.enums.len()
            invariant
                e <= self.enums@.len(),
                forall|g: int| 0 <= g < self.files@.len() ==> #[trigger] self.file_wf(g),
                forall|n: int| 0 <= n < self.messages@.len() ==> #[trigger] self.message_wf(n),
                forall|n: int| 0 <= n < e ==> #[trigger] self.enum_wf(n),
            decreases self.enums@.len() - e,
        {
            if !self.check_enum(e) {
                return false;
            }
            e = e + 1;
        }
        true
    }
}

/// A struct representing a protobuf package.
#[derive(Debug)]
pub struct Package {
    /// The directory of the package's files: its name with each dot replaced by a slash.
    pub path: String,
    pub data: PackageData,
}

impl Package {
    /// The package's directory matches its name, and its data is well formed.
    pub open spec fn wf(&self) -> bool {
        &&& self.path@ == replace_char(self.data.name@, '.', '/')
        &&& self.data.wf()
    }

    /// Creates a new package
    pub fn new(name: &str) -> (r: Package)
        ensures
            r.wf(),
            r.data.name@ == name@,
            r.path@ == replace_char(name@, '.', '/'),
            r.data.files@.len() == 0,
            r.data.messages@.len() == 0,
            r.data.enums@.len() == 0,
            r.data.services@.len() == 0,
    {
        Package {
            path: replace_chars(name, '.', '/'),
            data: PackageData {
                name: Arc::new(String::from_str(name)),
                files: Vec::new(),
                messages: Vec::new(),
                enums: Vec::new(),
                services: Vec::new(),
            },
        }
    }

    /// Checks that the package's directory matches its name and that its data is
    /// well formed, as every operation of this crate leaves it.
    pub fn is_well_formed(&self) -> (r: bool)
        ensures
            r == self.wf(),
    {
        let expected_path = replace_chars(self.data.name.as_str(), '.', '/');
        crate::text::str_eq(self.path.as_str(), expected_path.as_str()) && self.data.is_well_formed()
    }

    /// Gets the name of this package
    pub fn get_name(&self) -> (r: Arc<String>)
        ensures
            r == self.data.name,
    {
        share(&self.data.name)
    }

    /// Creates a new file belonging to this package.
    /// The ".proto" suffix is added automatically to the name being given, and the
    /// file goes in the package's directory.
    pub fn new_file(&mut self, name: &str) -> (r: FileBuilder)
        requires
            old(self).wf(),
        ensures
            final(self).wf(),
            r.id == old(self).data.files@.len(),
            final(self).path == old(self).path,
            final(self).data.name == old(self).data.name,
            final(self).data.messages == old(self).data.messages,
            final(self).data.enums == old(self).data.enums,
            final(self).data.services == old(self).data.services,
            final(self).data.files@.len() == old(self).data.files@.len() + 1,
            final(self).data.files@.drop_last() == old(self).data.files@,
            final(self).data.files@.last().is_empty_file(),
            final(self).data.files@.last().name@ == old(self).path@ + seq!['/'] + name@ + ".proto"@,
    {
        let id = self.data.files.len();
        let mut file_name = String::from_str(self.path.as_str());
        push_char(&mut file_name, '/');
        file_name.append(name);
        file_name.append(".proto");
        let file = FileData::empty(Arc::new(file_name));
        let ghost old_data = self.data;
        self.data.files.push(file);
        proof {
            assert forall|f: int| 0 <= f < self.data.files@.len() implies #[trigger] self.data.file_wf(f) by {
                if f < id {
                    assert(old_data.file_wf(f));
                }
            }
            assert forall|m: int| 0 <= m < self.data.messages@.len() implies #[trigger] self.data.message_wf(m) by {
                assert(old_data.message_wf(m));
            }
            assert forall|e: int| 0 <= e < self.data.enums@.len() implies #[trigger] self.data.enum_wf(e) by {
                assert(old_data.enum_wf(e));
            }
            assert(self.data.files@.drop_last() =~= old_data.files@);
        }
        FileBuilder { id }
    }
}

} // verus!
