//! Protobuf options and the values they carry.

use vstd::prelude::*;
use std::sync::Arc;

use crate::field_type::{Duration, Timestamp};
use crate::text::{share, push_char, push_int, int_text};
use vstd::std_specs::convert::FromSpecImpl;

verus! {

/// An enum representing values for protobuf options.
///
/// A float value is carried as the text by which it is written in a `.proto` file.
#[derive(Debug)]
pub enum OptionValue {
    Bool(bool),
    Int(i64),
    Uint(u64),
    Float(Arc<String>),
    String(Arc<String>),
    List(Arc<Vec<OptionValue>>),
    Message(Arc<Vec<(Arc<String>, OptionValue)>>),
    Enum(Arc<String>),
    Duration(Duration),
    Timestamp(Timestamp),
}

/// The mathematical content of an [`OptionValue`]: strings as sequences of
/// characters, lists and messages as sequences.
pub enum ValueModel {
    Bool(bool),
    Int(i64),
    Uint(u64),
    Float(Seq<char>),
    String(Seq<char>),
    List(Seq<ValueModel>),
    Message(Seq<(Seq<char>, ValueModel)>),
    Enum(Seq<char>),
    Duration(Duration),
    Timestamp(Timestamp),
}

impl OptionValue {
    /// The content of this value.
    pub open spec fn model(&self) -> ValueModel
        decreases self, 0nat,
    {
        match self {
            OptionValue::Bool(b) => ValueModel::Bool(*b),
            OptionValue::Int(i) => ValueModel::Int(*i),
            OptionValue::Uint(u) => ValueModel::Uint(*u),
            OptionValue::Float(t) => ValueModel::Float(t@),
            OptionValue::String(s) => ValueModel::String(s@),
            OptionValue::List(items) => ValueModel::List(Self::models(items@, items@.len())),
            OptionValue::Message(entries) => ValueModel::Message(Self::entry_models(entries@, entries@.len())),
            OptionValue::Enum(s) => ValueModel::Enum(s@),
            OptionValue::Duration(d) => ValueModel::Duration(*d),
            OptionValue::Timestamp(t) => ValueModel::Timestamp(*t),
        }
    }

    /// The contents of the first `n` values of `s`.
    pub open spec fn models(s: Seq<OptionValue>, n: nat) -> Seq<ValueModel>
        decreases s, n,
    {
        if n == 0 || n > s.len() {
            Seq::empty()
        } else {
            Self::models(s, (n - 1) as nat).push(s[n - 1].model())
        }
    }

    /// The contents of the first `n` named values of `s`.
    pub open spec fn entry_models(s: Seq<(Arc<String>, OptionValue)>, n: nat) -> Seq<(Seq<char>, ValueModel)>
        decreases s, n,
    {
        if n == 0 || n > s.len() {
            Seq::empty()
        } else {
            Self::entry_models(s, (n - 1) as nat).push((s[n - 1].0@, s[n - 1].1.model()))
        }
    }

    /// The contents of a whole list, element by element.
    pub proof fn lemma_models(s: Seq<OptionValue>, n: nat)
        requires
            n <= s.len(),
        ensures
            Self::models(s, n).len() == n,
            forall|i: int| 0 <= i < n ==> #[trigger] Self::models(s, n)[i] == s[i].model(),
        decreases n,
    {
        if n > 0 {
            Self::lemma_models(s, (n - 1) as nat);
        }
    }

    /// The contents of a whole message, entry by entry.
    pub proof fn lemma_entry_models(s: Seq<(Arc<String>, OptionValue)>, n: nat)
        requires
            n <= s.len(),
        ensures
            Self::entry_models(s, n).len() == n,
            forall|i: int| 0 <= i < n ==> #[trigger] Self::entry_models(s, n)[i] == (s[i].0@, s[i].1.model()),
        decreases n,
    {
        if n > 0 {
            Self::lemma_entry_models(s, (n - 1) as nat);
        }
    }
}

impl Clone for OptionValue {
    fn clone(&self) -> (r: Self)
        ensures
            r == *self,
    {
        match self {
            OptionValue::Bool(b) => OptionValue::Bool(*b),
            OptionValue::Int(i) => OptionValue::Int(*i),
            OptionValue::Uint(u) => OptionValue::Uint(*u),
            OptionValue::Float(t) => OptionValue::Float(share(t)),
            OptionValue::String(s) => OptionValue::String(share(s)),
            OptionValue::List(items) => OptionValue::List(share(items)),
            OptionValue::Message(entries) => OptionValue::Message(share(entries)),
            OptionValue::Enum(s) => OptionValue::Enum(share(s)),
            OptionValue::Duration(d) => OptionValue::Duration(*d),
            OptionValue::Timestamp(t) => OptionValue::Timestamp(*t),
        }
    }
}

/// How a value is written in a `.proto` file.
pub open spec fn render_model(m: ValueModel) -> Seq<char>
    decreases m, 0nat,
{
    match m {
        ValueModel::Bool(b) => if b { "true"@ } else { "false"@ },
        ValueModel::Int(i) => int_text(i as int),
        ValueModel::Uint(u) => int_text(u as int),
        ValueModel::Float(t) => t,
        ValueModel::String(s) => seq!['"'] + s + seq!['"'],
        ValueModel::List(items) => "[  "@ + render_items(items, items.len()) + " ]"@,
        ValueModel::Message(entries) => "{ "@ + render_entries(entries, entries.len()) + " }"@,
        ValueModel::Enum(s) => s,
        ValueModel::Duration(d) => "{ seconds: "@ + int_text(d.seconds as int) + ", nanos: "@ + int_text(d.nanos as int) + " }"@,
        ValueModel::Timestamp(t) => "{ seconds: "@ + int_text(t.seconds as int) + ", nanos: "@ + int_text(t.nanos as int) + " }"@,
    }
}

/// The first `n` values of `s`, each written out, separated by `, `.
pub open spec fn render_items(s: Seq<ValueModel>, n: nat) -> Seq<char>
    decreases s, n,
{
    if n == 0 || n > s.len() {
        Seq::empty()
    } else if n == 1 {
        render_model(s[0])
    } else {
        render_items(s, (n - 1) as nat) + ", "@ + render_model(s[n - 1])
    }
}

/// The first `n` entries of `s`, each written as `name: value`, separated by `, `.
pub open spec fn render_entries(s: Seq<(Seq<char>, ValueModel)>, n: nat) -> Seq<char>
    decreases s, n,
{
    if n == 0 || n > s.len() {
        Seq::empty()
    } else if n == 1 {
        s[0].0 + ": "@ + render_model(s[0].1)
    } else {
        render_entries(s, (n - 1) as nat) + ", "@ + s[n - 1].0 + ": "@ + render_model(s[n - 1].1)
    }
}

/// Whether a value is short enough to be written on the same line as its option:
/// lists of at most five short values, strings of at most five characters, and
/// every scalar; never messages, durations or timestamps.
pub open spec fn is_short_model(m: ValueModel) -> bool
    decreases m, 0nat,
{
    match m {
        ValueModel::List(items) => items.len() <= 5 && all_short(items, items.len()),
        ValueModel::String(s) => s.len() <= 5,
        ValueModel::Duration(_) => false,
        ValueModel::Timestamp(_) => false,
        ValueModel::Message(_) => false,
        _ => true,
    }
}

/// Whether the first `n` values of `s` are all short.
pub open spec fn all_short(s: Seq<ValueModel>, n: nat) -> bool
    decreases s, n,
{
    if n == 0 || n > s.len() {
        true
    } else {
        all_short(s, (n - 1) as nat) && is_short_model(s[n - 1])
    }
}

impl OptionValue {
    /// Appends how this value is written in a `.proto` file.
    #[verifier::spinoff_prover]
    #[verifier::rlimit(40)]
    pub fn write_to(&self, out: &mut String)
        ensures
            final(out)@ == old(out)@ + render_model(self.model()),
        decreases self,
    {
        match self {
            OptionValue::Bool(b) => {
                if *b {
                    out.append("true");
                } else {
                    out.append("false");
                }
            },
            OptionValue::Int(i) => {
                push_int(out, *i);
            },
            OptionValue::Uint(u) => {
                crate::text::push_decimal(out, *u);
            },
            OptionValue::Float(t) => {
                out.append(t.as_str());
            },
            OptionValue::String(s) => {
                push_char(out, '"');
                out.append(s.as_str());
                push_char(out, '"');
                assert(final(out)@ =~= old(out)@ + render_model(self.model()));
            },
            OptionValue::List(items) => {
                let ghost start = out@;
                out.append("[  ");
                let v: &Vec<OptionValue> = &**items;
                let n = v.len();
                proof {
                    Self::lemma_models(v@, v@.len());
                }
                let ghost ms = Self::models(v@, v@.len());
                let mut i: usize = 0;
                #[verifier::loop_isolation(false)]
                while i < n
                    invariant
                        n == v@.len(),
                        i <= n,
                        ms == Self::models(v@, v@.len()),
                        ms.len() == n,
                        forall|j: int| 0 <= j < n ==> #[trigger] ms[j] == v@[j].model(),
                        out@ == start + "[  "@ + render_items(ms, i as nat),
                    decreases n - i,
                {
                    if i > 0 {
                        out.append(", ");
                    }
                    v[i].write_to(out);
                    i = i + 1;
                }
                out.append(" ]");
            },
            OptionValue::Message(entries) => {
                let ghost start = out@;
                out.append("{ ");
                let v: &Vec<(Arc<String>, OptionValue)> = &**entries;
                let n = v.len();
                proof {
                    Self::lemma_entry_models(v@, v@.len());
                }
                let ghost ms = Self::entry_models(v@, v@.len());
                let mut i: usize = 0;
                #[verifier::loop_isolation(false)]
                while i < n
                    invariant
                        n == v@.len(),
                        i <= n,
                        ms == Self::entry_models(v@, v@.len()),
                        ms.len() == n,
                        forall|j: int| 0 <= j < n ==> #[trigger] ms[j] == (v@[j].0@, v@[j].1.model()),
                        out@ == start + "{ "@ + render_entries(ms, i as nat),
                    decreases n - i,
                {
                    if i > 0 {
                        out.append(", ");
                    }
                    out.append(v[i].0.as_str());
                    out.append(": ");
                    v[i].1.write_to(out);
                    i = i + 1;
                }
                out.append(" }");
            },
            OptionValue::Enum(s) => {
                out.append(s.as_str());
            },
            OptionValue::Duration(d) => {
                out.append("{ seconds: ");
                push_int(out, d.seconds);
                out.append(", nanos: ");
                push_int(out, d.nanos as i64);
                out.append(" }");
            },
            OptionValue::Timestamp(t) => {
                out.append("{ seconds: ");
                push_int(out, t.seconds);
                out.append(", nanos: ");
                push_int(out, t.nanos as i64);
                out.append(" }");
            },
        }
    }

    /// How this value is written in a `.proto` file: `true`, `42`, `"text"`,
    /// `[  a, b ]`, `{ name: value }`, an enum value's bare name, or
    /// `{ seconds: s, nanos: n }` for durations and timestamps.
    pub fn to_string(&self) -> (r: String)
        ensures
            r@ == render_model(self.model()),
    {
        let mut out = String::new();
        self.write_to(&mut out);
        assert(out@ =~= render_model(self.model()));
        out
    }

    /// Whether this value is short enough to be written on the same line as its option.
    pub fn is_short(&self) -> (r: bool)
        ensures
            r == is_short_model(self.model()),
        decreases self,
    {
        match self {
            OptionValue::List(items) => {
                let v: &Vec<OptionValue> = &**items;
                proof {
                    Self::lemma_models(v@, v@.len());
                }
                let ghost ms = Self::models(v@, v@.len());
                if v.len() > 5 {
                    return false;
                }
                let n = v.len();
                let mut i: usize = 0;
                #[verifier::loop_isolation(false)]
                while i < n
                    invariant
                        n == v@.len(),
                        i <= n,
                        ms == Self::models(v@, v@.len()),
                        ms.len() == n,
                        forall|j: int| 0 <= j < n ==> #[trigger] ms[j] == v@[j].model(),
                        all_short(ms, i as nat),
                    decreases n - i,
                {
                    if !v[i].is_short() {
                        assert(!all_short(ms, (i + 1) as nat));
                        proof { lemma_all_short_prefix(ms, (i + 1) as nat, n as nat); }
                        return false;
                    }
                    i = i + 1;
                }
                true
            },
            OptionValue::String(s) => s.as_str().unicode_len() <= 5,
            OptionValue::Duration(_) => false,
            OptionValue::Timestamp(_) => false,
            OptionValue::Message(_) => false,
            _ => true,
        }
    }
}

/// A prefix of values that are not all short cannot be extended into one that is.
pub proof fn lemma_all_short_prefix(s: Seq<ValueModel>, k: nat, n: nat)
    requires
        k <= n <= s.len(),
        !all_short(s, k),
    ensures
        !all_short(s, n),
    decreases n - k,
{
    if k < n {
        lemma_all_short_prefix(s, k, (n - 1) as nat);
    }
}

/// A struct representing a protobuf option
#[derive(Debug)]
pub struct ProtoOption {
    pub name: &'static str,
    pub value: Arc<OptionValue>,
}

impl Clone for ProtoOption {
    fn clone(&self) -> (r: Self)
        ensures
            r == *self,
    {
        ProtoOption { name: self.name, value: share(&self.value) }
    }
}

/// A helper to build a [`ProtoOption`]
pub fn proto_option(name: &'static str, value: OptionValue) -> (r: ProtoOption)
    ensures
        r.name == name,
        *r.value == value,
{
    ProtoOption { name, value: Arc::new(value) }
}

/// A helper to build a list of protobuf option values
pub fn list_value(l: Vec<OptionValue>) -> (r: OptionValue)
    ensures
        r == OptionValue::List(Arc::new(l)),
{
    OptionValue::List(Arc::new(l))
}

impl OptionValue {
    /// The contents of a list are not changed by what follows them.
    pub proof fn lemma_models_prefix(s: Seq<OptionValue>, t: Seq<OptionValue>, n: nat)
        requires
            n <= s.len(),
            n <= t.len(),
            s.take(n as int) == t.take(n as int),
        ensures
            Self::models(s, n) == Self::models(t, n),
        decreases n,
    {
        if n > 0 {
            assert(s.take(n - 1) =~= s.take(n as int).take(n - 1));
            assert(t.take(n - 1) =~= t.take(n as int).take(n - 1));
            Self::lemma_models_prefix(s, t, (n - 1) as nat);
            assert(s[n - 1] == s.take(n as int)[n - 1]);
            assert(t[n - 1] == t.take(n as int)[n - 1]);
        }
    }

    /// The contents of a message are not changed by what follows them.
    pub proof fn lemma_entry_models_prefix(s: Seq<(Arc<String>, OptionValue)>, t: Seq<(Arc<String>, OptionValue)>, n: nat)
        requires
            n <= s.len(),
            n <= t.len(),
            s.take(n as int) == t.take(n as int),
        ensures
            Self::entry_models(s, n) == Self::entry_models(t, n),
        decreases n,
    {
        if n > 0 {
            assert(s.take(n - 1) =~= s.take(n as int).take(n - 1));
            assert(t.take(n - 1) =~= t.take(n as int).take(n - 1));
            Self::lemma_entry_models_prefix(s, t, (n - 1) as nat);
            assert(s[n - 1] == s.take(n as int)[n - 1]);
            assert(t[n - 1] == t.take(n as int)[n - 1]);
        }
    }
}

/// The named values of a message option, being gathered in order.
#[derive(Debug)]
pub struct Entries {
    pub items: Vec<(Arc<String>, OptionValue)>,
}

impl Entries {
    /// The names and contents of the values gathered so far.
    pub open spec fn model(&self) -> Seq<(Seq<char>, ValueModel)> {
        OptionValue::entry_models(self.items@, self.items@.len())
    }

    /// No values yet.
    pub fn new() -> (r: Entries)
        ensures
            r.model() == Seq::<(Seq<char>, ValueModel)>::empty(),
    {
        Entries { items: Vec::new() }
    }

    /// Adds a value named `name` at the end.
    pub fn push(&mut self, name: &str, value: OptionValue)
        ensures
            final(self).model() == old(self).model().push((name@, value.model())),
    {
        let ghost before = self.items@;
        self.items.push((Arc::new(String::from_str(name)), value));
        proof {
            assert(self.items@.take(before.len() as int) =~= before.take(before.len() as int));
            OptionValue::lemma_entry_models_prefix(self.items@, before, before.len());
        }
    }

    /// The message made of the gathered values.
    pub fn into_value(self) -> (r: OptionValue)
        ensures
            r.model() == ValueModel::Message(self.model()),
    {
        OptionValue::Message(Arc::new(self.items))
    }
}

/// The values of a list option, being gathered in order.
#[derive(Debug)]
pub struct Values {
    pub items: Vec<OptionValue>,
}

impl Values {
    /// The contents of the values gathered so far.
    pub open spec fn model(&self) -> Seq<ValueModel> {
        OptionValue::models(self.items@, self.items@.len())
    }

    /// No values yet.
    pub fn new() -> (r: Values)
        ensures
            r.model() == Seq::<ValueModel>::empty(),
    {
        Values { items: Vec::new() }
    }

    /// Adds a value at the end.
    pub fn push(&mut self, value: OptionValue)
        ensures
            final(self).model() == old(self).model().push(value.model()),
    {
        let ghost before = self.items@;
        self.items.push(value);
        proof {
            assert(self.items@.take(before.len() as int) =~= before.take(before.len() as int));
            OptionValue::lemma_models_prefix(self.items@, before, before.len());
        }
    }

    /// The list made of the gathered values.
    pub fn into_value(self) -> (r: OptionValue)
        ensures
            r.model() == ValueModel::List(self.model()),
    {
        OptionValue::List(Arc::new(self.items))
    }
}

/// A helper to build a list of enum values
pub fn enum_values_list(l: &Vec<&str>) -> (r: OptionValue)
    ensures
        r.model() == ValueModel::List(l@.map_values(|s: &str| ValueModel::Enum(s@))),
{
    let mut values = Values::new();
    let mut i: usize = 0;
    while i < l.len()
        invariant
            i <= l@.len(),
            values.model() == l@.take(i as int).map_values(|s: &str| ValueModel::Enum(s@)),
        decreases l@.len() - i,
    {
        values.push(OptionValue::Enum(Arc::new(String::from_str(l[i]))));
        proof {
            assert(l@.take(i + 1).map_values(|s: &str| ValueModel::Enum(s@))
                =~= l@.take(i as int).map_values(|s: &str| ValueModel::Enum(s@)).push(ValueModel::Enum(l@[i as int]@)));
        }
        i = i + 1;
    }
    proof {
        assert(l@.take(i as int) =~= l@);
    }
    values.into_value()
}

/// A helper to build an [`OptionValue`]::Message from named values.
pub fn message_value(v: Vec<(&str, OptionValue)>) -> (r: OptionValue)
    ensures
        r.model() == ValueModel::Message(v@.map_values(|e: (&str, OptionValue)| (e.0@, e.1.model()))),
{
    let ghost orig = v@;
    let total = v.len();
    let mut rest = v;
    let mut entries = Entries::new();
    let mut k: usize = 0;
    while rest.len() > 0
        invariant
            k + rest@.len() == orig.len(),
            orig.len() == total,
            rest@ == orig.skip(k as int),
            entries.model() == orig.take(k as int).map_values(|e: (&str, OptionValue)| (e.0@, e.1.model())),
        decreases rest@.len(),
    {
        let (name, value) = rest.remove(0);
        assert(orig[k as int] == (name, value));
        entries.push(name, value);
        proof {
            assert(orig.take(k + 1).map_values(|e: (&str, OptionValue)| (e.0@, e.1.model()))
                =~= orig.take(k as int).map_values(|e: (&str, OptionValue)| (e.0@, e.1.model())).push((name@, value.model())));
        }
        k = k + 1;
        proof {
            assert(rest@ =~= orig.skip(k as int));
        }
    }
    proof {
        assert(orig.take(k as int) =~= orig);
    }
    entries.into_value()
}

impl OptionValue {
    /// A string value holding `s`.
    pub fn string(s: &str) -> (r: OptionValue)
        ensures
            r.model() == ValueModel::String(s@),
    {
        OptionValue::String(Arc::new(String::from_str(s)))
    }

    /// An enum value: the bare name `s`.
    pub fn enum_value(s: &str) -> (r: OptionValue)
        ensures
            r.model() == ValueModel::Enum(s@),
    {
        OptionValue::Enum(Arc::new(String::from_str(s)))
    }
}

impl From<bool> for OptionValue {
    fn from(value: bool) -> (r: OptionValue) {
        OptionValue::Bool(value)
    }
}

impl FromSpecImpl<bool> for OptionValue {
    open spec fn obeys_from_spec() -> bool {
        true
    }

    open spec fn from_spec(v: bool) -> OptionValue {
        OptionValue::Bool(v)
    }
}

impl From<i64> for OptionValue {
    fn from(value: i64) -> (r: OptionValue) {
        OptionValue::Int(value)
    }
}

impl FromSpecImpl<i64> for OptionValue {
    open spec fn obeys_from_spec() -> bool {
        true
    }

    open spec fn from_spec(v: i64) -> OptionValue {
        OptionValue::Int(v)
    }
}

impl From<i32> for OptionValue {
    fn from(value: i32) -> (r: OptionValue) {
        OptionValue::Int(value as i64)
    }
}

impl FromSpecImpl<i32> for OptionValue {
    open spec fn obeys_from_spec() -> bool {
        true
    }

    open spec fn from_spec(v: i32) -> OptionValue {
        OptionValue::Int(v as i64)
    }
}

impl From<u64> for OptionValue {
    fn from(value: u64) -> (r: OptionValue) {
        OptionValue::Uint(value)
    }
}

impl FromSpecImpl<u64> for OptionValue {
    open spec fn obeys_from_spec() -> bool {
        true
    }

    open spec fn from_spec(v: u64) -> OptionValue {
        OptionValue::Uint(v)
    }
}

impl From<u32> for OptionValue {
    fn from(value: u32) -> (r: OptionValue) {
        OptionValue::Uint(value as u64)
    }
}

impl FromSpecImpl<u32> for OptionValue {
    open spec fn obeys_from_spec() -> bool {
        true
    }

    open spec fn from_spec(v: u32) -> OptionValue {
        OptionValue::Uint(v as u64)
    }
}

impl From<Duration> for OptionValue {
    fn from(value: Duration) -> (r: OptionValue) {
        OptionValue::Duration(value)
    }
}

impl FromSpecImpl<Duration> for OptionValue {
    open spec fn obeys_from_spec() -> bool {
        true
    }

    open spec fn from_spec(v: Duration) -> OptionValue {
        OptionValue::Duration(v)
    }
}

impl From<Timestamp> for OptionValue {
    fn from(value: Timestamp) -> (r: OptionValue) {
        OptionValue::Timestamp(value)
    }
}

impl FromSpecImpl<Timestamp> for OptionValue {
    open spec fn obeys_from_spec() -> bool {
        true
    }

    open spec fn from_spec(v: Timestamp) -> OptionValue {
        OptionValue::Timestamp(v)
    }
}

} // verus!
