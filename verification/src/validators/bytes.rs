//! Rules for `bytes` fields, and how bytes are written as a protobuf string literal.

use vstd::prelude::*;
use std::sync::Arc;

use crate::options::{Entries, OptionValue, ProtoOption, ValueModel, Values};
use crate::text::push_char;
use super::cel::CelRule;
use super::enums::vec_or_empty;
use super::{entry_if, field_rules_model, field_rules_option, holds, lengths_consistent, push_if, FIELD_RULES_OPTION};
use super::{count_set, group_rule_named, rule_named, written};

use super::law_field_rules_layout;
verus! {

/// The lowercase hexadecimal digit of `n`, below 16.
pub open spec fn hex_digit(n: u8) -> char {
    if n < 10 {
        ((n + 48) as u8) as char
    } else {
        ((n + 87) as u8) as char
    }
}

/// Whether a byte stands for itself in a protobuf string literal: printable
/// ASCII but the double quote and the backslash.
pub open spec fn is_plain_byte(b: u8) -> bool {
    (0x20 <= b <= 0x21) || (0x23 <= b <= 0x5B) || (0x5D <= b <= 0x7E)
}

/// How one byte is written inside a protobuf string literal: itself when it is
/// plain, `\\` and `\"` for the backslash and the double quote, `\xNN` otherwise.
pub open spec fn escaped_byte(b: u8) -> Seq<char> {
    if is_plain_byte(b) {
        seq![b as char]
    } else if b == 0x5C {
        seq!['\\', '\\']
    } else if b == 0x22 {
        seq!['\\', '"']
    } else {
        seq!['\\', 'x', hex_digit(b / 16), hex_digit(b % 16)]
    }
}

/// The bytes of `s`, each written as inside a protobuf string literal.
pub open spec fn escaped_bytes(s: Seq<u8>) -> Seq<char>
    decreases s.len(),
{
    if s.len() == 0 {
        Seq::empty()
    } else {
        escaped_bytes(s.drop_last()) + escaped_byte(s.last())
    }
}

/// The protobuf string literal holding the bytes `s`, quotes included.
pub open spec fn bytes_literal(s: Seq<u8>) -> Seq<char> {
    seq!['"'] + escaped_bytes(s) + seq!['"']
}

fn hex_char(n: u8) -> (c: char)
    requires
        n < 16,
    ensures
        c == hex_digit(n),
{
    if n < 10 {
        (n + 48) as char
    } else {
        (n + 87) as char
    }
}

/// Writes the bytes as a protobuf string literal, between double quotes.
pub fn format_bytes_as_proto_string_literal(bytes: &[u8]) -> (r: String)
    ensures
        r@ == bytes_literal(bytes@),
{
    let mut result = String::new();
    push_char(&mut result, '"');
    let mut i: usize = 0;
    while i < bytes.len()
        invariant
            i <= bytes@.len(),
            result@ == seq!['"'] + escaped_bytes(bytes@.take(i as int)),
        decreases bytes@.len() - i,
    {
        let byte = bytes[i];
        let ghost before = result@;
        if (0x20 <= byte && byte <= 0x21) || (0x23 <= byte && byte <= 0x5B) || (0x5D <= byte && byte <= 0x7E) {
            push_char(&mut result, byte as char);
        } else if byte == 0x5C {
            push_char(&mut result, '\\');
            push_char(&mut result, '\\');
        } else if byte == 0x22 {
            push_char(&mut result, '\\');
            push_char(&mut result, '"');
        } else {
            push_char(&mut result, '\\');
            push_char(&mut result, 'x');
            push_char(&mut result, hex_char(byte / 16));
            push_char(&mut result, hex_char(byte % 16));
        }
        proof {
            assert(result@ =~= before + escaped_byte(byte));
            assert(bytes@.take(i + 1).drop_last() =~= bytes@.take(i as int));
        }
        i = i + 1;
    }
    push_char(&mut result, '"');
    proof {
        assert(bytes@.take(i as int) =~= bytes@);
    }
    result
}

/// The value of a lowercase hexadecimal digit.
pub open spec fn hex_value(c: char) -> int {
    if c <= '9' {
        c as int - 48
    } else {
        c as int - 87
    }
}

/// The bytes that the text `s` stands for inside a protobuf string literal:
/// `\\`, `\"` and `\xNN` stand for one byte each, every other character for itself.
pub open spec fn unescaped(s: Seq<char>) -> Seq<u8>
    decreases s.len(),
{
    if s.len() == 0 {
        Seq::empty()
    } else if s[0] == '\\' && s.len() >= 2 && s[1] == '\\' {
        seq![0x5Cu8] + unescaped(s.skip(2))
    } else if s[0] == '\\' && s.len() >= 2 && s[1] == '"' {
        seq![0x22u8] + unescaped(s.skip(2))
    } else if s[0] == '\\' && s.len() >= 4 && s[1] == 'x' {
        seq![(16 * hex_value(s[2]) + hex_value(s[3])) as u8] + unescaped(s.skip(4))
    } else {
        seq![s[0] as u8] + unescaped(s.skip(1))
    }
}

/// Reading one escaped byte gives the byte back, then reads on.
proof fn lemma_unescape_one(b: u8, rest: Seq<char>)
    ensures
        unescaped(escaped_byte(b) + rest) == seq![b] + unescaped(rest),
{
    let e = escaped_byte(b);
    if is_plain_byte(b) {
        assert((e + rest).skip(1) =~= rest);
        assert((e + rest)[0] == b as char);
        assert(((b as char) as u8) == b);
    } else if b == 0x5C {
        assert((e + rest).skip(2) =~= rest);
    } else if b == 0x22 {
        assert((e + rest).skip(2) =~= rest);
    } else {
        assert((e + rest).skip(4) =~= rest);
        assert((e + rest)[2] == hex_digit(b / 16));
        assert((e + rest)[3] == hex_digit(b % 16));
        assert(16 * hex_value(hex_digit(b / 16)) + hex_value(hex_digit(b % 16)) == b as int);
    }
}

/// Escaping bytes one after the other is escaping them all at once.
proof fn lemma_escaped_concat(a: Seq<u8>, c: Seq<u8>)
    ensures
        escaped_bytes(a + c) == escaped_bytes(a) + escaped_bytes(c),
    decreases c.len(),
{
    if c.len() == 0 {
        assert(a + c =~= a);
        assert(escaped_bytes(a) + escaped_bytes(c) =~= escaped_bytes(a));
    } else {
        lemma_escaped_concat(a, c.drop_last());
        assert((a + c).drop_last() =~= a + c.drop_last());
        assert((a + c).last() == c.last());
        assert(escaped_bytes(a) + escaped_bytes(c) =~= escaped_bytes(a) + escaped_bytes(c.drop_last()) + escaped_byte(c.last()));
    }
}

/// Reading back what [`format_bytes_as_proto_string_literal`] writes gives the
/// bytes that were written: the literal is the escaped bytes between double
/// quotes, and reading the escaped bytes gives back each byte, in order.
pub proof fn law_bytes_literal_round_trip(bytes: Seq<u8>)
    ensures
        bytes_literal(bytes).len() >= 2,
        bytes_literal(bytes)[0] == '"',
        bytes_literal(bytes).last() == '"',
        unescaped(bytes_literal(bytes).subrange(1, bytes_literal(bytes).len() - 1)) == bytes,
    decreases bytes.len(),
{
    let lit = bytes_literal(bytes);
    assert(lit.subrange(1, lit.len() - 1) =~= escaped_bytes(bytes));
    lemma_unescape_all(bytes);
}

/// Reading escaped bytes gives the bytes back.
proof fn lemma_unescape_all(bytes: Seq<u8>)
    ensures
        unescaped(escaped_bytes(bytes)) == bytes,
    decreases bytes.len(),
{
    if bytes.len() == 0 {
        assert(escaped_bytes(bytes) =~= Seq::<char>::empty());
    } else {
        let first = seq![bytes[0]];
        let rest = bytes.skip(1);
        assert(bytes =~= first + rest);
        lemma_escaped_concat(first, rest);
        assert(first.drop_last() =~= Seq::<u8>::empty());
        assert(escaped_bytes(first.drop_last()) =~= Seq::<char>::empty());
        assert(first.last() == bytes[0]);
        assert(escaped_bytes(first) =~= escaped_byte(bytes[0]));
        lemma_unescape_one(bytes[0], escaped_bytes(rest));
        lemma_unescape_all(rest);
        assert(seq![bytes[0]] + rest =~= bytes);
    }
}

/// The well known formats of a `bytes` field.
#[derive(Clone, Debug, Copy, PartialEq, Eq)]
pub enum WellKnown {
    Ip,
    Ipv4,
    Ipv6,
}

impl WellKnown {
    /// The entries that set this rule.
    pub open spec fn entries_model(self) -> Seq<(Seq<char>, ValueModel)> {
        match self {
            WellKnown::Ip => seq![("ip"@, ValueModel::Bool(true))],
            WellKnown::Ipv4 => seq![("ipv4"@, ValueModel::Bool(true))],
            WellKnown::Ipv6 => seq![("ipv6"@, ValueModel::Bool(true))],
        }
    }

    /// Adds the entries that set this rule to `entries`.
    pub fn to_option(self, entries: &mut Entries)
        ensures
            final(entries).model() == old(entries).model() + self.entries_model(),
    {
        let ghost before = entries.model();
        match self {
            WellKnown::Ip => entries.push("ip", OptionValue::Bool(true)),
            WellKnown::Ipv4 => entries.push("ipv4", OptionValue::Bool(true)),
            WellKnown::Ipv6 => entries.push("ipv6", OptionValue::Bool(true)),
        }
        assert(entries.model() =~= before + self.entries_model());
    }
}

/// The entry `name: "literal"` when bytes are given, nothing otherwise.
pub open spec fn bytes_entry_if(name: Seq<char>, value: Option<&[u8]>) -> Seq<(Seq<char>, ValueModel)> {
    match value {
        Some(b) => seq![(name, ValueModel::String(bytes_literal(b@)))],
        None => Seq::empty(),
    }
}

/// The entry `name: [ "literal", .. ]` when a list of byte strings is given.
pub open spec fn bytes_list_entry_if(name: Seq<char>, list: Option<Vec<&[u8]>>) -> Seq<(Seq<char>, ValueModel)> {
    match list {
        Some(l) => seq![(name, ValueModel::List(l@.map_values(|b: &[u8]| ValueModel::String(bytes_literal(b@)))))],
        None => Seq::empty(),
    }
}

/// What a bytes rule is written as when it is set: the string literal of its bytes.
pub open spec fn written_bytes(value: Option<&[u8]>) -> Option<ValueModel> {
    match value {
        Some(b) => Some(ValueModel::String(bytes_literal(b@))),
        None => None,
    }
}

/// What a list of byte strings is written as when it is set: the list of their literals.
pub open spec fn written_bytes_list(list: Option<Vec<&[u8]>>) -> Option<ValueModel> {
    match list {
        Some(l) => Some(ValueModel::List(l@.map_values(|b: &[u8]| ValueModel::String(bytes_literal(b@))))),
        None => None,
    }
}

/// Adds `name: "literal"` to `entries` when bytes are given.
fn push_bytes_if(entries: &mut Entries, name: &str, value: Option<&[u8]>)
    ensures
        final(entries).model() == old(entries).model() + bytes_entry_if(name@, value),
{
    match value {
        Some(b) => {
            let literal = format_bytes_as_proto_string_literal(b);
            entries.push(name, OptionValue::String(Arc::new(literal)));
        },
        None => {},
    }
    assert(final(entries).model() =~= old(entries).model() + bytes_entry_if(name@, value));
}

/// Adds `name: [ "literal", .. ]` to `entries` when a list of byte strings is given.
fn push_bytes_list_if(entries: &mut Entries, name: &str, list: &Option<Vec<&[u8]>>)
    ensures
        final(entries).model() == old(entries).model() + bytes_list_entry_if(name@, *list),
{
    match list {
        Some(l) => {
            let mut values = Values::new();
            let mut i: usize = 0;
            while i < l.len()
                invariant
                    i <= l@.len(),
                    values.model() == l@.take(i as int).map_values(|b: &[u8]| ValueModel::String(bytes_literal(b@))),
                decreases l@.len() - i,
            {
                let literal = format_bytes_as_proto_string_literal(l[i]);
                values.push(OptionValue::String(Arc::new(literal)));
                proof {
                    assert(l@.take(i + 1).map_values(|b: &[u8]| ValueModel::String(bytes_literal(b@)))
                        =~= l@.take(i as int).map_values(|b: &[u8]| ValueModel::String(bytes_literal(b@)))
                            .push(ValueModel::String(bytes_literal(l@[i as int]@))));
                }
                i = i + 1;
            }
            proof {
                assert(l@.take(i as int) =~= l@);
            }
            entries.push(name, values.into_value());
        },
        None => {},
    }
    assert(final(entries).model() =~= old(entries).model() + bytes_list_entry_if(name@, *list));
}

/// Rules for a `bytes` field.
#[derive(Clone, Debug)]
pub struct BytesValidator<'a> {
    /// The exact length in bytes.
    pub len: Option<u64>,
    /// The minimum length in bytes.
    pub min_len: Option<u64>,
    /// The maximum length in bytes.
    pub max_len: Option<u64>,
    /// A regex pattern, as written, that the value must match.
    pub pattern: Option<&'a str>,
    /// The bytes that the value must start with.
    pub prefix: Option<&'a [u8]>,
    /// The bytes that the value must end with.
    pub suffix: Option<&'a [u8]>,
    /// The bytes that the value must contain.
    pub contains: Option<&'a [u8]>,
    /// Only the values in this list will be considered valid for this field.
    pub in_: Option<Vec<&'a [u8]>>,
    /// The values in this list will be considered invalid for this field.
    pub not_in: Option<Vec<&'a [u8]>>,
    /// A well known format that the value must have.
    pub well_known: Option<WellKnown>,
    /// Only this specific value will be considered valid for this field.
    pub const_: Option<&'a [u8]>,
    /// Adds custom validation using one or more [`CelRule`]s to this field.
    pub cel: Option<Vec<CelRule>>,
    /// Marks the field as invalid if unset.
    pub required: Option<bool>,
}

impl<'a> Default for BytesValidator<'a> {
    fn default() -> (r: Self)
        ensures
            r.len is None,
            r.min_len is None,
            r.max_len is None,
            r.pattern is None,
            r.prefix is None,
            r.suffix is None,
            r.contains is None,
            r.in_ is None,
            r.not_in is None,
            r.well_known is None,
            r.const_ is None,
            r.cel is None,
            r.required is None,
    {
        BytesValidator {
            len: None,
            min_len: None,
            max_len: None,
            pattern: None,
            prefix: None,
            suffix: None,
            contains: None,
            in_: None,
            not_in: None,
            well_known: None,
            const_: None,
            cel: None,
            required: None,
        }
    }
}

/// The entries of a well known rule, when one is given.
pub open spec fn well_known_entries(w: Option<WellKnown>) -> Seq<(Seq<char>, ValueModel)> {
    match w {
        Some(k) => k.entries_model(),
        None => Seq::empty(),
    }
}

impl<'a> BytesValidator<'a> {
    /// A constant value stands alone; otherwise the minimum length is not above the
    /// maximum one, and no value is both in `in_` and in `not_in`.
    pub open spec fn is_valid(&self) -> bool {
        self.const_ is Some || (lengths_consistent(self.min_len, self.max_len)
            && forall|i: int| 0 <= i < vec_or_empty(self.in_).len() ==> !holds(vec_or_empty(self.not_in), #[trigger] vec_or_empty(self.in_)[i]))
    }

    /// The length rules: an exact length replaces the bounds.
    pub open spec fn length_model(&self) -> Seq<(Seq<char>, ValueModel)> {
        if self.len is None {
            entry_if("min_len"@, self.min_len) + entry_if("max_len"@, self.max_len)
        } else {
            entry_if("len"@, self.len)
        }
    }

    /// The rules written under `bytes`.
    pub open spec fn rules_model(&self) -> Seq<(Seq<char>, ValueModel)> {
        self.length_model() + entry_if("pattern"@, self.pattern)
            + bytes_entry_if("contains"@, self.contains) + bytes_entry_if("prefix"@, self.prefix)
            + bytes_entry_if("suffix"@, self.suffix)
            + bytes_list_entry_if("in"@, self.in_) + bytes_list_entry_if("not_in"@, self.not_in)
            + well_known_entries(self.well_known)
    }

    /// The value of the option: a constant value alone when one is given;
    /// otherwise the rules under `bytes`, the CEL rules and whether the field is required.
    pub open spec fn value_model(&self) -> ValueModel {
        match self.const_ {
            Some(c) => ValueModel::Message(seq![("const"@, ValueModel::String(bytes_literal(c@)))]),
            None => field_rules_model("bytes"@, self.rules_model(), self.cel, self.required),
        }
    }

    /// Builds the option that carries these rules.
    pub fn to_option(self) -> (r: ProtoOption)
        requires
            self.is_valid(),
        ensures
            r.name@ == FIELD_RULES_OPTION@,
            r.value.model() == self.value_model(),
    {
        if let Some(c) = self.const_ {
            let mut values = Entries::new();
            push_bytes_if(&mut values, "const", Some(c));
            proof {
                assert(values.model() =~= seq![("const"@, ValueModel::String(bytes_literal(c@)))]);
            }
            return ProtoOption { name: FIELD_RULES_OPTION, value: Arc::new(values.into_value()) };
        }
        let mut rules = Entries::new();
        if self.len.is_none() {
            push_if(&mut rules, "min_len", self.min_len);
            push_if(&mut rules, "max_len", self.max_len);
        } else {
            push_if(&mut rules, "len", self.len);
        }
        assert(rules.model() =~= self.length_model());
        push_if(&mut rules, "pattern", self.pattern);
        push_bytes_if(&mut rules, "contains", self.contains);
        push_bytes_if(&mut rules, "prefix", self.prefix);
        push_bytes_if(&mut rules, "suffix", self.suffix);
        push_bytes_list_if(&mut rules, "in", &self.in_);
        push_bytes_list_if(&mut rules, "not_in", &self.not_in);
        let ghost before_well_known = rules.model();
        match self.well_known {
            Some(w) => w.to_option(&mut rules),
            None => {},
        }
        assert(rules.model() =~= before_well_known + well_known_entries(self.well_known));
        proof {
            assert(rules.model() =~= self.rules_model());
        }
        field_rules_option("bytes", rules, &self.cel, self.required)
    }
}

} // verus!

verus! {

impl<'a> BytesValidator<'a> {
    /// No rule set.
    pub open spec fn empty() -> BytesValidator<'a> {
        BytesValidator { len: None, min_len: None, max_len: None, pattern: None, prefix: None, suffix: None, contains: None, in_: None, not_in: None, well_known: None, const_: None, cel: None, required: None }
    }
}

/// Builds the option for the rules that `config_fn` sets, starting from none.
pub fn build_bytes_validator_option<'a, F: FnOnce(BytesValidator<'a>) -> BytesValidator<'a>>(config_fn: F) -> (r: ProtoOption)
    requires
        call_requires(config_fn, (BytesValidator::empty(),)),
        forall|v: BytesValidator<'a>| #[trigger] call_ensures(config_fn, (BytesValidator::empty(),), v) ==> v.is_valid(),
    ensures
        exists|v: BytesValidator<'a>| #[trigger] call_ensures(config_fn, (BytesValidator::empty(),), v)
            && r.name@ == FIELD_RULES_OPTION@
            && r.value.model() == v.value_model(),
{
    let start = BytesValidator::default();
    assert(start == BytesValidator::empty());
    let validator = config_fn(start);
    validator.to_option()
}

} // verus!

verus! {

/// Each rule that a bytes validator sets is written under the name of its field,
/// holding the field's value (bytes as escaped string literals), and no entry
/// stands for a field left unset: an exact length replaces the bounds.
pub proof fn law_bytes_rules_named_after_fields<'a>(v: BytesValidator<'a>)
    ensures
        rule_named(v.rules_model(), "len"@) == written(v.len),
        rule_named(v.rules_model(), "min_len"@) == (if v.len is None { written(v.min_len) } else { None }),
        rule_named(v.rules_model(), "max_len"@) == (if v.len is None { written(v.max_len) } else { None }),
        rule_named(v.rules_model(), "pattern"@) == written(v.pattern),
        rule_named(v.rules_model(), "contains"@) == written_bytes(v.contains),
        rule_named(v.rules_model(), "prefix"@) == written_bytes(v.prefix),
        rule_named(v.rules_model(), "suffix"@) == written_bytes(v.suffix),
        rule_named(v.rules_model(), "in"@) == written_bytes_list(v.in_),
        rule_named(v.rules_model(), "not_in"@) == written_bytes_list(v.not_in),
        rule_named(v.rules_model(), "ip"@) == (if v.well_known == Some(WellKnown::Ip) { Some(ValueModel::Bool(true)) } else { None }),
        rule_named(v.rules_model(), "ipv4"@) == (if v.well_known == Some(WellKnown::Ipv4) { Some(ValueModel::Bool(true)) } else { None }),
        rule_named(v.rules_model(), "ipv6"@) == (if v.well_known == Some(WellKnown::Ipv6) { Some(ValueModel::Bool(true)) } else { None }),
        v.rules_model().len() == (if v.len is None { count_set(v.min_len) + count_set(v.max_len) } else { 1 })
            + count_set(v.pattern) + count_set(v.contains) + count_set(v.prefix) + count_set(v.suffix) + count_set(v.in_) + count_set(v.not_in) + count_set(v.well_known),
{
    broadcast use group_rule_named;
    reveal_strlit("len");
    reveal_strlit("min_len");
    reveal_strlit("max_len");
    reveal_strlit("pattern");
    reveal_strlit("contains");
    reveal_strlit("prefix");
    reveal_strlit("suffix");
    reveal_strlit("in");
    reveal_strlit("not_in");
    reveal_strlit("ip");
    reveal_strlit("ipv4");
    reveal_strlit("ipv6");
    assert("len"@.len() == 3);
    assert("min_len"@.len() == 7 && "min_len"@[0] == 'm' && "min_len"@[1] == 'i');
    assert("max_len"@.len() == 7 && "max_len"@[0] == 'm' && "max_len"@[1] == 'a');
    assert("pattern"@.len() == 7 && "pattern"@[0] == 'p');
    assert("contains"@.len() == 8);
    assert("prefix"@.len() == 6 && "prefix"@[0] == 'p');
    assert("suffix"@.len() == 6 && "suffix"@[0] == 's');
    assert("in"@.len() == 2 && "in"@[1] == 'n');
    assert("not_in"@.len() == 6 && "not_in"@[0] == 'n');
    assert("ip"@.len() == 2 && "ip"@[1] == 'p');
    assert("ipv4"@.len() == 4 && "ipv4"@[3] == '4');
    assert("ipv6"@.len() == 4 && "ipv6"@[3] == '6');
}

} // verus!

verus! {

/// A constant value stands alone in the option, under `const`; otherwise the
/// option holds the rules under `bytes`, whether the field is required under
/// `required`, and otherwise only the CEL rules.
pub proof fn law_bytes_option_layout<'a>(v: BytesValidator<'a>)
    ensures
        v.value_model() is Message,
        v.const_ is Some ==> rule_named(v.value_model()->Message_0, "const"@) == Some(ValueModel::String(bytes_literal((v.const_->0)@)))
            && v.value_model()->Message_0.len() == 1,
        v.const_ is None ==> rule_named(v.value_model()->Message_0, "bytes"@) == Some(ValueModel::Message(v.rules_model()))
            && rule_named(v.value_model()->Message_0, "required"@) == written(v.required)
            && v.value_model()->Message_0.len() == 1 + count_set(v.cel) + count_set(v.required),
{
    broadcast use group_rule_named;
    reveal_strlit("bytes");
    reveal_strlit("cel");
    reveal_strlit("required");
    assert("bytes"@.len() == 5 && "cel"@.len() == 3 && "required"@.len() == 8);
    if v.const_ is None {
        law_field_rules_layout("bytes"@, v.rules_model(), v.cel, v.required);
    }
}

} // verus!
