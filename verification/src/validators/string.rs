//! Rules for `string` fields.

use vstd::prelude::*;

use crate::options::{Entries, OptionValue, ProtoOption, ValueModel};
use super::cel::CelRule;
use super::enums::vec_or_empty;
use super::{
    entry_if, field_rules_model, field_rules_option, holds, lengths_consistent, list_entry_if, push_if, push_list_if,
    Ignore, FIELD_RULES_OPTION,
};
use super::{count_set, group_rule_named, rule_named, written, written_list};

use super::law_field_rules_layout;
verus! {

/// All of the variants for protovalidate's well known string rules
#[derive(Clone, Debug, Copy, PartialEq, Eq)]
pub enum WellKnown {
    Email,
    Hostname,
    Ip,
    Ipv4,
    Ipv6,
    Uri,
    UriRef,
    Address,
    Uuid,
    Tuuid,
    IpWithPrefixlen,
    Ipv4WithPrefixlen,
    Ipv6WithPrefixlen,
    IpPrefix,
    Ipv4Prefix,
    Ipv6Prefix,
    HostAndPort,
    HeaderNameLoose,
    HeaderNameStrict,
    HeaderValueLoose,
    HeaderValueStrict,
}

impl WellKnown {
    /// The entries that set this rule.
    pub open spec fn entries_model(self) -> Seq<(Seq<char>, ValueModel)> {
        match self {
            WellKnown::Email => seq![("email"@, ValueModel::Bool(true))],
            WellKnown::Hostname => seq![("hostname"@, ValueModel::Bool(true))],
            WellKnown::Ip => seq![("ip"@, ValueModel::Bool(true))],
            WellKnown::Ipv4 => seq![("ipv4"@, ValueModel::Bool(true))],
            WellKnown::Ipv6 => seq![("ipv6"@, ValueModel::Bool(true))],
            WellKnown::Uri => seq![("uri"@, ValueModel::Bool(true))],
            WellKnown::UriRef => seq![("uri_ref"@, ValueModel::Bool(true))],
            WellKnown::Address => seq![("address"@, ValueModel::Bool(true))],
            WellKnown::Uuid => seq![("uuid"@, ValueModel::Bool(true))],
            WellKnown::Tuuid => seq![("tuuid"@, ValueModel::Bool(true))],
            WellKnown::IpWithPrefixlen => seq![("ip_with_prefixlen"@, ValueModel::Bool(true))],
            WellKnown::Ipv4WithPrefixlen => seq![("ipv4_with_prefixlen"@, ValueModel::Bool(true))],
            WellKnown::Ipv6WithPrefixlen => seq![("ipv6_with_prefixlen"@, ValueModel::Bool(true))],
            WellKnown::IpPrefix => seq![("ip_prefix"@, ValueModel::Bool(true))],
            WellKnown::Ipv4Prefix => seq![("ipv4_prefix"@, ValueModel::Bool(true))],
            WellKnown::Ipv6Prefix => seq![("ipv6_prefix"@, ValueModel::Bool(true))],
            WellKnown::HostAndPort => seq![("host_and_port"@, ValueModel::Bool(true))],
            WellKnown::HeaderNameLoose => seq![("well_known_regex"@, ValueModel::Enum("KNOWN_REGEX_HTTP_HEADER_NAME"@)), ("strict"@, ValueModel::Bool(false))],
            WellKnown::HeaderNameStrict => seq![("well_known_regex"@, ValueModel::Enum("KNOWN_REGEX_HTTP_HEADER_NAME"@)), ("strict"@, ValueModel::Bool(true))],
            WellKnown::HeaderValueLoose => seq![("well_known_regex"@, ValueModel::Enum("KNOWN_REGEX_HTTP_HEADER_VALUE"@)), ("strict"@, ValueModel::Bool(false))],
            WellKnown::HeaderValueStrict => seq![("well_known_regex"@, ValueModel::Enum("KNOWN_REGEX_HTTP_HEADER_VALUE"@)), ("strict"@, ValueModel::Bool(true))],
        }
    }

    /// Adds the entries that set this rule to `entries`.
    pub fn to_option(self, entries: &mut Entries)
        ensures
            final(entries).model() == old(entries).model() + self.entries_model(),
    {
        let ghost before = entries.model();
        match self {
            WellKnown::Email => {
                entries.push("email", OptionValue::Bool(true));
            },
            WellKnown::Hostname => {
                entries.push("hostname", OptionValue::Bool(true));
            },
            WellKnown::Ip => {
                entries.push("ip", OptionValue::Bool(true));
            },
            WellKnown::Ipv4 => {
                entries.push("ipv4", OptionValue::Bool(true));
            },
            WellKnown::Ipv6 => {
                entries.push("ipv6", OptionValue::Bool(true));
            },
            WellKnown::Uri => {
                entries.push("uri", OptionValue::Bool(true));
            },
            WellKnown::UriRef => {
                entries.push("uri_ref", OptionValue::Bool(true));
            },
            WellKnown::Address => {
                entries.push("address", OptionValue::Bool(true));
            },
            WellKnown::Uuid => {
                entries.push("uuid", OptionValue::Bool(true));
            },
            WellKnown::Tuuid => {
                entries.push("tuuid", OptionValue::Bool(true));
            },
            WellKnown::IpWithPrefixlen => {
                entries.push("ip_with_prefixlen", OptionValue::Bool(true));
            },
            WellKnown::Ipv4WithPrefixlen => {
                entries.push("ipv4_with_prefixlen", OptionValue::Bool(true));
            },
            WellKnown::Ipv6WithPrefixlen => {
                entries.push("ipv6_with_prefixlen", OptionValue::Bool(true));
            },
            WellKnown::IpPrefix => {
                entries.push("ip_prefix", OptionValue::Bool(true));
            },
            WellKnown::Ipv4Prefix => {
                entries.push("ipv4_prefix", OptionValue::Bool(true));
            },
            WellKnown::Ipv6Prefix => {
                entries.push("ipv6_prefix", OptionValue::Bool(true));
            },
            WellKnown::HostAndPort => {
                entries.push("host_and_port", OptionValue::Bool(true));
            },
            WellKnown::HeaderNameLoose => {
                entries.push("well_known_regex", OptionValue::enum_value("KNOWN_REGEX_HTTP_HEADER_NAME"));
                entries.push("strict", OptionValue::Bool(false));
            },
            WellKnown::HeaderNameStrict => {
                entries.push("well_known_regex", OptionValue::enum_value("KNOWN_REGEX_HTTP_HEADER_NAME"));
                entries.push("strict", OptionValue::Bool(true));
            },
            WellKnown::HeaderValueLoose => {
                entries.push("well_known_regex", OptionValue::enum_value("KNOWN_REGEX_HTTP_HEADER_VALUE"));
                entries.push("strict", OptionValue::Bool(false));
            },
            WellKnown::HeaderValueStrict => {
                entries.push("well_known_regex", OptionValue::enum_value("KNOWN_REGEX_HTTP_HEADER_VALUE"));
                entries.push("strict", OptionValue::Bool(true));
            },
        }
        assert(entries.model() =~= before + self.entries_model());
    }
}

/// The entries of a well known rule, when one is given.
pub open spec fn well_known_entries(w: Option<WellKnown>) -> Seq<(Seq<char>, ValueModel)> {
    match w {
        Some(k) => k.entries_model(),
        None => Seq::empty(),
    }
}

/// Rules for a `string` field.
#[derive(Clone, Debug)]
pub struct StringValidator<'a> {
    /// The exact character length that this field's value must have in order to be considered valid.
    pub len: Option<u64>,
    /// The minimum character length for this field's value to be considered valid.
    pub min_len: Option<u64>,
    /// The maximum character length for this field's value to be considered valid.
    pub max_len: Option<u64>,
    /// The exact byte length that this field's value must have in order to be considered valid.
    pub len_bytes: Option<u64>,
    /// The minimum byte length for this field's value to be considered valid.
    pub min_bytes: Option<u64>,
    /// The maximum byte length for this field's value to be considered valid.
    pub max_bytes: Option<u64>,
    /// The regex pattern, as written, that this field's value should match in order to be considered valid.
    pub pattern: Option<&'a str>,
    /// The prefix that this field's value should contain in order to be considered valid.
    pub prefix: Option<&'a str>,
    /// The suffix that this field's value should contain in order to be considered valid.
    pub suffix: Option<&'a str>,
    /// The substring that this field's value should contain in order to be considered valid.
    pub contains: Option<&'a str>,
    /// The substring that this field's value must not contain in order to be considered valid.
    pub not_contains: Option<&'a str>,
    /// Only the values in this list will be considered valid for this field.
    pub in_: Option<Vec<&'a str>>,
    /// All the values in this list will be considered invalid for this field.
    pub not_in: Option<Vec<&'a str>>,
    /// A well known format that the value must have.
    pub well_known: Option<WellKnown>,
    /// Only this specific value will be considered valid for this field.
    pub const_: Option<&'a str>,
    /// Adds custom validation using one or more [`CelRule`]s to this field.
    pub cel: Option<Vec<CelRule>>,
    /// Marks the field as invalid if unset.
    pub required: Option<bool>,
    pub ignore: Option<Ignore>,
}

impl<'a> Default for StringValidator<'a> {
    fn default() -> (r: Self)
        ensures
            r.len is None,
            r.min_len is None,
            r.max_len is None,
            r.len_bytes is None,
            r.min_bytes is None,
            r.max_bytes is None,
            r.pattern is None,
            r.prefix is None,
            r.suffix is None,
            r.contains is None,
            r.not_contains is None,
            r.in_ is None,
            r.not_in is None,
            r.well_known is None,
            r.const_ is None,
            r.cel is None,
            r.required is None,
            r.ignore is None,
    {
        StringValidator {
            len: None,
            min_len: None,
            max_len: None,
            len_bytes: None,
            min_bytes: None,
            max_bytes: None,
            pattern: None,
            prefix: None,
            suffix: None,
            contains: None,
            not_contains: None,
            in_: None,
            not_in: None,
            well_known: None,
            const_: None,
            cel: None,
            required: None,
            ignore: None,
        }
    }
}

impl<'a> StringValidator<'a> {
    /// The minimum length is not above the maximum one, and no value is both in
    /// `in_` and in `not_in`.
    pub open spec fn is_valid(&self) -> bool {
        &&& lengths_consistent(self.min_len, self.max_len)
        &&& forall|i: int| 0 <= i < vec_or_empty(self.in_).len() ==> !holds(vec_or_empty(self.not_in), #[trigger] vec_or_empty(self.in_)[i])
    }

    /// The length rules: an exact length replaces the bounds.
    pub open spec fn length_model(&self) -> Seq<(Seq<char>, ValueModel)> {
        if self.len is None {
            entry_if("min_len"@, self.min_len) + entry_if("max_len"@, self.max_len)
        } else {
            entry_if("len"@, self.len)
        }
    }

    /// The byte length rules: an exact length replaces the bounds.
    pub open spec fn bytes_length_model(&self) -> Seq<(Seq<char>, ValueModel)> {
        if self.len_bytes is None {
            entry_if("min_bytes"@, self.min_bytes) + entry_if("max_bytes"@, self.max_bytes)
        } else {
            entry_if("len_bytes"@, self.len_bytes)
        }
    }

    /// The rules written under `string`.
    pub open spec fn rules_model(&self) -> Seq<(Seq<char>, ValueModel)> {
        entry_if("const"@, self.const_) + self.length_model() + self.bytes_length_model()
            + entry_if("pattern"@, self.pattern) + entry_if("prefix"@, self.prefix)
            + entry_if("suffix"@, self.suffix) + entry_if("contains"@, self.contains)
            + entry_if("not_contains"@, self.not_contains)
            + list_entry_if("in"@, self.in_) + list_entry_if("not_in"@, self.not_in)
            + well_known_entries(self.well_known)
    }

    /// The value of the option: the rules under `string`, then the CEL rules and
    /// whether the field is required.
    pub open spec fn value_model(&self) -> ValueModel {
        field_rules_model("string"@, self.rules_model(), self.cel, self.required)
    }

    /// Builds the option that carries these rules.
    pub fn to_option(self) -> (r: ProtoOption)
        requires
            self.is_valid(),
        ensures
            r.name@ == FIELD_RULES_OPTION@,
            r.value.model() == self.value_model(),
    {
        let mut rules = Entries::new();
        push_if(&mut rules, "const", self.const_);
        let ghost after_const = rules.model();
        if self.len.is_none() {
            push_if(&mut rules, "min_len", self.min_len);
            push_if(&mut rules, "max_len", self.max_len);
        } else {
            push_if(&mut rules, "len", self.len);
        }
        assert(rules.model() =~= after_const + self.length_model());
        let ghost after_len = rules.model();
        if self.len_bytes.is_none() {
            push_if(&mut rules, "min_bytes", self.min_bytes);
            push_if(&mut rules, "max_bytes", self.max_bytes);
        } else {
            push_if(&mut rules, "len_bytes", self.len_bytes);
        }
        assert(rules.model() =~= after_len + self.bytes_length_model());
        push_if(&mut rules, "pattern", self.pattern);
        push_if(&mut rules, "prefix", self.prefix);
        push_if(&mut rules, "suffix", self.suffix);
        push_if(&mut rules, "contains", self.contains);
        push_if(&mut rules, "not_contains", self.not_contains);
        push_list_if(&mut rules, "in", &self.in_);
        push_list_if(&mut rules, "not_in", &self.not_in);
        let ghost before_well_known = rules.model();
        match self.well_known {
            Some(w) => w.to_option(&mut rules),
            None => {},
        }
        assert(rules.model() =~= before_well_known + well_known_entries(self.well_known));
        proof {
            assert(rules.model() =~= self.rules_model());
        }
        field_rules_option("string", rules, &self.cel, self.required)
    }
}

} // verus!

verus! {

impl<'a> StringValidator<'a> {
    /// No rule set.
    pub open spec fn empty() -> StringValidator<'a> {
        StringValidator { len: None, min_len: None, max_len: None, len_bytes: None, min_bytes: None, max_bytes: None, pattern: None, prefix: None, suffix: None, contains: None, not_contains: None, in_: None, not_in: None, well_known: None, const_: None, cel: None, required: None, ignore: None }
    }
}

/// Builds the option for the rules that `config_fn` sets, starting from none.
pub fn build_string_validator_option<'a, F: FnOnce(StringValidator<'a>) -> StringValidator<'a>>(config_fn: F) -> (r: ProtoOption)
    requires
        call_requires(config_fn, (StringValidator::empty(),)),
        forall|v: StringValidator<'a>| #[trigger] call_ensures(config_fn, (StringValidator::empty(),), v) ==> v.is_valid(),
    ensures
        exists|v: StringValidator<'a>| #[trigger] call_ensures(config_fn, (StringValidator::empty(),), v)
            && r.name@ == FIELD_RULES_OPTION@
            && r.value.model() == v.value_model(),
{
    let start = StringValidator::default();
    assert(start == StringValidator::empty());
    let validator = config_fn(start);
    validator.to_option()
}

} // verus!

verus! {

/// The field rules of a string validator, looked up by the names of their fields.
proof fn lemma_string_field_rules_found<'a>(v: StringValidator<'a>)
    ensures
        rule_named(string_field_rules(v), "const"@) == written(v.const_),
        rule_named(string_field_rules(v), "len"@) == written(v.len),
        rule_named(string_field_rules(v), "min_len"@) == (if v.len is None { written(v.min_len) } else { None }),
        rule_named(string_field_rules(v), "max_len"@) == (if v.len is None { written(v.max_len) } else { None }),
        rule_named(string_field_rules(v), "len_bytes"@) == written(v.len_bytes),
        rule_named(string_field_rules(v), "min_bytes"@) == (if v.len_bytes is None { written(v.min_bytes) } else { None }),
        rule_named(string_field_rules(v), "max_bytes"@) == (if v.len_bytes is None { written(v.max_bytes) } else { None }),
        rule_named(string_field_rules(v), "pattern"@) == written(v.pattern),
        rule_named(string_field_rules(v), "prefix"@) == written(v.prefix),
        rule_named(string_field_rules(v), "suffix"@) == written(v.suffix),
        rule_named(string_field_rules(v), "contains"@) == written(v.contains),
        rule_named(string_field_rules(v), "not_contains"@) == written(v.not_contains),
        rule_named(string_field_rules(v), "in"@) == written_list(v.in_),
        rule_named(string_field_rules(v), "not_in"@) == written_list(v.not_in),
{
    broadcast use group_rule_named;
    reveal_strlit("const");
    reveal_strlit("len");
    reveal_strlit("min_len");
    reveal_strlit("max_len");
    reveal_strlit("len_bytes");
    reveal_strlit("min_bytes");
    reveal_strlit("max_bytes");
    reveal_strlit("pattern");
    reveal_strlit("prefix");
    reveal_strlit("suffix");
    reveal_strlit("contains");
    reveal_strlit("not_contains");
    reveal_strlit("in");
    reveal_strlit("not_in");
    assert("const"@.len() == 5);
    assert("len"@.len() == 3);
    assert("min_len"@.len() == 7 && "min_len"@[0] == 'm' && "min_len"@[1] == 'i');
    assert("max_len"@.len() == 7 && "max_len"@[0] == 'm' && "max_len"@[1] == 'a');
    assert("len_bytes"@.len() == 9 && "len_bytes"@[0] == 'l');
    assert("min_bytes"@.len() == 9 && "min_bytes"@[0] == 'm' && "min_bytes"@[1] == 'i');
    assert("max_bytes"@.len() == 9 && "max_bytes"@[0] == 'm' && "max_bytes"@[1] == 'a');
    assert("pattern"@.len() == 7 && "pattern"@[0] == 'p');
    assert("prefix"@.len() == 6 && "prefix"@[0] == 'p');
    assert("suffix"@.len() == 6 && "suffix"@[0] == 's');
    assert("contains"@.len() == 8);
    assert("not_contains"@.len() == 12);
    assert("in"@.len() == 2);
    assert("not_in"@.len() == 6 && "not_in"@[0] == 'n');
}

/// The field rules of a string validator hold no entry named like a well known format's.
proof fn lemma_string_field_rules_hold_no_format<'a>(v: StringValidator<'a>)
    ensures
        rule_named(string_field_rules(v), "email"@) == None::<ValueModel>,
        rule_named(string_field_rules(v), "hostname"@) == None::<ValueModel>,
        rule_named(string_field_rules(v), "ip"@) == None::<ValueModel>,
        rule_named(string_field_rules(v), "ipv4"@) == None::<ValueModel>,
        rule_named(string_field_rules(v), "ipv6"@) == None::<ValueModel>,
        rule_named(string_field_rules(v), "uri"@) == None::<ValueModel>,
        rule_named(string_field_rules(v), "uri_ref"@) == None::<ValueModel>,
        rule_named(string_field_rules(v), "address"@) == None::<ValueModel>,
        rule_named(string_field_rules(v), "uuid"@) == None::<ValueModel>,
        rule_named(string_field_rules(v), "tuuid"@) == None::<ValueModel>,
        rule_named(string_field_rules(v), "ip_with_prefixlen"@) == None::<ValueModel>,
        rule_named(string_field_rules(v), "ipv4_with_prefixlen"@) == None::<ValueModel>,
        rule_named(string_field_rules(v), "ipv6_with_prefixlen"@) == None::<ValueModel>,
        rule_named(string_field_rules(v), "ip_prefix"@) == None::<ValueModel>,
        rule_named(string_field_rules(v), "ipv4_prefix"@) == None::<ValueModel>,
        rule_named(string_field_rules(v), "ipv6_prefix"@) == None::<ValueModel>,
        rule_named(string_field_rules(v), "host_and_port"@) == None::<ValueModel>,
        rule_named(string_field_rules(v), "well_known_regex"@) == None::<ValueModel>,
        rule_named(string_field_rules(v), "strict"@) == None::<ValueModel>,
{
    broadcast use group_rule_named;
    reveal_strlit("const");
    reveal_strlit("len");
    reveal_strlit("min_len");
    reveal_strlit("max_len");
    reveal_strlit("len_bytes");
    reveal_strlit("min_bytes");
    reveal_strlit("max_bytes");
    reveal_strlit("pattern");
    reveal_strlit("prefix");
    reveal_strlit("suffix");
    reveal_strlit("contains");
    reveal_strlit("not_contains");
    reveal_strlit("in");
    reveal_strlit("not_in");
    reveal_strlit("email");
    reveal_strlit("hostname");
    reveal_strlit("ip");
    reveal_strlit("ipv4");
    reveal_strlit("ipv6");
    reveal_strlit("uri");
    reveal_strlit("uri_ref");
    reveal_strlit("address");
    reveal_strlit("uuid");
    reveal_strlit("tuuid");
    reveal_strlit("ip_with_prefixlen");
    reveal_strlit("ipv4_with_prefixlen");
    reveal_strlit("ipv6_with_prefixlen");
    reveal_strlit("ip_prefix");
    reveal_strlit("ipv4_prefix");
    reveal_strlit("ipv6_prefix");
    reveal_strlit("host_and_port");
    reveal_strlit("well_known_regex");
    reveal_strlit("strict");
    assert("const"@.len() == 5 && "const"@[0] == 'c');
    assert("len"@.len() == 3 && "len"@[0] == 'l');
    assert("min_len"@.len() == 7 && "min_len"@[0] == 'm' && "min_len"@[1] == 'i');
    assert("max_len"@.len() == 7 && "max_len"@[0] == 'm' && "max_len"@[1] == 'a');
    assert("len_bytes"@.len() == 9 && "len_bytes"@[0] == 'l');
    assert("min_bytes"@.len() == 9 && "min_bytes"@[0] == 'm' && "min_bytes"@[1] == 'i');
    assert("max_bytes"@.len() == 9 && "max_bytes"@[0] == 'm' && "max_bytes"@[1] == 'a');
    assert("pattern"@.len() == 7 && "pattern"@[0] == 'p');
    assert("prefix"@.len() == 6 && "prefix"@[0] == 'p');
    assert("suffix"@.len() == 6 && "suffix"@[0] == 's' && "suffix"@[1] == 'u');
    assert("contains"@.len() == 8 && "contains"@[0] == 'c');
    assert("not_contains"@.len() == 12);
    assert("in"@.len() == 2 && "in"@[1] == 'n');
    assert("not_in"@.len() == 6 && "not_in"@[0] == 'n');
    assert("email"@.len() == 5 && "email"@[0] == 'e');
    assert("hostname"@.len() == 8 && "hostname"@[0] == 'h');
    assert("ip"@.len() == 2 && "ip"@[1] == 'p');
    assert("ipv4"@.len() == 4 && "ipv4"@[0] == 'i' && "ipv4"@[3] == '4');
    assert("ipv6"@.len() == 4 && "ipv6"@[0] == 'i' && "ipv6"@[3] == '6');
    assert("uri"@.len() == 3 && "uri"@[0] == 'u');
    assert("uri_ref"@.len() == 7 && "uri_ref"@[0] == 'u');
    assert("address"@.len() == 7 && "address"@[0] == 'a');
    assert("uuid"@.len() == 4 && "uuid"@[0] == 'u');
    assert("tuuid"@.len() == 5 && "tuuid"@[0] == 't');
    assert("ip_with_prefixlen"@.len() == 17);
    assert("ipv4_with_prefixlen"@.len() == 19 && "ipv4_with_prefixlen"@[3] == '4');
    assert("ipv6_with_prefixlen"@.len() == 19 && "ipv6_with_prefixlen"@[3] == '6');
    assert("ip_prefix"@.len() == 9 && "ip_prefix"@[0] == 'i');
    assert("ipv4_prefix"@.len() == 11 && "ipv4_prefix"@[3] == '4');
    assert("ipv6_prefix"@.len() == 11 && "ipv6_prefix"@[3] == '6');
    assert("host_and_port"@.len() == 13);
    assert("well_known_regex"@.len() == 16);
    assert("strict"@.len() == 6 && "strict"@[0] == 's' && "strict"@[1] == 't');
}

/// The entries of a well known format, looked up by name.
proof fn lemma_well_known_found(w: Option<WellKnown>)
    ensures
        rule_named(well_known_entries(w), "email"@) == (if w == Some(WellKnown::Email) { Some(ValueModel::Bool(true)) } else { None }),
        rule_named(well_known_entries(w), "hostname"@) == (if w == Some(WellKnown::Hostname) { Some(ValueModel::Bool(true)) } else { None }),
        rule_named(well_known_entries(w), "ip"@) == (if w == Some(WellKnown::Ip) { Some(ValueModel::Bool(true)) } else { None }),
        rule_named(well_known_entries(w), "ipv4"@) == (if w == Some(WellKnown::Ipv4) { Some(ValueModel::Bool(true)) } else { None }),
        rule_named(well_known_entries(w), "ipv6"@) == (if w == Some(WellKnown::Ipv6) { Some(ValueModel::Bool(true)) } else { None }),
        rule_named(well_known_entries(w), "uri"@) == (if w == Some(WellKnown::Uri) { Some(ValueModel::Bool(true)) } else { None }),
        rule_named(well_known_entries(w), "uri_ref"@) == (if w == Some(WellKnown::UriRef) { Some(ValueModel::Bool(true)) } else { None }),
        rule_named(well_known_entries(w), "address"@) == (if w == Some(WellKnown::Address) { Some(ValueModel::Bool(true)) } else { None }),
        rule_named(well_known_entries(w), "uuid"@) == (if w == Some(WellKnown::Uuid) { Some(ValueModel::Bool(true)) } else { None }),
        rule_named(well_known_entries(w), "tuuid"@) == (if w == Some(WellKnown::Tuuid) { Some(ValueModel::Bool(true)) } else { None }),
        rule_named(well_known_entries(w), "ip_with_prefixlen"@) == (if w == Some(WellKnown::IpWithPrefixlen) { Some(ValueModel::Bool(true)) } else { None }),
        rule_named(well_known_entries(w), "ipv4_with_prefixlen"@) == (if w == Some(WellKnown::Ipv4WithPrefixlen) { Some(ValueModel::Bool(true)) } else { None }),
        rule_named(well_known_entries(w), "ipv6_with_prefixlen"@) == (if w == Some(WellKnown::Ipv6WithPrefixlen) { Some(ValueModel::Bool(true)) } else { None }),
        rule_named(well_known_entries(w), "ip_prefix"@) == (if w == Some(WellKnown::IpPrefix) { Some(ValueModel::Bool(true)) } else { None }),
        rule_named(well_known_entries(w), "ipv4_prefix"@) == (if w == Some(WellKnown::Ipv4Prefix) { Some(ValueModel::Bool(true)) } else { None }),
        rule_named(well_known_entries(w), "ipv6_prefix"@) == (if w == Some(WellKnown::Ipv6Prefix) { Some(ValueModel::Bool(true)) } else { None }),
        rule_named(well_known_entries(w), "host_and_port"@) == (if w == Some(WellKnown::HostAndPort) { Some(ValueModel::Bool(true)) } else { None }),
        rule_named(well_known_entries(w), "well_known_regex"@) == match w {
            Some(WellKnown::HeaderNameLoose) | Some(WellKnown::HeaderNameStrict) => Some(ValueModel::Enum("KNOWN_REGEX_HTTP_HEADER_NAME"@)),
            Some(WellKnown::HeaderValueLoose) | Some(WellKnown::HeaderValueStrict) => Some(ValueModel::Enum("KNOWN_REGEX_HTTP_HEADER_VALUE"@)),
            _ => None,
        },
        rule_named(well_known_entries(w), "strict"@) == match w {
            Some(WellKnown::HeaderNameLoose) | Some(WellKnown::HeaderValueLoose) => Some(ValueModel::Bool(false)),
            Some(WellKnown::HeaderNameStrict) | Some(WellKnown::HeaderValueStrict) => Some(ValueModel::Bool(true)),
            _ => None,
        },
{
    broadcast use group_rule_named;
    reveal_strlit("email");
    reveal_strlit("hostname");
    reveal_strlit("ip");
    reveal_strlit("ipv4");
    reveal_strlit("ipv6");
    reveal_strlit("uri");
    reveal_strlit("uri_ref");
    reveal_strlit("address");
    reveal_strlit("uuid");
    reveal_strlit("tuuid");
    reveal_strlit("ip_with_prefixlen");
    reveal_strlit("ipv4_with_prefixlen");
    reveal_strlit("ipv6_with_prefixlen");
    reveal_strlit("ip_prefix");
    reveal_strlit("ipv4_prefix");
    reveal_strlit("ipv6_prefix");
    reveal_strlit("host_and_port");
    reveal_strlit("well_known_regex");
    reveal_strlit("strict");
    assert("email"@.len() == 5 && "email"@[0] == 'e');
    assert("hostname"@.len() == 8);
    assert("ip"@.len() == 2);
    assert("ipv4"@.len() == 4 && "ipv4"@[0] == 'i' && "ipv4"@[3] == '4');
    assert("ipv6"@.len() == 4 && "ipv6"@[0] == 'i' && "ipv6"@[3] == '6');
    assert("uri"@.len() == 3);
    assert("uri_ref"@.len() == 7 && "uri_ref"@[0] == 'u');
    assert("address"@.len() == 7 && "address"@[0] == 'a');
    assert("uuid"@.len() == 4 && "uuid"@[0] == 'u');
    assert("tuuid"@.len() == 5 && "tuuid"@[0] == 't');
    assert("ip_with_prefixlen"@.len() == 17);
    assert("ipv4_with_prefixlen"@.len() == 19 && "ipv4_with_prefixlen"@[3] == '4');
    assert("ipv6_with_prefixlen"@.len() == 19 && "ipv6_with_prefixlen"@[3] == '6');
    assert("ip_prefix"@.len() == 9);
    assert("ipv4_prefix"@.len() == 11 && "ipv4_prefix"@[3] == '4');
    assert("ipv6_prefix"@.len() == 11 && "ipv6_prefix"@[3] == '6');
    assert("host_and_port"@.len() == 13);
    assert("well_known_regex"@.len() == 16);
    assert("strict"@.len() == 6);
    if let Some(k) = w {
        match k {
            WellKnown::Email => {},
            WellKnown::Hostname => {},
            WellKnown::Ip => {},
            WellKnown::Ipv4 => {},
            WellKnown::Ipv6 => {},
            WellKnown::Uri => {},
            WellKnown::UriRef => {},
            WellKnown::Address => {},
            WellKnown::Uuid => {},
            WellKnown::Tuuid => {},
            WellKnown::IpWithPrefixlen => {},
            WellKnown::Ipv4WithPrefixlen => {},
            WellKnown::Ipv6WithPrefixlen => {},
            WellKnown::IpPrefix => {},
            WellKnown::Ipv4Prefix => {},
            WellKnown::Ipv6Prefix => {},
            WellKnown::HostAndPort => {},
            WellKnown::HeaderNameLoose => {},
            WellKnown::HeaderNameStrict => {},
            WellKnown::HeaderValueLoose => {},
            WellKnown::HeaderValueStrict => {},
        }
    }
}

/// The entries of a well known format hold no entry named like a field rule.
proof fn lemma_well_known_holds_no_field(w: Option<WellKnown>)
    ensures
        rule_named(well_known_entries(w), "const"@) == None::<ValueModel>,
        rule_named(well_known_entries(w), "len"@) == None::<ValueModel>,
        rule_named(well_known_entries(w), "min_len"@) == None::<ValueModel>,
        rule_named(well_known_entries(w), "max_len"@) == None::<ValueModel>,
        rule_named(well_known_entries(w), "len_bytes"@) == None::<ValueModel>,
        rule_named(well_known_entries(w), "min_bytes"@) == None::<ValueModel>,
        rule_named(well_known_entries(w), "max_bytes"@) == None::<ValueModel>,
        rule_named(well_known_entries(w), "pattern"@) == None::<ValueModel>,
        rule_named(well_known_entries(w), "prefix"@) == None::<ValueModel>,
        rule_named(well_known_entries(w), "suffix"@) == None::<ValueModel>,
        rule_named(well_known_entries(w), "contains"@) == None::<ValueModel>,
        rule_named(well_known_entries(w), "not_contains"@) == None::<ValueModel>,
        rule_named(well_known_entries(w), "in"@) == None::<ValueModel>,
        rule_named(well_known_entries(w), "not_in"@) == None::<ValueModel>,
{
    broadcast use group_rule_named;
    reveal_strlit("const");
    reveal_strlit("len");
    reveal_strlit("min_len");
    reveal_strlit("max_len");
    reveal_strlit("len_bytes");
    reveal_strlit("min_bytes");
    reveal_strlit("max_bytes");
    reveal_strlit("pattern");
    reveal_strlit("prefix");
    reveal_strlit("suffix");
    reveal_strlit("contains");
    reveal_strlit("not_contains");
    reveal_strlit("in");
    reveal_strlit("not_in");
    reveal_strlit("email");
    reveal_strlit("hostname");
    reveal_strlit("ip");
    reveal_strlit("ipv4");
    reveal_strlit("ipv6");
    reveal_strlit("uri");
    reveal_strlit("uri_ref");
    reveal_strlit("address");
    reveal_strlit("uuid");
    reveal_strlit("tuuid");
    reveal_strlit("ip_with_prefixlen");
    reveal_strlit("ipv4_with_prefixlen");
    reveal_strlit("ipv6_with_prefixlen");
    reveal_strlit("ip_prefix");
    reveal_strlit("ipv4_prefix");
    reveal_strlit("ipv6_prefix");
    reveal_strlit("host_and_port");
    reveal_strlit("well_known_regex");
    reveal_strlit("strict");
    assert("const"@.len() == 5 && "const"@[0] == 'c');
    assert("len"@.len() == 3 && "len"@[0] == 'l');
    assert("min_len"@.len() == 7 && "min_len"@[0] == 'm' && "min_len"@[1] == 'i');
    assert("max_len"@.len() == 7 && "max_len"@[0] == 'm' && "max_len"@[1] == 'a');
    assert("len_bytes"@.len() == 9 && "len_bytes"@[0] == 'l');
    assert("min_bytes"@.len() == 9 && "min_bytes"@[0] == 'm' && "min_bytes"@[1] == 'i');
    assert("max_bytes"@.len() == 9 && "max_bytes"@[0] == 'm' && "max_bytes"@[1] == 'a');
    assert("pattern"@.len() == 7 && "pattern"@[0] == 'p');
    assert("prefix"@.len() == 6 && "prefix"@[0] == 'p');
    assert("suffix"@.len() == 6 && "suffix"@[0] == 's' && "suffix"@[1] == 'u');
    assert("contains"@.len() == 8 && "contains"@[0] == 'c');
    assert("not_contains"@.len() == 12);
    assert("in"@.len() == 2 && "in"@[1] == 'n');
    assert("not_in"@.len() == 6 && "not_in"@[0] == 'n');
    assert("email"@.len() == 5 && "email"@[0] == 'e');
    assert("hostname"@.len() == 8 && "hostname"@[0] == 'h');
    assert("ip"@.len() == 2 && "ip"@[1] == 'p');
    assert("ipv4"@.len() == 4 && "ipv4"@[0] == 'i' && "ipv4"@[3] == '4');
    assert("ipv6"@.len() == 4 && "ipv6"@[0] == 'i' && "ipv6"@[3] == '6');
    assert("uri"@.len() == 3 && "uri"@[0] == 'u');
    assert("uri_ref"@.len() == 7 && "uri_ref"@[0] == 'u');
    assert("address"@.len() == 7 && "address"@[0] == 'a');
    assert("uuid"@.len() == 4 && "uuid"@[0] == 'u');
    assert("tuuid"@.len() == 5 && "tuuid"@[0] == 't');
    assert("ip_with_prefixlen"@.len() == 17);
    assert("ipv4_with_prefixlen"@.len() == 19 && "ipv4_with_prefixlen"@[3] == '4');
    assert("ipv6_with_prefixlen"@.len() == 19 && "ipv6_with_prefixlen"@[3] == '6');
    assert("ip_prefix"@.len() == 9 && "ip_prefix"@[0] == 'i');
    assert("ipv4_prefix"@.len() == 11 && "ipv4_prefix"@[3] == '4');
    assert("ipv6_prefix"@.len() == 11 && "ipv6_prefix"@[3] == '6');
    assert("host_and_port"@.len() == 13);
    assert("well_known_regex"@.len() == 16);
    assert("strict"@.len() == 6 && "strict"@[0] == 's' && "strict"@[1] == 't');
    if let Some(k) = w {
        match k {
            WellKnown::Email => {},
            WellKnown::Hostname => {},
            WellKnown::Ip => {},
            WellKnown::Ipv4 => {},
            WellKnown::Ipv6 => {},
            WellKnown::Uri => {},
            WellKnown::UriRef => {},
            WellKnown::Address => {},
            WellKnown::Uuid => {},
            WellKnown::Tuuid => {},
            WellKnown::IpWithPrefixlen => {},
            WellKnown::Ipv4WithPrefixlen => {},
            WellKnown::Ipv6WithPrefixlen => {},
            WellKnown::IpPrefix => {},
            WellKnown::Ipv4Prefix => {},
            WellKnown::Ipv6Prefix => {},
            WellKnown::HostAndPort => {},
            WellKnown::HeaderNameLoose => {},
            WellKnown::HeaderNameStrict => {},
            WellKnown::HeaderValueLoose => {},
            WellKnown::HeaderValueStrict => {},
        }
    }
}

/// The rules of a string validator but its well known format.
spec fn string_field_rules<'a>(v: StringValidator<'a>) -> Seq<(Seq<char>, ValueModel)> {
    entry_if("const"@, v.const_) + v.length_model() + v.bytes_length_model() + entry_if("pattern"@, v.pattern)
        + entry_if("prefix"@, v.prefix) + entry_if("suffix"@, v.suffix) + entry_if("contains"@, v.contains)
        + entry_if("not_contains"@, v.not_contains) + list_entry_if("in"@, v.in_) + list_entry_if("not_in"@, v.not_in)
}

/// Each rule that a string validator sets is written under the name of its
/// field, holding the field's value, and no entry stands for a field left unset:
/// an exact length replaces the bounds, and a well known format adds its own
/// entries after the field rules.
pub proof fn law_string_rules_named_after_fields<'a>(v: StringValidator<'a>)
    ensures
        rule_named(v.rules_model(), "const"@) == written(v.const_),
        rule_named(v.rules_model(), "len"@) == written(v.len),
        rule_named(v.rules_model(), "min_len"@) == (if v.len is None { written(v.min_len) } else { None }),
        rule_named(v.rules_model(), "max_len"@) == (if v.len is None { written(v.max_len) } else { None }),
        rule_named(v.rules_model(), "len_bytes"@) == written(v.len_bytes),
        rule_named(v.rules_model(), "min_bytes"@) == (if v.len_bytes is None { written(v.min_bytes) } else { None }),
        rule_named(v.rules_model(), "max_bytes"@) == (if v.len_bytes is None { written(v.max_bytes) } else { None }),
        rule_named(v.rules_model(), "pattern"@) == written(v.pattern),
        rule_named(v.rules_model(), "prefix"@) == written(v.prefix),
        rule_named(v.rules_model(), "suffix"@) == written(v.suffix),
        rule_named(v.rules_model(), "contains"@) == written(v.contains),
        rule_named(v.rules_model(), "not_contains"@) == written(v.not_contains),
        rule_named(v.rules_model(), "in"@) == written_list(v.in_),
        rule_named(v.rules_model(), "not_in"@) == written_list(v.not_in),
        rule_named(v.rules_model(), "email"@) == (if v.well_known == Some(WellKnown::Email) { Some(ValueModel::Bool(true)) } else { None }),
        rule_named(v.rules_model(), "hostname"@) == (if v.well_known == Some(WellKnown::Hostname) { Some(ValueModel::Bool(true)) } else { None }),
        rule_named(v.rules_model(), "ip"@) == (if v.well_known == Some(WellKnown::Ip) { Some(ValueModel::Bool(true)) } else { None }),
        rule_named(v.rules_model(), "ipv4"@) == (if v.well_known == Some(WellKnown::Ipv4) { Some(ValueModel::Bool(true)) } else { None }),
        rule_named(v.rules_model(), "ipv6"@) == (if v.well_known == Some(WellKnown::Ipv6) { Some(ValueModel::Bool(true)) } else { None }),
        rule_named(v.rules_model(), "uri"@) == (if v.well_known == Some(WellKnown::Uri) { Some(ValueModel::Bool(true)) } else { None }),
        rule_named(v.rules_model(), "uri_ref"@) == (if v.well_known == Some(WellKnown::UriRef) { Some(ValueModel::Bool(true)) } else { None }),
        rule_named(v.rules_model(), "address"@) == (if v.well_known == Some(WellKnown::Address) { Some(ValueModel::Bool(true)) } else { None }),
        rule_named(v.rules_model(), "uuid"@) == (if v.well_known == Some(WellKnown::Uuid) { Some(ValueModel::Bool(true)) } else { None }),
        rule_named(v.rules_model(), "tuuid"@) == (if v.well_known == Some(WellKnown::Tuuid) { Some(ValueModel::Bool(true)) } else { None }),
        rule_named(v.rules_model(), "ip_with_prefixlen"@) == (if v.well_known == Some(WellKnown::IpWithPrefixlen) { Some(ValueModel::Bool(true)) } else { None }),
        rule_named(v.rules_model(), "ipv4_with_prefixlen"@) == (if v.well_known == Some(WellKnown::Ipv4WithPrefixlen) { Some(ValueModel::Bool(true)) } else { None }),
        rule_named(v.rules_model(), "ipv6_with_prefixlen"@) == (if v.well_known == Some(WellKnown::Ipv6WithPrefixlen) { Some(ValueModel::Bool(true)) } else { None }),
        rule_named(v.rules_model(), "ip_prefix"@) == (if v.well_known == Some(WellKnown::IpPrefix) { Some(ValueModel::Bool(true)) } else { None }),
        rule_named(v.rules_model(), "ipv4_prefix"@) == (if v.well_known == Some(WellKnown::Ipv4Prefix) { Some(ValueModel::Bool(true)) } else { None }),
        rule_named(v.rules_model(), "ipv6_prefix"@) == (if v.well_known == Some(WellKnown::Ipv6Prefix) { Some(ValueModel::Bool(true)) } else { None }),
        rule_named(v.rules_model(), "host_and_port"@) == (if v.well_known == Some(WellKnown::HostAndPort) { Some(ValueModel::Bool(true)) } else { None }),
        rule_named(v.rules_model(), "well_known_regex"@) == match v.well_known {
            Some(WellKnown::HeaderNameLoose) | Some(WellKnown::HeaderNameStrict) => Some(ValueModel::Enum("KNOWN_REGEX_HTTP_HEADER_NAME"@)),
            Some(WellKnown::HeaderValueLoose) | Some(WellKnown::HeaderValueStrict) => Some(ValueModel::Enum("KNOWN_REGEX_HTTP_HEADER_VALUE"@)),
            _ => None,
        },
        rule_named(v.rules_model(), "strict"@) == match v.well_known {
            Some(WellKnown::HeaderNameLoose) | Some(WellKnown::HeaderValueLoose) => Some(ValueModel::Bool(false)),
            Some(WellKnown::HeaderNameStrict) | Some(WellKnown::HeaderValueStrict) => Some(ValueModel::Bool(true)),
            _ => None,
        },
        v.rules_model().len() == count_set(v.const_) + (if v.len is None { count_set(v.min_len) + count_set(v.max_len) } else { 1 })
            + (if v.len_bytes is None { count_set(v.min_bytes) + count_set(v.max_bytes) } else { 1 })
            + count_set(v.pattern) + count_set(v.prefix) + count_set(v.suffix) + count_set(v.contains) + count_set(v.not_contains) + count_set(v.in_) + count_set(v.not_in)
            + well_known_entries(v.well_known).len(),
{
    broadcast use group_rule_named;
    assert(v.rules_model() == string_field_rules(v) + well_known_entries(v.well_known));
    lemma_string_field_rules_found(v);
    lemma_string_field_rules_hold_no_format(v);
    lemma_well_known_found(v.well_known);
    lemma_well_known_holds_no_field(v.well_known);
}

} // verus!

verus! {

/// The option holds the rules under `string`, whether the field is required under
/// `required`, and otherwise only the CEL rules.
pub proof fn law_string_option_layout<'a>(v: StringValidator<'a>)
    ensures
        v.value_model() is Message,
        rule_named(v.value_model()->Message_0, "string"@) == Some(ValueModel::Message(v.rules_model())),
        rule_named(v.value_model()->Message_0, "required"@) == written(v.required),
        v.value_model()->Message_0.len() == 1 + count_set(v.cel) + count_set(v.required),
{
    reveal_strlit("string");
    reveal_strlit("cel");
    reveal_strlit("required");
    assert("string"@.len() == 6 && "cel"@.len() == 3 && "required"@.len() == 8);
    assert("string"@[0] == 's' && "cel"@[0] == 'c' && "required"@[0] == 'r');
    law_field_rules_layout("string"@, v.rules_model(), v.cel, v.required);
}

} // verus!
