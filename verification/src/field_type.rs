//! The types that a protobuf field can have.

use vstd::prelude::*;
use std::sync::Arc;

use crate::text::{concat3, str_eq, share};

verus! {

/// A span of time, as in `google.protobuf.Duration`.
#[derive(Debug, Clone, Copy, PartialEq, Eq)]
pub struct Duration {
    pub seconds: i64,
    pub nanos: i32,
}

/// A point in time, as in `google.protobuf.Timestamp`.
#[derive(Debug, Clone, Copy, PartialEq, Eq)]
pub struct Timestamp {
    pub seconds: i64,
    pub nanos: i32,
}

/// Protobuf map key types
#[derive(Debug, Clone, Copy, PartialEq, Eq)]
pub enum MapKey {
    Int32,
    Int64,
    Uint32,
    Uint64,
    Sint32,
    Sint64,
    Fixed32,
    Fixed64,
    Sfixed32,
    Sfixed64,
    Bool,
    String,
}

impl MapKey {
    /// The protobuf keyword of this key type.
    pub open spec fn spec_name(&self) -> Seq<char> {
        match self {
            MapKey::Int32 => "int32"@,
            MapKey::Int64 => "int64"@,
            MapKey::Uint32 => "uint32"@,
            MapKey::Uint64 => "uint64"@,
            MapKey::Sint32 => "sint32"@,
            MapKey::Sint64 => "sint64"@,
            MapKey::Fixed32 => "fixed32"@,
            MapKey::Fixed64 => "fixed64"@,
            MapKey::Sfixed32 => "sfixed32"@,
            MapKey::Sfixed64 => "sfixed64"@,
            MapKey::Bool => "bool"@,
            MapKey::String => "string"@,
        }
    }

    /// Returns the protobuf keyword of this key type, such as `int64`.
    pub fn name(&self) -> (r: &'static str)
        ensures
            r@ == self.spec_name(),
    {
        match self {
            MapKey::Int32 => "int32",
            MapKey::Int64 => "int64",
            MapKey::Uint32 => "uint32",
            MapKey::Uint64 => "uint64",
            MapKey::Sint32 => "sint32",
            MapKey::Sint64 => "sint64",
            MapKey::Fixed32 => "fixed32",
            MapKey::Fixed64 => "fixed64",
            MapKey::Sfixed32 => "sfixed32",
            MapKey::Sfixed64 => "sfixed64",
            MapKey::Bool => "bool",
            MapKey::String => "string",
        }
    }

    /// The protobuf keyword of this key type, as a new string.
    pub fn to_string(&self) -> (r: String)
        ensures
            r@ == self.spec_name(),
    {
        String::from_str(self.name())
    }
}

/// The import path information for a protobuf importable item, like an enum or a message
#[derive(Clone, Debug, PartialEq, Eq)]
pub struct ImportedItemPath {
    pub full_name: Arc<String>,
    pub full_name_with_package: Arc<String>,
    pub file: Arc<String>,
    pub package: Arc<String>,
}

impl ImportedItemPath {
    /// A path with every part empty.
    pub fn empty() -> (r: ImportedItemPath)
        ensures
            r.full_name@.len() == 0,
            r.full_name_with_package@.len() == 0,
            r.file@.len() == 0,
            r.package@.len() == 0,
    {
        ImportedItemPath {
            full_name: Arc::new(String::new()),
            full_name_with_package: Arc::new(String::new()),
            file: Arc::new(String::new()),
            package: Arc::new(String::new()),
        }
    }
}

/// The various types of protobuf fields, including some well known types such as
/// `google.protobuf.Any` or `google.protobuf.Duration`.
#[derive(Debug, PartialEq, Eq)]
pub enum FieldType {
    Double,
    Float,
    Int64,
    Uint64,
    Int32,
    Fixed64,
    Fixed32,
    Bool,
    String,
    Bytes,
    Uint32,
    Enum(Arc<ImportedItemPath>),
    Sfixed32,
    Sfixed64,
    Sint32,
    Sint64,
    Message(Arc<ImportedItemPath>),
    Duration,
    Timestamp,
    Any,
    FieldMask,
    Empty,
    MapType(MapKey, Box<FieldType>),
    Struct,
    Money,
    Interval,
    Color,
    Date,
    DateTime,
    TimeZone,
    DayOfWeek,
    Decimal,
    Expr,
    Fraction,
    LatLng,
    LocalizedText,
    Month,
    PhoneNumber,
    PostalAddress,
    Quaternion,
    TimeOfDay,
    Status,
    Code,
    HttpRequest,
    HttpResponse,
    HttpHeader,
    ErrorInfo,
    RetryInfo,
    DebugInfo,
    QuotaFailure,
    QuotaFailureViolation,
    PreconditionFailure,
    PreconditionFailureViolation,
    BadRequest,
    FieldViolation,
    RequestInfo,
    ResourceInfo,
    Help,
    LocalizedMessage,
    Link,
}

impl Clone for FieldType {
    fn clone(&self) -> (r: Self)
        ensures
            r == *self,
        decreases self,
    {
        match self {
            FieldType::Double => FieldType::Double,
            FieldType::Float => FieldType::Float,
            FieldType::Int64 => FieldType::Int64,
            FieldType::Uint64 => FieldType::Uint64,
            FieldType::Int32 => FieldType::Int32,
            FieldType::Fixed64 => FieldType::Fixed64,
            FieldType::Fixed32 => FieldType::Fixed32,
            FieldType::Bool => FieldType::Bool,
            FieldType::String => FieldType::String,
            FieldType::Bytes => FieldType::Bytes,
            FieldType::Uint32 => FieldType::Uint32,
            FieldType::Enum(path) => FieldType::Enum(share(path)),
            FieldType::Sfixed32 => FieldType::Sfixed32,
            FieldType::Sfixed64 => FieldType::Sfixed64,
            FieldType::Sint32 => FieldType::Sint32,
            FieldType::Sint64 => FieldType::Sint64,
            FieldType::Message(path) => FieldType::Message(share(path)),
            FieldType::Duration => FieldType::Duration,
            FieldType::Timestamp => FieldType::Timestamp,
            FieldType::Any => FieldType::Any,
            FieldType::FieldMask => FieldType::FieldMask,
            FieldType::Empty => FieldType::Empty,
            FieldType::MapType(key, val) => FieldType::MapType(*key, Box::new((**val).clone())),
            FieldType::Struct => FieldType::Struct,
            FieldType::Money => FieldType::Money,
            FieldType::Interval => FieldType::Interval,
            FieldType::Color => FieldType::Color,
            FieldType::Date => FieldType::Date,
            FieldType::DateTime => FieldType::DateTime,
            FieldType::TimeZone => FieldType::TimeZone,
            FieldType::DayOfWeek => FieldType::DayOfWeek,
            FieldType::Decimal => FieldType::Decimal,
            FieldType::Expr => FieldType::Expr,
            FieldType::Fraction => FieldType::Fraction,
            FieldType::LatLng => FieldType::LatLng,
            FieldType::LocalizedText => FieldType::LocalizedText,
            FieldType::Month => FieldType::Month,
            FieldType::PhoneNumber => FieldType::PhoneNumber,
            FieldType::PostalAddress => FieldType::PostalAddress,
            FieldType::Quaternion => FieldType::Quaternion,
            FieldType::TimeOfDay => FieldType::TimeOfDay,
            FieldType::Status => FieldType::Status,
            FieldType::Code => FieldType::Code,
            FieldType::HttpRequest => FieldType::HttpRequest,
            FieldType::HttpResponse => FieldType::HttpResponse,
            FieldType::HttpHeader => FieldType::HttpHeader,
            FieldType::ErrorInfo => FieldType::ErrorInfo,
            FieldType::RetryInfo => FieldType::RetryInfo,
            FieldType::DebugInfo => FieldType::DebugInfo,
            FieldType::QuotaFailure => FieldType::QuotaFailure,
            FieldType::QuotaFailureViolation => FieldType::QuotaFailureViolation,
            FieldType::PreconditionFailure => FieldType::PreconditionFailure,
            FieldType::PreconditionFailureViolation => FieldType::PreconditionFailureViolation,
            FieldType::BadRequest => FieldType::BadRequest,
            FieldType::FieldViolation => FieldType::FieldViolation,
            FieldType::RequestInfo => FieldType::RequestInfo,
            FieldType::ResourceInfo => FieldType::ResourceInfo,
            FieldType::Help => FieldType::Help,
            FieldType::LocalizedMessage => FieldType::LocalizedMessage,
            FieldType::Link => FieldType::Link,
        }
    }
}

/// The name by which `path` is referred to from `current_file` in `current_package`:
/// the bare full name when the item lives in the same file or package, the full
/// name with the package prefix otherwise.
pub open spec fn shortest_item_name(path: ImportedItemPath, current_file: Seq<char>, current_package: Seq<char>) -> Seq<char> {
    if path.file@ == current_file || path.package@ == current_package {
        path.full_name@
    } else {
        path.full_name_with_package@
    }
}

/// Returns the name to use for `path` from within `current_file` of `current_package`.
pub fn get_shortest_item_name(path: &Arc<ImportedItemPath>, current_file: &str, current_package: &str) -> (r: Arc<String>)
    ensures
        r@ == shortest_item_name(**path, current_file@, current_package@),
        r == path.full_name || r == path.full_name_with_package,
{
    if str_eq(path.file.as_str(), current_file) || str_eq(path.package.as_str(), current_package) {
        share(&path.full_name)
    } else {
        share(&path.full_name_with_package)
    }
}

impl FieldType {
    /// The name of this type as protobuf spells it; messages and enums go by their full name.
    pub open spec fn spec_name(&self) -> Seq<char> {
        match self {
            FieldType::Double => "double"@,
            FieldType::Float => "float"@,
            FieldType::Int64 => "int64"@,
            FieldType::Uint64 => "uint64"@,
            FieldType::Int32 => "int32"@,
            FieldType::Fixed64 => "fixed64"@,
            FieldType::Fixed32 => "fixed32"@,
            FieldType::Bool => "bool"@,
            FieldType::String => "string"@,
            FieldType::Bytes => "bytes"@,
            FieldType::Uint32 => "uint32"@,
            FieldType::Enum(path) => path.full_name@,
            FieldType::Sfixed32 => "sfixed32"@,
            FieldType::Sfixed64 => "sfixed64"@,
            FieldType::Sint32 => "sint32"@,
            FieldType::Sint64 => "sint64"@,
            FieldType::Message(path) => path.full_name@,
            FieldType::Duration => "google.protobuf.Duration"@,
            FieldType::Timestamp => "google.protobuf.Timestamp"@,
            FieldType::Any => "google.protobuf.Any"@,
            FieldType::FieldMask => "google.protobuf.FieldMask"@,
            FieldType::Empty => "google.protobuf.Empty"@,
            FieldType::MapType(_, _) => "map"@,
            FieldType::Struct => "google.protobuf.Struct"@,
            FieldType::Money => "google.type.Money"@,
            FieldType::Interval => "google.type.Interval"@,
            FieldType::Color => "google.type.Color"@,
            FieldType::Date => "google.type.Date"@,
            FieldType::DateTime => "google.type.DateTime"@,
            FieldType::TimeZone => "google.type.TimeZone"@,
            FieldType::DayOfWeek => "google.type.DayOfWeek"@,
            FieldType::Decimal => "google.type.Decimal"@,
            FieldType::Expr => "google.type.Expr"@,
            FieldType::Fraction => "google.type.Fraction"@,
            FieldType::LatLng => "google.type.LatLng"@,
            FieldType::LocalizedText => "google.type.LocalizedText"@,
            FieldType::Month => "google.type.Month"@,
            FieldType::PhoneNumber => "google.type.PhoneNumber"@,
            FieldType::PostalAddress => "google.type.PostalAddress"@,
            FieldType::Quaternion => "google.type.Quaternion"@,
            FieldType::TimeOfDay => "google.type.TimeOfDay"@,
            FieldType::Status => "google.rpc.Status"@,
            FieldType::Code => "google.rpc.Code"@,
            FieldType::HttpRequest => "google.rpc.HttpRequest"@,
            FieldType::HttpResponse => "google.rpc.HttpResponse"@,
            FieldType::HttpHeader => "google.rpc.HttpHeader"@,
            FieldType::ErrorInfo => "google.rpc.ErrorInfo"@,
            FieldType::RetryInfo => "google.rpc.RetryInfo"@,
            FieldType::DebugInfo => "google.rpc.DebugInfo"@,
            FieldType::QuotaFailure => "google.rpc.QuotaFailure"@,
            FieldType::QuotaFailureViolation => "google.rpc.QuotaFailure.Violation"@,
            FieldType::PreconditionFailure => "google.rpc.PreconditionFailure"@,
            FieldType::PreconditionFailureViolation => "google.rpc.PreconditionFailure.Violation"@,
            FieldType::BadRequest => "google.rpc.BadRequest"@,
            FieldType::FieldViolation => "google.rpc.BadRequest.FieldViolation"@,
            FieldType::RequestInfo => "google.rpc.RequestInfo"@,
            FieldType::ResourceInfo => "google.rpc.ResourceInfo"@,
            FieldType::Help => "google.rpc.Help"@,
            FieldType::LocalizedMessage => "google.rpc.LocalizedMessage"@,
            FieldType::Link => "google.rpc.Help.Link"@,
        }
    }

    /// How this type is written inside `current_file` of `current_package`:
    /// messages and enums by their shortest name, maps as `map<key, value>`.
    pub open spec fn spec_render_name(&self, current_file: Seq<char>, current_package: Seq<char>) -> Seq<char>
        decreases self,
    {
        match self {
            FieldType::Message(path) => shortest_item_name(**path, current_file, current_package),
            FieldType::Enum(path) => shortest_item_name(**path, current_file, current_package),
            FieldType::MapType(key, val) => "map<"@ + key.spec_name() + ", "@ + val.spec_render_name(current_file, current_package) + ">"@,
            _ => self.spec_name(),
        }
    }

    /// Returns the name of this type, such as `int64` or `google.protobuf.Duration`.
    pub fn name(&self) -> (r: &str)
        ensures
            r@ == self.spec_name(),
    {
        match self {
            FieldType::Double => "double",
            FieldType::Float => "float",
            FieldType::Int64 => "int64",
            FieldType::Uint64 => "uint64",
            FieldType::Int32 => "int32",
            FieldType::Fixed64 => "fixed64",
            FieldType::Fixed32 => "fixed32",
            FieldType::Bool => "bool",
            FieldType::String => "string",
            FieldType::Bytes => "bytes",
            FieldType::Uint32 => "uint32",
            FieldType::Enum(path) => path.full_name.as_str(),
            FieldType::Sfixed32 => "sfixed32",
            FieldType::Sfixed64 => "sfixed64",
            FieldType::Sint32 => "sint32",
            FieldType::Sint64 => "sint64",
            FieldType::Message(path) => path.full_name.as_str(),
            FieldType::Duration => "google.protobuf.Duration",
            FieldType::Timestamp => "google.protobuf.Timestamp",
            FieldType::Any => "google.protobuf.Any",
            FieldType::FieldMask => "google.protobuf.FieldMask",
            FieldType::Empty => "google.protobuf.Empty",
            FieldType::MapType(_, _) => "map",
            FieldType::Struct => "google.protobuf.Struct",
            FieldType::Money => "google.type.Money",
            FieldType::Interval => "google.type.Interval",
            FieldType::Color => "google.type.Color",
            FieldType::Date => "google.type.Date",
            FieldType::DateTime => "google.type.DateTime",
            FieldType::TimeZone => "google.type.TimeZone",
            FieldType::DayOfWeek => "google.type.DayOfWeek",
            FieldType::Decimal => "google.type.Decimal",
            FieldType::Expr => "google.type.Expr",
            FieldType::Fraction => "google.type.Fraction",
            FieldType::LatLng => "google.type.LatLng",
            FieldType::LocalizedText => "google.type.LocalizedText",
            FieldType::Month => "google.type.Month",
            FieldType::PhoneNumber => "google.type.PhoneNumber",
            FieldType::PostalAddress => "google.type.PostalAddress",
            FieldType::Quaternion => "google.type.Quaternion",
            FieldType::TimeOfDay => "google.type.TimeOfDay",
            FieldType::Status => "google.rpc.Status",
            FieldType::Code => "google.rpc.Code",
            FieldType::HttpRequest => "google.rpc.HttpRequest",
            FieldType::HttpResponse => "google.rpc.HttpResponse",
            FieldType::HttpHeader => "google.rpc.HttpHeader",
            FieldType::ErrorInfo => "google.rpc.ErrorInfo",
            FieldType::RetryInfo => "google.rpc.RetryInfo",
            FieldType::DebugInfo => "google.rpc.DebugInfo",
            FieldType::QuotaFailure => "google.rpc.QuotaFailure",
            FieldType::QuotaFailureViolation => "google.rpc.QuotaFailure.Violation",
            FieldType::PreconditionFailure => "google.rpc.PreconditionFailure",
            FieldType::PreconditionFailureViolation => "google.rpc.PreconditionFailure.Violation",
            FieldType::BadRequest => "google.rpc.BadRequest",
            FieldType::FieldViolation => "google.rpc.BadRequest.FieldViolation",
            FieldType::RequestInfo => "google.rpc.RequestInfo",
            FieldType::ResourceInfo => "google.rpc.ResourceInfo",
            FieldType::Help => "google.rpc.Help",
            FieldType::LocalizedMessage => "google.rpc.LocalizedMessage",
            FieldType::Link => "google.rpc.Help.Link",
        }
    }

    /// The name of this type, as a new string.
    pub fn to_string(&self) -> (r: String)
        ensures
            r@ == self.spec_name(),
    {
        String::from_str(self.name())
    }

    /// Returns how this type is written in a field declaration of `current_file`, in `current_package`.
    pub fn render_name(&self, current_file: &str, current_package: &str) -> (r: String)
        ensures
            r@ == self.spec_render_name(current_file@, current_package@),
        decreases self,
    {
        match self {
            FieldType::Message(path) => {
                let n = get_shortest_item_name(path, current_file, current_package);
                String::from_str(n.as_str())
            },
            FieldType::Enum(path) => {
                let n = get_shortest_item_name(path, current_file, current_package);
                String::from_str(n.as_str())
            },
            FieldType::MapType(key, val) => {
                let inner = val.render_name(current_file, current_package);
                let mut s = concat3("map<", key.name(), ", ");
                s.append(inner.as_str());
                s.append(">");
                s
            },
            _ => String::from_str(self.name()),
        }
    }
}

impl FieldType {
    /// Whether this is one of the types that protobuf or the well-known packages
    /// define, named by a fixed keyword or path rather than by a user's enum,
    /// message or map.
    pub open spec fn is_builtin(&self) -> bool {
        !(self is Enum || self is Message || self is MapType)
    }
}

/// The built-in type whose name is `s`, if there is one: the name is told apart
/// from the others by its length and a few of its characters, then checked whole.
pub open spec fn builtin_type_named(s: Seq<char>) -> Option<FieldType> {
    if s.len() == 4 {
        if s == "bool"@ { Some(FieldType::Bool) } else { None }
    } else if s.len() == 5 {
        if s[3] == '3' {
            if s == "int32"@ { Some(FieldType::Int32) } else { None }
        } else if s[3] == '6' {
            if s == "int64"@ { Some(FieldType::Int64) } else { None }
        } else if s[3] == 'a' {
            if s == "float"@ { Some(FieldType::Float) } else { None }
        } else if s[3] == 'e' {
            if s == "bytes"@ { Some(FieldType::Bytes) } else { None }
        } else {
            None
        }
    } else if s.len() == 6 {
        if s[4] == '3' {
            if s[0] == 's' {
                if s == "sint32"@ { Some(FieldType::Sint32) } else { None }
            } else if s[0] == 'u' {
                if s == "uint32"@ { Some(FieldType::Uint32) } else { None }
            } else {
                None
            }
        } else if s[4] == '6' {
            if s[0] == 's' {
                if s == "sint64"@ { Some(FieldType::Sint64) } else { None }
            } else if s[0] == 'u' {
                if s == "uint64"@ { Some(FieldType::Uint64) } else { None }
            } else {
                None
            }
        } else if s[4] == 'l' {
            if s == "double"@ { Some(FieldType::Double) } else { None }
        } else if s[4] == 'n' {
            if s == "string"@ { Some(FieldType::String) } else { None }
        } else {
            None
        }
    } else if s.len() == 7 {
        if s[5] == '3' {
            if s == "fixed32"@ { Some(FieldType::Fixed32) } else { None }
        } else if s[5] == '6' {
            if s == "fixed64"@ { Some(FieldType::Fixed64) } else { None }
        } else {
            None
        }
    } else if s.len() == 8 {
        if s[6] == '3' {
            if s == "sfixed32"@ { Some(FieldType::Sfixed32) } else { None }
        } else if s[6] == '6' {
            if s == "sfixed64"@ { Some(FieldType::Sfixed64) } else { None }
        } else {
            None
        }
    } else if s.len() == 15 {
        if s[11] == 'C' {
            if s == "google.rpc.Code"@ { Some(FieldType::Code) } else { None }
        } else if s[11] == 'H' {
            if s == "google.rpc.Help"@ { Some(FieldType::Help) } else { None }
        } else {
            None
        }
    } else if s.len() == 16 {
        if s[12] == 'D' {
            if s == "google.type.Date"@ { Some(FieldType::Date) } else { None }
        } else if s[12] == 'E' {
            if s == "google.type.Expr"@ { Some(FieldType::Expr) } else { None }
        } else {
            None
        }
    } else if s.len() == 17 {
        if s[15] == 'e' {
            if s == "google.type.Money"@ { Some(FieldType::Money) } else { None }
        } else if s[15] == 'o' {
            if s == "google.type.Color"@ { Some(FieldType::Color) } else { None }
        } else if s[15] == 't' {
            if s == "google.type.Month"@ { Some(FieldType::Month) } else { None }
        } else if s[15] == 'u' {
            if s == "google.rpc.Status"@ { Some(FieldType::Status) } else { None }
        } else {
            None
        }
    } else if s.len() == 18 {
        if s == "google.type.LatLng"@ { Some(FieldType::LatLng) } else { None }
    } else if s.len() == 19 {
        if s[7] == 'p' {
            if s == "google.protobuf.Any"@ { Some(FieldType::Any) } else { None }
        } else if s[7] == 't' {
            if s == "google.type.Decimal"@ { Some(FieldType::Decimal) } else { None }
        } else {
            None
        }
    } else if s.len() == 20 {
        if s[13] == 'a' {
            if s == "google.type.DateTime"@ { Some(FieldType::DateTime) } else { None }
        } else if s[13] == 'b' {
            if s == "google.rpc.DebugInfo"@ { Some(FieldType::DebugInfo) } else { None }
        } else if s[13] == 'i' {
            if s == "google.type.TimeZone"@ { Some(FieldType::TimeZone) } else { None }
        } else if s[13] == 'l' {
            if s == "google.rpc.Help.Link"@ { Some(FieldType::Link) } else { None }
        } else if s[13] == 'n' {
            if s == "google.type.Interval"@ { Some(FieldType::Interval) } else { None }
        } else if s[13] == 'r' {
            if s[7] == 'r' {
                if s == "google.rpc.ErrorInfo"@ { Some(FieldType::ErrorInfo) } else { None }
            } else if s[7] == 't' {
                if s == "google.type.Fraction"@ { Some(FieldType::Fraction) } else { None }
            } else {
                None
            }
        } else if s[13] == 't' {
            if s == "google.rpc.RetryInfo"@ { Some(FieldType::RetryInfo) } else { None }
        } else {
            None
        }
    } else if s.len() == 21 {
        if s[12] == 'D' {
            if s == "google.type.DayOfWeek"@ { Some(FieldType::DayOfWeek) } else { None }
        } else if s[12] == 'T' {
            if s == "google.type.TimeOfDay"@ { Some(FieldType::TimeOfDay) } else { None }
        } else if s[12] == 'a' {
            if s == "google.rpc.BadRequest"@ { Some(FieldType::BadRequest) } else { None }
        } else if s[12] == 'b' {
            if s == "google.protobuf.Empty"@ { Some(FieldType::Empty) } else { None }
        } else if s[12] == 't' {
            if s == "google.rpc.HttpHeader"@ { Some(FieldType::HttpHeader) } else { None }
        } else {
            None
        }
    } else if s.len() == 22 {
        if s[11] == '.' {
            if s == "google.type.Quaternion"@ { Some(FieldType::Quaternion) } else { None }
        } else if s[11] == 'H' {
            if s == "google.rpc.HttpRequest"@ { Some(FieldType::HttpRequest) } else { None }
        } else if s[11] == 'R' {
            if s == "google.rpc.RequestInfo"@ { Some(FieldType::RequestInfo) } else { None }
        } else if s[11] == 'o' {
            if s == "google.protobuf.Struct"@ { Some(FieldType::Struct) } else { None }
        } else {
            None
        }
    } else if s.len() == 23 {
        if s[11] == '.' {
            if s == "google.type.PhoneNumber"@ { Some(FieldType::PhoneNumber) } else { None }
        } else if s[11] == 'H' {
            if s == "google.rpc.HttpResponse"@ { Some(FieldType::HttpResponse) } else { None }
        } else if s[11] == 'Q' {
            if s == "google.rpc.QuotaFailure"@ { Some(FieldType::QuotaFailure) } else { None }
        } else if s[11] == 'R' {
            if s == "google.rpc.ResourceInfo"@ { Some(FieldType::ResourceInfo) } else { None }
        } else {
            None
        }
    } else if s.len() == 24 {
        if s == "google.protobuf.Duration"@ { Some(FieldType::Duration) } else { None }
    } else if s.len() == 25 {
        if s[16] == 'F' {
            if s == "google.protobuf.FieldMask"@ { Some(FieldType::FieldMask) } else { None }
        } else if s[16] == 'T' {
            if s == "google.protobuf.Timestamp"@ { Some(FieldType::Timestamp) } else { None }
        } else if s[16] == 'a' {
            if s == "google.type.PostalAddress"@ { Some(FieldType::PostalAddress) } else { None }
        } else if s[16] == 'l' {
            if s == "google.type.LocalizedText"@ { Some(FieldType::LocalizedText) } else { None }
        } else {
            None
        }
    } else if s.len() == 27 {
        if s == "google.rpc.LocalizedMessage"@ { Some(FieldType::LocalizedMessage) } else { None }
    } else if s.len() == 30 {
        if s == "google.rpc.PreconditionFailure"@ { Some(FieldType::PreconditionFailure) } else { None }
    } else if s.len() == 33 {
        if s == "google.rpc.QuotaFailure.Violation"@ { Some(FieldType::QuotaFailureViolation) } else { None }
    } else if s.len() == 36 {
        if s == "google.rpc.BadRequest.FieldViolation"@ { Some(FieldType::FieldViolation) } else { None }
    } else if s.len() == 40 {
        if s == "google.rpc.PreconditionFailure.Violation"@ { Some(FieldType::PreconditionFailureViolation) } else { None }
    } else {
        None
    }
}

/// Every built-in type is found again from its name.
proof fn lemma_builtin_type_named(t: FieldType)
    requires
        t.is_builtin(),
    ensures
        builtin_type_named(t.spec_name()) == Some(t),
{
    match t {
        FieldType::Double => reveal_strlit("double"),
        FieldType::Float => reveal_strlit("float"),
        FieldType::Int64 => reveal_strlit("int64"),
        FieldType::Uint64 => reveal_strlit("uint64"),
        FieldType::Int32 => reveal_strlit("int32"),
        FieldType::Fixed64 => reveal_strlit("fixed64"),
        FieldType::Fixed32 => reveal_strlit("fixed32"),
        FieldType::Bool => reveal_strlit("bool"),
        FieldType::String => reveal_strlit("string"),
        FieldType::Bytes => reveal_strlit("bytes"),
        FieldType::Uint32 => reveal_strlit("uint32"),
        FieldType::Sfixed32 => reveal_strlit("sfixed32"),
        FieldType::Sfixed64 => reveal_strlit("sfixed64"),
        FieldType::Sint32 => reveal_strlit("sint32"),
        FieldType::Sint64 => reveal_strlit("sint64"),
        FieldType::Duration => reveal_strlit("google.protobuf.Duration"),
        FieldType::Timestamp => reveal_strlit("google.protobuf.Timestamp"),
        FieldType::Any => reveal_strlit("google.protobuf.Any"),
        FieldType::FieldMask => reveal_strlit("google.protobuf.FieldMask"),
        FieldType::Empty => reveal_strlit("google.protobuf.Empty"),
        FieldType::Struct => reveal_strlit("google.protobuf.Struct"),
        FieldType::Money => reveal_strlit("google.type.Money"),
        FieldType::Interval => reveal_strlit("google.type.Interval"),
        FieldType::Color => reveal_strlit("google.type.Color"),
        FieldType::Date => reveal_strlit("google.type.Date"),
        FieldType::DateTime => reveal_strlit("google.type.DateTime"),
        FieldType::TimeZone => reveal_strlit("google.type.TimeZone"),
        FieldType::DayOfWeek => reveal_strlit("google.type.DayOfWeek"),
        FieldType::Decimal => reveal_strlit("google.type.Decimal"),
        FieldType::Expr => reveal_strlit("google.type.Expr"),
        FieldType::Fraction => reveal_strlit("google.type.Fraction"),
        FieldType::LatLng => reveal_strlit("google.type.LatLng"),
        FieldType::LocalizedText => reveal_strlit("google.type.LocalizedText"),
        FieldType::Month => reveal_strlit("google.type.Month"),
        FieldType::PhoneNumber => reveal_strlit("google.type.PhoneNumber"),
        FieldType::PostalAddress => reveal_strlit("google.type.PostalAddress"),
        FieldType::Quaternion => reveal_strlit("google.type.Quaternion"),
        FieldType::TimeOfDay => reveal_strlit("google.type.TimeOfDay"),
        FieldType::Status => reveal_strlit("google.rpc.Status"),
        FieldType::Code => reveal_strlit("google.rpc.Code"),
        FieldType::HttpRequest => reveal_strlit("google.rpc.HttpRequest"),
        FieldType::HttpResponse => reveal_strlit("google.rpc.HttpResponse"),
        FieldType::HttpHeader => reveal_strlit("google.rpc.HttpHeader"),
        FieldType::ErrorInfo => reveal_strlit("google.rpc.ErrorInfo"),
        FieldType::RetryInfo => reveal_strlit("google.rpc.RetryInfo"),
        FieldType::DebugInfo => reveal_strlit("google.rpc.DebugInfo"),
        FieldType::QuotaFailure => reveal_strlit("google.rpc.QuotaFailure"),
        FieldType::QuotaFailureViolation => reveal_strlit("google.rpc.QuotaFailure.Violation"),
        FieldType::PreconditionFailure => reveal_strlit("google.rpc.PreconditionFailure"),
        FieldType::PreconditionFailureViolation => reveal_strlit("google.rpc.PreconditionFailure.Violation"),
        FieldType::BadRequest => reveal_strlit("google.rpc.BadRequest"),
        FieldType::FieldViolation => reveal_strlit("google.rpc.BadRequest.FieldViolation"),
        FieldType::RequestInfo => reveal_strlit("google.rpc.RequestInfo"),
        FieldType::ResourceInfo => reveal_strlit("google.rpc.ResourceInfo"),
        FieldType::Help => reveal_strlit("google.rpc.Help"),
        FieldType::LocalizedMessage => reveal_strlit("google.rpc.LocalizedMessage"),
        FieldType::Link => reveal_strlit("google.rpc.Help.Link"),
        _ => {},
    }
}

/// Distinct built-in field types have distinct protobuf names, so a field's
/// type can be read back from the name written in a schema.
pub proof fn law_builtin_names_distinct(a: FieldType, b: FieldType)
    requires
        a.is_builtin(),
        b.is_builtin(),
        a != b,
    ensures
        a.spec_name() != b.spec_name(),
{
    lemma_builtin_type_named(a);
    lemma_builtin_type_named(b);
}

/// A message or enum type is written by its full name inside the file that
/// defines it or anywhere in its package, and by its package-qualified full name
/// from any other file of any other package; messages and enums follow the same rule.
pub proof fn law_render_name_of_items(path: Arc<ImportedItemPath>, current_file: Seq<char>, current_package: Seq<char>)
    ensures
        FieldType::Message(path).spec_render_name(current_file, current_package)
            == (if path.file@ == current_file || path.package@ == current_package {
                path.full_name@
            } else {
                path.full_name_with_package@
            }),
        FieldType::Enum(path).spec_render_name(current_file, current_package)
            == FieldType::Message(path).spec_render_name(current_file, current_package),
{
}

/// A map key type is written with the same keyword as the field type of the
/// same name.
pub proof fn law_map_key_names()
    ensures
        MapKey::Int32.spec_name() == FieldType::Int32.spec_name(),
        MapKey::Int64.spec_name() == FieldType::Int64.spec_name(),
        MapKey::Uint32.spec_name() == FieldType::Uint32.spec_name(),
        MapKey::Uint64.spec_name() == FieldType::Uint64.spec_name(),
        MapKey::Sint32.spec_name() == FieldType::Sint32.spec_name(),
        MapKey::Sint64.spec_name() == FieldType::Sint64.spec_name(),
        MapKey::Fixed32.spec_name() == FieldType::Fixed32.spec_name(),
        MapKey::Fixed64.spec_name() == FieldType::Fixed64.spec_name(),
        MapKey::Sfixed32.spec_name() == FieldType::Sfixed32.spec_name(),
        MapKey::Sfixed64.spec_name() == FieldType::Sfixed64.spec_name(),
        MapKey::Bool.spec_name() == FieldType::Bool.spec_name(),
        MapKey::String.spec_name() == FieldType::String.spec_name(),
{
}

/// A built-in type is written by its own name wherever it is used.
pub proof fn law_render_name_of_builtins(t: FieldType, current_file: Seq<char>, current_package: Seq<char>)
    requires
        t.is_builtin(),
    ensures
        t.spec_render_name(current_file, current_package) == t.spec_name(),
{
}

} // verus!
