//! The fields of an account and their names on the wire.

use vstd::prelude::*;

verus! {

/// A field of an account record.
#[derive(Clone, Copy, Debug, PartialEq, Eq, Structural)]
pub enum Field {
    Properties,
    Hoster,
    MaxSimultaneousDownloads,
    Password,
    InfoProperties,
    CreateTime,
    TrafficLeft,
    TrafficMax,
    ValidUntil,
    Active,
    Enabled,
    TrafficUnlimited,
    SpecialTraffic,
    ConcurrentUsePossible,
    User,
    Id,
    ErrorType,
    ErrorString,
}

/// What a field holds.
#[derive(Clone, Copy, Debug, PartialEq, Eq, Structural)]
pub enum FieldKind {
    /// Any JSON value, kept as it is.
    Opaque,
    /// A string.
    Text,
    /// An integer that fits `isize`.
    Integer,
    /// An integer that fits `usize`.
    Index,
    /// A boolean.
    Flag,
    /// A string; the field may be absent or null.
    OptionalText,
}

impl Field {
    /// The name of this field in the JSON document. Names are matched
    /// exactly, case included.
    pub open spec fn wire_name_of(self) -> &'static str {
        match self {
            Field::Properties => "properties",
            Field::Hoster => "hoster",
            Field::MaxSimultaneousDownloads => "maxSimultanDownloads",
            Field::Password => "password",
            Field::InfoProperties => "infoProperties",
            Field::CreateTime => "createTime",
            Field::TrafficLeft => "trafficLeft",
            Field::TrafficMax => "trafficMax",
            Field::ValidUntil => "validUntil",
            Field::Active => "active",
            Field::Enabled => "enabled",
            Field::TrafficUnlimited => "trafficUnlimited",
            Field::SpecialTraffic => "special_traffic",
            Field::ConcurrentUsePossible => "concurrentUsePossible",
            Field::User => "user",
            Field::Id => "id",
            Field::ErrorType => "errorType",
            Field::ErrorString => "errorString",
        }
    }

    /// The name of this field in the JSON document.
    #[verifier::when_used_as_spec(wire_name_of)]
    pub fn wire_name(self) -> (name: &'static str)
        ensures
            name == self.wire_name_of(),
    {
        match self {
            Field::Properties => "properties",
            Field::Hoster => "hoster",
            Field::MaxSimultaneousDownloads => "maxSimultanDownloads",
            Field::Password => "password",
            Field::InfoProperties => "infoProperties",
            Field::CreateTime => "createTime",
            Field::TrafficLeft => "trafficLeft",
            Field::TrafficMax => "trafficMax",
            Field::ValidUntil => "validUntil",
            Field::Active => "active",
            Field::Enabled => "enabled",
            Field::TrafficUnlimited => "trafficUnlimited",
            Field::SpecialTraffic => "special_traffic",
            Field::ConcurrentUsePossible => "concurrentUsePossible",
            Field::User => "user",
            Field::Id => "id",
            Field::ErrorType => "errorType",
            Field::ErrorString => "errorString",
        }
    }

    /// What this field holds.
    pub open spec fn kind_of(self) -> FieldKind {
        match self {
            Field::Properties | Field::InfoProperties => FieldKind::Opaque,
            Field::Hoster | Field::Password | Field::User => FieldKind::Text,
            Field::MaxSimultaneousDownloads
            | Field::CreateTime
            | Field::TrafficLeft
            | Field::TrafficMax
            | Field::ValidUntil => FieldKind::Integer,
            Field::Id => FieldKind::Index,
            Field::Active
            | Field::Enabled
            | Field::TrafficUnlimited
            | Field::SpecialTraffic
            | Field::ConcurrentUsePossible => FieldKind::Flag,
            Field::ErrorType | Field::ErrorString => FieldKind::OptionalText,
        }
    }
}

/// No two fields share a wire name: a member of the document is read into
/// one field at most.
pub proof fn lemma_wire_names_differ(first: Field, second: Field)
    requires
        first != second,
    ensures
        first.wire_name_of()@ != second.wire_name_of()@,
{
    reveal_strlit("properties");
    reveal_strlit("hoster");
    reveal_strlit("maxSimultanDownloads");
    reveal_strlit("password");
    reveal_strlit("infoProperties");
    reveal_strlit("createTime");
    reveal_strlit("trafficLeft");
    reveal_strlit("trafficMax");
    reveal_strlit("validUntil");
    reveal_strlit("active");
    reveal_strlit("enabled");
    reveal_strlit("trafficUnlimited");
    reveal_strlit("special_traffic");
    reveal_strlit("concurrentUsePossible");
    reveal_strlit("user");
    reveal_strlit("id");
    reveal_strlit("errorType");
    reveal_strlit("errorString");
    let a = first.wire_name_of()@;
    let b = second.wire_name_of()@;
    if a.len() == b.len() {
        assert(a[0] != b[0] || a[1] != b[1] || a[a.len() - 1] != b[a.len() - 1] || a[a.len() - 2]
            != b[a.len() - 2]);
    }
}

} // verus!
