//! Account records and their decoding from JSON objects.

use crate::error::ShapeFault;
use crate::fields::{Field, FieldKind};
use crate::json::{json_tree, member, JsonModel};
use serde_json::Value;
use vstd::prelude::*;

verus! {

/// One configured download-service account.
#[derive(Debug)]
pub struct JdAccount {
    pub properties: Value,
    pub hoster: String,
    pub max_simultaneous_downloads: isize,
    pub password: String,
    pub info_properties: Value,
    pub create_time: isize,
    pub traffic_left: isize,
    pub traffic_max: isize,
    pub valid_until: isize,
    pub active: bool,
    pub enabled: bool,
    pub traffic_unlimited: bool,
    pub special_traffic: bool,
    pub concurrent_use_possible: bool,
    pub user: String,
    pub id: usize,
    /// Present only on a failed account.
    pub error_type: Option<String>,
    /// Present only on a failed account.
    pub error_string: Option<String>,
}

/// What an account record holds.
pub struct AccountModel {
    pub properties: JsonModel,
    pub hoster: Seq<char>,
    pub max_simultaneous_downloads: int,
    pub password: Seq<char>,
    pub info_properties: JsonModel,
    pub create_time: int,
    pub traffic_left: int,
    pub traffic_max: int,
    pub valid_until: int,
    pub active: bool,
    pub enabled: bool,
    pub traffic_unlimited: bool,
    pub special_traffic: bool,
    pub concurrent_use_possible: bool,
    pub user: Seq<char>,
    pub id: int,
    pub error_type: Option<Seq<char>>,
    pub error_string: Option<Seq<char>>,
}

/// The characters of an optional string.
pub open spec fn optional_text(text: Option<String>) -> Option<Seq<char>> {
    match text {
        Some(text) => Some(text@),
        None => None,
    }
}

impl View for JdAccount {
    type V = AccountModel;

    open spec fn view(&self) -> AccountModel {
        AccountModel {
            properties: json_tree(self.properties),
            hoster: self.hoster@,
            max_simultaneous_downloads: self.max_simultaneous_downloads as int,
            password: self.password@,
            info_properties: json_tree(self.info_properties),
            create_time: self.create_time as int,
            traffic_left: self.traffic_left as int,
            traffic_max: self.traffic_max as int,
            valid_until: self.valid_until as int,
            active: self.active,
            enabled: self.enabled,
            traffic_unlimited: self.traffic_unlimited,
            special_traffic: self.special_traffic,
            concurrent_use_possible: self.concurrent_use_possible,
            user: self.user@,
            id: self.id as int,
            error_type: optional_text(self.error_type),
            error_string: optional_text(self.error_string),
        }
    }
}

/// What the account holds that has nothing set: `null` for its opaque
/// values, empty strings, zeros, `false`, and no error.
pub open spec fn blank_account() -> AccountModel {
    AccountModel {
        properties: JsonModel::Null,
        hoster: Seq::empty(),
        max_simultaneous_downloads: 0,
        password: Seq::empty(),
        info_properties: JsonModel::Null,
        create_time: 0,
        traffic_left: 0,
        traffic_max: 0,
        valid_until: 0,
        active: false,
        enabled: false,
        traffic_unlimited: false,
        special_traffic: false,
        concurrent_use_possible: false,
        user: Seq::empty(),
        id: 0,
        error_type: None,
        error_string: None,
    }
}

impl Default for JdAccount {
    /// The account that has nothing set.
    fn default() -> (account: Self)
        ensures
            account@ == blank_account(),
    {
        JdAccount {
            properties: Value::default(),
            hoster: String::new(),
            max_simultaneous_downloads: 0,
            password: String::new(),
            info_properties: Value::default(),
            create_time: 0,
            traffic_left: 0,
            traffic_max: 0,
            valid_until: 0,
            active: false,
            enabled: false,
            traffic_unlimited: false,
            special_traffic: false,
            concurrent_use_possible: false,
            user: String::new(),
            id: 0,
            error_type: None,
            error_string: None,
        }
    }
}

/// Whether the object with these members has `field`.
pub open spec fn has_field(members: Map<Seq<char>, JsonModel>, field: Field) -> bool {
    members.dom().contains(field.wire_name_of()@)
}

/// The value of `field` in the object with these members.
pub open spec fn field_value(members: Map<Seq<char>, JsonModel>, field: Field) -> JsonModel {
    members[field.wire_name_of()@]
}

/// Whether `value` can stand in a field of this kind.
pub open spec fn fits(kind: FieldKind, value: JsonModel) -> bool {
    match kind {
        FieldKind::Opaque => true,
        FieldKind::Text => value is Text,
        FieldKind::Integer => value matches JsonModel::Integer(n) && isize::MIN <= n <= isize::MAX,
        FieldKind::Index => value matches JsonModel::Integer(n) && 0 <= n <= usize::MAX,
        FieldKind::Flag => value is Bool,
        FieldKind::OptionalText => value is Text || value is Null,
    }
}

/// What is wrong with `field` in the object with these members, if anything:
/// a field is missing when it is absent and not optional, and mismatched when
/// its value does not fit its kind. Members of other names are not looked at.
pub open spec fn field_fault(members: Map<Seq<char>, JsonModel>, field: Field) -> Option<
    ShapeFault,
> {
    if !has_field(members, field) {
        if field.kind_of() == FieldKind::OptionalText {
            None
        } else {
            Some(ShapeFault::Missing(field))
        }
    } else if !fits(field.kind_of(), field_value(members, field)) {
        Some(ShapeFault::Mismatch(field))
    } else {
        None
    }
}

/// The string in `field`.
pub open spec fn text_in(members: Map<Seq<char>, JsonModel>, field: Field) -> Seq<char> {
    field_value(members, field)->Text_0
}

/// The integer in `field`.
pub open spec fn integer_in(members: Map<Seq<char>, JsonModel>, field: Field) -> int {
    field_value(members, field)->Integer_0
}

/// The boolean in `field`.
pub open spec fn flag_in(members: Map<Seq<char>, JsonModel>, field: Field) -> bool {
    field_value(members, field)->Bool_0
}

/// The string in the optional `field`: none where the field is absent or null.
pub open spec fn optional_text_in(members: Map<Seq<char>, JsonModel>, field: Field) -> Option<
    Seq<char>,
> {
    if has_field(members, field) && field_value(members, field) is Text {
        Some(text_in(members, field))
    } else {
        None
    }
}

/// The account that the object with these members stands for: each field is
/// read from the member of its wire name.
pub open spec fn account_of(members: Map<Seq<char>, JsonModel>) -> AccountModel {
    AccountModel {
        properties: field_value(members, Field::Properties),
        hoster: text_in(members, Field::Hoster),
        max_simultaneous_downloads: integer_in(members, Field::MaxSimultaneousDownloads),
        password: text_in(members, Field::Password),
        info_properties: field_value(members, Field::InfoProperties),
        create_time: integer_in(members, Field::CreateTime),
        traffic_left: integer_in(members, Field::TrafficLeft),
        traffic_max: integer_in(members, Field::TrafficMax),
        valid_until: integer_in(members, Field::ValidUntil),
        active: flag_in(members, Field::Active),
        enabled: flag_in(members, Field::Enabled),
        traffic_unlimited: flag_in(members, Field::TrafficUnlimited),
        special_traffic: flag_in(members, Field::SpecialTraffic),
        concurrent_use_possible: flag_in(members, Field::ConcurrentUsePossible),
        user: text_in(members, Field::User),
        id: integer_in(members, Field::Id),
        error_type: optional_text_in(members, Field::ErrorType),
        error_string: optional_text_in(members, Field::ErrorString),
    }
}

/// Whether `value` is the JSON of an account: an object in which no field has
/// a fault.
pub open spec fn is_account(value: JsonModel) -> bool {
    value matches JsonModel::Object(members) && forall|field: Field|
        (#[trigger] field_fault(members, field)) is None
}

/// Whether `fault` is one of the faults that keep `value` from being the JSON
/// of an account.
pub open spec fn account_has_fault(value: JsonModel, fault: ShapeFault) -> bool {
    match value {
        JsonModel::Object(members) => exists|field: Field| #[trigger]
            field_fault(members, field) == Some(fault),
        _ => fault == ShapeFault::Account,
    }
}

/// A value is the JSON of an account exactly when it has no fault.
pub proof fn lemma_account_or_fault(value: JsonModel)
    ensures
        is_account(value) <==> !exists|fault: ShapeFault| account_has_fault(value, fault),
{
    match value {
        JsonModel::Object(members) => {
            if !is_account(value) {
                let field = choose|field: Field| !((#[trigger] field_fault(members, field)) is None);
                assert(account_has_fault(value, field_fault(members, field)->0));
            }
        },
        _ => {
            assert(account_has_fault(value, ShapeFault::Account));
        },
    }
}

fn required_member<'a>(object: &'a Value, field: Field) -> (r: Result<&'a Value, ShapeFault>)
    requires
        json_tree(*object) is Object,
    ensures
        match r {
            Ok(found) => has_field(json_tree(*object)->Object_0, field) && json_tree(*found)
                == field_value(json_tree(*object)->Object_0, field),
            Err(fault) => !has_field(json_tree(*object)->Object_0, field) && fault
                == ShapeFault::Missing(field),
        },
{
    match member(object, field.wire_name()) {
        Some(found) => Ok(found),
        None => Err(ShapeFault::Missing(field)),
    }
}

fn opaque_field(object: &Value, field: Field) -> (r: Result<Value, ShapeFault>)
    requires
        json_tree(*object) is Object,
        field.kind_of() == FieldKind::Opaque,
    ensures
        match r {
            Ok(value) => field_fault(json_tree(*object)->Object_0, field) is None && json_tree(
                value,
            ) == field_value(json_tree(*object)->Object_0, field),
            Err(fault) => field_fault(json_tree(*object)->Object_0, field) == Some(fault),
        },
{
    let found = required_member(object, field)?;
    Ok(found.clone())
}

fn text_field(object: &Value, field: Field) -> (r: Result<String, ShapeFault>)
    requires
        json_tree(*object) is Object,
        field.kind_of() == FieldKind::Text,
    ensures
        match r {
            Ok(text) => field_fault(json_tree(*object)->Object_0, field) is None && text@
                == text_in(json_tree(*object)->Object_0, field),
            Err(fault) => field_fault(json_tree(*object)->Object_0, field) == Some(fault),
        },
{
    let found = required_member(object, field)?;
    match found.as_str() {
        Some(text) => Ok(text.to_owned()),
        None => Err(ShapeFault::Mismatch(field)),
    }
}

fn integer_field(object: &Value, field: Field) -> (r: Result<isize, ShapeFault>)
    requires
        json_tree(*object) is Object,
        field.kind_of() == FieldKind::Integer,
    ensures
        match r {
            Ok(n) => field_fault(json_tree(*object)->Object_0, field) is None && n == integer_in(
                json_tree(*object)->Object_0,
                field,
            ),
            Err(fault) => field_fault(json_tree(*object)->Object_0, field) == Some(fault),
        },
{
    let found = required_member(object, field)?;
    match found.as_i64() {
        Some(n) => {
            if isize::MIN as i64 <= n && n <= isize::MAX as i64 {
                Ok(n as isize)
            } else {
                Err(ShapeFault::Mismatch(field))
            }
        },
        None => Err(ShapeFault::Mismatch(field)),
    }
}

fn index_field(object: &Value, field: Field) -> (r: Result<usize, ShapeFault>)
    requires
        json_tree(*object) is Object,
        field.kind_of() == FieldKind::Index,
    ensures
        match r {
            Ok(n) => field_fault(json_tree(*object)->Object_0, field) is None && n == integer_in(
                json_tree(*object)->Object_0,
                field,
            ),
            Err(fault) => field_fault(json_tree(*object)->Object_0, field) == Some(fault),
        },
{
    let found = required_member(object, field)?;
    match found.as_u64() {
        Some(n) => {
            if n <= usize::MAX as u64 {
                Ok(n as usize)
            } else {
                Err(ShapeFault::Mismatch(field))
            }
        },
        None => Err(ShapeFault::Mismatch(field)),
    }
}

fn flag_field(object: &Value, field: Field) -> (r: Result<bool, ShapeFault>)
    requires
        json_tree(*object) is Object,
        field.kind_of() == FieldKind::Flag,
    ensures
        match r {
            Ok(flag) => field_fault(json_tree(*object)->Object_0, field) is None && flag
                == flag_in(json_tree(*object)->Object_0, field),
            Err(fault) => field_fault(json_tree(*object)->Object_0, field) == Some(fault),
        },
{
    let found = required_member(object, field)?;
    match found.as_bool() {
        Some(flag) => Ok(flag),
        None => Err(ShapeFault::Mismatch(field)),
    }
}

fn optional_text_field(object: &Value, field: Field) -> (r: Result<Option<String>, ShapeFault>)
    requires
        json_tree(*object) is Object,
        field.kind_of() == FieldKind::OptionalText,
    ensures
        match r {
            Ok(text) => field_fault(json_tree(*object)->Object_0, field) is None && optional_text(
                text,
            ) == optional_text_in(json_tree(*object)->Object_0, field),
            Err(fault) => field_fault(json_tree(*object)->Object_0, field) == Some(fault),
        },
{
    match member(object, field.wire_name()) {
        None => Ok(None),
        Some(found) => {
            if found.is_null() {
                Ok(None)
            } else {
                match found.as_str() {
                    Some(text) => Ok(Some(text.to_owned())),
                    None => Err(ShapeFault::Mismatch(field)),
                }
            }
        },
    }
}

/// Decodes one account from its JSON object.
///
/// Succeeds exactly on the values that are the JSON of an account. Members
/// that are no field of an account are ignored. A fault that is reported is
/// one that the value has.
pub fn decode_account(value: &Value) -> (r: Result<JdAccount, ShapeFault>)
    ensures
        match r {
            Ok(account) => is_account(json_tree(*value)) && account@ == account_of(
                json_tree(*value)->Object_0,
            ),
            Err(fault) => account_has_fault(json_tree(*value), fault),
        },
{
    if !value.is_object() {
        return Err(ShapeFault::Account);
    }
    let properties = opaque_field(value, Field::Properties)?;
    let hoster = text_field(value, Field::Hoster)?;
    let max_simultaneous_downloads = integer_field(value, Field::MaxSimultaneousDownloads)?;
    let password = text_field(value, Field::Password)?;
    let info_properties = opaque_field(value, Field::InfoProperties)?;
    let create_time = integer_field(value, Field::CreateTime)?;
    let traffic_left = integer_field(value, Field::TrafficLeft)?;
    let traffic_max = integer_field(value, Field::TrafficMax)?;
    let valid_until = integer_field(value, Field::ValidUntil)?;
    let active = flag_field(value, Field::Active)?;
    let enabled = flag_field(value, Field::Enabled)?;
    let traffic_unlimited = flag_field(value, Field::TrafficUnlimited)?;
    let special_traffic = flag_field(value, Field::SpecialTraffic)?;
    let concurrent_use_possible = flag_field(value, Field::ConcurrentUsePossible)?;
    let user = text_field(value, Field::User)?;
    let id = index_field(value, Field::Id)?;
    let error_type = optional_text_field(value, Field::ErrorType)?;
    let error_string = optional_text_field(value, Field::ErrorString)?;
    Ok(
        JdAccount {
            properties,
            hoster,
            max_simultaneous_downloads,
            password,
            info_properties,
            create_time,
            traffic_left,
            traffic_max,
            valid_until,
            active,
            enabled,
            traffic_unlimited,
            special_traffic,
            concurrent_use_possible,
            user,
            id,
            error_type,
            error_string,
        },
    )
}

} // verus!
