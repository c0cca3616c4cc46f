use jd_decrypter::account::{decode_account, JdAccount};
use jd_decrypter::account_list::{decode_document, decode_group, JdAccountList};
use jd_decrypter::container::{decode_payload, decode_text};
use jd_decrypter::error::{DecodeCause, ErrorKind, JdError, ShapeFault};
use jd_decrypter::fields::Field;
use serde_json::Value;

const ACCOUNT: &str = r#"{
    "properties": {"color": "red", "weights": [1, 2.5]},
    "hoster": "example.org",
    "maxSimultanDownloads": 3,
    "password": "secret",
    "infoProperties": null,
    "createTime": 1500000000123,
    "trafficLeft": -1,
    "trafficMax": 1099511627776,
    "validUntil": 0,
    "active": true,
    "enabled": false,
    "trafficUnlimited": true,
    "special_traffic": false,
    "user": "me",
    "concurrentUsePossible": true,
    "id": 42
}"#;

fn value(text: &str) -> Value {
    serde_json::from_str(text).unwrap()
}

fn account_with(name: &str, replacement: &str) -> Value {
    let mut account = value(ACCOUNT);
    account.as_object_mut().unwrap().insert(name.to_string(), value(replacement));
    account
}

fn account_without(name: &str) -> Value {
    let mut account = value(ACCOUNT);
    assert!(account.as_object_mut().unwrap().remove(name).is_some());
    account
}

fn only_account(list: &JdAccountList, group: &str) -> String {
    let accounts = list.get(group).unwrap();
    assert_eq!(accounts.len(), 1);
    format!("{:?}", accounts[0])
}

fn shape_fault(failure: JdError) -> ShapeFault {
    assert_eq!(failure.kind(), ErrorKind::Decode);
    match failure {
        JdError::Decode(DecodeCause::Shape(fault)) => fault,
        other => panic!("not a fault of shape: {:?}", other),
    }
}

#[test]
fn decodes_every_field_of_an_account() {
    let account: JdAccount = decode_account(&value(ACCOUNT)).unwrap();
    assert_eq!(account.properties, value(r#"{"color": "red", "weights": [1, 2.5]}"#));
    assert_eq!(account.hoster, "example.org");
    assert_eq!(account.max_simultaneous_downloads, 3);
    assert_eq!(account.password, "secret");
    assert_eq!(account.info_properties, Value::Null);
    assert_eq!(account.create_time, 1500000000123);
    assert_eq!(account.traffic_left, -1);
    assert_eq!(account.traffic_max, 1099511627776);
    assert_eq!(account.valid_until, 0);
    assert!(account.active);
    assert!(!account.enabled);
    assert!(account.traffic_unlimited);
    assert!(!account.special_traffic);
    assert_eq!(account.user, "me");
    assert!(account.concurrent_use_possible);
    assert_eq!(account.id, 42);
    assert_eq!(account.error_type, None);
    assert_eq!(account.error_string, None);
}

#[test]
fn wire_name_of_the_download_limit_maps_to_its_field() {
    let list = decode_text(
        r#"{"G":[{"properties":{},"hoster":"h","maxSimultanDownloads":3,"password":"p",
        "infoProperties":{},"createTime":1,"trafficLeft":2,"trafficMax":4,"validUntil":5,
        "active":true,"enabled":true,"trafficUnlimited":false,"special_traffic":false,
        "user":"u","concurrentUsePossible":false,"id":6}]}"#,
    )
    .unwrap();
    let accounts = list.get("G").unwrap();
    assert_eq!(accounts.len(), 1);
    assert_eq!(accounts[0].max_simultaneous_downloads, 3);
    assert_eq!(accounts[0].create_time, 1);
    assert_eq!(accounts[0].traffic_left, 2);
    assert_eq!(accounts[0].traffic_max, 4);
    assert_eq!(accounts[0].valid_until, 5);
    assert_eq!(accounts[0].id, 6);
}

#[test]
fn wire_names_are_those_of_the_format() {
    let names = [
        (Field::Properties, "properties"),
        (Field::Hoster, "hoster"),
        (Field::MaxSimultaneousDownloads, "maxSimultanDownloads"),
        (Field::Password, "password"),
        (Field::InfoProperties, "infoProperties"),
        (Field::CreateTime, "createTime"),
        (Field::TrafficLeft, "trafficLeft"),
        (Field::TrafficMax, "trafficMax"),
        (Field::ValidUntil, "validUntil"),
        (Field::Active, "active"),
        (Field::Enabled, "enabled"),
        (Field::TrafficUnlimited, "trafficUnlimited"),
        (Field::SpecialTraffic, "special_traffic"),
        (Field::ConcurrentUsePossible, "concurrentUsePossible"),
        (Field::User, "user"),
        (Field::Id, "id"),
        (Field::ErrorType, "errorType"),
        (Field::ErrorString, "errorString"),
    ];
    for (field, name) in names {
        assert_eq!(field.wire_name(), name);
    }
}

#[test]
fn error_fields_are_read_when_present() {
    let failed = account_with("errorType", r#""EXPIRED""#);
    let account = decode_account(&failed).unwrap();
    assert_eq!(account.error_type, Some("EXPIRED".to_string()));
    assert_eq!(account.error_string, None);

    let mut both = account_with("errorType", r#""TEMP_DISABLED""#);
    both.as_object_mut().unwrap().insert("errorString".to_string(), value(r#""try later""#));
    let account = decode_account(&both).unwrap();
    assert_eq!(account.error_type, Some("TEMP_DISABLED".to_string()));
    assert_eq!(account.error_string, Some("try later".to_string()));
}

#[test]
fn null_error_fields_count_as_absent() {
    let account = decode_account(&account_with("errorString", "null")).unwrap();
    assert_eq!(account.error_string, None);
    assert_eq!(account.error_type, None);
}

#[test]
fn error_field_of_another_type_is_a_mismatch() {
    let fault = decode_account(&account_with("errorType", "7")).unwrap_err();
    assert_eq!(fault, ShapeFault::Mismatch(Field::ErrorType));
    let fault = decode_account(&account_with("errorString", "[]")).unwrap_err();
    assert_eq!(fault, ShapeFault::Mismatch(Field::ErrorString));
}

#[test]
fn unknown_fields_are_ignored() {
    let plain = format!("{:?}", decode_account(&value(ACCOUNT)).unwrap());
    let extended = account_with("somethingNew", r#"{"deep": [1, 2, 3]}"#);
    assert_eq!(format!("{:?}", decode_account(&extended).unwrap()), plain);
}

#[test]
fn each_required_field_is_missed_when_absent() {
    let required = [
        Field::Properties,
        Field::Hoster,
        Field::MaxSimultaneousDownloads,
        Field::Password,
        Field::InfoProperties,
        Field::CreateTime,
        Field::TrafficLeft,
        Field::TrafficMax,
        Field::ValidUntil,
        Field::Active,
        Field::Enabled,
        Field::TrafficUnlimited,
        Field::SpecialTraffic,
        Field::ConcurrentUsePossible,
        Field::User,
        Field::Id,
    ];
    for field in required {
        let fault = decode_account(&account_without(field.wire_name())).unwrap_err();
        assert_eq!(fault, ShapeFault::Missing(field));
    }
}

#[test]
fn field_names_are_matched_with_their_case() {
    let mut account = account_without("hoster");
    account.as_object_mut().unwrap().insert("Hoster".to_string(), value(r#""h""#));
    assert_eq!(decode_account(&account).unwrap_err(), ShapeFault::Missing(Field::Hoster));

    let mut account = account_without("maxSimultanDownloads");
    account.as_object_mut().unwrap().insert("max_simultaneous_downloads".to_string(), value("3"));
    assert_eq!(
        decode_account(&account).unwrap_err(),
        ShapeFault::Missing(Field::MaxSimultaneousDownloads)
    );
}

#[test]
fn values_of_the_wrong_type_are_mismatches() {
    let cases = [
        (Field::Hoster, "5"),
        (Field::Password, "null"),
        (Field::User, "[\"me\"]"),
        (Field::MaxSimultaneousDownloads, "\"3\""),
        (Field::CreateTime, "1.5"),
        (Field::TrafficLeft, "3.0"),
        (Field::TrafficMax, "true"),
        (Field::ValidUntil, "null"),
        (Field::Active, "1"),
        (Field::Enabled, "\"true\""),
        (Field::TrafficUnlimited, "null"),
        (Field::SpecialTraffic, "0"),
        (Field::ConcurrentUsePossible, "{}"),
        (Field::Id, "-1"),
        (Field::Id, "\"1\""),
        (Field::Id, "1.0"),
    ];
    for (field, replacement) in cases {
        let fault = decode_account(&account_with(field.wire_name(), replacement)).unwrap_err();
        assert_eq!(fault, ShapeFault::Mismatch(field), "{}", replacement);
    }
}

#[test]
fn integers_out_of_range_are_mismatches() {
    let too_large = account_with("trafficMax", "9223372036854775808");
    assert_eq!(
        decode_account(&too_large).unwrap_err(),
        ShapeFault::Mismatch(Field::TrafficMax)
    );
    let too_small = account_with("trafficLeft", "-9223372036854775809");
    assert_eq!(
        decode_account(&too_small).unwrap_err(),
        ShapeFault::Mismatch(Field::TrafficLeft)
    );
    let huge_id = account_with("id", "18446744073709551616");
    assert_eq!(decode_account(&huge_id).unwrap_err(), ShapeFault::Mismatch(Field::Id));
}

#[test]
fn integers_at_the_ends_of_the_range_are_read() {
    let largest = account_with("trafficMax", &isize::MAX.to_string());
    assert_eq!(decode_account(&largest).unwrap().traffic_max, isize::MAX);
    let smallest = account_with("trafficLeft", &isize::MIN.to_string());
    assert_eq!(decode_account(&smallest).unwrap().traffic_left, isize::MIN);
    let largest_id = account_with("id", &usize::MAX.to_string());
    assert_eq!(decode_account(&largest_id).unwrap().id, usize::MAX);
    let zero_id = account_with("id", "0");
    assert_eq!(decode_account(&zero_id).unwrap().id, 0);
}

#[test]
fn opaque_fields_take_any_value() {
    for replacement in ["null", "true", "17", "\"text\"", "[1,[2,[3]]]", "{\"a\":{\"b\":null}}"] {
        let account = decode_account(&account_with("properties", replacement)).unwrap();
        assert_eq!(account.properties, value(replacement));
        let account = decode_account(&account_with("infoProperties", replacement)).unwrap();
        assert_eq!(account.info_properties, value(replacement));
    }
}

#[test]
fn account_must_be_an_object() {
    for text in ["null", "1", "\"account\"", "[]", "true"] {
        assert_eq!(decode_account(&value(text)).unwrap_err(), ShapeFault::Account);
    }
}

#[test]
fn group_is_an_array_of_accounts_in_order() {
    let text = format!(
        "[{}, {}, {}]",
        account_with("id", "1"),
        account_with("id", "2"),
        account_with("id", "3")
    );
    let accounts = decode_group(&value(&text)).unwrap();
    let ids: Vec<usize> = accounts.iter().map(|account| account.id).collect();
    assert_eq!(ids, vec![1, 2, 3]);
    assert!(decode_group(&value("[]")).unwrap().is_empty());
}

#[test]
fn group_must_be_an_array() {
    for text in ["null", "{}", "\"group\"", "3"] {
        assert_eq!(decode_group(&value(text)).unwrap_err(), ShapeFault::Group);
    }
    assert_eq!(decode_group(&value(ACCOUNT)).unwrap_err(), ShapeFault::Group);
}

#[test]
fn group_reports_the_fault_of_its_account() {
    let text = format!("[{}, {}]", value(ACCOUNT), account_without("user"));
    assert_eq!(decode_group(&value(&text)).unwrap_err(), ShapeFault::Missing(Field::User));
    assert_eq!(decode_group(&value("[[]]")).unwrap_err(), ShapeFault::Account);
}

#[test]
fn document_is_an_object_of_groups() {
    let text = format!(
        r#"{{"first": [{}], "second": [], "third": [{}, {}]}}"#,
        account_with("id", "1"),
        account_with("id", "2"),
        account_with("id", "3")
    );
    let list = decode_document(&value(&text)).unwrap();
    assert_eq!(list.as_ref().len(), 3);
    assert_eq!(list.get("first").unwrap().len(), 1);
    assert_eq!(list.get("first").unwrap()[0].id, 1);
    assert!(list.get("second").unwrap().is_empty());
    assert_eq!(list.get("third").unwrap().len(), 2);
    assert_eq!(list.get("third").unwrap()[0].id, 2);
    assert_eq!(list.get("third").unwrap()[1].id, 3);
    assert!(list.get("fourth").is_none());
    assert!(list.get("First").is_none());
}

#[test]
fn empty_object_is_the_empty_list() {
    let list = decode_text("{}").unwrap();
    assert!(list.as_ref().is_empty());
}

#[test]
fn document_must_be_an_object() {
    for text in ["null", "[]", "\"list\"", "3", "false"] {
        assert_eq!(decode_document(&value(text)).unwrap_err(), ShapeFault::Document);
        assert_eq!(shape_fault(decode_text(text).unwrap_err()), ShapeFault::Document);
    }
}

#[test]
fn document_reports_the_fault_of_its_group() {
    assert_eq!(decode_document(&value(r#"{"g": 1}"#)).unwrap_err(), ShapeFault::Group);
    assert_eq!(decode_document(&value(r#"{"g": [1]}"#)).unwrap_err(), ShapeFault::Account);
    let text = format!(r#"{{"g": [{}]}}"#, account_with("active", "\"yes\""));
    assert_eq!(shape_fault(decode_text(&text).unwrap_err()), ShapeFault::Mismatch(Field::Active));
}

#[test]
fn truncated_json_is_a_decode_error() {
    let failure = decode_text(r#"{"Group":[{"hoster":"x""#).unwrap_err();
    assert_eq!(failure.kind(), ErrorKind::Decode);
    assert!(matches!(failure, JdError::Decode(DecodeCause::Syntax(_))));
}

#[test]
fn text_that_is_no_json_is_a_decode_error() {
    for text in ["", "}", "{\"a\" 1}", "{\"a\": [}", "{} {}", "{'a': []}"] {
        let failure = decode_text(text).unwrap_err();
        assert!(matches!(failure, JdError::Decode(DecodeCause::Syntax(_))), "{}", text);
    }
}

#[test]
fn payload_with_truncated_json_is_a_decode_error() {
    let failure = decode_payload(br#"{"Group":[{"hoster":"x"}"#.to_vec()).unwrap_err();
    assert_eq!(failure.kind(), ErrorKind::Decode);
    assert!(matches!(failure, JdError::Decode(DecodeCause::Syntax(_))));
}

#[test]
fn payload_is_decoded_up_to_its_last_brace() {
    let text = format!(r#"{{"Group": [{}]}}"#, value(ACCOUNT));
    let mut buffer = text.clone().into_bytes();
    buffer.extend_from_slice(&[1, 2, 3, 0xff, b']', b'\n']);
    let list = decode_payload(buffer).unwrap();
    let exact = decode_text(&text).unwrap();
    assert_eq!(only_account(&list, "Group"), only_account(&exact, "Group"));
}

#[test]
fn payload_without_a_brace_is_empty() {
    for buffer in [Vec::new(), b"[1, 2, 3]".to_vec(), vec![0xff, 0xfe], b"{\"a\": [".to_vec()] {
        let failure = decode_payload(buffer).unwrap_err();
        assert!(matches!(failure, JdError::EmptyPayload));
        assert_eq!(failure.kind(), ErrorKind::EmptyPayload);
    }
}

#[test]
fn payload_that_is_not_utf8_is_an_encoding_error() {
    for buffer in [vec![0xff, b'}'], vec![b'{', 0xc3, b'}'], vec![b'{', 0xed, 0xa0, 0x80, b'}']] {
        let failure = decode_payload(buffer).unwrap_err();
        assert!(matches!(failure, JdError::Encoding(_)));
        assert_eq!(failure.kind(), ErrorKind::Encoding);
    }
}

#[test]
fn bytes_behind_the_last_brace_need_not_be_utf8() {
    let list = decode_payload(vec![b'{', b'}', 0xff, 0xc3]).unwrap();
    assert!(list.as_ref().is_empty());
}

#[test]
fn text_outside_ascii_is_read() {
    let text = r#"{"Gruppe ä": [], "группа": []}"#;
    let list = decode_payload(text.as_bytes().to_vec()).unwrap();
    assert_eq!(list.as_ref().len(), 2);
    assert!(list.get("Gruppe ä").is_some());
    assert!(list.get("группа").is_some());
}

#[test]
fn later_member_of_the_same_name_wins() {
    let text = format!(r#"{{"g": [], "g": [{}]}}"#, value(ACCOUNT));
    let list = decode_text(&text).unwrap();
    assert_eq!(list.as_ref().len(), 1);
    assert_eq!(list.get("g").unwrap().len(), 1);
}

#[test]
fn default_account_has_nothing_set() {
    let account = JdAccount::default();
    assert_eq!(account.properties, Value::Null);
    assert_eq!(account.info_properties, Value::Null);
    assert_eq!(account.hoster, "");
    assert_eq!(account.password, "");
    assert_eq!(account.user, "");
    assert_eq!(account.max_simultaneous_downloads, 0);
    assert_eq!(account.create_time, 0);
    assert_eq!(account.traffic_left, 0);
    assert_eq!(account.traffic_max, 0);
    assert_eq!(account.valid_until, 0);
    assert_eq!(account.id, 0);
    assert!(!account.active);
    assert!(!account.enabled);
    assert!(!account.traffic_unlimited);
    assert!(!account.special_traffic);
    assert!(!account.concurrent_use_possible);
    assert_eq!(account.error_type, None);
    assert_eq!(account.error_string, None);
}
