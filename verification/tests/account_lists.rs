use jd_decrypter::account::{decode_account, JdAccount};
use jd_decrypter::account_list::JdAccountList;
use serde_json::Value;

fn account(id: usize) -> JdAccount {
    let text = format!(
        r#"{{"properties":null,"hoster":"h","maxSimultanDownloads":1,"password":"p",
        "infoProperties":null,"createTime":0,"trafficLeft":0,"trafficMax":0,"validUntil":0,
        "active":true,"enabled":true,"trafficUnlimited":true,"special_traffic":true,
        "user":"u","concurrentUsePossible":true,"id":{}}}"#,
        id
    );
    let value: Value = serde_json::from_str(&text).unwrap();
    decode_account(&value).unwrap()
}

fn ids(accounts: &Vec<JdAccount>) -> Vec<usize> {
    accounts.iter().map(|account| account.id).collect()
}

#[test]
fn new_list_has_no_group() {
    let list = JdAccountList::new();
    assert!(list.as_ref().is_empty());
    assert!(list.get("any").is_none());
    assert!(list.get("").is_none());
}

#[test]
fn default_list_has_no_group() {
    let list = JdAccountList::default();
    assert!(list.as_ref().is_empty());
}

#[test]
fn added_groups_are_found_under_their_names() {
    let list = JdAccountList::new()
        .with_group("a".to_string(), vec![account(1), account(2)])
        .with_group("b".to_string(), vec![])
        .with_group("".to_string(), vec![account(3)]);
    assert_eq!(list.as_ref().len(), 3);
    assert_eq!(ids(list.get("a").unwrap()), vec![1, 2]);
    assert_eq!(ids(list.get("b").unwrap()), Vec::<usize>::new());
    assert_eq!(ids(list.get("").unwrap()), vec![3]);
    assert!(list.get("c").is_none());
    assert!(list.get("A").is_none());
}

#[test]
fn group_of_the_same_name_is_replaced() {
    let list = JdAccountList::new()
        .with_group("a".to_string(), vec![account(1)])
        .with_group("b".to_string(), vec![account(2)])
        .with_group("a".to_string(), vec![account(3), account(4)]);
    assert_eq!(list.as_ref().len(), 2);
    assert_eq!(ids(list.get("a").unwrap()), vec![3, 4]);
    assert_eq!(ids(list.get("b").unwrap()), vec![2]);
}

#[test]
fn groups_are_listed_once_each() {
    let list = JdAccountList::new()
        .with_group("x".to_string(), vec![account(1)])
        .with_group("y".to_string(), vec![account(2)])
        .with_group("x".to_string(), vec![account(3)])
        .with_group("y".to_string(), vec![account(4)]);
    let mut names: Vec<&str> = list.as_ref().iter().map(|group| group.0.as_str()).collect();
    names.sort();
    assert_eq!(names, vec!["x", "y"]);
}

#[test]
fn groups_can_be_taken_out_of_the_list() {
    let list = JdAccountList::new()
        .with_group("a".to_string(), vec![account(1)])
        .with_group("b".to_string(), vec![account(2), account(3)])
        .with_group("a".to_string(), vec![account(4)]);
    let mut groups: Vec<(String, Vec<usize>)> =
        list.into_groups().into_iter().map(|(name, accounts)| (name, ids(&accounts))).collect();
    groups.sort();
    assert_eq!(groups, vec![("a".to_string(), vec![4]), ("b".to_string(), vec![2, 3])]);
}
