//! Account lists: the accounts of a container, grouped by hoster name.

use crate::account::{
    account_has_fault, account_of, decode_account, is_account, lemma_account_or_fault,
    AccountModel, JdAccount,
};
use crate::error::ShapeFault;
use crate::json::{json_tree, json_trees, members, JsonModel};
use serde_json::Value;
use vstd::prelude::*;

verus! {

/// What each of `accounts` holds.
pub open spec fn accounts_view(accounts: Seq<JdAccount>) -> Seq<AccountModel> {
    Seq::new(accounts.len(), |i: int| accounts[i]@)
}

/// Whether `value` is the JSON of a group: an array of accounts.
pub open spec fn is_group(value: JsonModel) -> bool {
    value matches JsonModel::Array(items) && forall|i: int|
        0 <= i < items.len() ==> is_account(#[trigger] items[i])
}

/// The accounts that the array with these elements stands for, in its order.
pub open spec fn group_of(items: Seq<JsonModel>) -> Seq<AccountModel> {
    Seq::new(items.len(), |i: int| account_of(items[i]->Object_0))
}

/// Whether `fault` is one of the faults that keep `value` from being the JSON
/// of a group.
pub open spec fn group_has_fault(value: JsonModel, fault: ShapeFault) -> bool {
    match value {
        JsonModel::Array(items) => exists|i: int|
            0 <= i < items.len() && account_has_fault(#[trigger] items[i], fault),
        _ => fault == ShapeFault::Group,
    }
}

/// Whether `document` is the JSON of an account list: an object whose
/// members are groups.
pub open spec fn is_account_list(document: JsonModel) -> bool {
    document matches JsonModel::Object(groups) && forall|name: Seq<char>|
        groups.dom().contains(name) ==> is_group(#[trigger] groups[name])
}

/// The account list that the object with these members stands for: under
/// each name the accounts of that member.
pub open spec fn account_list_of(groups: Map<Seq<char>, JsonModel>) -> Map<
    Seq<char>,
    Seq<AccountModel>,
> {
    Map::new(
        |name: Seq<char>| groups.dom().contains(name),
        |name: Seq<char>| group_of(groups[name]->Array_0),
    )
}

/// Whether `fault` is one of the faults that keep `document` from being the
/// JSON of an account list.
pub open spec fn document_has_fault(document: JsonModel, fault: ShapeFault) -> bool {
    match document {
        JsonModel::Object(groups) => exists|name: Seq<char>|
            groups.dom().contains(name) && group_has_fault(#[trigger] groups[name], fault),
        _ => fault == ShapeFault::Document,
    }
}

/// A value is the JSON of a group exactly when it has no fault.
pub proof fn lemma_group_or_fault(value: JsonModel)
    ensures
        is_group(value) <==> !exists|fault: ShapeFault| group_has_fault(value, fault),
{
    match value {
        JsonModel::Array(items) => {
            if !is_group(value) {
                let i = choose|i: int| 0 <= i < items.len() && !is_account(#[trigger] items[i]);
                lemma_account_or_fault(items[i]);
                let fault = choose|fault: ShapeFault| account_has_fault(items[i], fault);
                assert(group_has_fault(value, fault));
            }
            if exists|fault: ShapeFault| group_has_fault(value, fault) {
                let fault = choose|fault: ShapeFault| group_has_fault(value, fault);
                let i = choose|i: int|
                    0 <= i < items.len() && account_has_fault(#[trigger] items[i], fault);
                lemma_account_or_fault(items[i]);
            }
        },
        _ => {
            assert(group_has_fault(value, ShapeFault::Group));
        },
    }
}

/// A document is the JSON of an account list exactly when it has no fault.
pub proof fn lemma_account_list_or_fault(document: JsonModel)
    ensures
        is_account_list(document) <==> !exists|fault: ShapeFault|
            document_has_fault(document, fault),
{
    match document {
        JsonModel::Object(groups) => {
            if !is_account_list(document) {
                let name = choose|name: Seq<char>|
                    groups.dom().contains(name) && !is_group(#[trigger] groups[name]);
                lemma_group_or_fault(groups[name]);
                let fault = choose|fault: ShapeFault| group_has_fault(groups[name], fault);
                assert(document_has_fault(document, fault));
            }
            if exists|fault: ShapeFault| document_has_fault(document, fault) {
                let fault = choose|fault: ShapeFault| document_has_fault(document, fault);
                let name = choose|name: Seq<char>|
                    groups.dom().contains(name) && group_has_fault(#[trigger] groups[name], fault);
                lemma_group_or_fault(groups[name]);
            }
        },
        _ => {
            assert(document_has_fault(document, ShapeFault::Document));
        },
    }
}

/// Whether no two of `groups` have the same name.
pub open spec fn names_differ(groups: Seq<(String, Vec<JdAccount>)>) -> bool {
    forall|i: int, j: int|
        #![trigger groups[i], groups[j]]
        0 <= i < j < groups.len() ==> groups[i].0@ != groups[j].0@
}

/// Whether one of `groups` has this name.
pub open spec fn has_group(groups: Seq<(String, Vec<JdAccount>)>, name: Seq<char>) -> bool {
    exists|i: int| 0 <= i < groups.len() && (#[trigger] groups[i]).0@ == name
}

/// The mapping that `groups` stands for: from each name to the accounts
/// listed under it.
pub open spec fn groups_view(groups: Seq<(String, Vec<JdAccount>)>) -> Map<
    Seq<char>,
    Seq<AccountModel>,
> {
    Map::new(
        |name: Seq<char>| has_group(groups, name),
        |name: Seq<char>|
            {
                let i = choose|i: int| 0 <= i < groups.len() && (#[trigger] groups[i]).0@ == name;
                accounts_view(groups[i].1@)
            },
    )
}

/// Where no name comes twice, each group is found under its name.
pub proof fn lemma_group_under_its_name(groups: Seq<(String, Vec<JdAccount>)>, i: int)
    requires
        names_differ(groups),
        0 <= i < groups.len(),
    ensures
        groups_view(groups).dom().contains(groups[i].0@),
        groups_view(groups)[groups[i].0@] == accounts_view(groups[i].1@),
{
    let name = groups[i].0@;
    let found = choose|j: int| 0 <= j < groups.len() && (#[trigger] groups[j]).0@ == name;
    if found < i {
        assert(groups[found].0@ != groups[i].0@);
    }
    if i < found {
        assert(groups[i].0@ != groups[found].0@);
    }
}

/// All accounts of a container, grouped by hoster name. Each name comes once;
/// the accounts of a group keep the order of the document.
#[derive(Debug)]
pub struct JdAccountList {
    groups: Vec<(String, Vec<JdAccount>)>,
}

impl View for JdAccountList {
    type V = Map<Seq<char>, Seq<AccountModel>>;

    closed spec fn view(&self) -> Map<Seq<char>, Seq<AccountModel>> {
        groups_view(self.groups@)
    }
}

impl JdAccountList {
    #[verifier::type_invariant]
    spec fn names_come_once(&self) -> bool {
        names_differ(self.groups@)
    }

    /// The list without any group.
    pub fn new() -> (list: Self)
        ensures
            list@ == Map::<Seq<char>, Seq<AccountModel>>::empty(),
    {
        let list = JdAccountList { groups: Vec::new() };
        proof {
            assert(list@ =~= Map::<Seq<char>, Seq<AccountModel>>::empty());
        }
        list
    }

    /// The groups, each with its name. No name comes twice.
    pub fn as_ref(&self) -> (groups: &Vec<(String, Vec<JdAccount>)>)
        ensures
            names_differ(groups@),
            groups_view(groups@) == self@,
    {
        proof {
            use_type_invariant(self);
        }
        &self.groups
    }

    /// The groups themselves, each with its name. No name comes twice.
    pub fn into_groups(self) -> (groups: Vec<(String, Vec<JdAccount>)>)
        ensures
            names_differ(groups@),
            groups_view(groups@) == self@,
    {
        proof {
            use_type_invariant(&self);
        }
        self.groups
    }

    /// The accounts of the group of this name, if there is one.
    pub fn get(&self, name: &str) -> (found: Option<&Vec<JdAccount>>)
        ensures
            match found {
                Some(accounts) => self@.dom().contains(name@) && accounts_view(accounts@)
                    == self@[name@],
                None => !self@.dom().contains(name@),
            },
    {
        proof {
            use_type_invariant(self);
        }
        match position(&self.groups, name) {
            Some(i) => {
                proof {
                    lemma_group_under_its_name(self.groups@, i as int);
                }
                Some(&self.groups[i].1)
            },
            None => None,
        }
    }

    /// This list with `accounts` under `name`, in place of the group of that
    /// name if there was one.
    pub fn with_group(self, name: String, accounts: Vec<JdAccount>) -> (list: Self)
        ensures
            list@ == self@.insert(name@, accounts_view(accounts@)),
    {
        proof {
            use_type_invariant(&self);
        }
        let ghost before = self.groups@;
        let mut groups = self.groups;
        match position(&groups, name.as_str()) {
            Some(i) => {
                proof {
                    lemma_view_without_group(before, i as int);
                }
                groups.remove(i);
            },
            None => {},
        }
        proof {
            lemma_view_with_group(groups@, name, accounts);
            assert(groups_view(groups@.push((name, accounts))) =~= groups_view(before).insert(
                name@,
                accounts_view(accounts@),
            ));
        }
        groups.push((name, accounts));
        JdAccountList { groups }
    }
}

impl Default for JdAccountList {
    /// The list without any group.
    fn default() -> (list: Self)
        ensures
            list@ == Map::<Seq<char>, Seq<AccountModel>>::empty(),
    {
        JdAccountList::new()
    }
}

/// Where among `groups` the group of this name stands, if there is one.
fn position(groups: &Vec<(String, Vec<JdAccount>)>, name: &str) -> (found: Option<usize>)
    ensures
        match found {
            Some(i) => i < groups@.len() && groups@[i as int].0@ == name@,
            None => !has_group(groups@, name@),
        },
{
    let wanted = name.to_owned();
    let mut i: usize = 0;
    while i < groups.len()
        invariant
            wanted@ == name@,
            i <= groups@.len(),
            forall|j: int| 0 <= j < i ==> (#[trigger] groups@[j]).0@ != name@,
        decreases groups@.len() - i,
    {
        if groups[i].0 == wanted {
            return Some(i);
        }
        i = i + 1;
    }
    None
}

/// Taking a group out of a list takes its name out of the mapping and leaves
/// the other names as they were.
proof fn lemma_view_without_group(groups: Seq<(String, Vec<JdAccount>)>, i: int)
    requires
        names_differ(groups),
        0 <= i < groups.len(),
    ensures
        names_differ(groups.remove(i)),
        !has_group(groups.remove(i), groups[i].0@),
        groups_view(groups.remove(i)) == groups_view(groups).remove(groups[i].0@),
{
    let rest = groups.remove(i);
    assert forall|a: int| 0 <= a < rest.len() implies #[trigger] rest[a] == groups[if a < i {
        a
    } else {
        a + 1
    }] by {}
    assert(names_differ(rest)) by {
        assert forall|a: int, b: int| 0 <= a < b < rest.len() implies rest[a].0@ != rest[b].0@ by {
            let ga = if a < i {
                a
            } else {
                a + 1
            };
            let gb = if b < i {
                b
            } else {
                b + 1
            };
            assert(groups[ga].0@ != groups[gb].0@);
        }
    }
    assert(!has_group(rest, groups[i].0@)) by {
        if has_group(rest, groups[i].0@) {
            let a = choose|a: int| 0 <= a < rest.len() && (#[trigger] rest[a]).0@ == groups[i].0@;
            let ga = if a < i {
                a
            } else {
                a + 1
            };
            if ga < i {
                assert(groups[ga].0@ != groups[i].0@);
            } else {
                assert(groups[i].0@ != groups[ga].0@);
            }
        }
    }
    assert forall|name: Seq<char>| has_group(rest, name) <==> (has_group(groups, name) && name
        != groups[i].0@) by {
        if has_group(rest, name) {
            let a = choose|a: int| 0 <= a < rest.len() && (#[trigger] rest[a]).0@ == name;
            let ga = if a < i {
                a
            } else {
                a + 1
            };
            assert(groups[ga].0@ == name);
        }
        if has_group(groups, name) && name != groups[i].0@ {
            let g = choose|g: int| 0 <= g < groups.len() && (#[trigger] groups[g]).0@ == name;
            let a = if g < i {
                g
            } else {
                g - 1
            };
            assert(rest[a].0@ == name);
        }
    }
    assert forall|name: Seq<char>| has_group(rest, name) implies groups_view(rest)[name]
        == groups_view(groups)[name] by {
        let a = choose|a: int| 0 <= a < rest.len() && (#[trigger] rest[a]).0@ == name;
        let ga = if a < i {
            a
        } else {
            a + 1
        };
        lemma_group_under_its_name(rest, a);
        lemma_group_under_its_name(groups, ga);
    }
    assert(groups_view(rest) =~= groups_view(groups).remove(groups[i].0@));
}

/// Adding a group of a new name to a list adds it to the mapping and leaves
/// the other names as they were.
proof fn lemma_view_with_group(
    groups: Seq<(String, Vec<JdAccount>)>,
    name: String,
    accounts: Vec<JdAccount>,
)
    requires
        names_differ(groups),
        !has_group(groups, name@),
    ensures
        names_differ(groups.push((name, accounts))),
        groups_view(groups.push((name, accounts))) == groups_view(groups).insert(
            name@,
            accounts_view(accounts@),
        ),
{
    let more = groups.push((name, accounts));
    assert(names_differ(more)) by {
        assert forall|a: int, b: int| 0 <= a < b < more.len() implies more[a].0@ != more[b].0@ by {
            if b < groups.len() {
                assert(groups[a].0@ != groups[b].0@);
            } else {
                assert(groups[a].0@ != name@);
            }
        }
    }
    assert forall|other: Seq<char>| has_group(more, other) <==> (has_group(groups, other) || other
        == name@) by {
        if has_group(more, other) {
            let a = choose|a: int| 0 <= a < more.len() && (#[trigger] more[a]).0@ == other;
            if a < groups.len() {
                assert(groups[a].0@ == other);
            }
        }
        if has_group(groups, other) {
            let a = choose|a: int| 0 <= a < groups.len() && (#[trigger] groups[a]).0@ == other;
            assert(more[a].0@ == other);
        }
        if other == name@ {
            assert(more[groups.len() as int].0@ == other);
        }
    }
    assert forall|other: Seq<char>| has_group(more, other) implies groups_view(more)[other] == (
    if other == name@ {
        accounts_view(accounts@)
    } else {
        groups_view(groups)[other]
    }) by {
        let a = choose|a: int| 0 <= a < more.len() && (#[trigger] more[a]).0@ == other;
        lemma_group_under_its_name(more, a);
        if a < groups.len() {
            assert(groups[a].0@ == other);
            lemma_group_under_its_name(groups, a);
        }
    }
    assert(groups_view(more) =~= groups_view(groups).insert(name@, accounts_view(accounts@)));
}

/// Decodes the accounts of one group from its JSON array.
///
/// Succeeds exactly on the arrays of accounts. A fault that is reported is
/// one that the value has.
pub fn decode_group(value: &Value) -> (r: Result<Vec<JdAccount>, ShapeFault>)
    ensures
        match r {
            Ok(accounts) => is_group(json_tree(*value)) && accounts_view(accounts@) == group_of(
                json_tree(*value)->Array_0,
            ),
            Err(fault) => group_has_fault(json_tree(*value), fault),
        },
{
    let items = match value.as_array() {
        Some(items) => items,
        None => {
            return Err(ShapeFault::Group);
        },
    };
    let ghost trees = json_trees(items@);
    let mut accounts: Vec<JdAccount> = Vec::new();
    let mut i: usize = 0;
    while i < items.len()
        invariant
            json_tree(*value) == JsonModel::Array(trees),
            trees == json_trees(items@),
            i <= items@.len(),
            accounts@.len() == i,
            forall|j: int|
                0 <= j < i ==> is_account(#[trigger] trees[j]) && accounts@[j]@ == account_of(
                    trees[j]->Object_0,
                ),
        decreases items@.len() - i,
    {
        let account = match decode_account(&items[i]) {
            Ok(account) => account,
            Err(fault) => {
                proof {
                    assert(account_has_fault(trees[i as int], fault));
                    assert(JsonModel::Array(trees)->Array_0 == trees);
                }
                return Err(fault);
            },
        };
        accounts.push(account);
        i = i + 1;
    }
    proof {
        assert(accounts_view(accounts@) =~= group_of(trees));
    }
    Ok(accounts)
}

/// Decodes an account list from its JSON document.
///
/// Succeeds exactly on the objects whose members are arrays of accounts. A
/// fault that is reported is one that the document has.
pub fn decode_document(document: &Value) -> (r: Result<JdAccountList, ShapeFault>)
    ensures
        match r {
            Ok(list) => is_account_list(json_tree(*document)) && list@ == account_list_of(
                json_tree(*document)->Object_0,
            ),
            Err(fault) => document_has_fault(json_tree(*document), fault),
        },
{
    let entries = match members(document) {
        Some(entries) => entries,
        None => {
            return Err(ShapeFault::Document);
        },
    };
    let ghost named = json_tree(*document)->Object_0;
    let mut groups: Vec<(String, Vec<JdAccount>)> = Vec::new();
    let mut i: usize = 0;
    while i < entries.len()
        invariant
            json_tree(*document) == JsonModel::Object(named),
            forall|j: int|
                #![trigger entries@[j]]
                0 <= j < entries@.len() ==> named.dom().contains(entries@[j].0@) && json_tree(
                    *entries@[j].1,
                ) == named[entries@[j].0@],
            i <= entries@.len(),
            groups@.len() == i,
            forall|j: int|
                #![trigger groups@[j]]
                0 <= j < i ==> {
                    &&& groups@[j].0@ == entries@[j].0@
                    &&& is_group(named[entries@[j].0@])
                    &&& accounts_view(groups@[j].1@) == group_of(named[entries@[j].0@]->Array_0)
                },
        decreases entries@.len() - i,
    {
        let accounts = match decode_group(entries[i].1) {
            Ok(accounts) => accounts,
            Err(fault) => {
                proof {
                    assert(named.dom().contains(entries@[i as int].0@));
                    assert(group_has_fault(named[entries@[i as int].0@], fault));
                    assert(JsonModel::Object(named)->Object_0 == named);
                }
                return Err(fault);
            },
        };
        groups.push((entries[i].0.clone(), accounts));
        i = i + 1;
    }
    proof {
        assert(names_differ(groups@)) by {
            assert forall|a: int, b: int| 0 <= a < b < groups@.len() implies groups@[a].0@
                != groups@[b].0@ by {
                assert(entries@[a].0@ != entries@[b].0@);
            }
        }
        assert forall|name: Seq<char>| named.dom().contains(name) implies is_group(
            #[trigger] named[name],
        ) && has_group(groups@, name) && groups_view(groups@)[name] == group_of(
            named[name]->Array_0,
        ) by {
            let j = choose|j: int|
                #![trigger entries@[j]]
                0 <= j < entries@.len() && entries@[j].0@ == name;
            assert(groups@[j].0@ == name);
            lemma_group_under_its_name(groups@, j);
        }
        assert forall|name: Seq<char>| has_group(groups@, name) implies named.dom().contains(
            name,
        ) by {
            let j = choose|j: int| 0 <= j < groups@.len() && (#[trigger] groups@[j]).0@ == name;
            assert(entries@[j].0@ == name);
        }
        assert(groups_view(groups@) =~= account_list_of(named));
    }
    Ok(JdAccountList { groups })
}

} // verus!
