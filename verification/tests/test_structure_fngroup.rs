use gearsx::messages::FnGroupFnUpdate;
use gearsx::structure::fngroup::{FnLanguage, Fngroup, FngroupError};

fn update(id: i32, name: Option<&str>, description: Option<&str>, body: Option<&str>) -> FnGroupFnUpdate {
    FnGroupFnUpdate {
        id,
        name: name.map(|s| s.to_string()),
        description: description.map(|s| s.to_string()),
        body: body.map(|s| s.to_string()),
    }
}

#[test]
fn functions_are_added_under_the_next_id() {
    let mut group = Fngroup::default();
    assert!(group.fns.is_empty());
    assert_eq!(group.next_id(), 1);
    let f = group.add_fn("sum").unwrap();
    assert_eq!(f.id, 1);
    assert_eq!(f.name, "sum");
    assert_eq!(f.description, "No description");
    assert_eq!(f.body, "");
    assert_eq!(f.lang, FnLanguage::AssemblyScript);
    assert!(f.input.is_empty());
    assert!(f.output.is_empty());
    assert_eq!(group.fns, vec![f]);
    // Names may repeat: only identifiers tell functions apart.
    assert_eq!(group.add_fn("sum").unwrap().id, 2);
    group.fns[0].id = 40;
    assert_eq!(group.add_fn("max").unwrap().id, 41);
    let mut ids: Vec<i32> = group.fns.iter().map(|f| f.id).collect();
    ids.sort();
    ids.dedup();
    assert_eq!(ids.len(), 3);
}

#[test]
fn an_update_replaces_only_what_it_gives() {
    let mut group = Fngroup::default();
    group.add_fn("sum").unwrap();
    group.add_fn("max").unwrap();
    let f = group.update_fn(&update(2, None, Some("the greater"), None)).unwrap();
    assert_eq!(f.id, 2);
    assert_eq!(f.name, "max");
    assert_eq!(f.description, "the greater");
    assert_eq!(f.body, "");
    assert_eq!(group.fns[1], f);
    let f = group.update_fn(&update(2, Some("maximum"), None, Some("a > b ? a : b"))).unwrap();
    assert_eq!(f.name, "maximum");
    assert_eq!(f.description, "the greater");
    assert_eq!(f.body, "a > b ? a : b");
    assert_eq!(group.fns[1], f);
    assert_eq!(group.fns[0].name, "sum");
    let same = group.update_fn(&update(1, None, None, None)).unwrap();
    assert_eq!(same, group.fns[0]);
    assert_eq!(same.description, "No description");
}

#[test]
fn an_update_needs_exactly_one_function() {
    let mut group = Fngroup::default();
    group.add_fn("sum").unwrap();
    let before = group.clone();
    assert_eq!(group.update_fn(&update(5, Some("x"), None, None)), Err(FngroupError::FnDoesNotExist(5)));
    assert_eq!(group, before);
    assert_eq!(group.get_fn_mut(5).err(), Some(FngroupError::FnDoesNotExist(5)));
    group.get_fn_mut(1).unwrap().body = "a + b".to_string();
    assert_eq!(group.fns[0].body, "a + b");
    let copy = group.fns[0].clone();
    group.fns.push(copy);
    let before = group.clone();
    assert_eq!(group.update_fn(&update(1, Some("x"), None, None)), Err(FngroupError::FnDoesNotExist(1)));
    assert_eq!(group.get_fn_mut(1).err(), Some(FngroupError::FnDoesNotExist(1)));
    assert_eq!(group, before);
}

#[test]
fn fngroup_errors_as_text() {
    assert_eq!(FngroupError::FnDoesNotExist(12).to_string(), "id:12");
    assert_eq!(FngroupError::FnDoesNotExist(-2147483648).to_string(), "id:-2147483648");
}
