use ws::cmd::ErrorKind;
use ws::store::{create_workspace, delete_workspace, goto_workspace, has_workspace, Workspace};

fn pairs(v: &Vec<Workspace>) -> Vec<(String, String)> {
    v.iter().map(|w| (w.name.clone(), w.path.clone())).collect()
}

#[test]
fn create_twice_is_refused_and_keeps_one_record() {
    let mut s = Vec::new();
    assert!(create_workspace(&mut s, "foo".into(), "/a".into()).is_ok());
    match create_workspace(&mut s, "foo".into(), "/b".into()) {
        Err(ErrorKind::WorkspaceAlreadyExist(n)) => assert_eq!(n, "foo"),
        other => panic!("unexpected {:?}", other),
    }
    assert_eq!(s.iter().filter(|w| w.name == "foo").count(), 1);
    assert_eq!(pairs(&s), vec![("foo".to_string(), "/a".to_string())]);
}

#[test]
fn create_appends_in_order() {
    let mut s = Vec::new();
    create_workspace(&mut s, "b".into(), "/b".into()).unwrap();
    create_workspace(&mut s, "a".into(), "/a".into()).unwrap();
    assert_eq!(
        pairs(&s),
        vec![("b".to_string(), "/b".to_string()), ("a".to_string(), "/a".to_string())]
    );
}

#[test]
fn names_compare_exactly() {
    let mut s = Vec::new();
    create_workspace(&mut s, "foo".into(), "/a".into()).unwrap();
    assert!(create_workspace(&mut s, "Foo".into(), "/b".into()).is_ok());
    assert!(has_workspace(&s, &"Foo".to_string()));
    assert!(!has_workspace(&s, &"fo".to_string()));
}

#[test]
fn delete_missing_is_refused_and_leaves_store() {
    let mut s = Vec::new();
    create_workspace(&mut s, "a".into(), "/a".into()).unwrap();
    match delete_workspace(&mut s, "nope".into()) {
        Err(ErrorKind::WorkspaceNotFound(n)) => assert_eq!(n, "nope"),
        other => panic!("unexpected {:?}", other),
    }
    assert_eq!(pairs(&s), vec![("a".to_string(), "/a".to_string())]);
}

#[test]
fn delete_keeps_order_of_the_rest() {
    let mut s = Vec::new();
    for (n, p) in [("a", "/1"), ("b", "/2"), ("c", "/3")] {
        create_workspace(&mut s, n.into(), p.into()).unwrap();
    }
    delete_workspace(&mut s, "b".into()).unwrap();
    assert_eq!(
        pairs(&s),
        vec![("a".to_string(), "/1".to_string()), ("c".to_string(), "/3".to_string())]
    );
}

#[test]
fn delete_removes_only_the_first_duplicate() {
    let mut s = vec![
        Workspace { name: "a".into(), path: "/1".into() },
        Workspace { name: "a".into(), path: "/2".into() },
    ];
    delete_workspace(&mut s, "a".into()).unwrap();
    assert_eq!(pairs(&s), vec![("a".to_string(), "/2".to_string())]);
}

#[test]
fn delete_only_record_empties_store() {
    let mut s = Vec::new();
    create_workspace(&mut s, "foo".into(), "/x".into()).unwrap();
    delete_workspace(&mut s, "foo".into()).unwrap();
    assert!(s.is_empty());
}

#[test]
fn create_then_goto_gives_path() {
    let mut s = Vec::new();
    create_workspace(&mut s, "foo".into(), "/tmp/x".into()).unwrap();
    assert_eq!(goto_workspace(&s, "foo".into()).unwrap(), "/tmp/x");
}

#[test]
fn goto_missing_is_not_found() {
    let s: Vec<Workspace> = Vec::new();
    match goto_workspace(&s, "foo".into()) {
        Err(ErrorKind::WorkspaceNotFound(n)) => assert_eq!(n, "foo"),
        other => panic!("unexpected {:?}", other),
    }
}
