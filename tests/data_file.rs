use ws::cmd::{Command, ErrorKind, Report, CWD_UNREADABLE, DATA_FILE_UNREADABLE};
use ws::codec::{get_ws_data, objects_from_records, records_from_objects, save_ws_data};
use ws::store::Workspace;

fn ws(n: &str, p: &str) -> Workspace {
    Workspace { name: n.into(), path: p.into() }
}

fn pairs(v: &Vec<Workspace>) -> Vec<(String, String)> {
    v.iter().map(|w| (w.name.clone(), w.path.clone())).collect()
}

fn is_data_read_error(r: &Result<Vec<Workspace>, ErrorKind>) -> bool {
    matches!(r, Err(ErrorKind::DataReadError(m)) if *m == DATA_FILE_UNREADABLE)
}

#[test]
fn pretty_text_of_one_workspace() {
    let text = save_ws_data(&vec![ws("foo", "/tmp/x")]).unwrap();
    assert_eq!(text, "[\n  {\n    \"name\": \"foo\",\n    \"path\": \"/tmp/x\"\n  }\n]");
}

#[test]
fn pretty_text_of_no_workspace() {
    assert_eq!(save_ws_data(&Vec::new()).unwrap(), "[]");
}

#[test]
fn save_then_load_round_trips() {
    let v = vec![ws("b", "/home/b"), ws("a", "/home/a \"q\""), ws("c", "/ü")];
    let text = save_ws_data(&v).unwrap();
    let back = get_ws_data(&text).unwrap();
    assert_eq!(pairs(&back), pairs(&v));
}

#[test]
fn empty_text_holds_no_workspace() {
    assert!(get_ws_data("").unwrap().is_empty());
}

#[test]
fn truncated_text_is_refused() {
    assert!(is_data_read_error(&get_ws_data("[{\"name\": \"a\", \"pa")));
}

#[test]
fn non_conforming_text_is_refused() {
    assert!(is_data_read_error(&get_ws_data("{\"name\": \"a\"}")));
    assert!(is_data_read_error(&get_ws_data("[{\"name\": \"a\"}]")));
    assert!(is_data_read_error(&get_ws_data("[{\"name\": 1, \"path\": \"/a\"}]")));
    assert!(is_data_read_error(&get_ws_data("hello")));
}

#[test]
fn other_fields_are_ignored() {
    let v = get_ws_data("[{\"path\": \"/a\", \"name\": \"a\", \"note\": \"x\"}]").unwrap();
    assert_eq!(pairs(&v), vec![("a".to_string(), "/a".to_string())]);
}

#[test]
fn non_string_other_fields_are_ignored() {
    let v = get_ws_data("[{\"name\": \"a\", \"path\": \"/a\", \"n\": 3, \"t\": [true, null]}]").unwrap();
    assert_eq!(pairs(&v), vec![("a".to_string(), "/a".to_string())]);
}

#[test]
fn objects_name_then_path() {
    let o = objects_from_records(&vec![ws("a", "/a")]);
    assert_eq!(
        o,
        vec![vec![("name".to_string(), "a".to_string()), ("path".to_string(), "/a".to_string())]]
    );
}

#[test]
fn objects_without_path_give_none() {
    let o = vec![vec![("name".to_string(), Some("a".to_string()))]];
    assert!(records_from_objects(&o).is_none());
    let o = vec![vec![("name".to_string(), Some("a".to_string())), ("path".to_string(), None)]];
    assert!(records_from_objects(&o).is_none());
    let o = vec![vec![
        ("path".to_string(), Some("/a".to_string())),
        ("name".to_string(), Some("a".to_string())),
        ("size".to_string(), None),
    ]];
    assert_eq!(pairs(&records_from_objects(&o).unwrap()), vec![("a".to_string(), "/a".to_string())]);
}

fn run(c: Command, data: &str, cwd: Option<&str>) -> Result<ws::cmd::Outcome, ErrorKind> {
    let cwd = match cwd {
        Some(p) => Ok(String::from(p)),
        None => Err(ErrorKind::DataReadError(CWD_UNREADABLE)),
    };
    c.run(data, cwd)
}

#[test]
fn run_create_then_goto_reports_path() {
    let out = run(Command::Create("foo".into()), "", Some("/tmp/x")).unwrap();
    assert!(matches!(out.report, Report::Done));
    let text = out.saved.unwrap();
    let out = run(Command::Goto("foo".into()), &text, None).unwrap();
    match out.report {
        Report::Path(p) => assert_eq!(p, "/tmp/x"),
        other => panic!("unexpected {:?}", other),
    }
    assert!(out.saved.is_none());
    let out = run(Command::List, &text, None).unwrap();
    match out.report {
        Report::Workspaces(v) => assert_eq!(pairs(&v), vec![("foo".to_string(), "/tmp/x".to_string())]),
        other => panic!("unexpected {:?}", other),
    }
}

#[test]
fn run_create_twice_is_refused() {
    let text = run(Command::Create("foo".into()), "", Some("/a")).unwrap().saved.unwrap();
    match run(Command::Create("foo".into()), &text, Some("/b")) {
        Err(ErrorKind::WorkspaceAlreadyExist(n)) => assert_eq!(n, "foo"),
        other => panic!("unexpected {:?}", other),
    }
}

#[test]
fn run_create_without_working_directory() {
    match run(Command::Create("foo".into()), "", None) {
        Err(ErrorKind::DataReadError(m)) => assert_eq!(m, CWD_UNREADABLE),
        other => panic!("unexpected {:?}", other),
    }
}

#[test]
fn run_create_reports_working_directory_error() {
    let e = std::io::Error::new(std::io::ErrorKind::NotFound, "gone");
    match Command::Create("foo".into()).run("", Err(ErrorKind::from(e))) {
        Err(ErrorKind::DataReadError(m)) => assert_eq!(m, DATA_FILE_UNREADABLE),
        other => panic!("unexpected {:?}", other),
    }
}

#[test]
fn run_create_refuses_taken_name_before_working_directory() {
    let text = run(Command::Create("foo".into()), "", Some("/a")).unwrap().saved.unwrap();
    match run(Command::Create("foo".into()), &text, None) {
        Err(ErrorKind::WorkspaceAlreadyExist(n)) => assert_eq!(n, "foo"),
        other => panic!("unexpected {:?}", other),
    }
}

#[test]
fn saving_twice_gives_same_text() {
    let v = vec![ws("a", "/a"), ws("b", "/b")];
    assert_eq!(save_ws_data(&v).unwrap(), save_ws_data(&v).unwrap());
}

#[test]
fn run_delete_only_then_list_is_empty() {
    let text = run(Command::Create("foo".into()), "", Some("/a")).unwrap().saved.unwrap();
    let text = run(Command::Delete("foo".into()), &text, None).unwrap().saved.unwrap();
    assert_eq!(text, "[]");
    match run(Command::List, &text, None).unwrap().report {
        Report::Workspaces(v) => assert!(v.is_empty()),
        other => panic!("unexpected {:?}", other),
    }
}

#[test]
fn run_delete_missing_is_not_found() {
    match run(Command::Delete("foo".into()), "[]", None) {
        Err(ErrorKind::WorkspaceNotFound(n)) => assert_eq!(n, "foo"),
        other => panic!("unexpected {:?}", other),
    }
}

#[test]
fn run_on_malformed_data_is_refused() {
    match run(Command::List, "[{", None) {
        Err(ErrorKind::DataReadError(m)) => assert_eq!(m, DATA_FILE_UNREADABLE),
        other => panic!("unexpected {:?}", other),
    }
}

#[test]
fn run_help_and_version_ignore_data() {
    let out = run(Command::Help, "not json", None).unwrap();
    assert!(matches!(out.report, Report::Help) && out.saved.is_none());
    let out = run(Command::Version, "not json", None).unwrap();
    assert!(matches!(out.report, Report::Version) && out.saved.is_none());
}
