use jobshell::eval::command::builtin::{cd, exit, export, fg, let_, read_fg_target, source};
use jobshell::eval::command::builtin::FgTarget;
use jobshell::eval::command::{Builtin, BuiltinError, BuiltinKind};
use jobshell::eval::namespace::{Procs, Vars};
use jobshell::eval::{Block, NameSpace};
use jobshell::job::{JobError, Jobs};

fn list(l: &[&str]) -> Vec<String> {
    l.iter().map(|s| s.to_string()).collect()
}

fn names(v: &Vars) -> Vec<String> {
    let mut out: Vec<String> = (0..v.len()).map(|i| v.entry(i).0).collect();
    out.sort();
    out
}

#[test]
fn scope_takes_back_what_push_added() {
    let mut v = Vars::new();
    v.gpush("PATH", "/bin");
    v.mark();
    v.push("x", "1");
    v.push("PATH", "/usr/bin");
    v.gpush("y", "2");
    assert_eq!(v.depth(), 1);
    assert_eq!(v.get("x"), Some("1".to_string()));
    v.drop();
    assert_eq!(v.depth(), 0);
    assert_eq!(names(&v), list(&["PATH", "y"]));
    assert_eq!(v.get("PATH"), Some("/usr/bin".to_string()));
    assert_eq!(v.get("x"), None);
}

#[test]
fn nested_scopes_close_innermost_first() {
    let mut v = Vars::new();
    v.mark();
    v.push("a", "1");
    v.mark();
    v.push("b", "2");
    v.push("a", "3");
    v.drop();
    assert_eq!(names(&v), list(&["a"]));
    assert_eq!(v.get("a"), Some("3".to_string()));
    v.drop();
    assert_eq!(names(&v), list(&[]));
    v.push("loose", "x");
    v.drop();
    assert_eq!(names(&v), list(&[]));
    assert_eq!(v.depth(), 0);
}

#[test]
fn a_name_exported_after_its_let_leaves_with_the_scope() {
    let mut v = Vars::new();
    v.mark();
    v.push("k", "1");
    v.gpush("k", "2");
    v.drop();
    assert_eq!(v.get("k"), None);
    v.mark();
    v.gpush("k", "2");
    v.push("k", "1");
    v.drop();
    assert_eq!(v.get("k"), Some("1".to_string()));
}

#[test]
fn arguments_become_variables() {
    let mut ns = NameSpace::new();
    ns.mark();
    ns.set_args("prog", &list(&["a", "b c", "d"]));
    assert_eq!(ns.get_var("#"), Some("3".to_string()));
    assert_eq!(ns.get_var("0"), Some("prog".to_string()));
    assert_eq!(ns.get_var("1"), Some("a".to_string()));
    assert_eq!(ns.get_var("2"), Some("b c".to_string()));
    assert_eq!(ns.get_var("3"), Some("d".to_string()));
    assert_eq!(ns.get_var("4"), None);
    assert_eq!(ns.get_var("@"), Some("a b c d".to_string()));
    ns.drop();
    assert_eq!(ns.get_var("#"), None);
    assert_eq!(ns.get_var("@"), None);
    ns.set_args("none", &list(&[]));
    assert_eq!(ns.get_var("#"), Some("0".to_string()));
    assert_eq!(ns.get_var("@"), Some("".to_string()));
}

#[test]
fn procedures_are_kept_by_name() {
    let mut p = Procs::new();
    assert_eq!(p.get("f"), None);
    p.push("f".to_string(), Block::Break);
    p.push("g".to_string(), Block::Continue);
    p.push("f".to_string(), Block::Multi(vec![]));
    assert_eq!(p.get("f"), Some(Block::Multi(vec![])));
    assert_eq!(p.get("g"), Some(Block::Continue));
    let mut ns = NameSpace::new();
    ns.mark();
    ns.push_proc("f".to_string(), Block::Break);
    ns.drop();
    assert_eq!(ns.get_proc("f"), Some(Block::Break));
    assert_eq!(ns.get_proc("h"), None);
}

#[test]
fn builtin_names_are_eight() {
    assert_eq!(BuiltinKind::new(""), Some(BuiltinKind::Empty));
    assert_eq!(BuiltinKind::new("exit"), Some(BuiltinKind::Exit));
    assert_eq!(BuiltinKind::new("cd"), Some(BuiltinKind::Cd));
    assert_eq!(BuiltinKind::new("fg"), Some(BuiltinKind::Fg));
    assert_eq!(BuiltinKind::new("jobs"), Some(BuiltinKind::Jobs));
    assert_eq!(BuiltinKind::new("let"), Some(BuiltinKind::Let));
    assert_eq!(BuiltinKind::new("export"), Some(BuiltinKind::Export));
    assert_eq!(BuiltinKind::new("source"), Some(BuiltinKind::Source));
    assert_eq!(BuiltinKind::new("Exit"), None);
    assert_eq!(BuiltinKind::new("ls"), None);
    let b = Builtin::new(BuiltinKind::Cd, list(&["/"]));
    assert_eq!(b, Builtin { kind: BuiltinKind::Cd, args: list(&["/"]) });
}

#[test]
fn let_and_export_want_name_equals_value() {
    let mut ns = NameSpace::new();
    ns.mark();
    assert_eq!(let_(&list(&["x", "=", "3"]), &mut ns), Ok(()));
    assert_eq!(export(&list(&["y", "=", "4"]), &mut ns), Ok(()));
    assert_eq!(let_(&list(&["x", "3"]), &mut ns), Err(BuiltinError::Arity));
    assert_eq!(let_(&list(&["x", "is", "3"]), &mut ns), Err(BuiltinError::MissingEquals));
    assert_eq!(export(&list(&[]), &mut ns), Err(BuiltinError::Arity));
    assert_eq!(export(&list(&["a", "==", "b"]), &mut ns), Err(BuiltinError::MissingEquals));
    assert_eq!(ns.get_var("x"), Some("3".to_string()));
    ns.drop();
    assert_eq!(ns.get_var("x"), None);
    assert_eq!(ns.get_var("y"), Some("4".to_string()));
}

#[test]
fn exit_cd_and_source_read_their_arguments() {
    assert_eq!(exit(&list(&[])), Ok(0));
    assert_eq!(exit(&list(&["42"])), Ok(42));
    assert_eq!(exit(&list(&["-3"])), Ok(-3));
    assert_eq!(exit(&list(&["x"])), Err(BuiltinError::BadNumber));
    assert_eq!(exit(&list(&["1", "2"])), Err(BuiltinError::Arity));
    let mut ns = NameSpace::new();
    assert_eq!(cd(&list(&[]), &ns), Err(BuiltinError::NoHome));
    ns.push_gvar("HOME", "/root");
    assert_eq!(cd(&list(&[]), &ns), Ok("/root".to_string()));
    assert_eq!(cd(&list(&["/tmp"]), &ns), Ok("/tmp".to_string()));
    assert_eq!(cd(&list(&["a", "b"]), &ns), Err(BuiltinError::Arity));
    assert_eq!(source(&list(&[])), Err(BuiltinError::NoScript));
    assert_eq!(source(&list(&["f", "a", "b"])), Ok(("f".to_string(), list(&["a", "b"]))));
    assert_eq!(BuiltinError::MissingEquals.message(), "Missing \"=\".");
    assert_eq!(BuiltinError::NoScript.message(), "Specify the file to run.");
    assert_eq!(BuiltinError::NoHome.message(), "Failed to get the home directory.");
    assert_eq!(BuiltinError::BadNumber.message(), "Failed to parse a number.");
    assert_eq!(
        BuiltinError::Job(JobError::NotFound).message(),
        "Can't find such a process."
    );
}

#[test]
fn fg_takes_a_job_id_or_a_process_id() {
    assert!(matches!(read_fg_target("%2"), Ok(FgTarget::Job(2))));
    assert!(matches!(read_fg_target("17"), Ok(FgTarget::Pid(17))));
    assert!(matches!(read_fg_target("%"), Err(BuiltinError::BadNumber)));
    assert!(matches!(read_fg_target("x"), Err(BuiltinError::BadNumber)));
    let mut jobs = Jobs::new();
    jobs.new_bg(500).unwrap();
    jobs.new_bg(600).unwrap();
    assert_eq!(fg(&list(&["600"]), &mut jobs), Ok(()));
    assert_eq!(jobs.fg_pid(), Some(600));
    assert_eq!(jobs.get(2), None);
    assert_eq!(
        fg(&list(&["%1"]), &mut jobs),
        Err(BuiltinError::Job(JobError::ForegroundBusy))
    );
    assert_eq!(fg(&list(&["%0"]), &mut jobs), Ok(()));
    assert_eq!(fg(&list(&["1", "2"]), &mut jobs), Err(BuiltinError::Arity));
    assert_eq!(jobs.get_pid(&1), Ok(500));
}
