use jobshell::eval::command::{BuiltinError, OutMode, RedirectError};
use jobshell::eval::machine::{Action, EvalError, Event, Input, Machine, Message, Output, Stage};
use jobshell::eval::{Block, NameSpace};
use jobshell::job::{JobError, Jobs, Notice, Signal, Status};
use jobshell::parse::{parse_line, Parsed};

/// A host that runs no program: it knows what `echo`, `cat`, `true` and
/// `sleep` would write, and keeps files in memory.
struct Host {
    stdout: String,
    pipe: String,
    files: Vec<(String, String)>,
    next_pid: i32,
    messages: Vec<String>,
    spawned: Vec<Stage>,
    cwd: Option<String>,
    exit: Option<i32>,
    waits: usize,
    status: Status,
}

fn host() -> Host {
    Host {
        stdout: String::new(),
        pipe: String::new(),
        files: Vec::new(),
        next_pid: 100,
        messages: Vec::new(),
        spawned: Vec::new(),
        cwd: None,
        exit: None,
        waits: 0,
        status: Status::Exited(0),
    }
}

fn read_file(h: &Host, name: &str) -> Option<String> {
    h.files.iter().find(|(n, _)| n == name).map(|(_, t)| t.clone())
}

fn write_file(h: &mut Host, name: &str, mode: OutMode, text: &str) {
    let old = read_file(h, name).unwrap_or_default();
    h.files.retain(|(n, _)| n != name);
    let new = match mode {
        OutMode::Append => old + text,
        OutMode::Overwrite => text.to_string(),
    };
    h.files.push((name.to_string(), new));
}

fn spawn(h: &mut Host, stage: Stage) -> Event {
    let input = match &stage.stdin {
        Input::Inherit => String::new(),
        Input::Previous => h.pipe.clone(),
        Input::HereDoc(text) => text.clone(),
        Input::File(name) => match read_file(h, name) {
            Some(t) => t,
            None => return Event::Failed(format!("{}: no such file", name)),
        },
    };
    let out = match stage.name.as_str() {
        "echo" => stage.args.join(" ") + "\n",
        "cat" => input,
        "true" | "sleep" => String::new(),
        other => return Event::Failed(format!("{}: command not found", other)),
    };
    match &stage.stdout {
        Output::Inherit => h.stdout.push_str(&out),
        Output::Pipe => h.pipe = out,
        Output::File(mode, name) => write_file(h, name, *mode, &out),
        Output::Shared => {}
    }
    h.spawned.push(stage);
    h.next_pid += 1;
    Event::Spawned(h.next_pid)
}

fn drive(h: &mut Host, m: &mut Machine, jobs: &mut Jobs) -> Result<(), EvalError> {
    let mut event = Event::Resume;
    for _ in 0..10_000 {
        let action = m.step(jobs, event);
        for msg in m.take_messages() {
            if let Message::Note(Notice::Started(_, _)) = msg {
                assert!(msg.to_stdout());
            }
            h.messages.push(msg.text());
        }
        event = match action {
            Action::Continue => Event::Resume,
            Action::Spawn(stage) => spawn(h, stage),
            Action::Capture => Event::Captured(h.pipe.clone()),
            Action::Wait(_) => {
                h.waits += 1;
                Event::Waited(h.status)
            }
            Action::Chdir(path) => {
                h.cwd = Some(path);
                Event::Done
            }
            Action::Exit(code) => {
                h.exit = Some(code);
                return Ok(());
            }
            Action::ShowJobs => Event::Done,
            Action::ReadScript(name) => match read_file(h, &name) {
                Some(text) => Event::Script(text.lines().map(|l| l.to_string()).collect()),
                None => Event::Failed(format!("{}: no such file", name)),
            },
            Action::Finished(r) => return r,
        };
    }
    panic!("the evaluation does not end");
}

fn block(input: &str) -> Block {
    match parse_line(input) {
        Ok(Parsed::Complete(b)) => Block::from(b),
        other => panic!("{:?} gave {:?}", input, other),
    }
}

fn run_in(h: &mut Host, m: &mut Machine, jobs: &mut Jobs, input: &str) -> Result<(), EvalError> {
    assert!(m.start(block(input)));
    drive(h, m, jobs)
}

fn run(input: &str) -> (Host, Machine, Jobs, Result<(), EvalError>) {
    let mut h = host();
    let mut m = Machine::new(NameSpace::new());
    let mut jobs = Jobs::new();
    let r = run_in(&mut h, &mut m, &mut jobs, input);
    (h, m, jobs, r)
}

#[test]
fn echo_writes_and_sets_status() {
    let (h, m, jobs, r) = run("echo hi");
    assert_eq!(r, Ok(()));
    assert_eq!(h.stdout, "hi\n");
    assert_eq!(h.waits, 1);
    assert_eq!(m.namespace().get_var("status"), Some("0".to_string()));
    assert_eq!(jobs.fg_pid(), None);
    assert!(m.idle());
}

#[test]
fn status_stays_after_a_signal() {
    let mut h = host();
    let mut m = Machine::new(NameSpace::new());
    let mut jobs = Jobs::new();
    h.status = Status::Exited(3);
    assert_eq!(run_in(&mut h, &mut m, &mut jobs, "true"), Ok(()));
    assert_eq!(m.namespace().get_var("status"), Some("3".to_string()));
    h.status = Status::Signaled(Signal::Other(9));
    assert_eq!(run_in(&mut h, &mut m, &mut jobs, "true"), Ok(()));
    assert_eq!(m.namespace().get_var("status"), Some("3".to_string()));
}

#[test]
fn let_is_gone_after_its_block() {
    let (h, m, _, r) = run("{ let x = 3; echo $x }");
    assert_eq!(r, Ok(()));
    assert_eq!(h.stdout, "3\n");
    assert_eq!(m.namespace().get_var("x"), None);
    assert_eq!(m.namespace().depth(), 0);
}

#[test]
fn export_outlives_its_block_and_let_keeps_what_it_overwrote() {
    let (h, m, _, r) = run("{ export y = 9; { let y = 2; echo $y }; echo $y }");
    assert_eq!(r, Ok(()));
    assert_eq!(h.stdout, "2\n2\n");
    assert_eq!(m.namespace().get_var("y"), Some("2".to_string()));
    let (h, m, _, r) = run("{ { let z = 1; export w = 5 }; echo $w }");
    assert_eq!(r, Ok(()));
    assert_eq!(h.stdout, "5\n");
    assert_eq!(m.namespace().get_var("z"), None);
    assert_eq!(m.namespace().get_var("w"), Some("5".to_string()));
}

#[test]
fn if_takes_the_branch_of_a_true_condition() {
    assert_eq!(run("if true { echo a } else { echo b }").0.stdout, "a\n");
    assert_eq!(run("if no { echo a } else { echo b }").0.stdout, "b\n");
    assert_eq!(run("if no { echo a }").0.stdout, "");
    for word in ["1", "y", "yes", "true", "YES", "True", "Y"] {
        assert_eq!(run(&format!("if {} {{ echo a }}", word)).0.stdout, "a\n", "{}", word);
    }
    for word in ["0", "n", "ye", "truee", "on", "\"\""] {
        assert_eq!(run(&format!("if {} {{ echo a }}", word)).0.stdout, "", "{}", word);
    }
}

#[test]
fn for_runs_through_the_lines() {
    let (h, m, _, r) = run("for i in \"a\\nb\\nc\" { echo $i }");
    assert_eq!(r, Ok(()));
    assert_eq!(h.stdout, "a\nb\nc\n");
    assert_eq!(m.namespace().get_var("i"), None);
    assert_eq!(run("for i in \"a\\nb\\nc\" { echo $i ; break }").0.stdout, "a\n");
    assert_eq!(
        run("for i in \"a\\nb\" { if true { continue }; echo $i }").0.stdout,
        ""
    );
}

#[test]
fn while_runs_until_the_condition_fails_or_a_break() {
    let (h, _, _, r) = run("{ export go = yes; while $go { echo on; export go = no } }");
    assert_eq!(r, Ok(()));
    assert_eq!(h.stdout, "on\n");
    assert_eq!(run("while yes { echo once; break }").0.stdout, "once\n");
}

#[test]
fn case_runs_the_first_arm_that_matches() {
    let text = "case b { a | b => echo first\n b => echo second\n c => echo third }";
    assert_eq!(run(text).0.stdout, "first\n");
    assert_eq!(run("case x { a => echo a\n b => echo b }").0.stdout, "");
    assert_eq!(run("case a* { a => echo glob\n a* => echo literal }").0.stdout, "literal\n");
}

#[test]
fn substitution_takes_the_output_without_its_last_line_feed() {
    let (h, _, jobs, r) = run("echo (echo hello)");
    assert_eq!(r, Ok(()));
    assert_eq!(h.stdout, "hello\n");
    assert_eq!(h.spawned[0].stdout, Output::Pipe);
    assert_eq!(h.spawned[1].stdout, Output::Inherit);
    assert_eq!(jobs.fg_pid(), None);
    assert_eq!(run("echo a(echo b)c \"x (echo y) z\"").0.stdout, "abc x y z\n");
}

#[test]
fn procedure_gets_its_arguments() {
    let (h, m, _, r) = run("{ greet { echo hello $1 }; greet world }");
    assert_eq!(r, Ok(()));
    assert_eq!(h.stdout, "hello world\n");
    assert_eq!(m.namespace().get_var("1"), None);
    assert_eq!(m.namespace().depth(), 0);
    let text = "{ show { echo $# $0 $1 $2 $@ }; show a 'b c' }";
    assert_eq!(run(text).0.stdout, "2 show a b c a b c\n");
}

#[test]
fn arguments_expand_into_words() {
    assert_eq!(
        run("{ export l = 'a  b\tc'; count { echo $# }; count $l ; count !$l ; count !'' }")
            .0
            .stdout,
        "1\n3\n0\n"
    );
}

#[test]
fn pipeline_waits_for_its_last_stage() {
    let (h, _, _, r) = run("echo hi | cat | cat");
    assert_eq!(r, Ok(()));
    assert_eq!(h.stdout, "hi\n");
    assert_eq!(h.spawned.len(), 3);
    assert_eq!(h.spawned[0].stdin, Input::Inherit);
    assert_eq!(h.spawned[0].stdout, Output::Pipe);
    assert_eq!(h.spawned[1].stdin, Input::Previous);
    assert_eq!(h.spawned[1].stdout, Output::Pipe);
    assert_eq!(h.spawned[2].stdin, Input::Previous);
    assert_eq!(h.spawned[2].stdout, Output::Inherit);
    assert_eq!(h.waits, 1);
}

#[test]
fn waits_for_the_terminal_stage_of_a_pipeline() {
    let mut h = host();
    let mut m = Machine::new(NameSpace::new());
    let mut jobs = Jobs::new();
    assert!(m.start(block("echo a | cat")));
    let mut event = Event::Resume;
    let waited = loop {
        match m.step(&mut jobs, event) {
            Action::Continue => event = Event::Resume,
            Action::Spawn(stage) => event = spawn(&mut h, stage),
            Action::Wait(pid) => break pid,
            other => panic!("{:?}", other),
        }
    };
    assert_eq!(waited, 102);
    assert_eq!(jobs.fg_pid(), Some(102));
    assert_eq!(jobs.from_pid(101), None);
}

#[test]
fn background_pipeline_starts_a_job_and_is_not_waited_for() {
    let (h, _, jobs, r) = run("sleep 1 | true &");
    assert_eq!(r, Ok(()));
    assert_eq!(h.messages, vec!["Job %1 (102) has started.".to_string()]);
    assert_eq!(h.waits, 0);
    assert_eq!(jobs.fg_pid(), None);
    assert_eq!(jobs.get_pid(&1), Ok(102));
}

#[test]
fn redirections_reach_the_host_as_wiring() {
    let mut h = host();
    h.files.push(("in.txt".to_string(), "data\n".to_string()));
    let mut m = Machine::new(NameSpace::new());
    let mut jobs = Jobs::new();
    let r = run_in(&mut h, &mut m, &mut jobs, "cat < in.txt >> out.log 2>&1");
    assert_eq!(r, Ok(()));
    assert_eq!(h.spawned[0].stdin, Input::File("in.txt".to_string()));
    assert_eq!(h.spawned[0].stdout, Output::File(OutMode::Append, "out.log".to_string()));
    assert_eq!(
        h.spawned[0].stderr,
        Output::File(OutMode::Overwrite, "/dev/stdout".to_string())
    );
    assert_eq!(read_file(&h, "out.log"), Some("data\n".to_string()));
    let r = run_in(&mut h, &mut m, &mut jobs, "cat < in.txt &>> out.log");
    assert_eq!(r, Ok(()));
    assert_eq!(h.spawned[1].stdout, Output::File(OutMode::Append, "out.log".to_string()));
    assert_eq!(h.spawned[1].stderr, Output::Shared);
    assert_eq!(read_file(&h, "out.log"), Some("data\ndata\n".to_string()));
    let r = run_in(&mut h, &mut m, &mut jobs, "cat << \"here $status\" > ${status}.txt");
    assert_eq!(r, Ok(()));
    assert_eq!(h.spawned[2].stdin, Input::HereDoc("here 0".to_string()));
    assert_eq!(read_file(&h, "0.txt"), Some("here 0".to_string()));
}

#[test]
fn builtins_ask_the_host() {
    let (h, _, _, r) = run("cd /tmp");
    assert_eq!(r, Ok(()));
    assert_eq!(h.cwd, Some("/tmp".to_string()));
    let (h, _, _, r) = run("{ export HOME = /home/me; cd }");
    assert_eq!(r, Ok(()));
    assert_eq!(h.cwd, Some("/home/me".to_string()));
    assert_eq!(run("exit").0.exit, Some(0));
    assert_eq!(run("exit 7").0.exit, Some(7));
    assert_eq!(run("exit -1").0.exit, Some(-1));
    assert_eq!(run("jobs").3, Ok(()));
    assert_eq!(run("").3, Ok(()));
}

#[test]
fn failures_end_the_evaluation_and_close_the_scopes() {
    let fails = |input: &str| {
        let (_, m, _, r) = run(input);
        assert_eq!(m.namespace().depth(), 0, "{}", input);
        assert!(m.idle());
        r
    };
    assert_eq!(fails("cd a b"), Err(EvalError::Builtin(BuiltinError::Arity)));
    assert_eq!(fails("cd"), Err(EvalError::Builtin(BuiltinError::NoHome)));
    assert_eq!(fails("exit x"), Err(EvalError::Builtin(BuiltinError::BadNumber)));
    assert_eq!(fails("exit 1 2"), Err(EvalError::Builtin(BuiltinError::Arity)));
    assert_eq!(fails("let x 3"), Err(EvalError::Builtin(BuiltinError::Arity)));
    assert_eq!(fails("let x is 3"), Err(EvalError::Builtin(BuiltinError::MissingEquals)));
    assert_eq!(fails("export x"), Err(EvalError::Builtin(BuiltinError::Arity)));
    assert_eq!(fails("source"), Err(EvalError::Builtin(BuiltinError::NoScript)));
    assert_eq!(fails("fg"), Err(EvalError::Builtin(BuiltinError::Arity)));
    assert_eq!(fails("fg %x"), Err(EvalError::Builtin(BuiltinError::BadNumber)));
    assert_eq!(
        fails("fg '%3'"),
        Err(EvalError::Builtin(BuiltinError::Job(JobError::NotFound)))
    );
    assert_eq!(fails("fg %3"), Err(EvalError::Job(JobError::NotFound)));
    assert_eq!(
        fails("fg 4242"),
        Err(EvalError::Builtin(BuiltinError::Job(JobError::NotFound)))
    );
    assert_eq!(fails("{ { echo $nothing } }"), Err(EvalError::Unset("nothing".to_string())));
    assert_eq!(fails("{ for i in a { echo %7 } }"), Err(EvalError::Job(JobError::NotFound)));
    assert_eq!(
        fails("{ nosuch }"),
        Err(EvalError::Host("nosuch: command not found".to_string()))
    );
    assert_eq!(
        fails("{ cat < missing }"),
        Err(EvalError::Host("missing: no such file".to_string()))
    );
    assert_eq!(
        fails("{ cat < &1 }"),
        Err(EvalError::Redirection(RedirectError::InputFromStdout))
    );
    assert_eq!(
        fails("echo a | cat > &0"),
        Err(EvalError::Redirection(RedirectError::OutputToStdin))
    );
    assert_eq!(
        EvalError::Redirection(RedirectError::InputFromStderr).message(),
        "Can't redirect input from stderr."
    );
    assert_eq!(BuiltinError::Arity.message(), "Unexpected args number.");
    assert_eq!(
        EvalError::Unset("x".to_string()).message(),
        "environment variable not found: x"
    );
}

#[test]
fn interrupt_ends_the_evaluation() {
    let mut h = host();
    h.status = Status::Signaled(Signal::Int);
    let mut m = Machine::new(NameSpace::new());
    let mut jobs = Jobs::new();
    let r = run_in(&mut h, &mut m, &mut jobs, "{ sleep 9; echo after }");
    assert_eq!(r, Err(EvalError::Job(JobError::Interrupted)));
    assert_eq!(h.stdout, "");
    assert_eq!(jobs.fg_pid(), None);
    assert_eq!(m.namespace().depth(), 0);
    assert_eq!(JobError::Interrupted.message(), "Interrupted");
}

#[test]
fn stopped_foreground_becomes_a_job_and_comes_back() {
    let me = nix::unistd::getpid().as_raw();
    let mut h = host();
    h.next_pid = me - 1;
    h.status = Status::Signaled(Signal::Tstp);
    let mut m = Machine::new(NameSpace::new());
    let mut jobs = Jobs::new();
    assert_eq!(run_in(&mut h, &mut m, &mut jobs, "sleep 9"), Ok(()));
    assert_eq!(h.messages, vec![format!("\nSuspended: %1 ({})", me)]);
    assert_eq!(jobs.fg_pid(), None);
    assert_eq!(jobs.get(1).map(|p| (p.pid, p.suspended)), Some((me, true)));
    h.status = Status::Exited(0);
    assert_eq!(run_in(&mut h, &mut m, &mut jobs, "fg %1"), Ok(()));
    assert_eq!(h.waits, 2);
    assert_eq!(jobs.get(1), None);
    assert_eq!(jobs.fg_pid(), None);
    assert_eq!(jobs.occupancy(0), 0);
}

#[test]
fn job_reference_gives_the_process_id() {
    let mut h = host();
    let mut m = Machine::new(NameSpace::new());
    let mut jobs = Jobs::new();
    jobs.new_bg(4321).unwrap();
    assert_eq!(run_in(&mut h, &mut m, &mut jobs, "echo %1 x%1y"), Ok(()));
    assert_eq!(h.stdout, "4321 x4321y\n");
}

#[test]
fn source_runs_a_script_statement_by_statement() {
    let mut h = host();
    h.files.push((
        "s.sh".to_string(),
        "echo $0 $1\nif true {\n  echo in\n}\necho $missing\n;\nlet t = 1\necho $t\necho ("
            .to_string(),
    ));
    let mut m = Machine::new(NameSpace::new());
    let mut jobs = Jobs::new();
    assert_eq!(run_in(&mut h, &mut m, &mut jobs, "source s.sh arg"), Ok(()));
    assert_eq!(h.stdout, "s.sh arg\nin\n1\n");
    assert_eq!(
        h.messages,
        vec![
            "environment variable not found: missing".to_string(),
            "Parse Error: Unexpected character at 0".to_string(),
        ]
    );
    assert_eq!(m.namespace().get_var("t"), None);
    assert_eq!(m.namespace().get_var("0"), None);
    assert_eq!(m.namespace().depth(), 0);
    assert_eq!(
        run_in(&mut h, &mut m, &mut jobs, "source nowhere"),
        Err(EvalError::Host("nowhere: no such file".to_string()))
    );
}

#[test]
fn block_is_handed_to_the_machine() {
    let mut m = Machine::new(NameSpace::new());
    let mut jobs = Jobs::new();
    let mut h = host();
    assert!(block("echo by eval").eval(&mut m));
    assert!(!block("echo again").eval(&mut m));
    assert_eq!(drive(&mut h, &mut m, &mut jobs), Ok(()));
    assert_eq!(h.stdout, "by eval\n");
}

#[test]
fn machine_takes_one_block_at_a_time() {
    let mut m = Machine::new(NameSpace::new());
    let mut jobs = Jobs::new();
    assert!(m.idle());
    assert_eq!(m.step(&mut jobs, Event::Resume), Action::Finished(Ok(())));
    assert!(m.start(block("true")));
    assert!(!m.start(block("echo b")));
    assert!(!m.idle());
    let mut h = host();
    let mut event = Event::Resume;
    loop {
        match m.step(&mut jobs, event) {
            Action::Continue => event = Event::Resume,
            Action::Spawn(stage) => event = spawn(&mut h, stage),
            Action::Wait(pid) => {
                assert_eq!(pid, 101);
                break;
            }
            other => panic!("{:?}", other),
        }
    }
    assert_eq!(
        m.step(&mut jobs, Event::Done),
        Action::Finished(Err(EvalError::Protocol))
    );
    assert!(m.idle());
}

#[test]
fn script_scope_spans_its_blocks() {
    let mut h = host();
    let mut m = Machine::new(NameSpace::new());
    let mut jobs = Jobs::new();
    let args = vec!["one".to_string(), "two".to_string()];
    assert!(m.enter("script.sh", &args));
    assert_eq!(run_in(&mut h, &mut m, &mut jobs, "let kept = yes"), Ok(()));
    assert_eq!(run_in(&mut h, &mut m, &mut jobs, "echo $0 $2 $kept"), Ok(()));
    assert_eq!(h.stdout, "script.sh two yes\n");
    assert_eq!(m.namespace().depth(), 1);
    assert!(m.leave());
    assert!(!m.leave());
    assert_eq!(m.namespace().depth(), 0);
    assert_eq!(m.namespace().get_var("kept"), None);
    assert_eq!(m.namespace().get_var("0"), None);
    assert!(m.start(block("true")));
    assert!(!m.enter("busy", &args));
    assert!(!m.leave());
}
