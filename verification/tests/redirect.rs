use jobshell::eval::command::redirect::{check_redirect, target2str};
use jobshell::eval::command::{
    Arg, Command, External, InMode, InWire, OutMode, OutWire, RedIn, RedOut, RedirectError,
    Redirects, RedirectsInner, Wiring,
};
use jobshell::parse::{parse_line, Block, Parsed, RedKind, RedTarget, Redirect, SpecialStr, StrKind};

fn text(s: &str) -> SpecialStr {
    SpecialStr(vec![StrKind::String(s.to_string())])
}

fn red(kind: RedKind, file: &str) -> Redirect {
    Redirect { kind, target: RedTarget::Other(text(file)) }
}

fn out(mode: OutMode, file: &str) -> Option<RedOut> {
    Some(RedOut { mode, target: text(file) })
}

fn input(mode: InMode, file: &str) -> Option<RedIn> {
    Some(RedIn { mode, target: text(file) })
}

#[test]
fn fixed_targets_are_device_files() {
    assert_eq!(target2str(RedTarget::Stdin), text("/dev/stdin"));
    assert_eq!(target2str(RedTarget::Stdout), text("/dev/stdout"));
    assert_eq!(target2str(RedTarget::Stderr), text("/dev/stderr"));
    assert_eq!(target2str(RedTarget::Null), text("/dev/null"));
    assert_eq!(target2str(RedTarget::Other(text("f"))), text("f"));
    assert_eq!(
        RedOut::overwrite(RedTarget::Null),
        RedOut { mode: OutMode::Overwrite, target: text("/dev/null") }
    );
    assert_eq!(
        RedOut::append(RedTarget::Other(text("log"))),
        RedOut { mode: OutMode::Append, target: text("log") }
    );
}

#[test]
fn no_redirection_plans_nothing() {
    assert_eq!(Redirects::new(vec![]), Redirects(RedirectsInner::Each(None, None, None)));
}

#[test]
fn last_writer_wins_for_each_stream() {
    let plan = Redirects::new(vec![
        red(RedKind::OverwriteStdout, "a"),
        red(RedKind::Stdin, "in1"),
        red(RedKind::AppendStdout, "b"),
        red(RedKind::OverwriteStderr, "e"),
        red(RedKind::HereDoc, "doc"),
    ]);
    assert_eq!(
        plan,
        Redirects(RedirectsInner::Each(
            input(InMode::HereDoc, "doc"),
            out(OutMode::Append, "b"),
            out(OutMode::Overwrite, "e"),
        ))
    );
}

#[test]
fn both_streams_alike_are_bound() {
    assert_eq!(
        Redirects::new(vec![red(RedKind::AppendBoth, "log")]),
        Redirects(RedirectsInner::Bind(None, out(OutMode::Append, "log")))
    );
    assert_eq!(
        Redirects::new(vec![
            red(RedKind::OverwriteStdout, "f"),
            red(RedKind::Stdin, "i"),
            red(RedKind::OverwriteStderr, "f"),
        ]),
        Redirects(RedirectsInner::Bind(input(InMode::Normal, "i"), out(OutMode::Overwrite, "f")))
    );
    assert_eq!(
        Redirects::new(vec![red(RedKind::OverwriteBoth, "f"), red(RedKind::AppendStderr, "f")]),
        Redirects(RedirectsInner::Each(
            None,
            out(OutMode::Overwrite, "f"),
            out(OutMode::Append, "f"),
        ))
    );
}

#[test]
fn input_append_and_stderr_to_stdout_stay_each_on_its_own() {
    let plan = Redirects::new(vec![
        red(RedKind::Stdin, "in.txt"),
        red(RedKind::AppendStdout, "out.log"),
        Redirect { kind: RedKind::OverwriteStderr, target: RedTarget::Stdout },
    ]);
    assert_eq!(
        plan,
        Redirects(RedirectsInner::Each(
            input(InMode::Normal, "in.txt"),
            out(OutMode::Append, "out.log"),
            out(OutMode::Overwrite, "/dev/stdout"),
        ))
    );
    assert_eq!(
        plan.redirect(false, false),
        Wiring {
            stdin: InWire::File(text("in.txt")),
            stdout: OutWire::File(OutMode::Append, text("out.log")),
            stderr: OutWire::File(OutMode::Overwrite, text("/dev/stdout")),
        }
    );
}

#[test]
fn wiring_follows_the_table() {
    let bound = Redirects(RedirectsInner::Bind(None, out(OutMode::Append, "log")));
    assert_eq!(
        bound.redirect(false, false),
        Wiring {
            stdin: InWire::Inherit,
            stdout: OutWire::File(OutMode::Append, text("log")),
            stderr: OutWire::Shared,
        }
    );
    assert_eq!(
        bound.redirect(true, true),
        Wiring {
            stdin: InWire::Pipe,
            stdout: OutWire::Pipe,
            stderr: OutWire::File(OutMode::Append, text("log")),
        }
    );
    let unbound = Redirects(RedirectsInner::Bind(input(InMode::HereDoc, "doc"), None));
    assert_eq!(
        unbound.redirect(false, true),
        Wiring {
            stdin: InWire::HereDoc(text("doc")),
            stdout: OutWire::Pipe,
            stderr: OutWire::Inherit,
        }
    );
    assert_eq!(
        unbound.redirect(true, false),
        Wiring { stdin: InWire::Pipe, stdout: OutWire::Inherit, stderr: OutWire::Inherit }
    );
    let each = Redirects(RedirectsInner::Each(
        input(InMode::Normal, "in"),
        out(OutMode::Overwrite, "o"),
        out(OutMode::Append, "e"),
    ));
    assert_eq!(
        each.redirect(false, false),
        Wiring {
            stdin: InWire::File(text("in")),
            stdout: OutWire::File(OutMode::Overwrite, text("o")),
            stderr: OutWire::File(OutMode::Append, text("e")),
        }
    );
    assert_eq!(
        each.redirect(false, true),
        Wiring {
            stdin: InWire::File(text("in")),
            stdout: OutWire::Pipe,
            stderr: OutWire::File(OutMode::Append, text("e")),
        }
    );
    assert_eq!(each.copy(), each);
}

#[test]
fn wrong_directions_are_told() {
    let check = |kind, target| check_redirect(&Redirect { kind, target });
    assert_eq!(check(RedKind::Stdin, RedTarget::Stdout), Some(RedirectError::InputFromStdout));
    assert_eq!(check(RedKind::HereDoc, RedTarget::Stderr), Some(RedirectError::InputFromStderr));
    assert_eq!(check(RedKind::AppendBoth, RedTarget::Stdin), Some(RedirectError::OutputToStdin));
    assert_eq!(
        check(RedKind::OverwriteStdout, RedTarget::Stdin),
        Some(RedirectError::OutputToStdin)
    );
    assert_eq!(check(RedKind::Stdin, RedTarget::Stdin), None);
    assert_eq!(check(RedKind::Stdin, RedTarget::Null), None);
    assert_eq!(check(RedKind::OverwriteStderr, RedTarget::Stdout), None);
    assert_eq!(check(RedKind::Stdin, RedTarget::Other(text("f"))), None);
    assert_eq!(RedirectError::InputFromStdout.message(), "Can't redirect input from stdout.");
    assert_eq!(RedirectError::InputFromStderr.message(), "Can't redirect input from stderr.");
    assert_eq!(RedirectError::OutputToStdin.message(), "Can't redirect output to stdin.");
}

#[test]
fn commands_are_sorted_into_arguments_and_redirections() {
    let parsed = match parse_line("a x > f !y | b < &1 2>g &") {
        Ok(Parsed::Complete(Block::Single(c))) => c,
        other => panic!("{:?}", other),
    };
    let second = External {
        name: text("b"),
        args: jobshell::eval::Args(vec![]),
        reds: Redirects(RedirectsInner::Each(
            input(InMode::Normal, "/dev/stdout"),
            None,
            out(OutMode::Overwrite, "g"),
        )),
        fault: Some(RedirectError::InputFromStdout),
        pipe: None,
        bg: true,
    };
    let first = External {
        name: text("a"),
        args: jobshell::eval::Args(vec![Arg::Normal(text("x")), Arg::Expand(text("y"))]),
        reds: Redirects(RedirectsInner::Each(None, out(OutMode::Overwrite, "f"), None)),
        fault: None,
        pipe: Some(Box::new(second)),
        bg: false,
    };
    let lowered = Command::from(parsed);
    assert_eq!(lowered.copy(), lowered);
    assert_eq!(lowered, Command(first));
}
