use jobshell::parse::{
    parse_line, Arg, Block, Command, ParseError, Parsed, RedKind, RedTarget, Redirect, SpecialStr,
    StrKind,
};

fn text(s: &str) -> SpecialStr {
    SpecialStr(vec![StrKind::String(s.to_string())])
}

fn cmd(name: &str, args: Vec<Arg>) -> Command {
    Command { name: text(name), args, pipe: None, bg: false }
}

fn complete(input: &str) -> Block {
    match parse_line(input) {
        Ok(Parsed::Complete(b)) => b,
        other => panic!("{:?} gave {:?}", input, other),
    }
}

#[test]
fn parses_simple_command() {
    assert_eq!(
        complete("echo hi"),
        Block::Single(cmd("echo", vec![Arg::Arg(text("hi"))]))
    );
}

#[test]
fn empty_line_is_the_empty_command() {
    let empty = Command { name: SpecialStr(vec![]), args: vec![], pipe: None, bg: false };
    assert_eq!(complete(""), Block::Single(empty));
    let empty = Command { name: SpecialStr(vec![]), args: vec![], pipe: None, bg: false };
    assert_eq!(complete("   # only a comment"), Block::Single(empty));
}

#[test]
fn parses_variables_substitutions_and_job_references() {
    let inner = cmd("echo", vec![Arg::Arg(text("hello"))]);
    assert_eq!(
        complete("echo $x ${y}z (echo hello) %12"),
        Block::Single(cmd(
            "echo",
            vec![
                Arg::Arg(SpecialStr(vec![StrKind::Var("x".to_string())])),
                Arg::Arg(SpecialStr(vec![
                    StrKind::Var("y".to_string()),
                    StrKind::String("z".to_string())
                ])),
                Arg::Arg(SpecialStr(vec![StrKind::Cmd(inner)])),
                Arg::Arg(SpecialStr(vec![StrKind::Pid(12)])),
            ]
        ))
    );
}

#[test]
fn parses_quoted_strings() {
    assert_eq!(
        complete(r#"echo 'a $b \' c' "x\ty $z \$q\x41\u{3b1}""#),
        Block::Single(cmd(
            "echo",
            vec![
                Arg::Arg(text("a $b ' c")),
                Arg::Arg(SpecialStr(vec![
                    StrKind::String("x\ty ".to_string()),
                    StrKind::Var("z".to_string()),
                    StrKind::String(" $qA\u{3b1}".to_string()),
                ])),
            ]
        ))
    );
    assert_eq!(
        complete(r#"echo """#),
        Block::Single(cmd("echo", vec![Arg::Arg(SpecialStr(vec![]))]))
    );
}

#[test]
fn parses_unindented_strings() {
    assert_eq!(
        complete("echo '''\n    a\n      b\n    '''"),
        Block::Single(cmd("echo", vec![Arg::Arg(text("a\n  b\n"))]))
    );
    assert_eq!(
        complete("echo \"\"\"\n    a $x\n    b\"\"\""),
        Block::Single(cmd(
            "echo",
            vec![Arg::Arg(SpecialStr(vec![
                StrKind::String("a ".to_string()),
                StrKind::Var("x".to_string()),
                StrKind::String("\nb".to_string()),
            ]))]
        ))
    );
}

#[test]
fn parses_redirections() {
    let red = |kind, target| Arg::Redirect(Redirect { kind, target });
    assert_eq!(
        complete("cat < in.txt >> out.log 2>&1"),
        Block::Single(cmd(
            "cat",
            vec![
                red(RedKind::Stdin, RedTarget::Other(text("in.txt"))),
                red(RedKind::AppendStdout, RedTarget::Other(text("out.log"))),
                red(RedKind::OverwriteStderr, RedTarget::Stdout),
            ]
        ))
    );
    assert_eq!(
        complete("a &>> log e> &! << 'doc' o>x !$list"),
        Block::Single(cmd(
            "a",
            vec![
                red(RedKind::AppendBoth, RedTarget::Other(text("log"))),
                red(RedKind::OverwriteStderr, RedTarget::Null),
                red(RedKind::HereDoc, RedTarget::Other(text("doc"))),
                red(RedKind::OverwriteStdout, RedTarget::Other(text("x"))),
                Arg::ExpandArg(SpecialStr(vec![StrKind::Var("list".to_string())])),
            ]
        ))
    );
}

#[test]
fn parses_pipes_and_background() {
    let last = Command { name: text("true"), args: vec![], pipe: None, bg: true };
    let first = Command {
        name: text("sleep"),
        args: vec![Arg::Arg(text("1"))],
        pipe: Some(Box::new(last)),
        bg: false,
    };
    assert_eq!(complete("sleep 1 | true &"), Block::Single(first));
}

#[test]
fn parses_control_flow() {
    let echo = |s: &str| Block::Single(cmd("echo", vec![Arg::Arg(text(s))]));
    assert_eq!(
        complete("if true { echo a } else { echo b }"),
        Block::If(
            text("true"),
            Box::new(Block::Multi(vec![echo("a")])),
            Some(Box::new(Block::Multi(vec![echo("b")])))
        )
    );
    assert_eq!(
        complete("while $go { break; continue }"),
        Block::While(
            SpecialStr(vec![StrKind::Var("go".to_string())]),
            Box::new(Block::Multi(vec![Block::Break, Block::Continue]))
        )
    );
    assert_eq!(
        complete("for i in \"a\\nb\\nc\" { echo $i }"),
        Block::For(
            "i".to_string(),
            text("a\nb\nc"),
            Box::new(Block::Multi(vec![Block::Single(cmd(
                "echo",
                vec![Arg::Arg(SpecialStr(vec![StrKind::Var("i".to_string())]))]
            ))]))
        )
    );
    assert_eq!(
        complete("case $x { a | b => echo ab\n c => { echo c } }"),
        Block::Case(
            SpecialStr(vec![StrKind::Var("x".to_string())]),
            vec![
                (vec![text("a"), text("b")], echo("ab")),
                (vec![text("c")], Block::Multi(vec![echo("c")])),
            ]
        )
    );
    assert_eq!(
        complete("greet { echo hello $1 }"),
        Block::Proc(
            "greet".to_string(),
            Box::new(Block::Multi(vec![Block::Single(cmd(
                "echo",
                vec![
                    Arg::Arg(text("hello")),
                    Arg::Arg(SpecialStr(vec![StrKind::Var("1".to_string())]))
                ]
            ))]))
        )
    );
}

#[test]
fn parses_nested_blocks_over_lines() {
    let echo = |s: &str| Block::Single(cmd("echo", vec![Arg::Arg(text(s))]));
    assert_eq!(
        complete("{\n  echo a # first\n\n  { echo b; echo c }\n}"),
        Block::Multi(vec![echo("a"), Block::Multi(vec![echo("b"), echo("c")])])
    );
}

#[test]
fn unfinished_input_asks_for_more() {
    for input in ["{", "if true {", "echo \"abc", "echo 'abc", "echo (ls", "case x {", "echo ${x"] {
        assert_eq!(parse_line(input), Ok(Parsed::Yet), "{:?}", input);
    }
}

#[test]
fn wrong_input_is_refused_with_its_position() {
    assert_eq!(parse_line(";"), Err(ParseError::Unexpected(0)));
    assert_eq!(parse_line("echo hi; echo ho"), Err(ParseError::Unread(7)));
    assert_eq!(parse_line("echo \"\\q\""), Err(ParseError::Unexpected(5)));
    assert_eq!(parse_line("{ echo a } }"), Err(ParseError::Unread(11)));
    assert_eq!(parse_line("break  "), Ok(Parsed::Complete(Block::Break)));
    assert_eq!(parse_line("echo $ x"), Err(ParseError::Unexpected(6)));
    assert_eq!(
        ParseError::Unread(7).message(),
        "Unread characters are remain."
    );
    assert_eq!(ParseError::Unexpected(5).message(), "Unexpected character at 5");
}
