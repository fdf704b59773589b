use jobshell::eval::Block;
use jobshell::parse::line::{gather, Gathered};
use jobshell::parse::{parse_line, ParseError, Parsed};
use jobshell::session::{Fed, Session};

fn whole(text: &str) -> Block {
    match parse_line(text) {
        Ok(Parsed::Complete(b)) => Block::from(b),
        other => panic!("{:?}", other),
    }
}

#[test]
fn one_line_statement_is_ready_at_once() {
    let mut s = Session::new();
    assert!(!s.pending());
    assert_eq!(s.feed("echo hi"), Fed::Ready(whole("echo hi")));
    assert!(!s.pending());
}

#[test]
fn statement_over_lines_is_the_statement_of_the_joined_text() {
    let lines = ["if true {", "  echo \"a", "b\"", "} else {", "  echo c", "}"];
    let mut s = Session::new();
    for line in &lines[..5] {
        assert_eq!(s.feed(line), Fed::More);
        assert!(s.pending());
    }
    assert_eq!(s.feed(lines[5]), Fed::Ready(whole(&lines.join("\n"))));
    assert!(!s.pending());
}

#[test]
fn wrong_text_is_dropped() {
    let mut s = Session::new();
    assert_eq!(s.feed("{"), Fed::More);
    assert_eq!(s.feed(";"), Fed::Rejected(ParseError::Unexpected(2)));
    assert!(!s.pending());
    assert_eq!(s.feed("echo ok"), Fed::Ready(whole("echo ok")));
}

#[test]
fn end_of_input_drops_an_unfinished_statement() {
    let mut s = Session::new();
    assert_eq!(s.feed("echo 'abc"), Fed::More);
    s.end();
    assert!(!s.pending());
    assert_eq!(s.feed("echo x"), Fed::Ready(whole("echo x")));
}

#[test]
fn gather_takes_as_many_lines_as_a_statement_needs() {
    let lines: Vec<String> =
        ["echo a", "{", "echo b", "}", ";", "{", "never"].iter().map(|s| s.to_string()).collect();
    match gather(&lines, 0) {
        (Gathered::Whole(b), 1) => assert_eq!(Block::from(b), whole("echo a")),
        other => panic!("{:?}", other),
    }
    match gather(&lines, 1) {
        (Gathered::Whole(b), 4) => assert_eq!(Block::from(b), whole("{\necho b\n}")),
        other => panic!("{:?}", other),
    }
    assert_eq!(gather(&lines, 4), (Gathered::Wrong(ParseError::Unexpected(0)), 5));
    assert_eq!(gather(&lines, 5), (Gathered::Unfinished, 7));
}

#[test]
fn end_of_input_ends_the_session_only_between_statements() {
    let mut s = Session::new();
    assert!(!s.at_end());
    assert!(!s.pending());
    assert_eq!(s.feed("if true {"), Fed::More);
    assert!(s.pending());
    assert!(s.at_end());
    assert!(!s.pending());
    assert!(!s.at_end());
    assert_eq!(s.feed("echo hi"), Fed::Ready(whole("echo hi")));
    assert!(!s.at_end());
}
