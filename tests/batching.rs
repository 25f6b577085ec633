use cformat::args::{invocation_args, lines_arg, push_decimal};
use cformat::batch::batch_hunks;
use cformat::error::FormatError;
use cformat::hunk::{ranges_fit, Hunk, HunkLocation, LineRange};
use cformat::session::{Outcome, Session, CLANG_FORMAT};

fn hunk(file: &str, line: usize, count: usize) -> Hunk {
    Hunk::new(
        HunkLocation::new("src".to_string(), line, count),
        HunkLocation::new(file.to_string(), line, count),
    )
}

fn strings(args: &[&str]) -> Vec<String> {
    args.iter().map(|a| a.to_string()).collect()
}

/// Runs a session to its end as though every invocation succeeded.
fn all_invocations(hunks: &Vec<Hunk>) -> Vec<Vec<String>> {
    let mut session = Session::new(CLANG_FORMAT, hunks);
    let mut seen = Vec::new();
    while let Some(args) = session.next_invocation() {
        seen.push(args);
        session.record(Outcome::Succeeded).unwrap();
    }
    seen
}

#[test]
fn empty_input_invokes_nothing() {
    let hunks: Vec<Hunk> = Vec::new();
    assert!(batch_hunks(&hunks).is_empty());
    assert!(all_invocations(&hunks).is_empty());
}

#[test]
fn one_file_gives_one_invocation_in_order() {
    let hunks = vec![hunk("A", 30, 1), hunk("A", 4, 2), hunk("A", 30, 1)];
    assert_eq!(
        all_invocations(&hunks),
        vec![strings(&["-i", "A", "--lines=30:31", "--lines=4:6", "--lines=30:31"])]
    );
}

#[test]
fn interleaved_files_are_not_merged() {
    let hunks = vec![hunk("A", 1, 1), hunk("B", 2, 2), hunk("A", 3, 3)];
    let batches = batch_hunks(&hunks);
    assert_eq!(batches.len(), 3);
    assert_eq!(batches[0].file, "A");
    assert_eq!(batches[0].ranges, vec![LineRange { start: 1, end: 2 }]);
    assert_eq!(batches[1].file, "B");
    assert_eq!(batches[1].ranges, vec![LineRange { start: 2, end: 4 }]);
    assert_eq!(batches[2].file, "A");
    assert_eq!(batches[2].ranges, vec![LineRange { start: 3, end: 6 }]);
    assert_eq!(
        all_invocations(&hunks),
        vec![
            strings(&["-i", "A", "--lines=1:2"]),
            strings(&["-i", "B", "--lines=2:4"]),
            strings(&["-i", "A", "--lines=3:6"]),
        ]
    );
}

#[test]
fn range_argument_is_line_to_line_plus_count() {
    let loc = HunkLocation::new("A".to_string(), 17, 5);
    assert_eq!(lines_arg(loc.range()), "--lines=17:22");
    let empty = HunkLocation::new("A".to_string(), 7, 0);
    assert_eq!(lines_arg(empty.range()), "--lines=7:7");
    let big = HunkLocation::new("A".to_string(), 1234567, 3);
    assert_eq!(lines_arg(big.range()), "--lines=1234567:1234570");
}

#[test]
fn decimal_digits() {
    let mut s = "n=".to_string();
    push_decimal(&mut s, 0);
    assert_eq!(s, "n=0");
    let mut s = String::new();
    push_decimal(&mut s, 9);
    push_decimal(&mut s, 10);
    assert_eq!(s, "910");
    let mut s = String::new();
    push_decimal(&mut s, usize::MAX);
    assert_eq!(s, usize::MAX.to_string());
}

#[test]
fn invocation_arguments_of_a_batch() {
    let batches = batch_hunks(&vec![hunk("dir/x.c", 3, 4), hunk("dir/x.c", 9, 0)]);
    assert_eq!(batches.len(), 1);
    assert_eq!(
        invocation_args(&batches[0]),
        strings(&["-i", "dir/x.c", "--lines=3:7", "--lines=9:9"])
    );
}

#[test]
fn scenario_two_files() {
    let hunks = vec![hunk("A", 10, 2), hunk("A", 20, 1), hunk("B", 5, 3)];
    let mut session = Session::new(CLANG_FORMAT, &hunks);
    assert_eq!(session.program(), "clang-format");
    assert_eq!(
        session.next_invocation(),
        Some(strings(&["-i", "A", "--lines=10:12", "--lines=20:21"]))
    );
    assert!(session.record(Outcome::Succeeded).is_ok());
    assert_eq!(session.next_invocation(), Some(strings(&["-i", "B", "--lines=5:8"])));
    assert!(session.record(Outcome::Succeeded).is_ok());
    assert_eq!(session.next_invocation(), None);
}

#[test]
fn failure_with_diagnostic_line() {
    let mut session = Session::new("tool", &vec![hunk("A", 1, 1)]);
    assert!(session.next_invocation().is_some());
    let outcome = Outcome::ExitFailed { first_line: Some("error: bad syntax\n".to_string()) };
    let err = session.record(outcome).unwrap_err();
    assert!(!err.is_launch());
    assert_eq!(err.program(), "tool");
    let message = err.message();
    assert!(message.contains("tool"));
    assert!(message.contains("error: bad syntax"));
    assert_eq!(message, "process `tool` failed: error: bad syntax");
    assert_eq!(session.next_invocation(), None);
}

#[test]
fn failure_without_diagnostic_line() {
    for first_line in [None, Some(String::new()), Some(" \t\n".to_string())] {
        let err = FormatError::from_exit("tool", first_line);
        assert!(!err.is_launch());
        assert_eq!(err.message(), "process `tool` failed");
    }
}

#[test]
fn diagnostic_line_is_trimmed() {
    let err = FormatError::from_exit("fmt", Some("  oops: line 3  \r\n".to_string()));
    assert_eq!(err.message(), "process `fmt` failed: oops: line 3");
    match err {
        FormatError::Execution { diagnostic, .. } => {
            assert_eq!(diagnostic, Some("oops: line 3".to_string()))
        },
        FormatError::Launch { .. } => panic!("not a launch failure"),
    }
}

#[test]
fn trimmed_line_that_is_empty_gives_no_diagnostic() {
    let err = FormatError::from_trimmed_line("fmt", Some(String::new()));
    assert_eq!(err.message(), "process `fmt` failed");
    let err = FormatError::from_trimmed_line("fmt", Some("bad".to_string()));
    assert_eq!(err.message(), "process `fmt` failed: bad");
}

#[test]
fn launch_failure_stops_later_batches() {
    let hunks = vec![hunk("A", 1, 1), hunk("B", 1, 1), hunk("C", 1, 1)];
    let mut session = Session::new(CLANG_FORMAT, &hunks);
    assert!(session.next_invocation().is_some());
    let outcome = Outcome::LaunchFailed { reason: "No such file or directory".to_string() };
    let err = session.record(outcome).unwrap_err();
    assert!(err.is_launch());
    assert_eq!(err.program(), "clang-format");
    assert_eq!(err.message(), "No such file or directory");
    assert_eq!(session.next_invocation(), None);
}

#[test]
fn exit_failure_after_success_stops_later_batches() {
    let hunks = vec![hunk("A", 1, 1), hunk("B", 1, 1), hunk("C", 1, 1)];
    let mut session = Session::new(CLANG_FORMAT, &hunks);
    assert!(session.next_invocation().is_some());
    assert!(session.record(Outcome::Succeeded).is_ok());
    assert_eq!(session.next_invocation(), Some(strings(&["-i", "B", "--lines=1:2"])));
    assert!(session.record(Outcome::ExitFailed { first_line: None }).is_err());
    assert_eq!(session.next_invocation(), None);
}

#[test]
fn ranges_that_overflow_are_detected() {
    assert!(ranges_fit(&vec![hunk("A", 1, 1), hunk("B", usize::MAX - 1, 1)]));
    assert!(!ranges_fit(&vec![hunk("A", 1, 1), hunk("B", usize::MAX, 1)]));
    assert!(ranges_fit(&Vec::new()));
}
