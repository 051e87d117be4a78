use check_rungrep::alerts::Elapsed;
use check_rungrep::evaluate::{evaluate, Condition, ExecutionResult};
use check_rungrep::matcher::Matcher;
use check_rungrep::plugin::{Perfdat, State, Thresholds};
use check_rungrep::range::{Bound, Range};

fn point(v: i128) -> Option<Range> {
    Some(Range::new(Bound::Finite(v * 1_000_000_000), Bound::Finite(v * 1_000_000_000), false).unwrap())
}

fn perfdat(warn: Option<Range>, crit: Option<Range>, label: &str) -> Perfdat {
    Perfdat {
        thresholds: Thresholds { warn, crit },
        label: label.to_string(),
    }
}

fn run(stdout: &str, stderr: &str, code: i32) -> ExecutionResult {
    ExecutionResult {
        stdout: stdout.as_bytes().to_vec(),
        stderr: stderr.as_bytes().to_vec(),
        code,
        time: Elapsed {
            secs: 0,
            nanos: 2_500_000,
        },
    }
}

fn literal(s: &str) -> Matcher {
    match Matcher::literal(s.as_bytes().to_vec()) {
        Ok(m) => m,
        Err(_) => panic!("literal refused"),
    }
}

#[test]
fn time_condition_with_label() {
    let conditions = vec![Condition::ExecSeconds(perfdat(None, None, "t"))];
    let check = evaluate(&conditions, &run("", "", 0));
    assert_eq!(check.state(), State::Okay);
    assert_eq!(check.state().code(), 0);
    let report = check.report();
    assert!(report.contains("Command ran for"), "{}", report);
    assert_eq!(
        report,
        "\u{2705} Command ran for 0.0025 seconds (2ms 500us).\n | 't'=0.0025s;;;0;\n"
    );
}

#[test]
fn exit_condition_critical() {
    let conditions = vec![Condition::ExitCode(perfdat(None, point(0), ""))];
    let check = evaluate(&conditions, &run("", "", 1));
    assert_eq!(check.state(), State::Critical);
    assert_eq!(check.state().code(), 2);
    assert_eq!(check.report(), "\u{1F6A8} Command returned 1. Critical: 0:0.\n");
}

#[test]
fn exit_condition_warning() {
    let conditions = vec![Condition::ExitCode(perfdat(point(0), None, ""))];
    let check = evaluate(&conditions, &run("", "", 1));
    assert_eq!(check.state(), State::Warning);
    assert_eq!(check.state().code(), 1);
    assert_eq!(
        check.report(),
        "\u{26A0}\u{FE0F} Command returned 1. Warning: 0:0.\n"
    );
}

#[test]
fn exit_condition_ok() {
    let conditions = vec![Condition::ExitCode(perfdat(None, None, ""))];
    let check = evaluate(&conditions, &run("", "", 0));
    assert_eq!(check.state().code(), 0);
    assert!(check.report().contains("Command returned 0"));
}

#[test]
fn stdout_literal_match_ok() {
    let conditions = vec![Condition::Stdout(literal("hello"), perfdat(None, point(1), ""))];
    let check = evaluate(&conditions, &run("hello\n", "", 0));
    assert_eq!(check.state(), State::Okay);
    assert_eq!(check.state().code(), 0);
    assert_eq!(
        check.report(),
        "\u{2705} Command's stdout matched the following pattern 1 times. Critical: 1:1. Literal string: hello\n"
    );
}

#[test]
fn stdout_literal_no_match_critical() {
    let conditions = vec![Condition::Stdout(literal("hello"), perfdat(None, point(1), ""))];
    let check = evaluate(&conditions, &run("goodbye\n", "", 0));
    assert_eq!(check.state().code(), 2);
    assert!(check.report().contains('\u{1F6A8}'));
}

#[test]
fn stdout_regex_match_ok() {
    let regex = match Matcher::regex("hel+o") {
        Ok(m) => m,
        Err(_) => panic!("regex refused"),
    };
    let conditions = vec![Condition::Stdout(regex, perfdat(None, point(1), "hits"))];
    let check = evaluate(&conditions, &run("hello\n", "", 0));
    assert_eq!(check.state().code(), 0);
    assert!(check.report().ends_with(" | 'hits'=1;;1:1;0;\n"));
}

#[test]
fn stderr_literal_match() {
    let conditions = vec![Condition::Stderr(literal("err_msg"), perfdat(None, point(1), ""))];
    let check = evaluate(&conditions, &run("", "err_msg\n", 0));
    assert_eq!(check.state().code(), 0);
    assert!(check.report().contains("Command's stderr matched"));
}

#[test]
fn passed_through_input_is_matched_whole() {
    let payload = "hello";
    let conditions = vec![Condition::Stdout(literal("hello"), perfdat(None, point(1), ""))];
    let check = evaluate(&conditions, &run(payload, "", 0));
    assert_eq!(check.state(), State::Okay);
    assert_eq!(check.state().code(), 0);
}

#[test]
fn conditions_fold_in_declaration_order() {
    let conditions = vec![
        Condition::ExitCode(perfdat(None, point(0), "code")),
        Condition::Stdout(literal("x"), perfdat(point(0), None, "xs")),
        Condition::ExecSeconds(perfdat(None, None, "")),
    ];
    let check = evaluate(&conditions, &run("x x", "", 0));
    assert_eq!(check.state(), State::Warning);
    assert_eq!(
        check.report(),
        "\u{26A0}\u{FE0F} Command's stdout matched the following pattern 2 times. Warning: 0:0. Literal string: x\n | 'code'=0;;0:0;; 'xs'=2;0:0;;0;\n"
    );
}
