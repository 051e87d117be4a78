use check_rungrep::arg_parser::{parse_cmdline, ParsedRange};
use check_rungrep::cli::{ExpectedArg, ParseArgsError};
use check_rungrep::cnt_iter::CounterIterator;
use check_rungrep::evaluate::Condition;
use check_rungrep::matcher::Matcher;
use check_rungrep::range::{Bound, Range};
use check_rungrep::usage::{expected, usage_message};
use nagios_range::NagiosRange;

fn bound(x: f64) -> Bound {
    if x == f64::INFINITY {
        Bound::PosInf
    } else if x == f64::NEG_INFINITY {
        Bound::NegInf
    } else {
        Bound::Finite((x * 1e9).round() as i128)
    }
}

fn parsed(arg: &str) -> ParsedRange {
    NagiosRange::from(arg).map(|r| {
        Range::new(bound(*r.start()), bound(*r.end()), r.checks_inside()).unwrap()
    })
}

fn parse(args: &[&str]) -> (Option<Vec<u8>>, Result<check_rungrep::cli::Args, ParseArgsError>, usize) {
    let tokens: Vec<Vec<u8>> = args.iter().map(|a| a.as_bytes().to_vec()).collect();
    let ranges: Vec<ParsedRange> = args.iter().map(|a| parsed(a)).collect();
    parse_cmdline(tokens, ranges)
}

#[test]
fn parses_conditions_in_order() {
    let (program, result, taken) = parse(&[
        "check_rungrep", "cd", "/tmp", "exit", "", "0:0", "", "stdout", "literal", "hello", "",
        "1:1", "hits", "stderr", "regex", "hel+o", "@5:", "", "", "time", "10", "20", "t",
        "command", "sh", "-c", "exit 0",
    ]);
    assert_eq!(program, Some(b"check_rungrep".to_vec()));
    assert_eq!(taken, 26);
    let args = match result {
        Ok(a) => a,
        Err(_) => panic!("parse failed"),
    };
    assert_eq!(args.cd, vec![b"/tmp".to_vec()]);
    assert_eq!(args.exe, b"sh".to_vec());
    assert_eq!(args.args, vec![b"-c".to_vec(), b"exit 0".to_vec()]);
    assert_eq!(args.conditions.len(), 4);
    match &args.conditions[0] {
        Condition::ExitCode(p) => {
            assert_eq!(p.thresholds.warn, None);
            assert_eq!(p.thresholds.crit.unwrap().to_text(), "0:0");
            assert_eq!(p.label, "");
        }
        _ => panic!("expected an exit condition"),
    }
    match &args.conditions[1] {
        Condition::Stdout(Matcher::Literal(l), p) => {
            assert_eq!(l, &b"hello".to_vec());
            assert_eq!(p.thresholds.crit.unwrap().to_text(), "1:1");
            assert_eq!(p.label, "hits");
        }
        _ => panic!("expected a literal stdout condition"),
    }
    match &args.conditions[2] {
        Condition::Stderr(Matcher::RegExp(r), p) => {
            assert_eq!(r.source(), "hel+o");
            assert_eq!(p.thresholds.warn.unwrap().to_text(), "@5:~");
        }
        _ => panic!("expected a regex stderr condition"),
    }
    match &args.conditions[3] {
        Condition::ExecSeconds(p) => {
            assert_eq!(p.thresholds.warn.unwrap().to_text(), "0:10");
            assert_eq!(p.thresholds.crit.unwrap().to_text(), "0:20");
            assert_eq!(p.label, "t");
        }
        _ => panic!("expected a time condition"),
    }
}

#[test]
fn no_arguments_at_all() {
    let (program, result, taken) = parse(&[]);
    assert_eq!(program, None);
    assert!(matches!(
        result,
        Err(ParseArgsError::UnexpectedEnd(ExpectedArg::Command))
    ));
    assert_eq!(taken, 0);
}

#[test]
fn unknown_parameter() {
    let (_, result, taken) = parse(&["p", "cd", "/", "bogus"]);
    assert!(matches!(result, Err(ParseArgsError::UnknownParam)));
    assert_eq!(taken, 3);
}

#[test]
fn empty_executable() {
    let (_, result, taken) = parse(&["p", "command", ""]);
    assert!(matches!(
        result,
        Err(ParseArgsError::EmptyString(ExpectedArg::Exe))
    ));
    assert_eq!(taken, 2);
}

#[test]
fn missing_label() {
    let (_, result, taken) = parse(&["p", "exit", "", ""]);
    assert!(matches!(
        result,
        Err(ParseArgsError::UnexpectedEnd(ExpectedArg::Label))
    ));
    assert_eq!(taken, 3);
}

#[test]
fn bad_threshold() {
    let (_, result, taken) = parse(&["p", "exit", "", "20:10", "", "command", "true"]);
    match result {
        Err(ParseArgsError::BadThreshold(ExpectedArg::Critical, e)) => {
            assert_eq!(e, nagios_range::Error::StartGreaterThanEnd)
        }
        _ => panic!("expected a bad critical threshold"),
    }
    assert_eq!(taken, 3);
    let (_, result, _) = parse(&["p", "time", "x", "", "", "command", "true"]);
    assert!(matches!(
        result,
        Err(ParseArgsError::BadThreshold(ExpectedArg::Warning, _))
    ));
}

#[test]
fn unknown_matcher_and_bad_regex() {
    let (_, result, taken) = parse(&["p", "stdout", "glob", "*"]);
    assert!(matches!(result, Err(ParseArgsError::UnknownMatcher)));
    assert_eq!(taken, 2);
    let (_, result, taken) = parse(&["p", "stdout", "regex", "(", "", "", ""]);
    assert!(matches!(result, Err(ParseArgsError::BadRegex(_))));
    assert_eq!(taken, 3);
    let (_, result, _) = parse(&["p", "stdout", "literal", ""]);
    assert!(matches!(
        result,
        Err(ParseArgsError::EmptyString(ExpectedArg::Pattern))
    ));
}

#[test]
fn invalid_unicode() {
    let tokens = vec![b"p".to_vec(), vec![0xff, 0xfe]];
    let ranges = vec![Err(nagios_range::Error::EmptyRange), Err(nagios_range::Error::EmptyRange)];
    let (_, result, taken) = parse_cmdline(tokens, ranges);
    assert!(matches!(
        result,
        Err(ParseArgsError::BadUnicode(ExpectedArg::Command, _))
    ));
    assert_eq!(taken, 1);
    let tokens = vec![b"p".to_vec(), b"command".to_vec(), vec![0xff], vec![0xfe]];
    let ranges = (0..4).map(|_| Err(nagios_range::Error::EmptyRange)).collect();
    let (_, result, taken) = parse_cmdline(tokens, ranges);
    match result {
        Ok(a) => {
            assert_eq!(a.exe, vec![0xff]);
            assert_eq!(a.args, vec![vec![0xfe]]);
        }
        Err(_) => panic!("a non-UTF-8 executable is accepted"),
    }
    assert_eq!(taken, 3);
}

#[test]
fn counter_iterator_counts_what_it_hands_out() {
    let mut it = CounterIterator::new(vec![1u8, 2, 3]);
    assert_eq!(it.taken(), 0);
    assert_eq!(it.next(), Some(1));
    assert_eq!(it.next(), Some(2));
    assert_eq!(it.taken(), 2);
    assert_eq!(it.take_rest(), vec![3]);
    assert_eq!(it.taken(), 3);
    assert_eq!(it.next(), None);
    assert_eq!(it.taken(), 3);
}

#[test]
fn expected_names() {
    assert_eq!(expected(ExpectedArg::Matcher), "\"literal\"/\"regex\"");
    assert_eq!(expected(ExpectedArg::Pattern), "search pattern");
    assert_eq!(expected(ExpectedArg::Warning), "warning threshold");
    assert_eq!(expected(ExpectedArg::Critical), "critical threshold");
    assert_eq!(expected(ExpectedArg::Label), "perfdata label");
    assert_eq!(
        expected(ExpectedArg::Command),
        "\"command\"/\"cd\"/\"time\"/\"exit\"/\"stdout\"/\"stderr\""
    );
    assert_eq!(expected(ExpectedArg::WorkDir), "working directory");
    assert_eq!(expected(ExpectedArg::Exe), "executable name");
}

#[test]
fn usage_messages() {
    let (_, result, taken) = parse(&["p"]);
    match result {
        Err(e) => assert_eq!(
            usage_message(&e, taken, ""),
            "Unexpected end of CLI arguments, expected \"command\"/\"cd\"/\"time\"/\"exit\"/\"stdout\"/\"stderr\"."
        ),
        Ok(_) => panic!("expected an error"),
    }
    let (_, result, taken) = parse(&["p", "cd", "/", "bogus"]);
    match result {
        Err(e) => assert_eq!(
            usage_message(&e, taken, ""),
            "Unknown parameter (CLI argument #3), expected \"command\"/\"cd\"/\"time\"/\"exit\"/\"stdout\"/\"stderr\"."
        ),
        Ok(_) => panic!("expected an error"),
    }
    let (_, result, taken) = parse(&["p", "command", ""]);
    match result {
        Err(e) => assert_eq!(
            usage_message(&e, taken, ""),
            "Illegal empty string (CLI argument #2), expected executable name."
        ),
        Ok(_) => panic!("expected an error"),
    }
    let (_, result, taken) = parse(&["p", "stdout", "glob"]);
    match result {
        Err(e) => assert_eq!(
            usage_message(&e, taken, ""),
            "Unknown kind of pattern (CLI argument #2), expected \"literal\"/\"regex\"."
        ),
        Ok(_) => panic!("expected an error"),
    }
    let (_, result, taken) = parse(&["p", "exit", "", "20:10", ""]);
    match result {
        Err(e) => {
            let detail = match &e {
                ParseArgsError::BadThreshold(_, er) => er.to_string(),
                _ => panic!("expected a bad threshold"),
            };
            assert_eq!(
                usage_message(&e, taken, &detail),
                "Invalid @start:end critical threshold (CLI argument #3): the start point must be lesser than the end point"
            );
        }
        Ok(_) => panic!("expected an error"),
    }
    let (_, result, taken) = parse(&["p", "stderr", "regex", "(", "", "", ""]);
    match result {
        Err(e) => assert_eq!(
            usage_message(&e, taken, "oops"),
            "Invalid regular expression (CLI argument #3): oops"
        ),
        Ok(_) => panic!("expected an error"),
    }
    let tokens = vec![b"p".to_vec(), vec![0xc3]];
    let ranges = vec![Err(nagios_range::Error::EmptyRange), Err(nagios_range::Error::EmptyRange)];
    let (_, result, taken) = parse_cmdline(tokens, ranges);
    match result {
        Err(e) => assert_eq!(
            usage_message(&e, taken, "bad"),
            "Invalid UTF-8 (CLI argument #1), expected \"command\"/\"cd\"/\"time\"/\"exit\"/\"stdout\"/\"stderr\". Error: bad"
        ),
        Ok(_) => panic!("expected an error"),
    }
}
