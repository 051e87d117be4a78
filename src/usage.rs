//! The usage messages for a refused command line.
use crate::cli::{ErrorKind, ExpectedArg, ParseArgsError};
use crate::number::{digits, push_digits, push_str};
use vstd::prelude::*;

verus! {

/// How a usage message names what was expected.
pub open spec fn expected_text(ea: ExpectedArg) -> Seq<char> {
    match ea {
        ExpectedArg::Matcher => "\"literal\"/\"regex\""@,
        ExpectedArg::Pattern => "search pattern"@,
        ExpectedArg::Warning => "warning threshold"@,
        ExpectedArg::Critical => "critical threshold"@,
        ExpectedArg::Label => "perfdata label"@,
        ExpectedArg::Command => "\"command\"/\"cd\"/\"time\"/\"exit\"/\"stdout\"/\"stderr\""@,
        ExpectedArg::WorkDir => "working directory"@,
        ExpectedArg::Exe => "executable name"@,
    }
}

/// Names what was expected, for a usage message.
pub fn expected(ea: ExpectedArg) -> (r: &'static str)
    ensures
        r@ == expected_text(ea),
{
    match ea {
        ExpectedArg::Matcher => "\"literal\"/\"regex\"",
        ExpectedArg::Pattern => "search pattern",
        ExpectedArg::Warning => "warning threshold",
        ExpectedArg::Critical => "critical threshold",
        ExpectedArg::Label => "perfdata label",
        ExpectedArg::Command => "\"command\"/\"cd\"/\"time\"/\"exit\"/\"stdout\"/\"stderr\"",
        ExpectedArg::WorkDir => "working directory",
        ExpectedArg::Exe => "executable name",
    }
}

/// The message for a refused command line of kind `k`, with `consumed`
/// arguments taken, where `detail` is the text of the outside error carried.
pub open spec fn usage_text(k: ErrorKind, consumed: nat, detail: Seq<char>) -> Seq<char> {
    match k {
        ErrorKind::UnexpectedEnd(ea) => "Unexpected end of CLI arguments, expected "@
            + expected_text(ea) + "."@,
        ErrorKind::EmptyString(ea) => "Illegal empty string (CLI argument #"@ + digits(consumed)
            + "), expected "@ + expected_text(ea) + "."@,
        ErrorKind::BadUnicode(ea) => "Invalid UTF-8 (CLI argument #"@ + digits(consumed)
            + "), expected "@ + expected_text(ea) + ". Error: "@ + detail,
        ErrorKind::UnknownParam => "Unknown parameter (CLI argument #"@ + digits(consumed)
            + "), expected "@ + expected_text(ExpectedArg::Command) + "."@,
        ErrorKind::BadThreshold(ea) => "Invalid @start:end "@ + expected_text(ea)
            + " (CLI argument #"@ + digits(consumed) + "): "@ + detail,
        ErrorKind::UnknownMatcher => "Unknown kind of pattern (CLI argument #"@ + digits(consumed)
            + "), expected "@ + expected_text(ExpectedArg::Matcher) + "."@,
        ErrorKind::BadRegex => "Invalid regular expression (CLI argument #"@ + digits(consumed)
            + "): "@ + detail,
    }
}

/// The message for the refused command line `err`, with `consumed` arguments
/// taken; `detail` is the text of the outside error that `err` carries, if any.
pub fn usage_message(err: &ParseArgsError, consumed: usize, detail: &str) -> (r: String)
    ensures
        r@ == usage_text(err.kind(), consumed as nat, detail@),
{
    let mut s = String::new();
    match err {
        ParseArgsError::UnexpectedEnd(ea) => {
            push_str(&mut s, "Unexpected end of CLI arguments, expected ");
            push_str(&mut s, expected(*ea));
            push_str(&mut s, ".");
        },
        ParseArgsError::EmptyString(ea) => {
            push_str(&mut s, "Illegal empty string (CLI argument #");
            push_digits(&mut s, consumed as u128);
            push_str(&mut s, "), expected ");
            push_str(&mut s, expected(*ea));
            push_str(&mut s, ".");
        },
        ParseArgsError::BadUnicode(ea, _) => {
            push_str(&mut s, "Invalid UTF-8 (CLI argument #");
            push_digits(&mut s, consumed as u128);
            push_str(&mut s, "), expected ");
            push_str(&mut s, expected(*ea));
            push_str(&mut s, ". Error: ");
            push_str(&mut s, detail);
        },
        ParseArgsError::UnknownParam => {
            push_str(&mut s, "Unknown parameter (CLI argument #");
            push_digits(&mut s, consumed as u128);
            push_str(&mut s, "), expected ");
            push_str(&mut s, expected(ExpectedArg::Command));
            push_str(&mut s, ".");
        },
        ParseArgsError::BadThreshold(ea, _) => {
            push_str(&mut s, "Invalid @start:end ");
            push_str(&mut s, expected(*ea));
            push_str(&mut s, " (CLI argument #");
            push_digits(&mut s, consumed as u128);
            push_str(&mut s, "): ");
            push_str(&mut s, detail);
        },
        ParseArgsError::UnknownMatcher => {
            push_str(&mut s, "Unknown kind of pattern (CLI argument #");
            push_digits(&mut s, consumed as u128);
            push_str(&mut s, "), expected ");
            push_str(&mut s, expected(ExpectedArg::Matcher));
            push_str(&mut s, ".");
        },
        ParseArgsError::BadRegex(_) => {
            push_str(&mut s, "Invalid regular expression (CLI argument #");
            push_digits(&mut s, consumed as u128);
            push_str(&mut s, "): ");
            push_str(&mut s, detail);
        },
    }
    proof {
        assert(s@ =~= usage_text(err.kind(), consumed as nat, detail@));
    }
    s
}

} // verus!
