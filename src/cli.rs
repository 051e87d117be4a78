//! What the command line declares, and why it can be refused.
use crate::evaluate::Condition;
use crate::matcher::Matcher;
use crate::plugin::{Perfdat, Thresholds};
use vstd::prelude::*;

verus! {

#[verifier::external_type_specification]
#[verifier::external_body]
pub struct ExUtf8Error(std::str::Utf8Error);

#[verifier::external_type_specification]
#[verifier::external_body]
pub struct ExThresholdError(nagios_range::Error);

/// The parsed command line: directories to change into, in order, the
/// executable with its arguments, and the declared conditions, in order.
pub struct Args {
    pub cd: Vec<Vec<u8>>,
    pub exe: Vec<u8>,
    pub args: Vec<Vec<u8>>,
    pub conditions: Vec<Condition>,
}

/// What the parser expected where it failed.
#[derive(Clone, Copy, Debug, PartialEq, Eq, Structural)]
pub enum ExpectedArg {
    Matcher,
    Pattern,
    Warning,
    Critical,
    Label,
    Command,
    WorkDir,
    Exe,
}

/// Why a command line was refused.
pub enum ParseArgsError {
    /// The arguments ended early.
    UnexpectedEnd(ExpectedArg),
    /// An argument that must not be empty was.
    EmptyString(ExpectedArg),
    /// An argument that must be text was not valid UTF-8.
    BadUnicode(ExpectedArg, std::str::Utf8Error),
    /// An argument named no known parameter.
    UnknownParam,
    /// A threshold was malformed.
    BadThreshold(ExpectedArg, nagios_range::Error),
    /// A pattern kind was neither `literal` nor `regex`.
    UnknownMatcher,
    /// A regular expression did not compile.
    BadRegex(regex::Error),
}

/// A parse error without the details of the outside errors it carries.
#[derive(Clone, Copy, Debug, PartialEq, Eq, Structural)]
pub enum ErrorKind {
    UnexpectedEnd(ExpectedArg),
    EmptyString(ExpectedArg),
    BadUnicode(ExpectedArg),
    UnknownParam,
    BadThreshold(ExpectedArg),
    UnknownMatcher,
    BadRegex,
}

impl ParseArgsError {
    pub open spec fn kind(&self) -> ErrorKind {
        match self {
            ParseArgsError::UnexpectedEnd(w) => ErrorKind::UnexpectedEnd(*w),
            ParseArgsError::EmptyString(w) => ErrorKind::EmptyString(*w),
            ParseArgsError::BadUnicode(w, _) => ErrorKind::BadUnicode(*w),
            ParseArgsError::UnknownParam => ErrorKind::UnknownParam,
            ParseArgsError::BadThreshold(w, _) => ErrorKind::BadThreshold(*w),
            ParseArgsError::UnknownMatcher => ErrorKind::UnknownMatcher,
            ParseArgsError::BadRegex(_) => ErrorKind::BadRegex,
        }
    }
}

/// A matcher as declared: the literal bytes, or the regular expression's text.
pub enum MatcherView {
    Literal(Seq<u8>),
    RegExp(Seq<char>),
}

/// The thresholds and label of a condition as declared.
pub struct PerfdatView {
    pub thresholds: Thresholds,
    pub label: Seq<char>,
}

/// A condition as declared.
pub enum ConditionView {
    ExecSeconds(PerfdatView),
    ExitCode(PerfdatView),
    Stdout(MatcherView, PerfdatView),
    Stderr(MatcherView, PerfdatView),
}

/// A command line as declared.
pub struct ArgsView {
    pub cd: Seq<Vec<u8>>,
    pub exe: Vec<u8>,
    pub args: Seq<Vec<u8>>,
    pub conditions: Seq<ConditionView>,
}

/// A matcher as declared.
pub open spec fn matcher_view(m: Matcher) -> MatcherView {
    match m {
        Matcher::Literal(l) => MatcherView::Literal(l@),
        Matcher::RegExp(p) => MatcherView::RegExp(p.source_text()),
    }
}

/// Thresholds and label as declared.
pub open spec fn perfdat_view(p: Perfdat) -> PerfdatView {
    PerfdatView { thresholds: p.thresholds, label: p.label@ }
}

/// A condition as declared.
pub open spec fn condition_view(c: Condition) -> ConditionView {
    match c {
        Condition::ExecSeconds(p) => ConditionView::ExecSeconds(perfdat_view(p)),
        Condition::ExitCode(p) => ConditionView::ExitCode(perfdat_view(p)),
        Condition::Stdout(m, p) => ConditionView::Stdout(matcher_view(m), perfdat_view(p)),
        Condition::Stderr(m, p) => ConditionView::Stderr(matcher_view(m), perfdat_view(p)),
    }
}

/// Each condition of `cs` as declared, in order.
pub open spec fn condition_views(cs: Seq<Condition>) -> Seq<ConditionView> {
    cs.map_values(|c: Condition| condition_view(c))
}

/// A parsed command line as declared.
pub open spec fn args_view(a: Args) -> ArgsView {
    ArgsView { cd: a.cd@, exe: a.exe, args: a.args@, conditions: condition_views(a.conditions@) }
}

} // verus!
