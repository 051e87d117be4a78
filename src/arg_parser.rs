//! The command-line grammar: a sequence of `cd`, `time`, `exit`, `stdout` and
//! `stderr` declarations, ended by `command` with the executable and its
//! arguments.
use crate::cli::{
    args_view, condition_view, condition_views, Args, ArgsView, ConditionView, ErrorKind, ExpectedArg, MatcherView,
    ParseArgsError, PerfdatView,
};
use crate::cnt_iter::CounterIterator;
use crate::evaluate::Condition;
use crate::matcher::{regex_accepts, Matcher, Pattern};
use crate::plugin::{Perfdat, Thresholds};
use crate::range::Range;
use vstd::prelude::*;
use vstd::utf8::{decode_utf8, valid_utf8};

verus! {

/// A threshold argument as parsed beforehand: a range, or why it is malformed.
pub type ParsedRange = Result<Range, nagios_range::Error>;

/// The result of one step of the grammar: a value and the number of
/// arguments taken so far, or an error and the number taken when it arose.
pub type Step<A> = Result<(A, nat), (ErrorKind, nat)>;

/// The argument at `pos`.
pub open spec fn req(ts: Seq<Vec<u8>>, pos: nat, want: ExpectedArg) -> Step<Vec<u8>> {
    if pos < ts.len() {
        Ok((ts[pos as int], pos + 1))
    } else {
        Err((ErrorKind::UnexpectedEnd(want), pos))
    }
}

/// The argument at `pos`, which must not be empty.
pub open spec fn req_noempty(ts: Seq<Vec<u8>>, pos: nat, want: ExpectedArg) -> Step<Vec<u8>> {
    match req(ts, pos, want) {
        Ok((t, p)) => if t@.len() == 0 {
            Err((ErrorKind::EmptyString(want), p))
        } else {
            Ok((t, p))
        },
        Err(e) => Err(e),
    }
}

/// The text of an argument, which must be valid UTF-8.
pub open spec fn as_text(s: Step<Vec<u8>>, want: ExpectedArg) -> Step<Seq<char>> {
    match s {
        Ok((t, p)) => if valid_utf8(t@) {
            Ok((decode_utf8(t@), p))
        } else {
            Err((ErrorKind::BadUnicode(want), p))
        },
        Err(e) => Err(e),
    }
}

/// An optional threshold at `pos`: empty for none, else the range parsed
/// beforehand from that argument.
pub open spec fn req_threshold(
    ts: Seq<Vec<u8>>,
    rs: Seq<ParsedRange>,
    pos: nat,
    want: ExpectedArg,
) -> Step<Option<Range>> {
    match as_text(req(ts, pos, want), want) {
        Ok((s, p)) => if s.len() == 0 {
            Ok((None, p))
        } else {
            match rs[pos as int] {
                Ok(r) => Ok((Some(r), p)),
                Err(_) => Err((ErrorKind::BadThreshold(want), p)),
            }
        },
        Err(e) => Err(e),
    }
}

/// A warning threshold, a critical threshold and a label.
pub open spec fn perfdat_step(ts: Seq<Vec<u8>>, rs: Seq<ParsedRange>, pos: nat) -> Step<
    PerfdatView,
> {
    match req_threshold(ts, rs, pos, ExpectedArg::Warning) {
        Err(e) => Err(e),
        Ok((w, n1)) => match req_threshold(ts, rs, n1, ExpectedArg::Critical) {
            Err(e) => Err(e),
            Ok((c, n2)) => match as_text(req(ts, n2, ExpectedArg::Label), ExpectedArg::Label) {
                Err(e) => Err(e),
                Ok((l, n3)) => Ok(
                    (PerfdatView { thresholds: Thresholds { warn: w, crit: c }, label: l }, n3),
                ),
            },
        },
    }
}

/// `literal` and a non-empty byte string, or `regex` and a regular expression
/// that compiles.
pub open spec fn matcher_step(ts: Seq<Vec<u8>>, pos: nat) -> Step<MatcherView> {
    match as_text(req_noempty(ts, pos, ExpectedArg::Matcher), ExpectedArg::Matcher) {
        Err(e) => Err(e),
        Ok((k, n1)) => if k == "literal"@ {
            match req_noempty(ts, n1, ExpectedArg::Pattern) {
                Err(e) => Err(e),
                Ok((t, n2)) => Ok((MatcherView::Literal(t@), n2)),
            }
        } else if k == "regex"@ {
            match as_text(req_noempty(ts, n1, ExpectedArg::Pattern), ExpectedArg::Pattern) {
                Err(e) => Err(e),
                Ok((s, n2)) => if regex_accepts(s) {
                    Ok((MatcherView::RegExp(s), n2))
                } else {
                    Err((ErrorKind::BadRegex, n2))
                },
            }
        } else {
            Err((ErrorKind::UnknownMatcher, n1))
        },
    }
}

/// What one declaration at `pos` gives, after the directories `cd` and the
/// conditions `conds` already declared.
pub enum Decl {
    /// The declaration was read; the next one starts at the position given.
    More(nat, Seq<Vec<u8>>, Seq<ConditionView>),
    /// The command line ends here: the whole of it, or the first error with
    /// the number of arguments taken when it arose.
    Done(Result<ArgsView, (ErrorKind, nat)>),
}

/// Reads the declaration at `pos`.
pub open spec fn decl(
    ts: Seq<Vec<u8>>,
    rs: Seq<ParsedRange>,
    pos: nat,
    cd: Seq<Vec<u8>>,
    conds: Seq<ConditionView>,
) -> Decl {
    match as_text(req_noempty(ts, pos, ExpectedArg::Command), ExpectedArg::Command) {
        Err(e) => Decl::Done(Err(e)),
        Ok((w, n1)) => if w == "time"@ {
            match perfdat_step(ts, rs, n1) {
                Err(e) => Decl::Done(Err(e)),
                Ok((pd, n2)) => Decl::More(n2, cd, conds.push(ConditionView::ExecSeconds(pd))),
            }
        } else if w == "exit"@ {
            match perfdat_step(ts, rs, n1) {
                Err(e) => Decl::Done(Err(e)),
                Ok((pd, n2)) => Decl::More(n2, cd, conds.push(ConditionView::ExitCode(pd))),
            }
        } else if w == "stdout"@ || w == "stderr"@ {
            match matcher_step(ts, n1) {
                Err(e) => Decl::Done(Err(e)),
                Ok((m, n2)) => match perfdat_step(ts, rs, n2) {
                    Err(e) => Decl::Done(Err(e)),
                    Ok((pd, n3)) => Decl::More(
                        n3,
                        cd,
                        conds.push(
                            if w == "stdout"@ {
                                ConditionView::Stdout(m, pd)
                            } else {
                                ConditionView::Stderr(m, pd)
                            },
                        ),
                    ),
                },
            }
        } else if w == "cd"@ {
            match req_noempty(ts, n1, ExpectedArg::WorkDir) {
                Err(e) => Decl::Done(Err(e)),
                Ok((d, n2)) => Decl::More(n2, cd.push(d), conds),
            }
        } else if w == "command"@ {
            match req_noempty(ts, n1, ExpectedArg::Exe) {
                Err(e) => Decl::Done(Err(e)),
                Ok((x, n2)) => Decl::Done(
                    Ok(ArgsView { cd, exe: x, args: ts.skip(n2 as int), conditions: conds }),
                ),
            }
        } else {
            Decl::Done(Err((ErrorKind::UnknownParam, n1)))
        },
    }
}

/// The declarations from `pos` on, after the directories `cd` and the
/// conditions `conds` already declared: the whole command line, or the first
/// error with the number of arguments taken when it arose.
pub open spec fn args_from(
    ts: Seq<Vec<u8>>,
    rs: Seq<ParsedRange>,
    pos: nat,
    cd: Seq<Vec<u8>>,
    conds: Seq<ConditionView>,
) -> Result<ArgsView, (ErrorKind, nat)>
    decreases ts.len() - pos,
{
    match decl(ts, rs, pos, cd, conds) {
        Decl::More(p, cd2, conds2) => args_from(ts, rs, p, cd2, conds2),
        Decl::Done(r) => r,
    }
}

/// The iterator hands out `ts` in order and has taken `it.count()` of them.
pub open spec fn in_sync(it: CounterIterator<Vec<u8>>, ts: Seq<Vec<u8>>) -> bool {
    &&& it.wf()
    &&& it.count() <= ts.len()
    &&& it.remaining() == ts.skip(it.count() as int)
}

/// The result `r` of a step, with `taken` arguments taken, is what the grammar
/// step `s` gives, seen through `v`.
pub open spec fn agrees<A, B>(
    r: Result<A, ParseArgsError>,
    taken: nat,
    s: Step<B>,
    v: spec_fn(A) -> B,
) -> bool {
    match s {
        Ok((b, p)) => r is Ok && v(r->Ok_0) == b && taken == p,
        Err((k, n)) => r is Err && r->Err_0.kind() == k && taken == n,
    }
}

/// The parse result `r`, with `taken` arguments taken, is what the grammar
/// gives: the same command line with every argument taken, or the same error
/// with as many arguments taken as when it arose.
pub open spec fn parse_agrees(
    r: Result<Args, ParseArgsError>,
    taken: nat,
    s: Result<ArgsView, (ErrorKind, nat)>,
    total: nat,
) -> bool {
    match s {
        Ok(v) => r is Ok && args_view(r->Ok_0) == v && taken == total,
        Err((k, n)) => r is Err && r->Err_0.kind() == k && taken == n,
    }
}

/// The arguments after the program name.
pub open spec fn after_program<A>(s: Seq<A>) -> Seq<A> {
    if s.len() > 0 {
        s.drop_first()
    } else {
        s
    }
}

/// Relies on std::str::from_utf8: it accepts exactly the valid UTF-8 byte
/// strings, and decodes them.
#[verifier::external_body]
fn utf8_text(bytes: &[u8]) -> (r: Result<String, std::str::Utf8Error>)
    ensures
        r is Ok <==> valid_utf8(bytes@),
        r matches Ok(s) ==> s@ == decode_utf8(bytes@),
{
    std::str::from_utf8(bytes).map(|s| s.to_string())
}

fn is_word(s: &String, w: &str) -> (r: bool)
    ensures
        r == (s@ == w@),
{
    let t = w.to_string();
    *s == t
}

fn require(
    args: &mut CounterIterator<Vec<u8>>,
    want: ExpectedArg,
    Ghost(ts): Ghost<Seq<Vec<u8>>>,
) -> (r: Result<Vec<u8>, ParseArgsError>)
    requires
        in_sync(*old(args), ts),
    ensures
        in_sync(*final(args), ts),
        agrees(r, final(args).count(), req(ts, old(args).count(), want), |t: Vec<u8>| t),
{
    let ghost pos = args.count();
    let r = match args.next() {
        Some(t) => Ok(t),
        None => Err(ParseArgsError::UnexpectedEnd(want)),
    };
    proof {
        if pos < ts.len() {
            assert(ts.skip(pos as int)[0] == ts[pos as int]);
            assert(ts.skip(pos as int).drop_first() =~= ts.skip(pos + 1 as int));
        }
    }
    r
}

fn require_noempty(
    args: &mut CounterIterator<Vec<u8>>,
    want: ExpectedArg,
    Ghost(ts): Ghost<Seq<Vec<u8>>>,
) -> (r: Result<Vec<u8>, ParseArgsError>)
    requires
        in_sync(*old(args), ts),
    ensures
        in_sync(*final(args), ts),
        agrees(r, final(args).count(), req_noempty(ts, old(args).count(), want), |t: Vec<u8>| t),
{
    match require(args, want, Ghost(ts)) {
        Err(e) => Err(e),
        Ok(arg) => if arg.len() == 0 {
            Err(ParseArgsError::EmptyString(want))
        } else {
            Ok(arg)
        },
    }
}

fn to_text(
    r: Result<Vec<u8>, ParseArgsError>,
    want: ExpectedArg,
    Ghost(taken): Ghost<nat>,
    Ghost(s): Ghost<Step<Vec<u8>>>,
) -> (t: Result<String, ParseArgsError>)
    requires
        agrees(r, taken, s, |t: Vec<u8>| t),
    ensures
        agrees(t, taken, as_text(s, want), |x: String| x@),
{
    match r {
        Err(e) => Err(e),
        Ok(arg) => match utf8_text(arg.as_slice()) {
            Ok(s) => Ok(s),
            Err(err) => Err(ParseArgsError::BadUnicode(want, err)),
        },
    }
}

fn require_utf8(
    args: &mut CounterIterator<Vec<u8>>,
    want: ExpectedArg,
    Ghost(ts): Ghost<Seq<Vec<u8>>>,
) -> (r: Result<String, ParseArgsError>)
    requires
        in_sync(*old(args), ts),
    ensures
        in_sync(*final(args), ts),
        agrees(r, final(args).count(), as_text(req(ts, old(args).count(), want), want), |x: String| x@),
{
    let ghost pos = args.count();
    let a = require(args, want, Ghost(ts));
    to_text(a, want, Ghost(args.count()), Ghost(req(ts, pos, want)))
}

fn require_noempty_utf8(
    args: &mut CounterIterator<Vec<u8>>,
    want: ExpectedArg,
    Ghost(ts): Ghost<Seq<Vec<u8>>>,
) -> (r: Result<String, ParseArgsError>)
    requires
        in_sync(*old(args), ts),
    ensures
        in_sync(*final(args), ts),
        agrees(
            r,
            final(args).count(),
            as_text(req_noempty(ts, old(args).count(), want), want),
            |x: String| x@,
        ),
{
    let ghost pos = args.count();
    let a = require_noempty(args, want, Ghost(ts));
    to_text(a, want, Ghost(args.count()), Ghost(req_noempty(ts, pos, want)))
}

fn require_threshold(
    args: &mut CounterIterator<Vec<u8>>,
    ranges: &mut Vec<ParsedRange>,
    want: ExpectedArg,
    Ghost(ts): Ghost<Seq<Vec<u8>>>,
) -> (r: Result<Option<Range>, ParseArgsError>)
    requires
        in_sync(*old(args), ts),
        old(ranges)@.len() == ts.len(),
    ensures
        in_sync(*final(args), ts),
        agrees(
            r,
            final(args).count(),
            req_threshold(ts, old(ranges)@, old(args).count(), want),
            |x: Option<Range>| x,
        ),
        r is Ok ==> final(ranges)@ == old(ranges)@,
        r matches Err(ParseArgsError::BadThreshold(_, e)) ==> old(ranges)@[final(args).count() - 1]
            == Err::<Range, nagios_range::Error>(e),
{
    let pos = args.taken();
    match require_utf8(args, want, Ghost(ts)) {
        Err(e) => Err(e),
        Ok(arg) => if arg.as_str().is_empty() {
            Ok(None)
        } else {
            match &ranges[pos] {
                Ok(range) => Ok(Some(*range)),
                Err(_) => match ranges.remove(pos) {
                    Ok(range) => Ok(Some(range)),
                    Err(err) => Err(ParseArgsError::BadThreshold(want, err)),
                },
            }
        },
    }
}

fn parse_perfdata(
    args: &mut CounterIterator<Vec<u8>>,
    ranges: &mut Vec<ParsedRange>,
    Ghost(ts): Ghost<Seq<Vec<u8>>>,
) -> (r: Result<Perfdat, ParseArgsError>)
    requires
        in_sync(*old(args), ts),
        old(ranges)@.len() == ts.len(),
    ensures
        in_sync(*final(args), ts),
        agrees(
            r,
            final(args).count(),
            perfdat_step(ts, old(ranges)@, old(args).count()),
            |p: Perfdat| crate::cli::perfdat_view(p),
        ),
        r is Ok ==> final(ranges)@ == old(ranges)@,
        r matches Err(ParseArgsError::BadThreshold(_, e)) ==> old(ranges)@[final(args).count() - 1]
            == Err::<Range, nagios_range::Error>(e),
{
    let warn = match require_threshold(args, ranges, ExpectedArg::Warning, Ghost(ts)) {
        Err(e) => {
            return Err(e);
        },
        Ok(w) => w,
    };
    let crit = match require_threshold(args, ranges, ExpectedArg::Critical, Ghost(ts)) {
        Err(e) => {
            return Err(e);
        },
        Ok(c) => c,
    };
    let label = match require_utf8(args, ExpectedArg::Label, Ghost(ts)) {
        Err(e) => {
            return Err(e);
        },
        Ok(l) => l,
    };
    Ok(Perfdat { thresholds: Thresholds { warn, crit }, label })
}

fn parse_matcher(args: &mut CounterIterator<Vec<u8>>, Ghost(ts): Ghost<Seq<Vec<u8>>>) -> (r: Result<
    Matcher,
    ParseArgsError,
>)
    requires
        in_sync(*old(args), ts),
    ensures
        in_sync(*final(args), ts),
        agrees(
            r,
            final(args).count(),
            matcher_step(ts, old(args).count()),
            |m: Matcher| crate::cli::matcher_view(m),
        ),
        r matches Ok(m) ==> m.wf(),
{
    let kind = match require_noempty_utf8(args, ExpectedArg::Matcher, Ghost(ts)) {
        Err(e) => {
            return Err(e);
        },
        Ok(k) => k,
    };
    if is_word(&kind, "literal") {
        match require_noempty(args, ExpectedArg::Pattern, Ghost(ts)) {
            Err(e) => Err(e),
            Ok(pattern) => Ok(Matcher::Literal(pattern)),
        }
    } else if is_word(&kind, "regex") {
        match require_noempty_utf8(args, ExpectedArg::Pattern, Ghost(ts)) {
            Err(e) => Err(e),
            Ok(pattern) => match Pattern::new(pattern.as_str()) {
                Ok(p) => Ok(Matcher::RegExp(p)),
                Err(err) => Err(ParseArgsError::BadRegex(err)),
            },
        }
    } else {
        Err(ParseArgsError::UnknownMatcher)
    }
}

/// Whether the declaration result `r`, with `taken` arguments taken and the
/// directories `cd` and conditions `conds` declared so far, is what `d` says.
pub open spec fn decl_agrees(
    r: Option<Result<Args, ParseArgsError>>,
    taken: nat,
    cd: Seq<Vec<u8>>,
    conds: Seq<Condition>,
    d: Decl,
    total: nat,
) -> bool {
    match d {
        Decl::More(p, cd2, conds2) => r is None && taken == p && cd == cd2 && condition_views(conds)
            == conds2,
        Decl::Done(s) => r is Some && parse_agrees(r->Some_0, taken, s, total),
    }
}

fn parse_declaration(
    args: &mut CounterIterator<Vec<u8>>,
    ranges: &mut Vec<ParsedRange>,
    cd: &mut Vec<Vec<u8>>,
    conditions: &mut Vec<Condition>,
    Ghost(ts): Ghost<Seq<Vec<u8>>>,
) -> (r: Option<Result<Args, ParseArgsError>>)
    requires
        in_sync(*old(args), ts),
        old(ranges)@.len() == ts.len(),
        forall|i: int| 0 <= i < old(conditions)@.len() ==> (#[trigger] old(conditions)@[i]).wf(),
    ensures
        in_sync(*final(args), ts),
        decl_agrees(
            r,
            final(args).count(),
            final(cd)@,
            final(conditions)@,
            decl(ts, old(ranges)@, old(args).count(), old(cd)@, condition_views(old(conditions)@)),
            ts.len(),
        ),
        r is None ==> final(ranges)@ == old(ranges)@,
        r is None ==> forall|i: int|
            0 <= i < final(conditions)@.len() ==> (#[trigger] final(conditions)@[i]).wf(),
        r matches Some(Ok(a)) ==> forall|i: int|
            0 <= i < a.conditions@.len() ==> (#[trigger] a.conditions@[i]).wf(),
        r matches Some(Err(ParseArgsError::BadThreshold(_, e))) ==> old(ranges)@[final(args).count()
            - 1] == Err::<Range, nagios_range::Error>(e),
{
    let ghost views = condition_views(conditions@);
    let word = match require_noempty_utf8(args, ExpectedArg::Command, Ghost(ts)) {
        Err(e) => {
            return Some(Err(e));
        },
        Ok(w) => w,
    };
    let condition = if is_word(&word, "time") {
        match parse_perfdata(args, ranges, Ghost(ts)) {
            Err(e) => {
                return Some(Err(e));
            },
            Ok(p) => Condition::ExecSeconds(p),
        }
    } else if is_word(&word, "exit") {
        match parse_perfdata(args, ranges, Ghost(ts)) {
            Err(e) => {
                return Some(Err(e));
            },
            Ok(p) => Condition::ExitCode(p),
        }
    } else if is_word(&word, "stdout") || is_word(&word, "stderr") {
        let m = match parse_matcher(args, Ghost(ts)) {
            Err(e) => {
                return Some(Err(e));
            },
            Ok(m) => m,
        };
        match parse_perfdata(args, ranges, Ghost(ts)) {
            Err(e) => {
                return Some(Err(e));
            },
            Ok(p) => if is_word(&word, "stdout") {
                Condition::Stdout(m, p)
            } else {
                Condition::Stderr(m, p)
            },
        }
    } else if is_word(&word, "cd") {
        return match require_noempty(args, ExpectedArg::WorkDir, Ghost(ts)) {
            Err(e) => Some(Err(e)),
            Ok(dir) => {
                cd.push(dir);
                None
            },
        };
    } else if is_word(&word, "command") {
        let exe = match require_noempty(args, ExpectedArg::Exe, Ghost(ts)) {
            Err(e) => {
                return Some(Err(e));
            },
            Ok(x) => x,
        };
        let rest = args.take_rest();
        let ghost cd0 = cd@;
        let ghost conds0 = conditions@;
        let dirs = cd.split_off(0);
        let declared = conditions.split_off(0);
        proof {
            assert(dirs@ =~= cd0);
            assert(declared@ =~= conds0);
            assert(args.remaining() =~= ts.skip(args.count() as int));
        }
        return Some(Ok(Args { cd: dirs, exe, args: rest, conditions: declared }));
    } else {
        return Some(Err(ParseArgsError::UnknownParam));
    };
    conditions.push(condition);
    proof {
        assert(condition_views(conditions@) =~= views.push(condition_view(condition)));
    }
    None
}

fn parse_args(
    args: &mut CounterIterator<Vec<u8>>,
    ranges: &mut Vec<ParsedRange>,
    Ghost(ts): Ghost<Seq<Vec<u8>>>,
) -> (r: Result<Args, ParseArgsError>)
    requires
        in_sync(*old(args), ts),
        old(ranges)@.len() == ts.len(),
    ensures
        in_sync(*final(args), ts),
        parse_agrees(
            r,
            final(args).count(),
            args_from(ts, old(ranges)@, old(args).count(), Seq::empty(), Seq::empty()),
            ts.len(),
        ),
        r matches Ok(a) ==> forall|i: int|
            0 <= i < a.conditions@.len() ==> (#[trigger] a.conditions@[i]).wf(),
        r matches Err(ParseArgsError::BadThreshold(_, e)) ==> old(ranges)@[final(args).count() - 1]
            == Err::<Range, nagios_range::Error>(e),
{
    let ghost rs = ranges@;
    let ghost start = args.count();
    let mut cd: Vec<Vec<u8>> = Vec::new();
    let mut conditions: Vec<Condition> = Vec::new();
    proof {
        assert(cd@ =~= Seq::<Vec<u8>>::empty());
        assert(condition_views(conditions@) =~= Seq::<ConditionView>::empty());
    }
    loop
        invariant
            in_sync(*args, ts),
            ranges@ == rs,
            rs == old(ranges)@,
            start == old(args).count(),
            rs.len() == ts.len(),
            args_from(ts, rs, start, Seq::empty(), Seq::empty()) == args_from(
                ts,
                rs,
                args.count(),
                cd@,
                condition_views(conditions@),
            ),
            forall|i: int| 0 <= i < conditions@.len() ==> (#[trigger] conditions@[i]).wf(),
        decreases ts.len() - args.count(),
    {
        let ghost pos = args.count();
        let ghost cd0 = cd@;
        let ghost v0 = condition_views(conditions@);
        let ghost d = decl(ts, rs, pos, cd0, v0);
        match parse_declaration(args, ranges, &mut cd, &mut conditions, Ghost(ts)) {
            Some(r) => {
                proof {
                    assert(d is Done);
                    assert(args_from(ts, rs, pos, cd0, v0) == d->Done_0);
                }
                return r;
            },
            None => {},
        }
    }
}

/// Splits off the program name, then parses the rest of `args`. `ranges`
/// holds, for each argument at the same position, the range it reads as
/// where it is a threshold.
pub fn parse_cmdline(args: Vec<Vec<u8>>, ranges: Vec<ParsedRange>) -> (r: (
    Option<Vec<u8>>,
    Result<Args, ParseArgsError>,
    usize,
))
    requires
        ranges@.len() == args@.len(),
    ensures
        r.0 == (if args@.len() > 0 {
            Some(args@[0])
        } else {
            None
        }),
        parse_agrees(
            r.1,
            r.2 as nat,
            args_from(
                after_program(args@),
                after_program(ranges@),
                0,
                Seq::empty(),
                Seq::empty(),
            ),
            after_program(args@).len(),
        ),
        r.1 matches Ok(a) ==> forall|i: int|
            0 <= i < a.conditions@.len() ==> (#[trigger] a.conditions@[i]).wf(),
        r.1 matches Err(ParseArgsError::BadThreshold(_, e)) ==> after_program(ranges@)[r.2 - 1]
            == Err::<Range, nagios_range::Error>(e),
{
    let ghost all = args@;
    let ghost all_ranges = ranges@;
    let mut args = args;
    let mut ranges = ranges;
    let program = if args.len() > 0 {
        ranges.remove(0);
        Some(args.remove(0))
    } else {
        None
    };
    proof {
        assert(args@ =~= after_program(all));
        assert(ranges@ =~= after_program(all_ranges));
    }
    let ghost ts = args@;
    let mut ci = CounterIterator::new(args);
    proof {
        assert(ts.skip(0) =~= ts);
    }
    let parsed = parse_args(&mut ci, &mut ranges, Ghost(ts));
    (program, parsed, ci.taken())
}

} // verus!
