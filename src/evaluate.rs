//! Turning each declared condition and the observations of one run into an
//! alert and a performance-data record, folded into one check.
use crate::alerts::{exec_time_text, exit_code_text, matches_text, Elapsed, ExecTime, ExitCode, Matches};
use crate::matcher::Matcher;
use crate::number::UNITS;
use crate::plugin::{after_adds, Check, Perfdat, Perfdata};
use vstd::prelude::*;

verus! {

/// A declared condition on one aspect of the run.
pub enum Condition {
    /// The elapsed time, in seconds.
    ExecSeconds(Perfdat),
    /// The exit code.
    ExitCode(Perfdat),
    /// The number of matches in the standard output.
    Stdout(Matcher, Perfdat),
    /// The number of matches in the standard error.
    Stderr(Matcher, Perfdat),
}

impl Condition {
    /// Its matcher, if any, is well formed.
    pub open spec fn wf(&self) -> bool {
        match self {
            Condition::Stdout(m, _) => m.wf(),
            Condition::Stderr(m, _) => m.wf(),
            _ => true,
        }
    }
}

/// What one run of the command left: its output, error output, exit code and
/// elapsed time.
pub struct ExecutionResult {
    pub stdout: Vec<u8>,
    pub stderr: Vec<u8>,
    pub code: i32,
    pub time: Elapsed,
}

/// The record of a match condition that counted `times` matches.
pub open spec fn match_record(times: nat, p: Perfdat) -> Perfdata {
    Perfdata { value: (times * UNITS) as i128, uom: "", thresholds: p, min: Some(0), max: None }
}

/// The alert message and the record that condition `c` gives on the run `r`.
pub open spec fn outcome(c: Condition, r: ExecutionResult) -> (Seq<char>, Perfdata) {
    match c {
        Condition::ExecSeconds(p) => (
            exec_time_text(r.time, p.thresholds),
            Perfdata {
                value: r.time.spec_units() as i128,
                uom: "s",
                thresholds: p,
                min: Some(0),
                max: None,
            },
        ),
        Condition::ExitCode(p) => (
            exit_code_text(r.code, p.thresholds),
            Perfdata {
                value: (r.code * UNITS) as i128,
                uom: "",
                thresholds: p,
                min: None,
                max: None,
            },
        ),
        Condition::Stdout(m, p) => (
            matches_text("stdout"@, &m, m.count(r.stdout@), p.thresholds),
            match_record(m.count(r.stdout@), p),
        ),
        Condition::Stderr(m, p) => (
            matches_text("stderr"@, &m, m.count(r.stderr@), p.thresholds),
            match_record(m.count(r.stderr@), p),
        ),
    }
}

/// The outcome of each condition of `cs`, in order.
pub open spec fn outcomes(cs: Seq<Condition>, r: ExecutionResult) -> Seq<(Seq<char>, Perfdata)> {
    cs.map_values(|c: Condition| outcome(c, r))
}

fn copy_perfdat(p: &Perfdat) -> (r: Perfdat)
    ensures
        r == *p,
{
    Perfdat { thresholds: p.thresholds, label: p.label.clone() }
}

/// Counts the matches of `matcher` in `data`, the stream named `source`, and
/// adds the alert and record of that count to `check`.
pub fn handle_matcher(
    check: &mut Check,
    source: &'static str,
    data: &Vec<u8>,
    matcher: &Matcher,
    thresholds: &Perfdat,
)
    requires
        matcher.wf(),
    ensures
        final(check)@ == old(check)@.added(
            matches_text(source@, matcher, matcher.count(data@), thresholds.thresholds),
            match_record(matcher.count(data@), *thresholds),
        ),
{
    let times = matcher.count_matches(data.as_slice());
    let alert = Matches { source, matcher, times, thresholds: thresholds.thresholds };
    check.add(
        alert.message(),
        Perfdata {
            value: times as i128 * UNITS,
            uom: "",
            thresholds: copy_perfdat(thresholds),
            min: Some(0),
            max: None,
        },
    );
}

/// Adds the alert and record of condition `c` on the run `run` to `check`.
pub fn add_condition(check: &mut Check, c: &Condition, run: &ExecutionResult)
    requires
        c.wf(),
        run.time.wf(),
    ensures
        final(check)@ == old(check)@.added(outcome(*c, *run).0, outcome(*c, *run).1),
{
    match c {
        Condition::ExecSeconds(p) => {
            let alert = ExecTime { time: run.time, thresholds: p.thresholds };
            check.add(
                alert.message(),
                Perfdata {
                    value: run.time.units(),
                    uom: "s",
                    thresholds: copy_perfdat(p),
                    min: Some(0),
                    max: None,
                },
            );
        },
        Condition::ExitCode(p) => {
            let alert = ExitCode { code: run.code, thresholds: p.thresholds };
            check.add(
                alert.message(),
                Perfdata {
                    value: run.code as i128 * UNITS,
                    uom: "",
                    thresholds: copy_perfdat(p),
                    min: None,
                    max: None,
                },
            );
        },
        Condition::Stdout(m, p) => {
            handle_matcher(check, "stdout", &run.stdout, m, p);
        },
        Condition::Stderr(m, p) => {
            handle_matcher(check, "stderr", &run.stderr, m, p);
        },
    }
}

/// Evaluates each condition, in order, on the run `run`, starting from an
/// empty check.
pub fn evaluate(conditions: &Vec<Condition>, run: &ExecutionResult) -> (r: Check)
    requires
        forall|i: int| 0 <= i < conditions@.len() ==> (#[trigger] conditions@[i]).wf(),
        run.time.wf(),
    ensures
        r@ == after_adds(outcomes(conditions@, *run)),
{
    let mut check = Check::new();
    let mut i: usize = 0;
    while i < conditions.len()
        invariant
            i <= conditions@.len(),
            run.time.wf(),
            forall|j: int| 0 <= j < conditions@.len() ==> (#[trigger] conditions@[j]).wf(),
            check@ == after_adds(outcomes(conditions@.take(i as int), *run)),
        decreases conditions@.len() - i,
    {
        add_condition(&mut check, &conditions[i], run);
        proof {
            let os = outcomes(conditions@.take(i as int + 1), *run);
            assert(os.drop_last() =~= outcomes(conditions@.take(i as int), *run));
        }
        i = i + 1;
    }
    proof {
        assert(conditions@.take(i as int) =~= conditions@);
    }
    check
}

} // verus!
