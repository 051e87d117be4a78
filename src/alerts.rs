//! The alert message of each kind of condition.
use crate::matcher::Matcher;
use crate::number::{push_str, digits, fixed_text, int_text, push_digits, push_fixed, push_int, UNITS};
use crate::plugin::Thresholds;
use vstd::prelude::*;
use vstd::utf8::{decode_utf8, valid_utf8};

verus! {

/// The human-readable text of a duration of `secs` seconds and `nanos` nanoseconds.
pub uninterp spec fn humantime_text(secs: int, nanos: int) -> Seq<char>;

/// The text of `bytes` decoded as UTF-8, with each invalid sequence replaced.
pub uninterp spec fn lossy_text(bytes: Seq<u8>) -> Seq<char>;

/// Relies on humantime::format_duration: a human-readable text of the
/// duration, `0s` for a zero one.
#[verifier::external_body]
fn format_duration(secs: u64, nanos: u32) -> (r: String)
    requires
        nanos < 1_000_000_000,
    ensures
        r@ == humantime_text(secs as int, nanos as int),
        secs == 0 && nanos == 0 ==> r@ == "0s"@,
{
    humantime::format_duration(std::time::Duration::new(secs, nanos)).to_string()
}

/// Relies on String::from_utf8_lossy: valid UTF-8 is decoded as it is.
#[verifier::external_body]
fn utf8_lossy(bytes: &[u8]) -> (r: String)
    ensures
        r@ == lossy_text(bytes@),
        valid_utf8(bytes@) ==> r@ == decode_utf8(bytes@),
{
    String::from_utf8_lossy(bytes).into_owned()
}

/// A measured duration.
#[derive(Clone, Copy, Debug, PartialEq, Eq, Structural)]
pub struct Elapsed {
    pub secs: u64,
    pub nanos: u32,
}

impl Elapsed {
    /// The nanoseconds stay below one second.
    pub open spec fn wf(self) -> bool {
        self.nanos < 1_000_000_000
    }

    /// The duration in seconds as a fixed-point value.
    pub open spec fn spec_units(self) -> int {
        self.secs * UNITS + self.nanos
    }

    /// The duration in seconds as a fixed-point value.
    pub fn units(&self) -> (r: i128)
        ensures
            r == self.spec_units(),
    {
        self.secs as i128 * UNITS + self.nanos as i128
    }
}

/// The thresholds part of a message: ` Warning: <range>.` and
/// ` Critical: <range>.`, each only where that range is present.
pub open spec fn thresholds_text(t: Thresholds) -> Seq<char> {
    (match t.warn {
        Some(w) => " Warning: "@ + w.text() + "."@,
        None => Seq::empty(),
    }) + (match t.crit {
        Some(c) => " Critical: "@ + c.text() + "."@,
        None => Seq::empty(),
    })
}

/// The thresholds of a condition, as its message shows them.
pub struct AlertThresholds {
    pub thresholds: Thresholds,
}

impl AlertThresholds {
    /// Appends the thresholds part of a message.
    pub fn push_message(&self, s: &mut String)
        ensures
            final(s)@ == old(s)@ + thresholds_text(self.thresholds),
    {
        let ghost s0 = s@;
        match self.thresholds.warn {
            None => {},
            Some(warn) => {
                push_str(s, " Warning: ");
                warn.push_text(s);
                push_str(s, ".");
            },
        }
        let ghost s1 = s@;
        match self.thresholds.crit {
            None => {},
            Some(crit) => {
                push_str(s, " Critical: ");
                crit.push_text(s);
                push_str(s, ".");
            },
        }
        proof {
            assert(s@ =~= s0 + thresholds_text(self.thresholds));
        }
    }
}

/// The message of a time condition.
pub open spec fn exec_time_text(time: Elapsed, t: Thresholds) -> Seq<char> {
    "Command ran for "@ + fixed_text(time.spec_units()) + " seconds ("@ + humantime_text(
        time.secs as int,
        time.nanos as int,
    ) + ")."@ + thresholds_text(t)
}

/// The alert of a time condition.
pub struct ExecTime {
    pub time: Elapsed,
    pub thresholds: Thresholds,
}

impl ExecTime {
    /// `Command ran for <seconds> seconds (<human-readable>).` and the thresholds.
    pub fn message(&self) -> (r: String)
        requires
            self.time.wf(),
        ensures
            r@ == exec_time_text(self.time, self.thresholds),
    {
        let mut s = String::new();
        push_str(&mut s, "Command ran for ");
        push_fixed(&mut s, self.time.units());
        push_str(&mut s, " seconds (");
        let human = format_duration(self.time.secs, self.time.nanos);
        push_str(&mut s, human.as_str());
        push_str(&mut s, ").");
        AlertThresholds { thresholds: self.thresholds }.push_message(&mut s);
        proof {
            assert(s@ =~= exec_time_text(self.time, self.thresholds));
        }
        s
    }
}

/// The message of an exit-code condition.
pub open spec fn exit_code_text(code: i32, t: Thresholds) -> Seq<char> {
    "Command returned "@ + int_text(code as int) + "."@ + thresholds_text(t)
}

/// The alert of an exit-code condition.
pub struct ExitCode {
    pub code: i32,
    pub thresholds: Thresholds,
}

impl ExitCode {
    /// `Command returned <code>.` and the thresholds.
    pub fn message(&self) -> (r: String)
        ensures
            r@ == exit_code_text(self.code, self.thresholds),
    {
        let mut s = String::new();
        push_str(&mut s, "Command returned ");
        push_int(&mut s, self.code as i128);
        push_str(&mut s, ".");
        AlertThresholds { thresholds: self.thresholds }.push_message(&mut s);
        proof {
            assert(s@ =~= exit_code_text(self.code, self.thresholds));
        }
        s
    }
}

/// What a match message says of the pattern searched for.
pub open spec fn pattern_text(m: &Matcher) -> Seq<char> {
    match m {
        Matcher::Literal(l) => " Literal string: "@ + lossy_text(l@),
        Matcher::RegExp(p) => " Regular expression: "@ + p.source_text(),
    }
}

/// The message of a match condition on the stream named `source`.
pub open spec fn matches_text(source: Seq<char>, m: &Matcher, times: nat, t: Thresholds) -> Seq<
    char,
> {
    "Command's "@ + source + " matched the following pattern "@ + digits(times) + " times."@
        + thresholds_text(t) + pattern_text(m)
}

/// The alert of a match condition.
pub struct Matches<'a> {
    pub source: &'static str,
    pub matcher: &'a Matcher,
    pub times: usize,
    pub thresholds: Thresholds,
}

impl<'a> Matches<'a> {
    /// `Command's <source> matched the following pattern <times> times.`, the
    /// thresholds, and the literal string or regular expression searched for.
    pub fn message(&self) -> (r: String)
        ensures
            r@ == matches_text(self.source@, self.matcher, self.times as nat, self.thresholds),
    {
        let mut s = String::new();
        push_str(&mut s, "Command's ");
        push_str(&mut s, self.source);
        push_str(&mut s, " matched the following pattern ");
        push_digits(&mut s, self.times as u128);
        push_str(&mut s, " times.");
        AlertThresholds { thresholds: self.thresholds }.push_message(&mut s);
        match self.matcher {
            Matcher::Literal(literal) => {
                push_str(&mut s, " Literal string: ");
                let text = utf8_lossy(literal.as_slice());
                push_str(&mut s, text.as_str());
            },
            Matcher::RegExp(regexp) => {
                push_str(&mut s, " Regular expression: ");
                push_str(&mut s, regexp.source().as_str());
            },
        }
        proof {
            assert(s@ =~= matches_text(
                self.source@,
                self.matcher,
                self.times as nat,
                self.thresholds,
            ));
        }
        s
    }
}

} // verus!
