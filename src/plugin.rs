//! The check: the worst severity so far, the alert messages grouped by
//! severity, the performance data, and the report built from them.
use crate::number::{push_str, fixed_text, push_char, push_fixed};
use crate::range::Range;
use vstd::prelude::*;

verus! {

/// The severity of a condition or of the whole check, ordered
/// `Okay < Warning < Critical`.
#[derive(Clone, Copy, Debug, PartialEq, Eq, Structural)]
pub enum State {
    Okay,
    Warning,
    Critical,
}

impl State {
    /// The ordinal of this severity, which is also the exit status it stands for.
    pub open spec fn rank(self) -> nat {
        match self {
            State::Okay => 0,
            State::Warning => 1,
            State::Critical => 2,
        }
    }

    /// The marker that starts each alert line of this severity.
    pub open spec fn marker(self) -> Seq<char> {
        match self {
            State::Okay => "\u{2705}"@,
            State::Warning => "\u{26A0}\u{FE0F}"@,
            State::Critical => "\u{1F6A8}"@,
        }
    }

    /// The exit status for this severity.
    pub fn code(&self) -> (r: i32)
        ensures
            r == self.rank(),
    {
        match self {
            State::Okay => 0,
            State::Warning => 1,
            State::Critical => 2,
        }
    }

    fn marker_str(&self) -> (r: &'static str)
        ensures
            r@ == self.marker(),
    {
        match self {
            State::Okay => "\u{2705}",
            State::Warning => "\u{26A0}\u{FE0F}",
            State::Critical => "\u{1F6A8}",
        }
    }
}

/// The worse of two severities.
pub open spec fn worse(a: State, b: State) -> State {
    if a.rank() >= b.rank() {
        a
    } else {
        b
    }
}

/// The worst severity in `states`, `Ok` for none.
pub open spec fn worst_of(states: Seq<State>) -> State
    decreases states.len(),
{
    if states.len() == 0 {
        State::Okay
    } else {
        worse(worst_of(states.drop_last()), states.last())
    }
}

/// The warning and critical ranges of a condition; an absent one never alerts.
#[derive(Clone, Copy, Debug, PartialEq, Eq, Structural)]
pub struct Thresholds {
    pub warn: Option<Range>,
    pub crit: Option<Range>,
}

/// The thresholds of a condition and the label of its performance data; an
/// empty label asks for no performance data.
pub struct Perfdat {
    pub thresholds: Thresholds,
    pub label: String,
}

/// One performance-data record. Values are fixed-point numbers with nine
/// decimal places.
pub struct Perfdata {
    pub value: i128,
    pub uom: &'static str,
    pub thresholds: Perfdat,
    pub min: Option<i128>,
    pub max: Option<i128>,
}

/// `threshold` is present and alerts on `value`.
pub open spec fn range_alerts(value: int, threshold: Option<Range>) -> bool {
    match threshold {
        Some(r) => r.alerts(value),
        None => false,
    }
}

/// The severity of `value` under `t`: critical where the critical range alerts,
/// else warning where the warning range alerts, else ok.
pub open spec fn severity(value: int, t: Thresholds) -> State {
    if range_alerts(value, t.crit) {
        State::Critical
    } else if range_alerts(value, t.warn) {
        State::Warning
    } else {
        State::Okay
    }
}

/// Whether `threshold` is present and alerts on `value`.
pub fn threshold_alert(value: i128, threshold: &Option<Range>) -> (r: bool)
    ensures
        r == range_alerts(value as int, *threshold),
{
    match threshold {
        None => false,
        Some(range) => range.check(value),
    }
}

/// The abstract state of a check.
pub struct CheckView {
    /// The worst severity added so far.
    pub state: State,
    /// The severity of each add, in order.
    pub history: Seq<State>,
    /// The messages of each severity, in the order they were added.
    pub ok: Seq<Seq<char>>,
    pub warning: Seq<Seq<char>>,
    pub critical: Seq<Seq<char>>,
    /// The records with a non-empty label, in the order they were added.
    pub perfdata: Seq<Perfdata>,
}

impl CheckView {
    /// A check to which nothing was added.
    pub open spec fn empty() -> CheckView {
        CheckView {
            state: State::Okay,
            history: Seq::empty(),
            ok: Seq::empty(),
            warning: Seq::empty(),
            critical: Seq::empty(),
            perfdata: Seq::empty(),
        }
    }

    /// The messages kept for severity `s`.
    pub open spec fn bucket(self, s: State) -> Seq<Seq<char>> {
        match s {
            State::Okay => self.ok,
            State::Warning => self.warning,
            State::Critical => self.critical,
        }
    }

    /// This check after adding the alert `message` with the record `p`.
    pub open spec fn added(self, message: Seq<char>, p: Perfdata) -> CheckView {
        let sev = severity(p.value as int, p.thresholds.thresholds);
        CheckView {
            state: worse(self.state, sev),
            history: self.history.push(sev),
            ok: if sev == State::Okay {
                self.ok.push(message)
            } else {
                self.ok
            },
            warning: if sev == State::Warning {
                self.warning.push(message)
            } else {
                self.warning
            },
            critical: if sev == State::Critical {
                self.critical.push(message)
            } else {
                self.critical
            },
            perfdata: if p.thresholds.label@.len() > 0 {
                self.perfdata.push(p)
            } else {
                self.perfdata
            },
        }
    }
}

/// The check after adding each pair of `adds`, in order, to an empty one.
pub open spec fn after_adds(adds: Seq<(Seq<char>, Perfdata)>) -> CheckView
    decreases adds.len(),
{
    if adds.len() == 0 {
        CheckView::empty()
    } else {
        after_adds(adds.drop_last()).added(adds.last().0, adds.last().1)
    }
}

/// The severity of each record of `adds`.
pub open spec fn severities(adds: Seq<(Seq<char>, Perfdata)>) -> Seq<State> {
    adds.map_values(|a: (Seq<char>, Perfdata)| severity(a.1.value as int, a.1.thresholds.thresholds))
}

/// `label` with each quote doubled.
pub open spec fn quote_doubled(label: Seq<char>) -> Seq<char>
    decreases label.len(),
{
    if label.len() == 0 {
        Seq::empty()
    } else {
        quote_doubled(label.drop_last()) + if label.last() == '\'' {
            seq!['\'', '\'']
        } else {
            seq![label.last()]
        }
    }
}

/// The text of an optional range: empty when absent.
pub open spec fn opt_range_text(r: Option<Range>) -> Seq<char> {
    match r {
        Some(r) => r.text(),
        None => Seq::empty(),
    }
}

/// The text of an optional fixed-point value: empty when absent.
pub open spec fn opt_fixed_text(v: Option<i128>) -> Seq<char> {
    match v {
        Some(v) => fixed_text(v as int),
        None => Seq::empty(),
    }
}

/// One field group of the performance data:
/// ` 'label'=value<uom>;<warn>;<crit>;<min>;<max>`.
pub open spec fn perf_field(p: Perfdata) -> Seq<char> {
    seq![' ', '\''] + quote_doubled(p.thresholds.label@) + seq!['\'', '='] + fixed_text(
        p.value as int,
    ) + p.uom@ + seq![';'] + opt_range_text(p.thresholds.thresholds.warn) + seq![';']
        + opt_range_text(p.thresholds.thresholds.crit) + seq![';'] + opt_fixed_text(p.min) + seq![
        ';',
    ] + opt_fixed_text(p.max)
}

/// The field groups of `ps`, in order.
pub open spec fn perf_fields(ps: Seq<Perfdata>) -> Seq<char>
    decreases ps.len(),
{
    if ps.len() == 0 {
        Seq::empty()
    } else {
        perf_fields(ps.drop_last()) + perf_field(ps.last())
    }
}

/// The performance-data line: nothing when there is no record, else the
/// separator ` |`, the field groups and a line break.
pub open spec fn perf_section(ps: Seq<Perfdata>) -> Seq<char> {
    if ps.len() == 0 {
        Seq::empty()
    } else {
        seq![' ', '|'] + perf_fields(ps) + seq!['\n']
    }
}

/// One line per message, each started by `marker` and a space.
pub open spec fn alert_lines(marker: Seq<char>, messages: Seq<Seq<char>>) -> Seq<char>
    decreases messages.len(),
{
    if messages.len() == 0 {
        Seq::empty()
    } else {
        alert_lines(marker, messages.drop_last()) + marker + seq![' '] + messages.last() + seq![
            '\n',
        ]
    }
}

/// The report of a check: the messages of the worst severity, then the
/// performance data.
pub open spec fn report_text(v: CheckView) -> Seq<char> {
    alert_lines(v.state.marker(), v.bucket(v.state)) + perf_section(v.perfdata)
}

/// Evaluation state of the whole check.
pub struct Check {
    state: State,
    perfdata: Vec<Perfdata>,
    ok_alerts: Vec<String>,
    warning_alerts: Vec<String>,
    critical_alerts: Vec<String>,
    history: Ghost<Seq<State>>,
}

/// The text of each message, in order.
pub open spec fn texts(v: Seq<String>) -> Seq<Seq<char>> {
    v.map_values(|m: String| m@)
}

impl View for Check {
    type V = CheckView;

    closed spec fn view(&self) -> CheckView {
        CheckView {
            state: self.state,
            history: self.history@,
            ok: texts(self.ok_alerts@),
            warning: texts(self.warning_alerts@),
            critical: texts(self.critical_alerts@),
            perfdata: self.perfdata@,
        }
    }
}

fn push_messages(s: &mut String, marker: &str, messages: &Vec<String>)
    ensures
        final(s)@ == old(s)@ + alert_lines(marker@, texts(messages@)),
{
    let ghost s0 = s@;
    let mut i: usize = 0;
    while i < messages.len()
        invariant
            i <= messages@.len(),
            s@ == s0 + alert_lines(marker@, texts(messages@.take(i as int))),
        decreases messages@.len() - i,
    {
        push_str(s, marker);
        push_char(s, ' ');
        push_str(s, messages[i].as_str());
        push_char(s, '\n');
        proof {
            let ms = texts(messages@.take(i as int + 1));
            assert(ms.drop_last() =~= texts(messages@.take(i as int)));
            assert(s@ =~= s0 + alert_lines(marker@, ms));
        }
        i = i + 1;
    }
    proof {
        assert(messages@.take(i as int) =~= messages@);
    }
}

fn push_quoted_label(s: &mut String, label: &String)
    ensures
        final(s)@ == old(s)@ + quote_doubled(label@),
{
    let ghost s0 = s@;
    let t = label.as_str();
    let n = t.unicode_len();
    let mut i: usize = 0;
    while i < n
        invariant
            n == label@.len(),
            t@ == label@,
            i <= n,
            s@ == s0 + quote_doubled(label@.take(i as int)),
        decreases n - i,
    {
        let c = t.get_char(i);
        if c == '\'' {
            push_char(s, '\'');
        }
        push_char(s, c);
        proof {
            let l = label@.take(i as int + 1);
            assert(l.drop_last() =~= label@.take(i as int));
            assert(s@ =~= s0 + quote_doubled(l));
        }
        i = i + 1;
    }
    proof {
        assert(label@.take(i as int) =~= label@);
    }
}

fn push_opt_range(s: &mut String, r: &Option<Range>)
    ensures
        final(s)@ == old(s)@ + opt_range_text(*r),
{
    match r {
        Some(r) => r.push_text(s),
        None => {
            proof {
                assert(old(s)@ + opt_range_text(None) =~= s@);
            }
        },
    }
}

fn push_opt_fixed(s: &mut String, v: &Option<i128>)
    ensures
        final(s)@ == old(s)@ + opt_fixed_text(*v),
{
    match v {
        Some(v) => push_fixed(s, *v),
        None => {
            proof {
                assert(old(s)@ + opt_fixed_text(None) =~= s@);
            }
        },
    }
}

fn push_perf_field(s: &mut String, p: &Perfdata)
    ensures
        final(s)@ == old(s)@ + perf_field(*p),
{
    let ghost s0 = s@;
    push_char(s, ' ');
    push_char(s, '\'');
    push_quoted_label(s, &p.thresholds.label);
    push_char(s, '\'');
    push_char(s, '=');
    push_fixed(s, p.value);
    push_str(s, p.uom);
    push_char(s, ';');
    push_opt_range(s, &p.thresholds.thresholds.warn);
    push_char(s, ';');
    push_opt_range(s, &p.thresholds.thresholds.crit);
    push_char(s, ';');
    push_opt_fixed(s, &p.min);
    push_char(s, ';');
    push_opt_fixed(s, &p.max);
    proof {
        assert(s@ =~= s0 + perf_field(*p));
    }
}

impl Check {
    /// An empty check: severity ok, no messages, no performance data.
    pub fn new() -> (r: Check)
        ensures
            r@ == CheckView::empty(),
    {
        let r = Check {
            state: State::Okay,
            perfdata: Vec::new(),
            ok_alerts: Vec::new(),
            warning_alerts: Vec::new(),
            critical_alerts: Vec::new(),
            history: Ghost(Seq::empty()),
        };
        proof {
            assert(r@.ok =~= Seq::<Seq<char>>::empty());
            assert(r@.warning =~= Seq::<Seq<char>>::empty());
            assert(r@.critical =~= Seq::<Seq<char>>::empty());
        }
        r
    }

    /// Adds the alert `alert` of a condition whose record is `perfdata`: the
    /// record's severity joins the worst so far, the message goes to the group
    /// of that severity, and the record is kept where its label is not empty.
    pub fn add(&mut self, alert: String, perfdata: Perfdata)
        ensures
            final(self)@ == old(self)@.added(alert@, perfdata),
    {
        let ghost before = self@;
        let my_state = if threshold_alert(perfdata.value, &perfdata.thresholds.thresholds.crit) {
            State::Critical
        } else if threshold_alert(perfdata.value, &perfdata.thresholds.thresholds.warn) {
            State::Warning
        } else {
            State::Okay
        };
        if my_state.code() > self.state.code() {
            self.state = my_state;
        }
        self.history = Ghost(self.history@.push(my_state));
        match my_state {
            State::Okay => self.ok_alerts.push(alert),
            State::Warning => self.warning_alerts.push(alert),
            State::Critical => self.critical_alerts.push(alert),
        }
        if !perfdata.thresholds.label.as_str().is_empty() {
            self.perfdata.push(perfdata);
        }
        proof {
            let after = before.added(alert@, perfdata);
            assert(self@.ok =~= after.ok);
            assert(self@.warning =~= after.warning);
            assert(self@.critical =~= after.critical);
            assert(self@.perfdata =~= after.perfdata);
        }
    }

    /// The worst severity added so far.
    pub fn state(&self) -> (r: State)
        ensures
            r == self@.state,
    {
        self.state
    }

    fn bucket_of(&self, s: State) -> (r: &Vec<String>)
        ensures
            texts(r@) == self@.bucket(s),
    {
        match s {
            State::Okay => &self.ok_alerts,
            State::Warning => &self.warning_alerts,
            State::Critical => &self.critical_alerts,
        }
    }

    /// The report: one line per message of the worst severity, each started
    /// by that severity's marker, then the performance-data line where there
    /// is any record.
    pub fn report(&self) -> (r: String)
        ensures
            r@ == report_text(self@),
    {
        let mut s = String::new();
        push_messages(&mut s, self.state.marker_str(), self.bucket_of(self.state));
        if self.perfdata.len() > 0 {
            let ghost s1 = s@;
            push_char(&mut s, ' ');
            push_char(&mut s, '|');
            let mut i: usize = 0;
            while i < self.perfdata.len()
                invariant
                    i <= self.perfdata@.len(),
                    s@ == s1 + seq![' ', '|'] + perf_fields(self.perfdata@.take(i as int)),
                decreases self.perfdata@.len() - i,
            {
                push_perf_field(&mut s, &self.perfdata[i]);
                proof {
                    let ps = self.perfdata@.take(i as int + 1);
                    assert(ps.drop_last() =~= self.perfdata@.take(i as int));
                    assert(s@ =~= s1 + seq![' ', '|'] + perf_fields(ps));
                }
                i = i + 1;
            }
            push_char(&mut s, '\n');
            proof {
                assert(self.perfdata@.take(i as int) =~= self.perfdata@);
                assert(s@ =~= report_text(self@));
            }
        } else {
            proof {
                assert(s@ =~= report_text(self@));
            }
        }
        s
    }
}

/// The worst of a sequence of severities is at least each of them, and is one
/// of them (`Okay` for none).
pub proof fn lemma_worst_of_is_max(states: Seq<State>)
    ensures
        forall|i: int| 0 <= i < states.len() ==> states[i].rank() <= worst_of(states).rank(),
        worst_of(states) == State::Okay || states.contains(worst_of(states)),
    decreases states.len(),
{
    if states.len() > 0 {
        let init = states.drop_last();
        lemma_worst_of_is_max(init);
        assert forall|i: int| 0 <= i < states.len() implies states[i].rank() <= worst_of(
            states,
        ).rank() by {
            if i < states.len() - 1 {
                assert(states[i] == init[i]);
            }
        }
        if worst_of(states) != State::Okay {
            if worst_of(states) == states.last() {
                assert(states[states.len() - 1] == states.last());
            } else {
                let j = choose|j: int| 0 <= j < init.len() && init[j] == worst_of(init);
                assert(states[j] == init[j]);
            }
        }
    }
}

/// After any sequence of adds, the check's severity is the worst of the
/// severities of the added records: at least each of them, and one of them
/// (`Okay` when nothing was added).
pub proof fn lemma_worst_after_adds(adds: Seq<(Seq<char>, Perfdata)>)
    ensures
        after_adds(adds).state == worst_of(severities(adds)),
        after_adds(adds).history == severities(adds),
        forall|i: int|
            0 <= i < adds.len() ==> severities(adds)[i].rank() <= after_adds(adds).state.rank(),
        after_adds(adds).state == State::Okay || severities(adds).contains(after_adds(adds).state),
    decreases adds.len(),
{
    if adds.len() > 0 {
        lemma_worst_after_adds(adds.drop_last());
        assert(severities(adds).drop_last() =~= severities(adds.drop_last()));
        assert(severities(adds) =~= severities(adds.drop_last()).push(severities(adds).last()));
    }
    lemma_worst_of_is_max(severities(adds));
}

/// The check's severity after a sequence of adds does not depend on their order.
pub proof fn lemma_worst_order_free(a: Seq<(Seq<char>, Perfdata)>, b: Seq<(Seq<char>, Perfdata)>)
    requires
        a.to_multiset() == b.to_multiset(),
    ensures
        after_adds(a).state == after_adds(b).state,
{
    broadcast use vstd::seq_lib::to_multiset_contains;

    lemma_worst_after_adds(a);
    lemma_worst_after_adds(b);
    let wa = after_adds(a).state;
    let wb = after_adds(b).state;
    if wa != State::Okay {
        let i = choose|i: int| 0 <= i < a.len() && severities(a)[i] == wa;
        assert(a.to_multiset().count(a[i]) > 0);
        assert(b.contains(a[i]));
        let j = choose|j: int| 0 <= j < b.len() && b[j] == a[i];
        assert(severities(b)[j] == wa);
    }
    if wb != State::Okay {
        let j = choose|j: int| 0 <= j < b.len() && severities(b)[j] == wb;
        assert(b.to_multiset().count(b[j]) > 0);
        assert(a.contains(b[j]));
        let i = choose|i: int| 0 <= i < a.len() && a[i] == b[j];
        assert(severities(a)[i] == wb);
    }
}

/// A record with an empty label never reaches the performance data, whatever
/// its severity.
pub proof fn lemma_unlabelled_not_reported(v: CheckView, message: Seq<char>, p: Perfdata)
    requires
        p.thresholds.label@.len() == 0,
    ensures
        v.added(message, p).perfdata == v.perfdata,
        perf_section(v.added(message, p).perfdata) == perf_section(v.perfdata),
{
}

/// Without records the performance-data line is empty, separator included;
/// with records it is one separator, then one field group per record in the
/// order they were added, and adding a labelled record appends its group last.
pub proof fn lemma_perf_section_shape(v: CheckView, message: Seq<char>, p: Perfdata)
    ensures
        perf_section(CheckView::empty().perfdata) == Seq::<char>::empty(),
        v.perfdata.len() == 0 ==> perf_section(v.perfdata) == Seq::<char>::empty(),
        v.perfdata.len() > 0 ==> perf_section(v.perfdata) == seq![' ', '|'] + perf_fields(
            v.perfdata,
        ) + seq!['\n'],
        p.thresholds.label@.len() > 0 ==> perf_section(v.added(message, p).perfdata) == seq![
            ' ',
            '|',
        ] + perf_fields(v.perfdata) + perf_field(p) + seq!['\n'],
{
    if p.thresholds.label@.len() > 0 {
        assert(v.perfdata.push(p).drop_last() =~= v.perfdata);
    }
}

} // verus!
