//! A health report: the lines a person reads and the checks a program reads.

use vstd::prelude::*;

use crate::text::{owned, texts};

verus! {

/// How a check came out.
#[derive(Clone, Copy, Debug, PartialEq, Eq, Structural)]
pub enum State {
    Pass,
    /// Worth knowing; nothing is wrong.
    Info,
    Warn,
    Fail,
    /// Nobody could look.
    Unknown,
}

/// One check under its stable id.
pub struct Check {
    pub id: String,
    pub state: State,
    pub detail: Option<String>,
}

#[verifier::ext_equal]
pub struct CheckV {
    pub id: Seq<char>,
    pub state: State,
    pub detail: Option<Seq<char>>,
}

impl View for Check {
    type V = CheckV;

    open spec fn view(&self) -> CheckV {
        CheckV { id: self.id@, state: self.state, detail: crate::text::opt_text(self.detail) }
    }
}

pub open spec fn check_views(v: Seq<Check>) -> Seq<CheckV> {
    v.map_values(|c: Check| c@)
}

/// What a pass over the machine found.
pub struct Report {
    pub lines: Vec<String>,
    pub checks: Vec<Check>,
}

#[verifier::ext_equal]
pub struct ReportV {
    pub lines: Seq<Seq<char>>,
    pub checks: Seq<CheckV>,
}

impl View for Report {
    type V = ReportV;

    open spec fn view(&self) -> ReportV {
        ReportV { lines: texts(self.lines@), checks: check_views(self.checks@) }
    }
}

impl ReportV {
    pub open spec fn empty() -> ReportV {
        ReportV { lines: Seq::empty(), checks: Seq::empty() }
    }

    /// One more line.
    pub open spec fn line(self, s: Seq<char>) -> ReportV {
        ReportV { lines: self.lines.push(s), checks: self.checks }
    }

    pub open spec fn all_lines(self, more: Seq<Seq<char>>) -> ReportV {
        ReportV { lines: self.lines + more, checks: self.checks }
    }

    /// One more check, without detail.
    pub open spec fn check(self, id: Seq<char>, state: State) -> ReportV {
        ReportV { lines: self.lines, checks: self.checks.push(CheckV { id, state, detail: None }) }
    }

    /// One more check, with its detail.
    pub open spec fn check_detail(self, id: Seq<char>, state: State, detail: Seq<char>) -> ReportV {
        ReportV {
            lines: self.lines,
            checks: self.checks.push(CheckV { id, state, detail: Some(detail) }),
        }
    }

    /// All of another report behind this one.
    pub open spec fn append(self, more: ReportV) -> ReportV {
        ReportV { lines: self.lines + more.lines, checks: self.checks + more.checks }
    }

    /// The ids of the checks, in order.
    pub open spec fn ids(self) -> Seq<Seq<char>> {
        self.checks.map_values(|c: CheckV| c.id)
    }
}

impl Report {
    pub fn new() -> (r: Report)
        ensures
            r@ == ReportV::empty(),
    {
        let r = Report { lines: Vec::new(), checks: Vec::new() };
        proof {
            assert(r@ =~= ReportV::empty());
        }
        r
    }

    pub fn line(&mut self, s: String)
        ensures
            final(self)@ == old(self)@.line(s@),
    {
        self.lines.push(s);
        proof {
            assert(self@ =~= old(self)@.line(s@));
        }
    }

    pub fn all_lines(&mut self, more: &Vec<String>)
        ensures
            final(self)@ == old(self)@.all_lines(texts(more@)),
    {
        let ghost before = self@;
        let mut i: usize = 0;
        proof {
            assert(before.all_lines(texts(more@).take(0)) =~= before);
        }
        while i < more.len()
            invariant
                i <= more@.len(),
                self@ == before.all_lines(texts(more@).take(i as int)),
            decreases more@.len() - i,
        {
            self.line(owned(more[i].as_str()));
            proof {
                assert(self@ =~= before.all_lines(texts(more@).take(i + 1)));
            }
            i = i + 1;
        }
        proof {
            assert(texts(more@).take(more@.len() as int) =~= texts(more@));
        }
    }

    pub fn check(&mut self, id: &str, state: State)
        ensures
            final(self)@ == old(self)@.check(id@, state),
    {
        self.checks.push(Check { id: owned(id), state, detail: None });
        proof {
            assert(self@ =~= old(self)@.check(id@, state));
        }
    }

    pub fn check_detail(&mut self, id: &str, state: State, detail: String)
        ensures
            final(self)@ == old(self)@.check_detail(id@, state, detail@),
    {
        self.checks.push(Check { id: owned(id), state, detail: Some(detail) });
        proof {
            assert(self@ =~= old(self)@.check_detail(id@, state, detail@));
        }
    }

    pub fn append(&mut self, more: Report)
        ensures
            final(self)@ == old(self)@.append(more@),
    {
        let ghost lines = more.lines@;
        let ghost checks = more.checks@;
        let mut more_lines = more.lines;
        let mut more_checks = more.checks;
        self.lines.append(&mut more_lines);
        self.checks.append(&mut more_checks);
        proof {
            assert(self@ =~= old(self)@.append(ReportV {
                lines: texts(lines),
                checks: check_views(checks),
            }));
        }
    }

    /// How many checks warn and how many fail.
    pub fn summary(&self) -> (r: Summary)
        ensures
            r.warnings == count_state(self@.checks, State::Warn),
            r.failures == count_state(self@.checks, State::Fail),
    {
        let mut warnings: usize = 0;
        let mut failures: usize = 0;
        let mut i: usize = 0;
        let n: usize = self.checks.len();
        proof {
            assert(self@.checks.take(0) =~= Seq::<CheckV>::empty());
        }
        while i < n
            invariant
                i <= n,
                n == self.checks@.len(),
                warnings <= i,
                failures <= i,
                warnings == count_state(self@.checks.take(i as int), State::Warn),
                failures == count_state(self@.checks.take(i as int), State::Fail),
            decreases n - i,
        {
            proof {
                assert(self@.checks.take(i + 1).drop_last() =~= self@.checks.take(i as int));
                assert(self@.checks.take(i + 1).last() == self.checks@[i as int]@);
            }
            if self.checks[i].state == State::Warn {
                warnings = warnings + 1;
            }
            if self.checks[i].state == State::Fail {
                failures = failures + 1;
            }
            i = i + 1;
        }
        proof {
            assert(self@.checks.take(n as int) =~= self@.checks);
        }
        Summary { warnings, failures }
    }
}

/// How many checks are in a state.
pub open spec fn count_state(checks: Seq<CheckV>, state: State) -> nat
    decreases checks.len(),
{
    if checks.len() == 0 {
        0
    } else {
        count_state(checks.drop_last(), state) + if checks.last().state == state {
            1nat
        } else {
            0nat
        }
    }
}

#[derive(Clone, Copy, Debug, PartialEq, Eq, Structural)]
pub struct Summary {
    pub warnings: usize,
    pub failures: usize,
}

/// The verdict of a report for scripts: failures outrank warnings.
pub open spec fn verdict(s: Summary) -> u8 {
    if s.failures > 0 {
        2
    } else if s.warnings > 0 {
        1
    } else {
        0
    }
}

impl Summary {
    pub fn check_exit_code(&self) -> (r: u8)
        ensures
            r == verdict(*self),
    {
        if self.failures > 0 {
            2
        } else if self.warnings > 0 {
            1
        } else {
            0
        }
    }
}

/// No check of the report is in that state exactly when its count is zero.
pub proof fn a_count_is_zero_without_such_a_check(checks: Seq<CheckV>, state: State)
    ensures
        count_state(checks, state) == 0 <==> forall|i: int|
            0 <= i < checks.len() ==> (#[trigger] checks[i]).state != state,
    decreases checks.len(),
{
    if checks.len() > 0 {
        a_count_is_zero_without_such_a_check(checks.drop_last(), state);
        let rest = checks.drop_last();
        if count_state(checks, state) == 0 {
            assert forall|i: int| 0 <= i < checks.len() implies (#[trigger] checks[i]).state
                != state by {
                if i < rest.len() {
                    assert(rest[i] == checks[i]);
                }
            }
        } else if checks.last().state != state {
            let k = choose|i: int| 0 <= i < rest.len() && (#[trigger] rest[i]).state == state;
            assert(checks[k] == rest[k]);
        }
    }
}

/// Each check counts once, in its own state and in no other.
pub proof fn each_check_counts_once(checks: Seq<CheckV>, c: CheckV, state: State)
    ensures
        count_state(Seq::empty(), state) == 0,
        count_state(checks.push(c), state) == count_state(checks, state) + (if c.state == state {
            1int
        } else {
            0
        }),
{
    assert(checks.push(c).drop_last() =~= checks);
}

/// One failure decides the verdict whatever else was found, one warning decides it
/// where nothing failed, and only a report with neither is clean.
pub proof fn a_failure_outranks_a_warning(s: Summary)
    ensures
        verdict(s) == 2 <==> s.failures > 0,
        verdict(s) == 1 <==> s.failures == 0 && s.warnings > 0,
        verdict(s) == 0 <==> s.failures == 0 && s.warnings == 0,
{
}

/// What is put behind a report leaves what is there as it is and adds itself.
pub proof fn a_report_only_grows(r: ReportV, more: ReportV, s: Seq<char>, id: Seq<char>, state: State)
    ensures
        r.line(s).lines == r.lines.push(s) && r.line(s).checks == r.checks,
        r.check(id, state).lines == r.lines,
        r.check(id, state).checks.len() == r.checks.len() + 1,
        r.check(id, state).checks.last() == (CheckV { id, state, detail: None }),
        r.check_detail(id, state, s).checks.last() == (CheckV { id, state, detail: Some(s) }),
        r.check_detail(id, state, s).checks.drop_last() == r.checks,
        r.append(more).lines == r.lines + more.lines,
        r.append(more).checks == r.checks + more.checks,
        r.append(ReportV::empty()) == r,
{
    assert(r.append(ReportV::empty()).lines =~= r.lines);
    assert(r.append(ReportV::empty()).checks =~= r.checks);
    assert(r.check_detail(id, state, s).checks.drop_last() =~= r.checks);
}

} // verus!
