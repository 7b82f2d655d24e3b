//! How a camera pair captures, and what is said of it.

use vstd::prelude::*;

use crate::console::{fail_with, failed, Console, Outcome, OutcomeV, SayV};
use crate::report::State;
use crate::text::{cat2, cat3, cat4, cat5, opt_text, owned, same};

verus! {

#[derive(Clone, Copy, Debug, PartialEq, Eq, Structural)]
pub enum CaptureMode {
    Concurrent,
    Sequential,
}

/// The mode under its word.
pub open spec fn mode_named(word: Seq<char>) -> Option<CaptureMode> {
    if word == "concurrent"@ {
        Some(CaptureMode::Concurrent)
    } else if word == "sequential"@ {
        Some(CaptureMode::Sequential)
    } else {
        None
    }
}

pub fn parse_mode(word: &str) -> (r: Option<CaptureMode>)
    ensures
        r == mode_named(word@),
{
    if same(word, "concurrent") {
        Some(CaptureMode::Concurrent)
    } else if same(word, "sequential") {
        Some(CaptureMode::Sequential)
    } else {
        None
    }
}

/// What was observed of a pair's capture mode.
pub enum CaptureModeReport {
    Unreadable(String),
    Measured(CaptureMode, Option<String>),
    Unmeasured,
    NoIrPair,
    Inconclusive(String),
    Overridden(bool),
    RuntimeDegraded(String),
}

pub enum CaptureV {
    Unreadable(Seq<char>),
    Measured(CaptureMode, Option<Seq<char>>),
    Unmeasured,
    NoIrPair,
    Inconclusive(Seq<char>),
    Overridden(bool),
    RuntimeDegraded(Seq<char>),
}

impl View for CaptureModeReport {
    type V = CaptureV;

    open spec fn view(&self) -> CaptureV {
        match *self {
            CaptureModeReport::Unreadable(s) => CaptureV::Unreadable(s@),
            CaptureModeReport::Measured(m, reason) => CaptureV::Measured(m, opt_text(reason)),
            CaptureModeReport::Unmeasured => CaptureV::Unmeasured,
            CaptureModeReport::NoIrPair => CaptureV::NoIrPair,
            CaptureModeReport::Inconclusive(s) => CaptureV::Inconclusive(s@),
            CaptureModeReport::Overridden(b) => CaptureV::Overridden(b),
            CaptureModeReport::RuntimeDegraded(s) => CaptureV::RuntimeDegraded(s@),
        }
    }
}

pub open spec fn or_unspecified(o: Option<Seq<char>>) -> Seq<char> {
    match o {
        Some(s) => s,
        None => "unspecified"@,
    }
}

/// What is said of an observation. A capture mode is a strategy, never a fault.
pub open spec fn capture_line(r: CaptureV) -> (State, Seq<char>) {
    match r {
        CaptureV::Unreadable(why) => (
            State::Unknown,
            "the daemon could not resolve v2 capture status ("@ + why
                + "); authentication stays on the safe sequential fallback"@,
        ),
        CaptureV::Overridden(sequential) => (
            State::Info,
            (if sequential {
                "sequential"@
            } else {
                "concurrent"@
            })
                + ", forced by IRLUME_SEQUENTIAL_CAPTURE in the daemon environment, which outranks durable qualification authority"@,
        ),
        CaptureV::Measured(CaptureMode::Sequential, reason) => (
            State::Info,
            "sequential, measured for this camera pair (RGB then IR, one after the other: 0.7s to 1.3s more per capture on the modules measured for #340, and the reliable choice on a camera that dims when both sensors stream at once); reason: "@
                + or_unspecified(reason),
        ),
        CaptureV::Measured(CaptureMode::Concurrent, _) => (
            State::Info,
            "concurrent, measured for this camera pair (RGB and IR captured together, the faster path)"@,
        ),
        CaptureV::Unmeasured => (
            State::Info,
            "not measured for this camera pair; using the safe sequential default. Run `sudo irlume camera-tune` to measure whether this camera can capture RGB and IR concurrently"@,
        ),
        CaptureV::NoIrPair => (
            State::Info,
            "RGB-only capture: no IR endpoint is available, so RGB+IR capture-mode qualification does not apply on this host"@,
        ),
        CaptureV::Inconclusive(reason) => (
            State::Info,
            "the last RGB+IR capture-mode measurement was inconclusive ("@ + reason
                + "); using the safe sequential default. Run `sudo irlume camera-tune` under stable, lit conditions to measure again"@,
        ),
        CaptureV::RuntimeDegraded(reason) => (
            State::Info,
            "sequential for this daemon generation after a live concurrent-pair failure ("@ + reason
                + "); both streams and camera handles were dropped before the sequential retry. Run `sudo irlume camera-tune` to publish fresh controlled evidence"@,
        ),
    }
}

pub fn capture_mode_report_line(report: &CaptureModeReport) -> (r: (State, String))
    ensures
        (r.0, r.1@) == capture_line(report@),
{
    match report {
        CaptureModeReport::Unreadable(why) => (
            State::Unknown,
            cat3(
                "the daemon could not resolve v2 capture status (",
                why.as_str(),
                "); authentication stays on the safe sequential fallback",
            ),
        ),
        CaptureModeReport::Overridden(sequential) => (
            State::Info,
            cat2(
                if *sequential {
                    "sequential"
                } else {
                    "concurrent"
                },
                ", forced by IRLUME_SEQUENTIAL_CAPTURE in the daemon environment, which outranks durable qualification authority",
            ),
        ),
        CaptureModeReport::Measured(mode, reason) => {
            match mode {
                CaptureMode::Sequential => {
                    let reason = match reason {
                        Some(s) => s.as_str(),
                        None => "unspecified",
                    };
                    (
                        State::Info,
                        cat2(
                            "sequential, measured for this camera pair (RGB then IR, one after the other: 0.7s to 1.3s more per capture on the modules measured for #340, and the reliable choice on a camera that dims when both sensors stream at once); reason: ",
                            reason,
                        ),
                    )
                },
                CaptureMode::Concurrent => (
                    State::Info,
                    owned(
                        "concurrent, measured for this camera pair (RGB and IR captured together, the faster path)",
                    ),
                ),
            }
        },
        CaptureModeReport::Unmeasured => (
            State::Info,
            owned(
                "not measured for this camera pair; using the safe sequential default. Run `sudo irlume camera-tune` to measure whether this camera can capture RGB and IR concurrently",
            ),
        ),
        CaptureModeReport::NoIrPair => (
            State::Info,
            owned(
                "RGB-only capture: no IR endpoint is available, so RGB+IR capture-mode qualification does not apply on this host",
            ),
        ),
        CaptureModeReport::Inconclusive(reason) => (
            State::Info,
            cat3(
                "the last RGB+IR capture-mode measurement was inconclusive (",
                reason.as_str(),
                "); using the safe sequential default. Run `sudo irlume camera-tune` under stable, lit conditions to measure again",
            ),
        ),
        CaptureModeReport::RuntimeDegraded(reason) => (
            State::Info,
            cat3(
                "sequential for this daemon generation after a live concurrent-pair failure (",
                reason.as_str(),
                "); both streams and camera handles were dropped before the sequential retry. Run `sudo irlume camera-tune` to publish fresh controlled evidence",
            ),
        ),
    }
}

/// A capture mode is never reported as a warning or a failure.
pub proof fn a_capture_mode_is_never_a_fault(r: CaptureV)
    ensures
        capture_line(r).0 == State::Info || capture_line(r).0 == State::Unknown,
        capture_line(r).0 == State::Unknown <==> r is Unreadable,
{
}

/// What a status of the daemon means. The environment decides alone, then what
/// went wrong live, then what was measured.
pub open spec fn capture_meaning(
    mode: Seq<char>,
    source: Seq<char>,
    state: Seq<char>,
    reason: Option<Seq<char>>,
    degradation: Option<Seq<char>>,
) -> CaptureV {
    if source == "IRLUME_SEQUENTIAL_CAPTURE"@ && mode_named(mode) is Some {
        CaptureV::Overridden(mode_named(mode) == Some(CaptureMode::Sequential))
    } else if source == "runtime-health"@ {
        CaptureV::RuntimeDegraded(or_unspecified(degradation))
    } else if (state == "qualified_concurrent"@ || state == "measured_sequential"@) && mode_named(
        mode,
    ) is Some {
        CaptureV::Measured(mode_named(mode)->0, reason)
    } else if state == "unqualified_no_authority"@ {
        CaptureV::Unmeasured
    } else if state == "no_ir_pair"@ {
        CaptureV::NoIrPair
    } else if state == "inconclusive"@ {
        CaptureV::Inconclusive(or_unspecified(reason))
    } else if state == "unqualified_context_changed"@ || state == "unreadable"@ {
        CaptureV::Unreadable(
            match reason {
                Some(s) => s,
                None => state,
            },
        )
    } else {
        CaptureV::Unreadable("invalid daemon response"@)
    }
}

pub fn capture_mode_report_from_status(
    mode: &str,
    source: &str,
    qualification_state: &str,
    qualification_reason: Option<String>,
    runtime_degradation: Option<String>,
) -> (r: CaptureModeReport)
    ensures
        r@ == capture_meaning(
            mode@,
            source@,
            qualification_state@,
            opt_text(qualification_reason),
            opt_text(runtime_degradation),
        ),
{
    let parsed = parse_mode(mode);
    match parsed {
        Some(mode) => {
            if same(source, "IRLUME_SEQUENTIAL_CAPTURE") {
                return CaptureModeReport::Overridden(mode == CaptureMode::Sequential);
            }
        },
        None => {},
    }
    if same(source, "runtime-health") {
        return CaptureModeReport::RuntimeDegraded(
            match runtime_degradation {
                Some(s) => s,
                None => owned("unspecified"),
            },
        );
    }
    match parsed {
        Some(mode) => {
            if same(qualification_state, "qualified_concurrent") || same(
                qualification_state,
                "measured_sequential",
            ) {
                return CaptureModeReport::Measured(mode, qualification_reason);
            }
        },
        None => {},
    }
    if same(qualification_state, "unqualified_no_authority") {
        return CaptureModeReport::Unmeasured;
    }
    if same(qualification_state, "no_ir_pair") {
        return CaptureModeReport::NoIrPair;
    }
    if same(qualification_state, "inconclusive") {
        return CaptureModeReport::Inconclusive(
            match qualification_reason {
                Some(s) => s,
                None => owned("unspecified"),
            },
        );
    }
    if same(qualification_state, "unqualified_context_changed") || same(
        qualification_state,
        "unreadable",
    ) {
        return CaptureModeReport::Unreadable(
            match qualification_reason {
                Some(s) => s,
                None => owned(qualification_state),
            },
        );
    }
    CaptureModeReport::Unreadable(owned("invalid daemon response"))
}

/// What the daemon says of the pair it captures with.
pub struct CaptureStatus {
    pub mode: String,
    pub source: String,
    pub rgb: String,
    pub ir: Option<String>,
    pub runtime_context: Option<String>,
    pub qualification_state: String,
    pub qualification_reason: Option<String>,
    pub qualification_context: Option<String>,
    pub runtime_degradation: Option<String>,
}

/// The answer to `camera-mode`.
pub enum CaptureAnswer {
    Status(CaptureStatus),
    Refused(String),
    Unexpected(String),
}

/// A line for a value that may be missing.
pub open spec fn when_known(says: Seq<SayV>, label: Seq<char>, o: Option<String>) -> Seq<SayV> {
    match o {
        Some(s) => says.push(SayV::Out(label + s@)),
        None => says,
    }
}

pub open spec fn capture_says(s: CaptureStatus) -> Seq<SayV> {
    let ir = match s.ir {
        Some(ir) => ir@,
        None => "unavailable"@,
    };
    let head = Seq::<SayV>::empty().push(
        SayV::Out("camera pair: rgb="@ + s.rgb@ + " ir="@ + ir),
    ).push(
        SayV::Out("capture mode: "@ + s.mode@ + " (daemon source: "@ + s.source@ + ")"@),
    ).push(SayV::Out("qualification: "@ + s.qualification_state@));
    let a = when_known(head, "qualification reason: "@, s.qualification_reason);
    let b = when_known(a, "runtime degradation: "@, s.runtime_degradation);
    let c = when_known(b, "runtime context: "@, s.runtime_context);
    when_known(c, "exact qualification context: "@, s.qualification_context)
}

pub open spec fn capture_outcome(a: CaptureAnswer) -> OutcomeV {
    match a {
        CaptureAnswer::Status(s) => OutcomeV { says: capture_says(s), exit: 0 },
        CaptureAnswer::Refused(e) => failed("[camera-mode] "@ + e@, 1),
        CaptureAnswer::Unexpected(other) => failed(
            "[camera-mode] unexpected response "@ + other@,
            1,
        ),
    }
}

fn say_known(c: &mut Console, label: &str, o: &Option<String>)
    ensures
        final(c)@ == when_known(old(c)@, label@, *o),
{
    match o {
        Some(s) => {
            c.out(cat2(label, s.as_str()));
        },
        None => {},
    }
}

/// What `camera-mode` prints.
pub fn camera_mode(a: &CaptureAnswer) -> (r: Outcome)
    ensures
        r@ == capture_outcome(*a),
{
    match a {
        CaptureAnswer::Status(s) => {
            let mut c = Console::new();
            let ir = match &s.ir {
                Some(ir) => ir.as_str(),
                None => "unavailable",
            };
            c.out(cat4("camera pair: rgb=", s.rgb.as_str(), " ir=", ir));
            c.out(
                cat5(
                    "capture mode: ",
                    s.mode.as_str(),
                    " (daemon source: ",
                    s.source.as_str(),
                    ")",
                ),
            );
            c.out(cat2("qualification: ", s.qualification_state.as_str()));
            say_known(&mut c, "qualification reason: ", &s.qualification_reason);
            say_known(&mut c, "runtime degradation: ", &s.runtime_degradation);
            say_known(&mut c, "runtime context: ", &s.runtime_context);
            say_known(&mut c, "exact qualification context: ", &s.qualification_context);
            Outcome { console: c, exit: 0 }
        },
        CaptureAnswer::Refused(e) => fail_with(cat2("[camera-mode] ", e.as_str()), 1),
        CaptureAnswer::Unexpected(other) => fail_with(
            cat2("[camera-mode] unexpected response ", other.as_str()),
            1,
        ),
    }
}

/// Each mode has its own word, and no other word names one.
pub proof fn each_mode_has_its_word(word: Seq<char>)
    ensures
        mode_named(word) == Some(CaptureMode::Concurrent) <==> word == "concurrent"@,
        mode_named(word) == Some(CaptureMode::Sequential) <==> word == "sequential"@,
{
    reveal_strlit("concurrent");
    reveal_strlit("sequential");
    assert("concurrent"@[0] == 'c' && "sequential"@[0] == 's');
}

/// Which strategy a report names: sequential where that was forced, measured or
/// fallen back to, concurrent where that was forced or measured.
pub proof fn a_report_names_the_strategy(r: CaptureV)
    ensures
        "sequential"@.is_prefix_of(capture_line(r).1) <==> (r == CaptureV::Overridden(true)
            || r is RuntimeDegraded || (r matches CaptureV::Measured(m, _) && m
            == CaptureMode::Sequential)),
        "concurrent"@.is_prefix_of(capture_line(r).1) <==> (r == CaptureV::Overridden(false) || (
        r matches CaptureV::Measured(m, _) && m == CaptureMode::Concurrent)),
{
    let t = capture_line(r).1;
    let s = "sequential"@;
    let c = "concurrent"@;
    reveal_strlit("sequential");
    reveal_strlit("concurrent");
    reveal_strlit("the daemon could not resolve v2 capture status (");
    reveal_strlit(
        "sequential, measured for this camera pair (RGB then IR, one after the other: 0.7s to 1.3s more per capture on the modules measured for #340, and the reliable choice on a camera that dims when both sensors stream at once); reason: ",
    );
    reveal_strlit(
        "concurrent, measured for this camera pair (RGB and IR captured together, the faster path)",
    );
    reveal_strlit(
        "not measured for this camera pair; using the safe sequential default. Run `sudo irlume camera-tune` to measure whether this camera can capture RGB and IR concurrently",
    );
    reveal_strlit(
        "RGB-only capture: no IR endpoint is available, so RGB+IR capture-mode qualification does not apply on this host",
    );
    reveal_strlit("the last RGB+IR capture-mode measurement was inconclusive (");
    reveal_strlit(
        "sequential for this daemon generation after a live concurrent-pair failure (",
    );
    assert(s[0] == 's' && c[0] == 'c' && s.len() == 10 && c.len() == 10);
    if s.is_prefix_of(t) {
        assert(t.subrange(0, 10)[0] == 's');
    }
    if c.is_prefix_of(t) {
        assert(t.subrange(0, 10)[0] == 'c');
    }
    match r {
        CaptureV::Overridden(b) => {
            if b {
                assert(t.subrange(0, 10) =~= s);
            } else {
                assert(t.subrange(0, 10) =~= c);
            }
        },
        CaptureV::Measured(CaptureMode::Sequential, _) => {
            assert(t.subrange(0, 10) =~= s);
        },
        CaptureV::Measured(CaptureMode::Concurrent, _) => {
            assert(t.subrange(0, 10) =~= c);
        },
        CaptureV::RuntimeDegraded(_) => {
            assert(t.subrange(0, 10) =~= s);
        },
        _ => {},
    }
}

/// What a status means: the environment's word outranks what went wrong live, that
/// outranks every qualification, and a mode is called measured only where the daemon
/// says that it is qualified and names it.
pub proof fn the_environment_outranks_every_measurement(
    mode: Seq<char>,
    source: Seq<char>,
    state: Seq<char>,
    reason: Option<Seq<char>>,
    degradation: Option<Seq<char>>,
)
    ensures
        ({
            let r = capture_meaning(mode, source, state, reason, degradation);
            let named = mode == "concurrent"@ || mode == "sequential"@;
            let forced = source == "IRLUME_SEQUENTIAL_CAPTURE"@ && named;
            let degraded = !forced && source == "runtime-health"@;
            &&& r is Overridden <==> forced
            &&& r == CaptureV::Overridden(true) <==> forced && mode == "sequential"@
            &&& r is RuntimeDegraded <==> degraded
            &&& r is Measured <==> !forced && !degraded && named && (state
                == "qualified_concurrent"@ || state == "measured_sequential"@)
            &&& r matches CaptureV::Measured(m, why) ==> why == reason && (m
                == CaptureMode::Sequential <==> mode == "sequential"@)
            &&& r is NoIrPair <==> !forced && !degraded && state == "no_ir_pair"@
            &&& r is Unmeasured <==> !forced && !degraded && state == "unqualified_no_authority"@
            &&& r is Inconclusive <==> !forced && !degraded && state == "inconclusive"@
        }),
{
    each_mode_has_its_word(mode);
    reveal_strlit("IRLUME_SEQUENTIAL_CAPTURE");
    reveal_strlit("runtime-health");
    reveal_strlit("qualified_concurrent");
    reveal_strlit("measured_sequential");
    reveal_strlit("unqualified_no_authority");
    reveal_strlit("no_ir_pair");
    reveal_strlit("inconclusive");
    assert("IRLUME_SEQUENTIAL_CAPTURE"@.len() == 25 && "runtime-health"@.len() == 14);
    assert("qualified_concurrent"@.len() == 20 && "measured_sequential"@.len() == 19);
    assert("unqualified_no_authority"@.len() == 24 && "no_ir_pair"@.len() == 10);
    assert("inconclusive"@.len() == 12);
}

/// A status is shown with a line for each value that is known and none for one that
/// is not; only a status is a success.
pub proof fn a_status_shows_what_is_known(a: CaptureAnswer)
    ensures
        capture_outcome(a).exit == 0 <==> a is Status,
        capture_outcome(a).exit == 1 <==> !(a is Status),
        a matches CaptureAnswer::Status(s) ==> capture_outcome(a).says.len() == 3 + (
        if s.qualification_reason is Some {
            1int
        } else {
            0
        }) + (if s.runtime_degradation is Some {
            1int
        } else {
            0
        }) + (if s.runtime_context is Some {
            1int
        } else {
            0
        }) + (if s.qualification_context is Some {
            1int
        } else {
            0
        }),
{
}

/// What the daemon could not read is reported with its reason, or with its state
/// where it gives none; what it should never say is called invalid.
pub proof fn an_unreadable_status_keeps_its_reason(
    mode: Seq<char>,
    source: Seq<char>,
    state: Seq<char>,
    reason: Seq<char>,
    degradation: Option<Seq<char>>,
)
    requires
        source != "IRLUME_SEQUENTIAL_CAPTURE"@,
        source != "runtime-health"@,
        state == "unqualified_context_changed"@ || state == "unreadable"@,
    ensures
        capture_meaning(mode, source, state, Some(reason), degradation) == CaptureV::Unreadable(
            reason,
        ),
        capture_meaning(mode, source, state, None, degradation) == CaptureV::Unreadable(state),
{
    reveal_strlit("qualified_concurrent");
    reveal_strlit("measured_sequential");
    reveal_strlit("unqualified_no_authority");
    reveal_strlit("no_ir_pair");
    reveal_strlit("inconclusive");
    reveal_strlit("unqualified_context_changed");
    reveal_strlit("unreadable");
    assert("qualified_concurrent"@.len() == 20 && "measured_sequential"@.len() == 19);
    assert("unqualified_no_authority"@.len() == 24 && "inconclusive"@.len() == 12);
    assert("no_ir_pair"@.len() == 10 && "no_ir_pair"@[0] == 'n');
    assert("unreadable"@.len() == 10 && "unreadable"@[0] == 'u');
    assert("unqualified_context_changed"@.len() == 27);
}

} // verus!
