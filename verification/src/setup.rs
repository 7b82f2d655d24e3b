//! `setup`, the guided start, and `help`.

use vstd::prelude::*;

use crate::console::{Console, Outcome, OutcomeV, SayV};
use crate::protocol::{opt_request, Request, RequestV};
use crate::status::OK;
use crate::text::{
    ascii_lower, cat2, cat3, cat4, cat6, dec, decimal, opt_slice, opt_text, owned, same,
    to_ascii_lower, trim, trimmed,
};

verus! {

/// What a typed line means for a yes-or-no question.
pub open spec fn yes(line: Option<Seq<char>>, default_yes: bool) -> bool {
    match line {
        None => default_yes,
        Some(line) => {
            let word = ascii_lower(trimmed(line));
            if word.len() == 0 {
                default_yes
            } else {
                word == "y"@ || word == "yes"@
            }
        },
    }
}

/// Reads the answer to a yes-or-no question. `None` means that nobody could be
/// asked: the documented default is taken then.
pub fn yes_no(line: Option<&str>, default_yes: bool) -> (r: bool)
    ensures
        r == yes(opt_slice(line), default_yes),
{
    match line {
        None => default_yes,
        Some(line) => {
            let word = to_ascii_lower(trim(line));
            if word.as_str().is_empty() {
                default_yes
            } else {
                same(word.as_str(), "y") || same(word.as_str(), "yes")
            }
        },
    }
}

/// The prompt of a yes-or-no question.
pub fn question(q: &str, default_yes: bool) -> (r: String)
    ensures
        r@ == q@ + choices(default_yes),
        r@ == q@ + (if default_yes {
            " [Y/n] "@
        } else {
            " [y/N] "@
        }),
{
    cat2(
        q,
        if default_yes {
            " [Y/n] "
        } else {
            " [y/N] "
        },
    )
}

/// How the first step ends: without a daemon there is nothing to set up.
pub open spec fn preflight(user: Seq<char>, up: bool) -> OutcomeV {
    let head = Seq::<SayV>::empty().push(
        SayV::Out("=== irlume setup for '"@ + user + "' ===\n"@),
    ).push(SayV::Out("[1/7] Preflight"@));
    if up {
        OutcomeV { says: head.push(SayV::Out("  daemon running "@ + OK@)), exit: 0 }
    } else {
        OutcomeV {
            says: head.push(
                SayV::Warn(
                    "  daemon not reachable; start it first: sudo systemctl enable --now irlumed"@,
                ),
            ),
            exit: 1,
        }
    }
}

pub fn setup_preflight(user: &str, up: bool) -> (r: Outcome)
    ensures
        r@ == preflight(user@, up),
{
    let mut c = Console::new();
    c.out(cat3("=== irlume setup for '", user, "' ===\n"));
    c.out(owned("[1/7] Preflight"));
    if up {
        c.out(cat2("  daemon running ", OK));
        Outcome { console: c, exit: 0 }
    } else {
        c.warn(
            owned("  daemon not reachable; start it first: sudo systemctl enable --now irlumed"),
        );
        Outcome { console: c, exit: 1 }
    }
}

/// The question of the enrollment step, with its default: starting over is never
/// the default.
pub open spec fn enrollment_question(enrolled: bool) -> (Seq<char>, bool) {
    if enrolled {
        ("  Re-enroll from scratch (wipes existing profiles)?"@, false)
    } else {
        ("  Enroll your face now?"@, true)
    }
}

pub fn enroll_question(enrolled: bool) -> (r: (&'static str, bool))
    ensures
        (r.0@, r.1) == enrollment_question(enrolled),
{
    if enrolled {
        ("  Re-enroll from scratch (wipes existing profiles)?", false)
    } else {
        ("  Enroll your face now?", true)
    }
}

/// What the enrollment step asks of the daemon.
pub open spec fn enrollment_request(user: Seq<char>, enrolled: bool, line: Option<Seq<char>>) -> Option<
    RequestV,
> {
    if yes(line, enrollment_question(enrolled).1) {
        Some(RequestV::Enroll { user, new_profile: None, scans: None, reset: enrolled })
    } else {
        None
    }
}

pub fn setup_enroll(user: &str, enrolled: bool, line: Option<&str>) -> (r: Option<Request>)
    ensures
        opt_request(r) == enrollment_request(user@, enrolled, opt_slice(line)),
{
    let (_, default_yes) = enroll_question(enrolled);
    if yes_no(line, default_yes) {
        Some(
            Request::Enroll {
                user: owned(user),
                new_profile: None,
                scans: None,
                reset: enrolled,
            },
        )
    } else {
        None
    }
}

/// An enrollment is wiped only where there is one and someone said yes: a run
/// that nobody answers wipes nothing.
pub proof fn setup_wipes_only_on_request(
    user: Seq<char>,
    enrolled: bool,
    line: Option<Seq<char>>,
)
    ensures
        enrollment_request(user, enrolled, line) matches Some(RequestV::Enroll { reset, .. })
            ==> reset == enrolled,
        enrolled && line is None ==> enrollment_request(user, enrolled, line) is None,
        enrolled && enrollment_request(user, enrolled, line) is Some ==> line is Some && {
            ||| ascii_lower(trimmed(line->0)) == "y"@
            ||| ascii_lower(trimmed(line->0)) == "yes"@
        },
{
}

/// What the daemon answered to the enrollment.
pub enum SetupEnrollAnswer {
    Enrolled { profile: String, created: bool, total: u64, ambient_lit: Option<u64> },
    /// Anything else, as text.
    Other(String),
}

pub open spec fn run_enroll_says() -> Seq<SayV> {
    Seq::<SayV>::empty().push(
        SayV::Warn("  capturing: stay in frame, look at the camera\u{2026}"@),
    ).push(
        SayV::Warn(
            "  (a camera pair with no measured capture mode is measured first: one time, up to a minute, the IR emitter fires)"@,
        ),
    )
}

/// What is printed before the capture.
pub fn run_enroll() -> (r: Console)
    ensures
        r@ == run_enroll_says(),
{
    let mut c = Console::new();
    c.warn(owned("  capturing: stay in frame, look at the camera\u{2026}"));
    c.warn(
        owned(
            "  (a camera pair with no measured capture mode is measured first: one time, up to a minute, the IR emitter fires)",
        ),
    );
    c
}

pub open spec fn setup_enrolled_says(a: SetupEnrollAnswer) -> Seq<SayV> {
    match a {
        SetupEnrollAnswer::Enrolled { profile, created, total, ambient_lit } => {
            let head = match ambient_lit {
                Some(n) if n > 0 => Seq::<SayV>::empty().push(
                    SayV::Out(
                        "  "@ + decimal(n as nat)
                            + " scan(s) were lit mainly by the room, not provably by the IR emitter; dark-room login is unverified. Check it with the lights off: irlume identify"@,
                    ),
                ),
                _ => Seq::empty(),
            };
            head.push(
                SayV::Out(
                    if created {
                        "  enrolled '"@ + profile@ + "' with "@ + decimal(total as nat)
                            + " scans "@ + OK@
                    } else {
                        "  this face is already enrolled as '"@ + profile@
                            + "'; added scans to it ("@ + decimal(total as nat) + " total) "@ + OK@
                    },
                ),
            )
        },
        SetupEnrollAnswer::Other(r) => Seq::<SayV>::empty().push(
            SayV::Warn("  enroll failed: "@ + r@),
        ),
    }
}

/// What is printed after the capture.
pub fn report_setup_enroll(a: &SetupEnrollAnswer) -> (r: Console)
    ensures
        r@ == setup_enrolled_says(*a),
{
    let mut c = Console::new();
    match a {
        SetupEnrollAnswer::Enrolled { profile, created, total, ambient_lit } => {
            match ambient_lit {
                Some(n) => {
                    if *n > 0 {
                        let count = dec(*n);
                        c.out(
                            cat3(
                                "  ",
                                count.as_str(),
                                " scan(s) were lit mainly by the room, not provably by the IR emitter; dark-room login is unverified. Check it with the lights off: irlume identify",
                            ),
                        );
                    }
                },
                None => {},
            }
            let count = dec(*total);
            if *created {
                c.out(
                    cat6(
                        "  enrolled '",
                        profile.as_str(),
                        "' with ",
                        count.as_str(),
                        " scans ",
                        OK,
                    ),
                );
            } else {
                c.out(
                    cat6(
                        "  this face is already enrolled as '",
                        profile.as_str(),
                        "'; added scans to it (",
                        count.as_str(),
                        " total) ",
                        OK,
                    ),
                );
            }
        },
        SetupEnrollAnswer::Other(r) => {
            c.warn(cat2("  enroll failed: ", r.as_str()));
        },
    }
    c
}

/// How arming the keyring ended.
pub enum SetupArm {
    Armed,
    ArmedToken,
    Failed(String),
}

pub open spec fn arm_says(a: SetupArm) -> SayV {
    match a {
        SetupArm::Armed => SayV::Out("  armed "@ + OK@),
        SetupArm::ArmedToken => SayV::Out("  armed with a keyring token "@ + OK@),
        SetupArm::Failed(e) => SayV::Warn("  arm failed: "@ + e@),
    }
}

/// What arming prints in the guided start, which goes on either way.
pub fn report_setup_arm(a: &SetupArm) -> (r: Console)
    ensures
        r@ == Seq::<SayV>::empty().push(arm_says(*a)),
{
    let mut c = Console::new();
    match a {
        SetupArm::Armed => {
            c.out(cat2("  armed ", OK));
        },
        SetupArm::ArmedToken => {
            c.out(cat2("  armed with a keyring token ", OK));
        },
        SetupArm::Failed(e) => {
            c.warn(cat2("  arm failed: ", e.as_str()));
        },
    }
    c
}

pub const RECOVERY_STEP: &'static str = "\n[5/7] Recovery passphrase (encrypts templates; backstop for TPM/firmware changes)";

/// What the last steps say.
pub open spec fn closing_says(recovery: bool, reader: Option<Seq<char>>) -> Seq<SayV> {
    let head = if recovery {
        Seq::<SayV>::empty().push(
            SayV::Out(
                "  (run `irlume recovery setup`; it prompts for a separate recovery passphrase)"@,
            ),
        )
    } else {
        Seq::empty()
    };
    head.push(SayV::Out("\n[6/7] Fingerprint (optional companion factor)"@)).push(
        SayV::Out(
            match reader {
                Some(n) => "  reader '"@ + n
                    + "' present; manage with `irlume fingerprint add` / `enable`"@,
                None => "  no fingerprint reader detected; skipping"@,
            },
        ),
    ).push(SayV::Out("\n[7/7] PAM login wiring"@)).push(
        SayV::Out(
            "  preview the changes with `irlume login enable` (dry-run), then apply with"@,
        ),
    ).push(
        SayV::Out("  `sudo irlume login enable --apply` to wire greeters + lock screen."@),
    ).push(
        SayV::Out(
            "  once wired: at the greeter/lock, leave the password empty and press Enter"@,
        ),
    ).push(
        SayV::Out("  to use your face (typing a password never starts the camera)."@),
    ).push(
        SayV::Out(
            "\n=== setup complete. Check `irlume status` any time. Troubleshoot with `irlume logs`. ==="@,
        ),
    )
}

/// What the last steps print: `recovery` says whether a passphrase is wanted.
pub fn setup_closing(recovery: bool, reader: Option<&str>) -> (r: Console)
    ensures
        r@ == closing_says(recovery, opt_slice(reader)),
{
    let mut c = Console::new();
    if recovery {
        c.out(
            owned("  (run `irlume recovery setup`; it prompts for a separate recovery passphrase)"),
        );
    }
    c.out(owned("\n[6/7] Fingerprint (optional companion factor)"));
    match reader {
        Some(n) => {
            c.out(
                cat3(
                    "  reader '",
                    n,
                    "' present; manage with `irlume fingerprint add` / `enable`",
                ),
            );
        },
        None => {
            c.out(owned("  no fingerprint reader detected; skipping"));
        },
    }
    c.out(owned("\n[7/7] PAM login wiring"));
    c.out(owned("  preview the changes with `irlume login enable` (dry-run), then apply with"));
    c.out(owned("  `sudo irlume login enable --apply` to wire greeters + lock screen."));
    c.out(owned("  once wired: at the greeter/lock, leave the password empty and press Enter"));
    c.out(owned("  to use your face (typing a password never starts the camera)."));
    c.out(
        owned(
            "\n=== setup complete. Check `irlume status` any time. Troubleshoot with `irlume logs`. ===",
        ),
    );
    c
}

// ---- the guided start, step by step ----

/// Where the guided start stands.
#[derive(Clone, Copy, Debug, PartialEq, Eq, Structural)]
pub enum SetupState {
    Start,
    /// The daemon answers; dependencies and cameras are looked at.
    Checking,
    /// Asked about the enrollment.
    AskedEnroll { enrolled: bool },
    Enrolling,
    /// Asked about the keyring.
    AskedArm,
    Arming,
    /// Asked about the recovery passphrase.
    AskedRecovery,
    /// Looking for a fingerprint reader.
    Closing { recovery: bool },
    Over { exit: u8 },
}

/// How arming went.
pub enum ArmEnd {
    /// No password was taken, and the prompt said why.
    NoPassword,
    /// The wallet's salt could not be read.
    NoSalt(String),
    Answered(SetupArm),
}

/// What happened outside.
pub enum SetupEvent {
    Daemon { up: bool },
    Found { rgb: String, ir: String, enrolled: bool },
    /// What was typed; `None` where nobody could be asked.
    Typed(Option<String>),
    Enrolled(SetupEnrollAnswer),
    Armed(ArmEnd),
    Reader(Option<String>),
}

/// What is to be done next.
pub enum SetupAction {
    /// Check the dependencies, find the cameras and ask whether the user is
    /// enrolled.
    Look,
    Ask { question: &'static str, default_yes: bool },
    Send(Request),
    Arm,
    FindReader,
    Stop,
}

pub enum SetupActionV {
    Look,
    Ask { question: Seq<char>, default_yes: bool },
    Send(RequestV),
    Arm,
    FindReader,
    Stop,
}

impl View for SetupAction {
    type V = SetupActionV;

    open spec fn view(&self) -> SetupActionV {
        match *self {
            SetupAction::Look => SetupActionV::Look,
            SetupAction::Ask { question, default_yes } => SetupActionV::Ask {
                question: question@,
                default_yes,
            },
            SetupAction::Send(q) => SetupActionV::Send(q@),
            SetupAction::Arm => SetupActionV::Arm,
            SetupAction::FindReader => SetupActionV::FindReader,
            SetupAction::Stop => SetupActionV::Stop,
        }
    }
}

pub struct SetupStep {
    pub state: SetupState,
    pub console: Console,
    pub action: SetupAction,
}

pub struct SetupStepV {
    pub state: SetupState,
    pub says: Seq<SayV>,
    pub action: SetupActionV,
}

impl View for SetupStep {
    type V = SetupStepV;

    open spec fn view(&self) -> SetupStepV {
        SetupStepV { state: self.state, says: self.console@, action: self.action@ }
    }
}

/// The event is one that the state waits for.
pub open spec fn awaits(state: SetupState, event: SetupEvent) -> bool {
    match state {
        SetupState::Start => event is Daemon,
        SetupState::Checking => event is Found,
        SetupState::AskedEnroll { .. } => event is Typed,
        SetupState::Enrolling => event is Enrolled,
        SetupState::AskedArm => event is Typed,
        SetupState::Arming => event is Armed,
        SetupState::AskedRecovery => event is Typed,
        SetupState::Closing { .. } => event is Reader,
        SetupState::Over { .. } => false,
    }
}

pub const ARM_STEP: &'static str = "\n[4/7] Keyring unlock (face login opens your wallet)";

pub const ARM_QUESTION: &'static str = "  Arm keyring unlock now (you'll enter your login password)?";

pub const RECOVERY_QUESTION: &'static str = "  Set a recovery passphrase now?";

/// Goes on to the keyring.
pub open spec fn to_arming(says: Seq<SayV>) -> SetupStepV {
    SetupStepV {
        state: SetupState::AskedArm,
        says: says.push(SayV::Out(ARM_STEP@)),
        action: SetupActionV::Ask { question: ARM_QUESTION@, default_yes: true },
    }
}

/// Goes on to the recovery passphrase.
pub open spec fn to_recovery(says: Seq<SayV>) -> SetupStepV {
    SetupStepV {
        state: SetupState::AskedRecovery,
        says: says.push(SayV::Out(RECOVERY_STEP@)),
        action: SetupActionV::Ask { question: RECOVERY_QUESTION@, default_yes: true },
    }
}

pub open spec fn found_says(rgb: Seq<char>, ir: Seq<char>, enrolled: bool) -> Seq<SayV> {
    let head = Seq::<SayV>::empty().push(SayV::Out("  cameras: rgb="@ + rgb + " ir="@ + ir)).push(
        SayV::Out("\n[2/7] Face enrollment"@),
    );
    if enrolled {
        head.push(SayV::Out("  already enrolled."@))
    } else {
        head
    }
}

/// The next step of the guided start.
pub open spec fn setup_next(user: Seq<char>, state: SetupState, event: SetupEvent) -> SetupStepV {
    match (state, event) {
        (SetupState::Start, SetupEvent::Daemon { up }) => if up {
            SetupStepV {
                state: SetupState::Checking,
                says: preflight(user, true).says,
                action: SetupActionV::Look,
            }
        } else {
            SetupStepV {
                state: SetupState::Over { exit: 1 },
                says: preflight(user, false).says,
                action: SetupActionV::Stop,
            }
        },
        (SetupState::Checking, SetupEvent::Found { rgb, ir, enrolled }) => SetupStepV {
            state: SetupState::AskedEnroll { enrolled },
            says: found_says(rgb@, ir@, enrolled),
            action: SetupActionV::Ask {
                question: enrollment_question(enrolled).0,
                default_yes: enrollment_question(enrolled).1,
            },
        },
        (SetupState::AskedEnroll { enrolled }, SetupEvent::Typed(line)) => match enrollment_request(
            user,
            enrolled,
            opt_text(line),
        ) {
            Some(q) => SetupStepV {
                state: SetupState::Enrolling,
                says: run_enroll_says(),
                action: SetupActionV::Send(q),
            },
            None => to_arming(Seq::empty()),
        },
        (SetupState::Enrolling, SetupEvent::Enrolled(a)) => to_arming(setup_enrolled_says(a)),
        (SetupState::AskedArm, SetupEvent::Typed(line)) => if yes(opt_text(line), true) {
            SetupStepV {
                state: SetupState::Arming,
                says: Seq::empty(),
                action: SetupActionV::Arm,
            }
        } else {
            to_recovery(Seq::empty())
        },
        (SetupState::Arming, SetupEvent::Armed(end)) => match end {
            ArmEnd::NoPassword => to_recovery(Seq::empty()),
            ArmEnd::NoSalt(e) => SetupStepV {
                state: SetupState::Over { exit: 1 },
                says: Seq::<SayV>::empty().push(SayV::Warn("  arm failed: "@ + e@)),
                action: SetupActionV::Stop,
            },
            ArmEnd::Answered(a) => to_recovery(Seq::<SayV>::empty().push(arm_says(a))),
        },
        (SetupState::AskedRecovery, SetupEvent::Typed(line)) => SetupStepV {
            state: SetupState::Closing { recovery: yes(opt_text(line), true) },
            says: Seq::empty(),
            action: SetupActionV::FindReader,
        },
        (SetupState::Closing { recovery }, SetupEvent::Reader(reader)) => SetupStepV {
            state: SetupState::Over { exit: 0 },
            says: closing_says(recovery, opt_text(reader)),
            action: SetupActionV::Stop,
        },
        _ => SetupStepV { state, says: Seq::empty(), action: SetupActionV::Stop },
    }
}

fn ask_arm(console: Console) -> (r: SetupStep)
    ensures
        r@ == to_arming(console@),
{
    let mut console = console;
    console.out(owned(ARM_STEP));
    SetupStep {
        state: SetupState::AskedArm,
        console,
        action: SetupAction::Ask { question: ARM_QUESTION, default_yes: true },
    }
}

fn ask_recovery(console: Console) -> (r: SetupStep)
    ensures
        r@ == to_recovery(console@),
{
    let mut console = console;
    console.out(owned(RECOVERY_STEP));
    SetupStep {
        state: SetupState::AskedRecovery,
        console,
        action: SetupAction::Ask { question: RECOVERY_QUESTION, default_yes: true },
    }
}

fn line_of(line: &Option<String>) -> (r: Option<&str>)
    ensures
        opt_slice(r) == opt_text(*line),
{
    match line {
        Some(s) => Some(s.as_str()),
        None => None,
    }
}

fn start(user: &str, up: bool) -> (r: SetupStep)
    ensures
        r@ == setup_next(user@, SetupState::Start, SetupEvent::Daemon { up }),
{
    let first = setup_preflight(user, up);
    if up {
        SetupStep {
            state: SetupState::Checking,
            console: first.console,
            action: SetupAction::Look,
        }
    } else {
        SetupStep {
            state: SetupState::Over { exit: 1 },
            console: first.console,
            action: SetupAction::Stop,
        }
    }
}

fn found(rgb: &str, ir: &str, enrolled: bool) -> (r: SetupStep)
    ensures
        r@ == (SetupStepV {
            state: SetupState::AskedEnroll { enrolled },
            says: found_says(rgb@, ir@, enrolled),
            action: SetupActionV::Ask {
                question: enrollment_question(enrolled).0,
                default_yes: enrollment_question(enrolled).1,
            },
        }),
{
    let mut c = Console::new();
    c.out(cat4("  cameras: rgb=", rgb, " ir=", ir));
    c.out(owned("\n[2/7] Face enrollment"));
    if enrolled {
        c.out(owned("  already enrolled."));
    }
    let (question, default_yes) = enroll_question(enrolled);
    SetupStep {
        state: SetupState::AskedEnroll { enrolled },
        console: c,
        action: SetupAction::Ask { question, default_yes },
    }
}

/// Takes one step of the guided start. Every step but the first asks before it
/// changes anything.
pub fn setup(user: &str, state: SetupState, event: &SetupEvent) -> (r: SetupStep)
    requires
        awaits(state, *event),
    ensures
        r@ == setup_next(user@, state, *event),
{
    match event {
        SetupEvent::Daemon { up } => start(user, *up),
        SetupEvent::Found { rgb, ir, enrolled } => found(rgb.as_str(), ir.as_str(), *enrolled),
        SetupEvent::Typed(line) => {
            match state {
                SetupState::AskedEnroll { enrolled } => {
                    match setup_enroll(user, enrolled, line_of(line)) {
                        Some(q) => SetupStep {
                            state: SetupState::Enrolling,
                            console: run_enroll(),
                            action: SetupAction::Send(q),
                        },
                        None => ask_arm(Console::new()),
                    }
                },
                SetupState::AskedArm => {
                    if yes_no(line_of(line), true) {
                        SetupStep {
                            state: SetupState::Arming,
                            console: Console::new(),
                            action: SetupAction::Arm,
                        }
                    } else {
                        ask_recovery(Console::new())
                    }
                },
                _ => SetupStep {
                    state: SetupState::Closing { recovery: yes_no(line_of(line), true) },
                    console: Console::new(),
                    action: SetupAction::FindReader,
                },
            }
        },
        SetupEvent::Enrolled(a) => ask_arm(report_setup_enroll(a)),
        SetupEvent::Armed(end) => {
            match end {
                ArmEnd::NoPassword => ask_recovery(Console::new()),
                ArmEnd::NoSalt(e) => {
                    let mut c = Console::new();
                    c.warn(cat2("  arm failed: ", e.as_str()));
                    SetupStep {
                        state: SetupState::Over { exit: 1 },
                        console: c,
                        action: SetupAction::Stop,
                    }
                },
                ArmEnd::Answered(a) => ask_recovery(report_setup_arm(a)),
            }
        },
        SetupEvent::Reader(reader) => {
            let recovery = match state {
                SetupState::Closing { recovery } => recovery,
                _ => false,
            };
            SetupStep {
                state: SetupState::Over { exit: 0 },
                console: setup_closing(recovery, line_of(reader)),
                action: SetupAction::Stop,
            }
        },
    }
}

/// How far a state is from the end.
pub open spec fn steps_left(state: SetupState) -> nat {
    match state {
        SetupState::Start => 8,
        SetupState::Checking => 7,
        SetupState::AskedEnroll { .. } => 6,
        SetupState::Enrolling => 5,
        SetupState::AskedArm => 4,
        SetupState::Arming => 3,
        SetupState::AskedRecovery => 2,
        SetupState::Closing { .. } => 1,
        SetupState::Over { .. } => 0,
    }
}

/// The guided start always ends: every step brings it nearer to its end, and it
/// stops exactly there.
pub proof fn setup_always_ends(user: Seq<char>, state: SetupState, event: SetupEvent)
    requires
        awaits(state, event),
    ensures
        steps_left(setup_next(user, state, event).state) < steps_left(state),
        setup_next(user, state, event).action is Stop <==> setup_next(user, state, event).state
            is Over,
{
}

/// A guided start that nobody can answer takes the documented defaults: it
/// enrolls who is not enrolled, wipes nothing, and arms the keyring.
pub proof fn an_unattended_setup_takes_the_defaults(user: Seq<char>, enrolled: bool)
    ensures
        setup_next(
            user,
            SetupState::AskedEnroll { enrolled },
            SetupEvent::Typed(None),
        ).action is Send <==> !enrolled,
        setup_next(user, SetupState::AskedArm, SetupEvent::Typed(None)).action is Arm,
{
}

/// The list of commands.
pub const HELP: &'static str = "irlume - local face authentication

USAGE: irlume <command> [options]   (default user: $USER; override with --user <username>)

SETUP & STATUS
  tui                   guided setup and interactive dashboard
  setup                 initial configuration (enrollment, keyring, recovery, wiring)
  status                system status dashboard (daemon, enrollment, keyring, cameras)
  detect                automation probe (exit codes: 0 ready, 10 partial, 20 absent)
  doctor                system diagnostics (platform, TPM, Secure Boot, cameras, models)
  support-report [--output FILE.txt] [--since 10m] [--probe]
  trace [record] [--duration 60s] [--output FILE.jsonl]
  trace explain FILE.jsonl [--output FILE.txt]
                        generate diagnostic support reports
  deps                  verify runtime dependencies (onnxruntime, models, TPM)

ENROLLMENT & AUTH
  enroll [--name N] [--scans K] [--reset]   enroll a face profile
  profiles [list|add-scan|rename|delete|forget-model|eyes-open off]   manage face profiles
  identify              1:N identification across enrolled users

KEYRING / TPM
  keyring <arm|status|forget>     TPM-sealed credential for automatic keyring unlock
  reseal                re-bind sealed credentials to current PCR measurements
  recovery <status|setup|restore|forget>   recovery passphrase configuration
  retry <status|reset> [--user U]         inspect or reset face retry state
  diag                  TPM seal and PCR drift diagnostics

SYSTEM INTEGRATION
  login <status|enable|disable|reconcile> [--with-sudo] [--with-polkit] [--apply]
                        PAM integration for display managers, lock screen, and sudo
  logs [-f] [--since T]           face authentication system journal
  logs debug <on|off>             pipeline debug tracing
  fingerprint <status|add|verify|reset|enable|disable> [--fingerprint-only]
                        fprintd integration (dual face/fingerprint or fingerprint-only)
  bitwarden <status|setup> [--apply]
                        configure Bitwarden biometric unlock policy
  selinux <status|load>           SELinux policy module management
  ir-setup [--dry-run]            configure IR emitter hardware (requires root)
  set-cameras <rgb> <ir>          persist RGB and IR camera device paths (requires root)
  camera-tune [--rounds N]        test dual-stream RGB and IR camera performance (requires root)
  camera-mode                     display active capture mode
  camera census [--json]          enumerate and classify video devices
  models list --json              display installed model information
  auth consent [status]           display face confirmation policy
  auth sensor status              display active face sensor policy
  auth sensor preflight [--user U]  verify sensor requirements
  auth sensor dual                configure dual sensors (requires root)
  auth sensor ir-only --yes       select experimental IR-only mode (requires root)
  auth consent required           require explicit confirmation (requires root)
  auth consent hands-free --yes   enable hands-free confirmation (requires root)
  biopolicy <on|off|status>       service-level biometric access restrictions
  update [--check]                update irlume via system package manager
  uninstall [--keep-data] [--yes] remove PAM integration, daemon, and data (requires root)
  version                         display installed irlume version

MACHINE-READABLE OUTPUT
  --json                output single-line JSON on supported commands
  --contract N          specify contract version (default: 1)

  (developer and benchmark tools are hidden; set IRLUME_DEV=1 to enable them)
";

/// What `help` prints.
pub fn help() -> (r: Outcome)
    ensures
        r@ == (OutcomeV { says: Seq::<SayV>::empty().push(SayV::Out(HELP@)), exit: 0 }),
{
    let mut c = Console::new();
    c.out(owned(HELP));
    Outcome { console: c, exit: 0 }
}

/// A typed answer decides: it is a yes exactly where it is `y` or `yes` in any case,
/// with any space around it, whatever the default; only where nothing was typed does
/// the default.
pub proof fn a_typed_answer_decides(line: Seq<char>, default_yes: bool)
    ensures
        yes(None, default_yes) == default_yes,
        trimmed(line).len() == 0 ==> yes(Some(line), default_yes) == default_yes,
        trimmed(line).len() > 0 ==> yes(Some(line), true) == yes(Some(line), false),
        trimmed(line).len() > 0 ==> (yes(Some(line), default_yes) <==> ascii_lower(trimmed(line))
            == "y"@ || ascii_lower(trimmed(line)) == "yes"@),
{
}

/// The guided start goes on without a daemon to nothing, and else through its steps
/// in order. It asks the daemon to enroll exactly where that was agreed to, arms
/// exactly where that was, and ends well only at its last step.
pub proof fn the_guided_start_does_what_was_agreed_to(
    user: Seq<char>,
    state: SetupState,
    event: SetupEvent,
)
    requires
        awaits(state, event),
    ensures
        ({
            let n = setup_next(user, state, event);
            &&& n.action is Send <==> (state matches SetupState::AskedEnroll { enrolled }
                && event matches SetupEvent::Typed(line) && yes(opt_text(line), !enrolled))
            &&& n.action matches SetupActionV::Send(q) ==> (q matches RequestV::Enroll {
                user: account,
                reset,
                ..
            } && account == user && (state matches SetupState::AskedEnroll { enrolled } && reset
                == enrolled))
            &&& n.action is Arm <==> (event matches SetupEvent::Typed(line) && state is AskedArm
                && yes(opt_text(line), true))
            &&& n.action is Stop <==> n.state is Over
            &&& n.state == SetupState::Over { exit: 0 } <==> state is Closing
            &&& state is Start ==> (n.action is Stop <==> event == SetupEvent::Daemon { up: false })
            &&& n.action is FindReader <==> state is AskedRecovery
            &&& n.action is Look ==> state is Start
            &&& state matches SetupState::Checking ==> (n.state matches SetupState::AskedEnroll {
                enrolled,
            } && event->enrolled == enrolled)
            &&& n.state matches SetupState::Closing { recovery } ==> (event matches SetupEvent::Typed(
                line,
            ) && recovery == yes(opt_text(line), true))
        }),
{
}

/// The answers that a question offers, the default in a capital.
pub open spec fn choices(default_yes: bool) -> Seq<char> {
    if default_yes {
        " [Y/n] "@
    } else {
        " [y/N] "@
    }
}

/// The answer in a capital is the one that is taken where nothing is typed.
pub proof fn the_default_is_the_capital(default_yes: bool)
    ensures
        choices(default_yes).contains('Y') <==> yes(None, default_yes),
        choices(default_yes).contains('N') <==> !yes(None, default_yes),
{
    reveal_strlit(" [Y/n] ");
    reveal_strlit(" [y/N] ");
    assert(" [Y/n] "@[2] == 'Y' && " [y/N] "@[4] == 'N');
}

/// The default that a question shows is the one that is taken where nothing is
/// typed: to enroll where nobody is enrolled yet, to arm, and to set up recovery.
pub proof fn the_shown_default_is_the_one_taken(
    user: Seq<char>,
    state: SetupState,
    event: SetupEvent,
)
    requires
        awaits(state, event),
    ensures
        ({
            let n = setup_next(user, state, event);
            n.action matches SetupActionV::Ask { default_yes, .. } ==> (match n.state {
                SetupState::AskedEnroll { enrolled } => default_yes == !enrolled,
                SetupState::AskedArm => default_yes,
                SetupState::AskedRecovery => default_yes,
                _ => false,
            })
        }),
{
}

/// That somebody is enrolled is said exactly where they are.
pub proof fn only_an_enrolled_face_is_called_enrolled(rgb: Seq<char>, ir: Seq<char>)
    ensures
        found_says(rgb, ir, true).len() == 3,
        found_says(rgb, ir, false).len() == 2,
        found_says(rgb, ir, true).drop_last() == found_says(rgb, ir, false),
{
    assert(found_says(rgb, ir, true).drop_last() =~= found_says(rgb, ir, false));
}

} // verus!
