//! `doctor`: the health of an install, as lines for a person and checks for a
//! program.

use vstd::prelude::*;

use crate::args::{has_arg, subject, user_arg, Caller};
use crate::console::{fail_with, failed, Console, Outcome, OutcomeV, SayV};
use crate::hardware::{
    a_machine_without_a_tpm_fails, an_unusable_runtime_fails, camera_report,
    models_fail_unless_both_can_be_read, models_report, only_a_stream_that_falls_short_warns,
    only_an_infrared_camera_passes, platform_report, report_cameras, report_models, report_platform,
    report_seals, runtime_report, seal_report, selected_stream_minimum_checks, stages_report,
    stream_report, streams_report, the_seals_say_what_protects_them,
    the_two_required_stages_are_checked, CameraFacts, ModelFacts, PlatformFacts, SealFacts,
    StreamLook, StreamMinimum,
};
use crate::json::{no_fields, Json, JsonArr, JsonObj, JsonV};
use crate::machine::{answer, answered, Reply};
use crate::protocol::{Request, RequestV};
use crate::report::{
    a_count_is_zero_without_such_a_check, count_state, Check, CheckV, Report, ReportV, State,
};
use crate::text::{
    cat2, cat3, cat4, cat5, cat6, contains, dec, decimal, ends_with, join, joined, lines, lines_of,
    occurs, opt_text, owned, same, starts_with, texts, trim, trimmed,
};

verus! {

/// Whether the verdict is asked for as an exit code.
pub fn doctor_wants_check(args: &[String]) -> (r: bool)
    ensures
        r == texts(args@).contains("--check"@),
{
    has_arg(args, "--check")
}

/// What each request asks.
pub open spec fn asked(requests: Seq<Request>) -> Seq<RequestV> {
    requests.map_values(|r: Request| r@)
}

/// The account that `doctor` is about, and what it asks the daemon of it: first
/// how its templates can be recovered, then what is enrolled.
pub open spec fn doctor_asks(
    args: Seq<Seq<char>>,
    sudo_user: Option<Seq<char>>,
    user: Option<Seq<char>>,
    root: bool,
) -> Result<(Seq<char>, Seq<RequestV>), OutcomeV> {
    match subject(args, sudo_user, user, root) {
        None => Err(failed("irlume: --user requires a username"@, 2)),
        Some(who) => Ok(
            (
                who,
                seq![
                    RequestV::RecoveryStatus { user: who },
                    RequestV::ListProfiles { user: who, structured_errors: false },
                ],
            ),
        ),
    }
}

/// What `doctor` asks the daemon, in order, and the account it is about.
pub fn doctor_requests(args: &[String], caller: &Caller) -> (r: Result<
    (String, Vec<Request>),
    Outcome,
>)
    ensures
        (match r {
            Ok((who, requests)) => Ok::<(Seq<char>, Seq<RequestV>), OutcomeV>(
                (who@, asked(requests@)),
            ),
            Err(o) => Err(o@),
        }) == doctor_asks(
            texts(args@),
            opt_text(caller.sudo_user),
            opt_text(caller.user),
            caller.root,
        ),
{
    match user_arg(args, caller) {
        None => Err(fail_with(owned("irlume: --user requires a username"), 2)),
        Some(user) => {
            let mut requests: Vec<Request> = Vec::new();
            requests.push(Request::RecoveryStatus { user: owned(user.as_str()) });
            requests.push(
                Request::ListProfiles { user: owned(user.as_str()), structured_errors: false },
            );
            proof {
                assert(asked(requests@) =~= seq![
                    RequestV::RecoveryStatus { user: user@ },
                    RequestV::ListProfiles { user: user@, structured_errors: false },
                ]);
            }
            Ok((user, requests))
        },
    }
}

// ---- fingerprint ----

/// What was found of the fingerprint reader and of the stacks it answers in.
pub struct FingerprintFacts {
    pub names: Vec<String>,
    pub available: bool,
    pub fprintd: bool,
    /// The unit that owns the bus name.
    pub bus_owner: Option<String>,
    pub stuck: bool,
    pub shares_faillock: bool,
    pub in_sudo: bool,
    pub sshd: bool,
}

pub open spec fn reader_text(f: FingerprintFacts) -> Seq<char> {
    if f.names@.len() == 0 {
        if f.available {
            "present \u{2713}"@
        } else {
            "none"@
        }
    } else {
        joined(texts(f.names@), " + "@) + " \u{2713} (manage with `irlume fingerprint`)"@
    }
}

pub const STUCK_LINE: &'static str = "  \u{26a0} the reader is held by a stale fprintd claim (finger prompts will not appear; common after suspend/resume); fix: sudo systemctl restart fprintd";

pub const FAILLOCK_LINE: &'static str = "  \u{26a0} pam_faillock and pam_fprintd share a PAM stack: a touch-sensor misread can burn every fingerprint retry in seconds, and each one counts toward the account lockout. If you get locked out: faillock --user <you> --reset";

pub const SSH_LINE: &'static str = "  \u{26a0} pam_fprintd is reachable from the sudo stack and an SSH server is enabled: `sudo` inside an SSH session will stall for the fingerprint timeout (up to 30s) waiting on the local reader. Consider scoping fingerprint to login/lock services only.";

/// A line where it applies.
pub open spec fn line_if(r: ReportV, applies: bool, line: Seq<char>) -> ReportV {
    if applies {
        r.line(line)
    } else {
        r
    }
}

pub open spec fn fingerprint_report(r: ReportV, f: FingerprintFacts) -> ReportV {
    let a = r.line("[doctor] fingerprint reader: "@ + reader_text(f)).check(
        "fingerprint-reader"@,
        if f.available {
            State::Pass
        } else {
            State::Info
        },
    );
    if !f.fprintd {
        a
    } else {
        let b = match f.bus_owner {
            Some(unit) => line_if(
                a,
                unit@ != "fprintd.service"@,
                "  \u{26a0} the fprint bus name is owned by '"@ + unit@
                    + "', not fprintd.service: a vendor driver stack is answering; its failure modes differ from stock fprintd"@,
            ),
            None => a,
        };
        line_if(
            line_if(line_if(b, f.stuck, STUCK_LINE@), f.shares_faillock, FAILLOCK_LINE@),
            f.in_sudo && f.sshd,
            SSH_LINE@,
        )
    }
}

/// Reports the fingerprint reader and what may go wrong with it.
pub fn report_fingerprint(r: &mut Report, f: &FingerprintFacts)
    ensures
        final(r)@ == fingerprint_report(old(r)@, *f),
{
    let reader = if f.names.len() == 0 {
        if f.available {
            owned("present \u{2713}")
        } else {
            owned("none")
        }
    } else {
        let names = join(&f.names, " + ");
        cat2(names.as_str(), " \u{2713} (manage with `irlume fingerprint`)")
    };
    r.line(cat2("[doctor] fingerprint reader: ", reader.as_str()));
    r.check(
        "fingerprint-reader",
        if f.available {
            State::Pass
        } else {
            State::Info
        },
    );
    if !f.fprintd {
        return ;
    }
    match &f.bus_owner {
        Some(unit) => {
            if !same(unit.as_str(), "fprintd.service") {
                r.line(
                    cat3(
                        "  \u{26a0} the fprint bus name is owned by '",
                        unit.as_str(),
                        "', not fprintd.service: a vendor driver stack is answering; its failure modes differ from stock fprintd",
                    ),
                );
            }
        },
        None => {},
    }
    if f.stuck {
        r.line(owned(STUCK_LINE));
    }
    if f.shares_faillock {
        r.line(owned(FAILLOCK_LINE));
    }
    if f.in_sudo && f.sshd {
        r.line(owned(SSH_LINE));
    }
}

// ---- templates ----

/// What the daemon says of the templates and their recovery.
pub struct RecoveryFacts {
    pub encrypted: bool,
    pub recovery_set: bool,
    pub key_present: bool,
    /// What to do about a missing key.
    pub advice: String,
}

pub open spec fn key_lost(f: RecoveryFacts) -> bool {
    f.encrypted && !f.key_present
}

pub open spec fn at_rest(f: RecoveryFacts) -> Seq<char> {
    if f.encrypted && f.key_present {
        "ENCRYPTED \u{2713}"@
    } else if f.encrypted {
        "ENCRYPTED but the TEMPLATE KEY IS MISSING (unreadable)"@
    } else {
        "plaintext at rest"@
    }
}

pub open spec fn passphrase_text(f: RecoveryFacts) -> Seq<char> {
    if f.recovery_set {
        "SET \u{2713}"@
    } else if key_lost(f) {
        "not set; no backup available"@
    } else {
        "not set (run `irlume recovery setup`)"@
    }
}

/// What is said of the templates. Where nobody could look, nothing is claimed.
pub open spec fn template_report(r: ReportV, user: Seq<char>, f: Option<RecoveryFacts>) -> ReportV {
    match f {
        Some(f) => {
            let a = line_if(
                r.line(
                    "[doctor] templates ("@ + user + "): "@ + at_rest(f)
                        + " \u{b7} recovery passphrase "@ + passphrase_text(f),
                ),
                key_lost(f),
                "[doctor] "@ + f.advice@,
            );
            a.check_detail(
                "templates"@,
                if key_lost(f) {
                    State::Fail
                } else if f.encrypted {
                    State::Pass
                } else {
                    State::Warn
                },
                if key_lost(f) {
                    f.advice@
                } else {
                    "template key observation complete"@
                },
            ).check(
                "recovery-passphrase"@,
                if f.recovery_set {
                    State::Pass
                } else {
                    State::Warn
                },
            )
        },
        None => r.line(
            "[doctor] templates ("@ + user
                + "): unknown (daemon not reachable; run `irlume recovery status`)"@,
        ).check("templates"@, State::Unknown).check("recovery-passphrase"@, State::Unknown),
    }
}

/// Reports the templates at rest and the recovery passphrase.
pub fn report_templates(r: &mut Report, user: &str, f: &Option<RecoveryFacts>)
    ensures
        final(r)@ == template_report(old(r)@, user@, *f),
{
    match f {
        Some(f) => {
            let lost = f.encrypted && !f.key_present;
            let rest = if f.encrypted && f.key_present {
                "ENCRYPTED \u{2713}"
            } else if f.encrypted {
                "ENCRYPTED but the TEMPLATE KEY IS MISSING (unreadable)"
            } else {
                "plaintext at rest"
            };
            let passphrase = if f.recovery_set {
                "SET \u{2713}"
            } else if lost {
                "not set; no backup available"
            } else {
                "not set (run `irlume recovery setup`)"
            };
            r.line(
                cat6(
                    "[doctor] templates (",
                    user,
                    "): ",
                    rest,
                    " \u{b7} recovery passphrase ",
                    passphrase,
                ),
            );
            if lost {
                r.line(cat2("[doctor] ", f.advice.as_str()));
            }
            if lost {
                r.check_detail("templates", State::Fail, owned(f.advice.as_str()));
            } else {
                r.check_detail(
                    "templates",
                    if f.encrypted {
                        State::Pass
                    } else {
                        State::Warn
                    },
                    owned("template key observation complete"),
                );
            }
            r.check(
                "recovery-passphrase",
                if f.recovery_set {
                    State::Pass
                } else {
                    State::Warn
                },
            );
        },
        None => {
            r.line(
                cat3(
                    "[doctor] templates (",
                    user,
                    "): unknown (daemon not reachable; run `irlume recovery status`)",
                ),
            );
            r.check("templates", State::Unknown);
            r.check("recovery-passphrase", State::Unknown);
        },
    }
}

// ---- polkit ----

/// Whether a line of a unit file hides /run from the unit. A read-only or
/// device-less sandbox does not: a socket can still be connected to.
pub open spec fn hides(line: Seq<char>) -> bool {
    let t = trimmed(line);
    ||| "RootDirectory="@.is_prefix_of(t) && !"="@.is_suffix_of(t)
    ||| "InaccessiblePaths="@.is_prefix_of(t) && occurs(t, "/run"@)
    ||| "TemporaryFileSystem="@.is_prefix_of(t) && occurs(t, "/run"@)
}

/// Whether any line of the unit hides /run.
pub open spec fn unit_hides(lines: Seq<Seq<char>>) -> bool {
    exists|i: int| 0 <= i < lines.len() && #[trigger] hides(lines[i])
}

fn line_hides(line: &str) -> (r: bool)
    ensures
        r == hides(line@),
{
    let t = trim(line);
    if starts_with(t, "RootDirectory=") && !ends_with(t, "=") {
        return true;
    }
    if starts_with(t, "InaccessiblePaths=") && contains(t, "/run") {
        return true;
    }
    starts_with(t, "TemporaryFileSystem=") && contains(t, "/run")
}

fn any_hides(unit: &str) -> (r: bool)
    ensures
        r == unit_hides(lines_of(unit@)),
{
    let v = lines(unit);
    let mut i: usize = 0;
    while i < v.len()
        invariant
            i <= v@.len(),
            texts(v@) == lines_of(unit@),
            forall|k: int| 0 <= k < i ==> !#[trigger] hides(lines_of(unit@)[k]),
        decreases v@.len() - i,
    {
        proof {
            assert(texts(v@)[i as int] == v@[i as int]@);
        }
        if line_hides(v[i].as_str()) {
            return true;
        }
        i = i + 1;
    }
    proof {
        assert(texts(v@).len() == v@.len());
    }
    false
}

pub const SANDBOX_WARNING: &'static str = "[doctor] \u{26a0} polkit helper sandbox may hide /run/irlume.sock; polkit face prompts\n     would fall back to the password. Add a drop-in exposing only the socket:\n     /etc/systemd/system/polkit-agent-helper@.service.d/irlume.conf with\n     [Service] then a BindReadOnlyPaths=/run/irlume.sock line.";

pub const SANDBOX_OK: &'static str = "[doctor] polkit helper sandbox: OK \u{2713} (irlume uses the daemon socket, not the camera, so the device sandbox that breaks Howdy does not apply)";

/// What is said of the sandbox of polkit's helper: only an active helper unit can
/// hide the daemon's socket.
pub open spec fn sandbox_report(r: ReportV, unit: Option<String>, socket_active: bool) -> ReportV {
    match unit {
        None => r.check("polkit-helper-sandbox"@, State::Info),
        Some(unit) => if socket_active && unit_hides(lines_of(unit@)) {
            r.line(SANDBOX_WARNING@).check("polkit-helper-sandbox"@, State::Warn)
        } else {
            r.line(SANDBOX_OK@).check("polkit-helper-sandbox"@, State::Pass)
        },
    }
}

/// Reports whether the helper's sandbox hides the daemon's socket.
pub fn report_polkit_sandbox(r: &mut Report, unit: &Option<String>, socket_active: bool)
    ensures
        final(r)@ == sandbox_report(old(r)@, *unit, socket_active),
{
    match unit {
        None => {
            r.check("polkit-helper-sandbox", State::Info);
        },
        Some(unit) => {
            if socket_active && any_hides(unit.as_str()) {
                r.line(owned(SANDBOX_WARNING));
                r.check("polkit-helper-sandbox", State::Warn);
            } else {
                r.line(owned(SANDBOX_OK));
                r.check("polkit-helper-sandbox", State::Pass);
            }
        },
    }
}

/// What was found of polkit prompts.
pub struct PolkitFacts {
    /// `None` where polkit has no stack here.
    pub wired: Option<bool>,
    pub bitwarden_action: bool,
    pub bitwarden_app: bool,
    pub helper_unit: Option<String>,
    pub helper_socket_active: bool,
}

pub const POLKIT_WIRED: &'static str = "[doctor] polkit app prompts: wired \u{2713} (keyboard confirmation required)";

pub const POLKIT_BITWARDEN: &'static str = "[doctor] polkit app prompts: NOT wired, but Bitwarden's polkit action is installed.\n     Its biometric unlock will fall back to the password prompt. Enable with:\n     sudo irlume login enable --with-polkit --apply";

pub const POLKIT_OFF: &'static str = "[doctor] polkit app prompts: not wired (opt-in: sudo irlume login enable --with-polkit --apply)";

pub const BITWARDEN_ACTION_MISSING: &'static str = "[doctor] Bitwarden is installed but its polkit action is not; its biometric unlock\n     falls back to the password. Fix: sudo irlume bitwarden setup --apply";

pub open spec fn polkit_report(r: ReportV, f: PolkitFacts) -> ReportV {
    let a = r.check("credential-release-challenge"@, State::Info);
    match f.wired {
        Some(true) => line_if(
            sandbox_report(
                a.check("polkit-app-prompts"@, State::Pass).line(POLKIT_WIRED@),
                f.helper_unit,
                f.helper_socket_active,
            ),
            !f.bitwarden_action && f.bitwarden_app,
            BITWARDEN_ACTION_MISSING@,
        ),
        Some(false) => a.check("polkit-app-prompts"@, State::Info).line(
            if f.bitwarden_action {
                POLKIT_BITWARDEN@
            } else {
                POLKIT_OFF@
            },
        ).check("polkit-helper-sandbox"@, State::Info),
        None => a.check("polkit-app-prompts"@, State::Unknown).check(
            "polkit-helper-sandbox"@,
            State::Info,
        ),
    }
}

/// Reports polkit prompts and the helper's sandbox.
pub fn report_polkit(r: &mut Report, f: &PolkitFacts)
    ensures
        final(r)@ == polkit_report(old(r)@, *f),
{
    r.check("credential-release-challenge", State::Info);
    match f.wired {
        Some(true) => {
            r.check("polkit-app-prompts", State::Pass);
            r.line(owned(POLKIT_WIRED));
            report_polkit_sandbox(r, &f.helper_unit, f.helper_socket_active);
            if !f.bitwarden_action && f.bitwarden_app {
                r.line(owned(BITWARDEN_ACTION_MISSING));
            }
        },
        Some(false) => {
            r.check("polkit-app-prompts", State::Info);
            r.line(
                owned(
                    if f.bitwarden_action {
                        POLKIT_BITWARDEN
                    } else {
                        POLKIT_OFF
                    },
                ),
            );
            r.check("polkit-helper-sandbox", State::Info);
        },
        None => {
            r.check("polkit-app-prompts", State::Unknown);
            r.check("polkit-helper-sandbox", State::Info);
        },
    }
}

// ---- enrollment ----

/// The health of one enrolled camera group.
pub struct GroupHealth {
    pub id: String,
    pub stale: bool,
    pub connected: bool,
}

/// What the daemon says of the user's enrollment.
pub struct EnrollmentFacts {
    pub enrolled: bool,
    pub ir_ratio_calibrated: bool,
    pub groups: Vec<GroupHealth>,
    pub store_error: Option<String>,
}

pub open spec fn group_ok(g: GroupHealth) -> bool {
    !g.stale && g.connected
}

pub open spec fn group_line(g: GroupHealth) -> Seq<char> {
    if group_ok(g) {
        "[doctor] camera group "@ + g.id@ + " is healthy"@
    } else {
        "[doctor] camera group "@ + g.id@ + ": "@ + (if g.stale && !g.connected {
            "stale (primary changed; re-add the camera), disconnected"@
        } else if g.stale {
            "stale (primary changed; re-add the camera)"@
        } else {
            "disconnected"@
        })
    }
}

pub open spec fn group_health_lines(groups: Seq<GroupHealth>) -> Seq<Seq<char>> {
    groups.map_values(|g: GroupHealth| group_line(g))
}

pub open spec fn all_ok(groups: Seq<GroupHealth>) -> bool {
    forall|i: int| 0 <= i < groups.len() ==> group_ok(#[trigger] groups[i])
}

/// What is said of the camera groups: no line where there are none, but the check
/// is there in any case.
pub open spec fn groups_report(r: ReportV, f: EnrollmentFacts) -> ReportV {
    match f.store_error {
        Some(e) => r.line("[doctor] camera groups unusable: "@ + e@).check(
            "camera-groups"@,
            State::Warn,
        ),
        None => if f.groups@.len() == 0 {
            r.check("camera-groups"@, State::Info)
        } else {
            r.all_lines(group_health_lines(f.groups@)).check(
                "camera-groups"@,
                if all_ok(f.groups@) {
                    State::Pass
                } else {
                    State::Warn
                },
            )
        },
    }
}

fn show_group(g: &GroupHealth) -> (r: String)
    ensures
        r@ == group_line(*g),
{
    if !g.stale && g.connected {
        return cat3("[doctor] camera group ", g.id.as_str(), " is healthy");
    }
    let problems = if g.stale && !g.connected {
        "stale (primary changed; re-add the camera), disconnected"
    } else if g.stale {
        "stale (primary changed; re-add the camera)"
    } else {
        "disconnected"
    };
    cat4("[doctor] camera group ", g.id.as_str(), ": ", problems)
}

/// Reports the enrolled camera groups.
pub fn report_groups(r: &mut Report, f: &EnrollmentFacts)
    ensures
        final(r)@ == groups_report(old(r)@, *f),
{
    match &f.store_error {
        Some(e) => {
            r.line(cat2("[doctor] camera groups unusable: ", e.as_str()));
            r.check("camera-groups", State::Warn);
        },
        None => {
            if f.groups.len() == 0 {
                r.check("camera-groups", State::Info);
                return ;
            }
            let ghost before = r@;
            let ghost want = group_health_lines(f.groups@);
            let mut healthy = true;
            let mut i: usize = 0;
            proof {
                assert(before.all_lines(want.take(0)) =~= before);
            }
            while i < f.groups.len()
                invariant
                    i <= f.groups@.len(),
                    want == group_health_lines(f.groups@),
                    r@ == before.all_lines(want.take(i as int)),
                    healthy == forall|k: int| 0 <= k < i ==> group_ok(#[trigger] f.groups@[k]),
                decreases f.groups@.len() - i,
            {
                let ghost was = healthy;
                r.line(show_group(&f.groups[i]));
                if f.groups[i].stale || !f.groups[i].connected {
                    healthy = false;
                }
                proof {
                    assert(want[i as int] == group_line(f.groups@[i as int]));
                    assert(r@ =~= before.all_lines(want.take(i + 1)));
                    if was && !healthy {
                        assert(!group_ok(f.groups@[i as int]));
                    }
                }
                i = i + 1;
            }
            proof {
                assert(want.take(want.len() as int) =~= want);
            }
            r.check(
                "camera-groups",
                if healthy {
                    State::Pass
                } else {
                    State::Warn
                },
            );
        },
    }
}

pub open spec fn calibration_line(user: Seq<char>) -> Seq<char> {
    "[doctor] "@ + user
        + "'s face enrollment predates the per-user IR center/edge floor\n     (an anti-print check that new IR enrollments fit automatically).\n     Re-enroll to activate it: the TUI Profiles tab, or `sudo irlume enroll`."@
}

/// Whether the per-user infrared floor is in force. Not asked where nobody is
/// enrolled or the machine has no infrared pair.
pub open spec fn calibration_report(
    r: ReportV,
    user: Seq<char>,
    f: EnrollmentFacts,
    ir_pair: bool,
) -> ReportV {
    if !f.enrolled || !ir_pair {
        r.check("ir-calibration"@, State::Info)
    } else if f.ir_ratio_calibrated {
        r.check("ir-calibration"@, State::Pass)
    } else {
        r.check("ir-calibration"@, State::Warn).line(calibration_line(user))
    }
}

/// Reports the infrared calibration of the enrollment.
pub fn report_calibration(r: &mut Report, user: &str, f: &EnrollmentFacts, ir_pair: bool)
    ensures
        final(r)@ == calibration_report(old(r)@, user@, *f, ir_pair),
{
    if !f.enrolled || !ir_pair {
        r.check("ir-calibration", State::Info);
    } else if f.ir_ratio_calibrated {
        r.check("ir-calibration", State::Pass);
    } else {
        r.check("ir-calibration", State::Warn);
        r.line(
            cat3(
                "[doctor] ",
                user,
                "'s face enrollment predates the per-user IR center/edge floor\n     (an anti-print check that new IR enrollments fit automatically).\n     Re-enroll to activate it: the TUI Profiles tab, or `sudo irlume enroll`.",
            ),
        );
    }
}

// ---- login wiring ----

/// What was found of the login stacks.
pub struct WiringFacts {
    /// The stack that the active display manager consults is wired.
    pub active_login: bool,
    /// Any stack is wired.
    pub any_login: bool,
    /// The active display manager, and whether it can be wired.
    pub display_manager: Option<(String, bool)>,
    /// That display manager does not show a stack's messages.
    pub hides_instructions: bool,
    pub authselect_active: bool,
    pub pam_auth_update: bool,
    /// The watcher that puts stripped wiring back is active.
    pub watcher_active: bool,
}

/// The tool that rewrites this host's stacks, if one does.
pub open spec fn regenerator(authselect_active: bool, pam_auth_update: bool) -> Option<Seq<char>> {
    if authselect_active {
        Some("authselect"@)
    } else if pam_auth_update {
        Some("pam-auth-update"@)
    } else {
        None
    }
}

pub fn pam_regenerator(authselect_active: bool, pam_auth_update: bool) -> (r: Option<&'static str>)
    ensures
        crate::text::opt_slice(r) == regenerator(authselect_active, pam_auth_update),
{
    if authselect_active {
        Some("authselect")
    } else if pam_auth_update {
        Some("pam-auth-update")
    } else {
        None
    }
}

pub open spec fn guard_report(r: ReportV, tool: Option<Seq<char>>, watcher_active: bool) -> ReportV {
    match tool {
        None => r.check("pam-regeneration-guard"@, State::Info),
        Some(tool) => if watcher_active {
            r.check("pam-regeneration-guard"@, State::Pass).line(
                "[doctor] PAM regeneration guard: OK \u{2713} ("@ + tool
                    + " manages this host; irlume-reconcile.path will re-apply face-auth wiring if it gets stripped)"@,
            )
        } else {
            r.check("pam-regeneration-guard"@, State::Warn).line(
                "[doctor] \u{26a0} "@ + tool
                    + " manages this host's PAM stacks, but the irlume-reconcile.path\n     self-heal watcher is not active; a future regeneration could silently drop\n     face login. Enable it: sudo systemctl enable --now irlume-reconcile.path"@,
            )
        },
    }
}

/// Reports whether wiring that a distribution tool strips would be put back.
pub fn report_pam_regeneration_guard(r: &mut Report, tool: Option<&str>, watcher_active: bool)
    ensures
        final(r)@ == guard_report(old(r)@, crate::text::opt_slice(tool), watcher_active),
{
    match tool {
        None => {
            r.check("pam-regeneration-guard", State::Info);
        },
        Some(tool) => {
            if watcher_active {
                r.check("pam-regeneration-guard", State::Pass);
                r.line(
                    cat3(
                        "[doctor] PAM regeneration guard: OK \u{2713} (",
                        tool,
                        " manages this host; irlume-reconcile.path will re-apply face-auth wiring if it gets stripped)",
                    ),
                );
            } else {
                r.check("pam-regeneration-guard", State::Warn);
                r.line(
                    cat3(
                        "[doctor] \u{26a0} ",
                        tool,
                        " manages this host's PAM stacks, but the irlume-reconcile.path\n     self-heal watcher is not active; a future regeneration could silently drop\n     face login. Enable it: sudo systemctl enable --now irlume-reconcile.path",
                    ),
                );
            }
        },
    }
}

pub open spec fn unwired_line(user: Seq<char>) -> Seq<char> {
    "[doctor] \u{26a0} "@ + user
        + " is enrolled but no login manager is wired for face auth.\n     A system update (authselect / pam-auth-update) may have regenerated the\n     PAM stacks. The irlume-reconcile.path unit re-applies this automatically\n     once login was enabled; if it persists, re-wire with:\n     sudo irlume login enable --apply"@
}

pub open spec fn unknown_manager_line(dm: Seq<char>) -> Seq<char> {
    "[doctor] \u{26a0} irlume has no PAM wiring recipe for the active display manager\n     '"@
        + dm
        + "', so face login cannot be wired for it (your password still works).\n     This is usually a display manager that is new, or was renamed by an update.\n     Please report it at https://github.com/archledger/irlume/issues so we can\n     add it."@
}

pub open spec fn login_report(r: ReportV, user: Seq<char>, enrolled: bool, wired: bool) -> ReportV {
    line_if(
        r.check(
            "login-wiring"@,
            if wired {
                State::Pass
            } else if enrolled {
                State::Warn
            } else {
                State::Info
            },
        ),
        enrolled && !wired,
        unwired_line(user),
    )
}

pub open spec fn manager_report(r: ReportV, f: WiringFacts) -> ReportV {
    match f.display_manager {
        Some((dm, true)) => if f.hides_instructions {
            r.check_detail(
                "display-manager"@,
                State::Pass,
                dm@ + "; does not display PAM instructions to the user"@,
            )
        } else {
            r.check("display-manager"@, State::Pass)
        },
        Some((dm, false)) => r.check("display-manager"@, State::Warn).line(
            unknown_manager_line(dm@),
        ),
        None => r.check("display-manager"@, State::Info),
    }
}

pub open spec fn wiring_report(
    r: ReportV,
    user: Seq<char>,
    enrolled: bool,
    f: WiringFacts,
) -> ReportV {
    let a = manager_report(login_report(r, user, enrolled, f.active_login), f);
    if f.any_login {
        guard_report(a, regenerator(f.authselect_active, f.pam_auth_update), f.watcher_active)
    } else {
        a.check("pam-regeneration-guard"@, State::Info)
    }
}

/// Reports the login wiring, the display manager and what guards the wiring.
pub fn report_wiring(r: &mut Report, user: &str, enrolled: bool, f: &WiringFacts)
    ensures
        final(r)@ == wiring_report(old(r)@, user@, enrolled, *f),
{
    r.check(
        "login-wiring",
        if f.active_login {
            State::Pass
        } else if enrolled {
            State::Warn
        } else {
            State::Info
        },
    );
    if enrolled && !f.active_login {
        r.line(
            cat3(
                "[doctor] \u{26a0} ",
                user,
                " is enrolled but no login manager is wired for face auth.\n     A system update (authselect / pam-auth-update) may have regenerated the\n     PAM stacks. The irlume-reconcile.path unit re-applies this automatically\n     once login was enabled; if it persists, re-wire with:\n     sudo irlume login enable --apply",
            ),
        );
    }
    match &f.display_manager {
        Some((dm, known)) => {
            if *known {
                if f.hides_instructions {
                    r.check_detail(
                        "display-manager",
                        State::Pass,
                        cat2(dm.as_str(), "; does not display PAM instructions to the user"),
                    );
                } else {
                    r.check("display-manager", State::Pass);
                }
            } else {
                r.check("display-manager", State::Warn);
                r.line(
                    cat3(
                        "[doctor] \u{26a0} irlume has no PAM wiring recipe for the active display manager\n     '",
                        dm.as_str(),
                        "', so face login cannot be wired for it (your password still works).\n     This is usually a display manager that is new, or was renamed by an update.\n     Please report it at https://github.com/archledger/irlume/issues so we can\n     add it.",
                    ),
                );
            }
        },
        None => {
            r.check("display-manager", State::Info);
        },
    }
    if f.any_login {
        report_pam_regeneration_guard(
            r,
            pam_regenerator(f.authselect_active, f.pam_auth_update),
            f.watcher_active,
        );
    } else {
        r.check("pam-regeneration-guard", State::Info);
    }
}

// ---- the whole pass ----

/// Everything a pass over the machine found.
pub struct DoctorFacts {
    pub user: String,
    pub platform: PlatformFacts,
    pub seals: SealFacts,
    pub cameras: CameraFacts,
    /// The streams of the selected pair, color first.
    pub streams: Option<(StreamLook, StreamLook)>,
    pub ir_minimum: StreamMinimum,
    pub rgb_minimum: StreamMinimum,
    pub models: ModelFacts,
    pub fingerprint: FingerprintFacts,
    pub recovery: Option<RecoveryFacts>,
    pub polkit: PolkitFacts,
    /// What the login keyring reports.
    pub secrets: Report,
    pub enrollment: EnrollmentFacts,
    pub ir_pair: bool,
    pub wiring: WiringFacts,
    /// What stray files report.
    pub strays: Report,
}

/// The hardware half of the report.
pub open spec fn machine_report(r: ReportV, f: DoctorFacts) -> ReportV {
    let a = seal_report(platform_report(r, f.platform), f.seals);
    let b = camera_report(a, f.cameras);
    let c = match f.streams {
        Some((rgb, ir)) => streams_report(b, ir, f.ir_minimum, rgb, f.rgb_minimum),
        None => streams_report(
            b,
            StreamLook::NoNode,
            f.ir_minimum,
            StreamLook::NoNode,
            f.rgb_minimum,
        ),
    };
    stages_report(runtime_report(models_report(c, f.models), f.models), f.models)
}

/// The account half of the report.
pub open spec fn account_report(r: ReportV, f: DoctorFacts) -> ReportV {
    let a = template_report(fingerprint_report(r, f.fingerprint), f.user@, f.recovery);
    let b = polkit_report(a, f.polkit).append(f.secrets@);
    let c = calibration_report(
        groups_report(b, f.enrollment),
        f.user@,
        f.enrollment,
        f.ir_pair,
    );
    wiring_report(c, f.user@, f.enrollment.enrolled, f.wiring).append(f.strays@)
}

pub open spec fn doctor_report(f: DoctorFacts) -> ReportV {
    account_report(machine_report(ReportV::empty(), f), f)
}

/// One pass over what was found.
pub fn doctor_run(f: DoctorFacts) -> (r: Report)
    ensures
        r@ == doctor_report(f),
{
    let mut r = Report::new();
    report_platform(&mut r, &f.platform);
    report_seals(&mut r, &f.seals);
    report_cameras(&mut r, &f.cameras);
    selected_stream_minimum_checks(&mut r, f.streams, &f.ir_minimum, &f.rgb_minimum);
    report_models(&mut r, &f.models);
    report_fingerprint(&mut r, &f.fingerprint);
    report_templates(&mut r, f.user.as_str(), &f.recovery);
    report_polkit(&mut r, &f.polkit);
    r.append(f.secrets);
    report_groups(&mut r, &f.enrollment);
    report_calibration(&mut r, f.user.as_str(), &f.enrollment, f.ir_pair);
    report_wiring(&mut r, f.user.as_str(), f.enrollment.enrolled, &f.wiring);
    r.append(f.strays);
    r
}

pub open spec fn summary_of(r: ReportV) -> (nat, nat) {
    (count_state(r.checks, State::Warn), count_state(r.checks, State::Fail))
}

pub open spec fn summary_line(warnings: nat, failures: nat) -> Seq<char> {
    "[doctor] summary: "@ + decimal(warnings) + " warning(s), "@ + decimal(failures)
        + " failure(s). Scripts: `irlume doctor --check` exits 1 on warnings, 2 on failures."@
}

/// How `doctor` ends: its lines, a summary where something is wrong, and the
/// verdict as the exit code where it was asked for.
pub open spec fn doctor_outcome(r: ReportV, wants_check: bool) -> OutcomeV {
    let (warnings, failures) = summary_of(r);
    let shown = crate::console::outs(r.lines);
    OutcomeV {
        says: if warnings + failures > 0 {
            shown.push(SayV::Out(summary_line(warnings, failures)))
        } else {
            shown
        },
        exit: if !wants_check {
            0
        } else if failures > 0 {
            2
        } else if warnings > 0 {
            1
        } else {
            0
        },
    }
}

/// Prints a report for a person.
pub fn doctor(args: &[String], report: &Report) -> (r: Outcome)
    ensures
        r@ == doctor_outcome(report@, texts(args@).contains("--check"@)),
{
    let summary = report.summary();
    let mut console = Console::new();
    console.extend_out(&report.lines);
    proof {
        assert(Seq::<SayV>::empty() + crate::console::outs(report@.lines)
            =~= crate::console::outs(report@.lines));
    }
    if summary.warnings > 0 || summary.failures > 0 {
        let warnings = dec(summary.warnings as u64);
        let failures = dec(summary.failures as u64);
        console.out(
            cat5(
                "[doctor] summary: ",
                warnings.as_str(),
                " warning(s), ",
                failures.as_str(),
                " failure(s). Scripts: `irlume doctor --check` exits 1 on warnings, 2 on failures.",
            ),
        );
    }
    let exit: u8 = if doctor_wants_check(args) {
        summary.check_exit_code()
    } else {
        0
    };
    Outcome { console, exit }
}

// ---- the machine's report ----

pub open spec fn state_word(s: State) -> Seq<char> {
    match s {
        State::Pass => "pass"@,
        State::Info => "info"@,
        State::Warn => "warn"@,
        State::Fail => "fail"@,
        State::Unknown => "unknown"@,
    }
}

/// A check as a program reads it. One without detail has no such field.
pub open spec fn check_json(c: CheckV) -> JsonV {
    let fields = no_fields().push(("id"@, JsonV::Str(c.id))).push(
        ("state"@, JsonV::Str(state_word(c.state))),
    );
    JsonV::Obj(
        match c.detail {
            Some(d) => fields.push(("detail"@, JsonV::Str(d))),
            None => fields,
        },
    )
}

pub open spec fn check_jsons(v: Seq<CheckV>) -> Seq<JsonV> {
    v.map_values(|c: CheckV| check_json(c))
}

fn check_value(c: &Check) -> (r: Json)
    ensures
        r@ == check_json(c@),
{
    let word = match c.state {
        State::Pass => "pass",
        State::Info => "info",
        State::Warn => "warn",
        State::Fail => "fail",
        State::Unknown => "unknown",
    };
    let mut o = JsonObj::new();
    o.put("id", Json::text(c.id.as_str()));
    o.put("state", Json::text(word));
    match &c.detail {
        Some(d) => {
            o.put("detail", Json::text(d.as_str()));
        },
        None => {},
    }
    Json::obj(o)
}

/// Answers `doctor --json` with the checks of a report.
pub fn doctor_reply(report: &Report, contract: u32) -> (r: Reply)
    ensures
        r@ == answered(
            "doctor"@,
            JsonV::Obj(
                no_fields().push(("checks"@, JsonV::Arr(check_jsons(report@.checks)))),
            ),
            contract,
        ),
{
    let mut a = JsonArr::new();
    let ghost want = check_jsons(report@.checks);
    let mut i: usize = 0;
    proof {
        assert(want.take(0) =~= Seq::<JsonV>::empty());
    }
    while i < report.checks.len()
        invariant
            i <= report.checks@.len(),
            want == check_jsons(report@.checks),
            a@ == want.take(i as int),
        decreases report.checks@.len() - i,
    {
        a.put(check_value(&report.checks[i]));
        proof {
            assert(report@.checks[i as int] == report.checks@[i as int]@);
            assert(want[i as int] == check_json(report.checks@[i as int]@));
            assert(a@ =~= want.take(i + 1));
        }
        i = i + 1;
    }
    proof {
        assert(want.take(want.len() as int) =~= want);
    }
    let mut o = JsonObj::new();
    o.put("checks", Json::arr(a));
    answer("doctor", Json::obj(o), contract)
}

// ---- what holds of every report ----

/// The ids of the checks on the machine, in order.
pub open spec fn machine_ids() -> Seq<Seq<char>> {
    Seq::<Seq<char>>::empty().push("platform"@).push("install-origin"@).push("tpm"@).push("secure-boot"@).push("boot-mode"@).push("emitter-undo-pending"@).push("emitter-stream-pending"@).push("capture-mode"@).push("signed-pcr-policy"@).push("pcrlock"@).push("camera-nodes"@).push("ir-stream-hello-minimum"@).push("rgb-stream-hello-minimum"@).push("models"@).push("ort-dylib-path"@).push("onnxruntime"@).push("stage-detection-model"@).push("stage-recognition-model"@)
}

/// The ids of the checks on the account, up to the login keyring.
pub open spec fn account_ids() -> Seq<Seq<char>> {
    Seq::<Seq<char>>::empty().push("fingerprint-reader"@).push("templates"@).push("recovery-passphrase"@).push("credential-release-challenge"@).push("polkit-app-prompts"@).push("polkit-helper-sandbox"@)
}

/// The ids of the checks on the enrollment and the login wiring.
pub open spec fn wiring_ids() -> Seq<Seq<char>> {
    Seq::<Seq<char>>::empty().push("camera-groups"@).push("ir-calibration"@).push("login-wiring"@).push("display-manager"@).push("pam-regeneration-guard"@)
}

/// Whether a step of the pass adds exactly the checks `more`, in order.
spec fn adds(before: ReportV, after: ReportV, more: Seq<Seq<char>>) -> bool {
    after.ids() == before.ids() + more
}

proof fn platform_checks(r: ReportV, f: PlatformFacts)
    ensures
        adds(
            r,
            platform_report(r, f),
            Seq::<Seq<char>>::empty().push("platform"@).push("install-origin"@).push("tpm"@).push("secure-boot"@).push("boot-mode"@),
        ),
{
    assert(platform_report(r, f).ids() =~= r.ids() + Seq::<Seq<char>>::empty().push("platform"@).push("install-origin"@).push("tpm"@).push("secure-boot"@).push("boot-mode"@));
}

proof fn seal_checks(r: ReportV, f: SealFacts)
    ensures
        adds(
            r,
            seal_report(r, f),
            Seq::<Seq<char>>::empty().push("emitter-undo-pending"@).push("emitter-stream-pending"@).push("capture-mode"@).push("signed-pcr-policy"@).push("pcrlock"@),
        ),
{
    assert(seal_report(r, f).ids() =~= r.ids() + Seq::<Seq<char>>::empty().push("emitter-undo-pending"@).push("emitter-stream-pending"@).push("capture-mode"@).push("signed-pcr-policy"@).push("pcrlock"@));
}

proof fn camera_checks(r: ReportV, f: CameraFacts)
    ensures
        adds(r, camera_report(r, f), Seq::<Seq<char>>::empty().push("camera-nodes"@)),
{
    assert(camera_report(r, f).ids() =~= r.ids() + Seq::<Seq<char>>::empty().push("camera-nodes"@));
}

proof fn stream_checks(
    r: ReportV,
    ir: StreamLook,
    ir_min: StreamMinimum,
    rgb: StreamLook,
    rgb_min: StreamMinimum,
)
    ensures
        adds(
            r,
            streams_report(r, ir, ir_min, rgb, rgb_min),
            Seq::<Seq<char>>::empty().push("ir-stream-hello-minimum"@).push("rgb-stream-hello-minimum"@),
        ),
{
    assert(streams_report(r, ir, ir_min, rgb, rgb_min).ids() =~= r.ids() + Seq::<Seq<char>>::empty().push("ir-stream-hello-minimum"@).push("rgb-stream-hello-minimum"@));
}

proof fn model_checks(r: ReportV, f: ModelFacts)
    ensures
        adds(
            r,
            stages_report(runtime_report(models_report(r, f), f), f),
            Seq::<Seq<char>>::empty().push("models"@).push("ort-dylib-path"@).push("onnxruntime"@).push("stage-detection-model"@).push("stage-recognition-model"@),
        ),
{
    let a = models_report(r, f);
    assert(a.ids() =~= r.ids().push("models"@));
    let b = runtime_report(a, f);
    assert(b.ids() =~= a.ids().push("ort-dylib-path"@).push("onnxruntime"@));
    let c = stages_report(b, f);
    assert(c.ids() =~= b.ids().push("stage-detection-model"@).push("stage-recognition-model"@));
    assert(c.ids() =~= r.ids() + Seq::<Seq<char>>::empty().push("models"@).push("ort-dylib-path"@).push("onnxruntime"@).push("stage-detection-model"@).push("stage-recognition-model"@));
}

/// The checks on the machine up to the camera nodes.
proof fn trust_checks(r: ReportV, f: DoctorFacts)
    ensures
        adds(
            r,
            camera_report(seal_report(platform_report(r, f.platform), f.seals), f.cameras),
            machine_ids().take(11),
        ),
{
    let a = platform_report(r, f.platform);
    platform_checks(r, f.platform);
    let b = seal_report(a, f.seals);
    seal_checks(a, f.seals);
    let c = camera_report(b, f.cameras);
    camera_checks(b, f.cameras);
    assert(c.ids() =~= r.ids() + machine_ids().take(11));
}

#[verifier::spinoff_prover]
proof fn machine_checks(r: ReportV, f: DoctorFacts)
    ensures
        adds(r, machine_report(r, f), machine_ids()),
{
    let c = camera_report(seal_report(platform_report(r, f.platform), f.seals), f.cameras);
    trust_checks(r, f);
    let (rgb, ir) = match f.streams {
        Some((rgb, ir)) => (rgb, ir),
        None => (StreamLook::NoNode, StreamLook::NoNode),
    };
    let d = streams_report(c, ir, f.ir_minimum, rgb, f.rgb_minimum);
    stream_checks(c, ir, f.ir_minimum, rgb, f.rgb_minimum);
    assert(d.ids() =~= r.ids() + machine_ids().take(13));
    model_checks(d, f.models);
    assert(machine_report(r, f).ids() =~= r.ids() + machine_ids());
}

proof fn reader_checks(
    r: ReportV,
    f: FingerprintFacts,
    user: Seq<char>,
    recovery: Option<RecoveryFacts>,
)
    ensures
        adds(
            r,
            template_report(fingerprint_report(r, f), user, recovery),
            Seq::<Seq<char>>::empty().push("fingerprint-reader"@).push("templates"@).push("recovery-passphrase"@),
        ),
{
    let a = fingerprint_report(r, f);
    assert(a.ids() =~= r.ids().push("fingerprint-reader"@));
    let b = template_report(a, user, recovery);
    assert(b.ids() =~= a.ids().push("templates"@).push("recovery-passphrase"@));
    assert(b.ids() =~= r.ids() + Seq::<Seq<char>>::empty().push("fingerprint-reader"@).push("templates"@).push("recovery-passphrase"@));
}

proof fn polkit_checks(r: ReportV, f: PolkitFacts)
    ensures
        adds(
            r,
            polkit_report(r, f),
            Seq::<Seq<char>>::empty().push("credential-release-challenge"@).push("polkit-app-prompts"@).push("polkit-helper-sandbox"@),
        ),
{
    assert(polkit_report(r, f).ids() =~= r.ids() + Seq::<Seq<char>>::empty().push("credential-release-challenge"@).push("polkit-app-prompts"@).push("polkit-helper-sandbox"@));
}

proof fn enrollment_checks(r: ReportV, user: Seq<char>, f: EnrollmentFacts, ir_pair: bool)
    ensures
        adds(
            r,
            calibration_report(groups_report(r, f), user, f, ir_pair),
            Seq::<Seq<char>>::empty().push("camera-groups"@).push("ir-calibration"@),
        ),
{
    let a = groups_report(r, f);
    assert(a.ids() =~= r.ids().push("camera-groups"@));
    let b = calibration_report(a, user, f, ir_pair);
    assert(b.ids() =~= a.ids().push("ir-calibration"@));
    assert(b.ids() =~= r.ids() + Seq::<Seq<char>>::empty().push("camera-groups"@).push("ir-calibration"@));
}

proof fn login_checks(r: ReportV, user: Seq<char>, enrolled: bool, f: WiringFacts)
    ensures
        adds(
            r,
            wiring_report(r, user, enrolled, f),
            Seq::<Seq<char>>::empty().push("login-wiring"@).push("display-manager"@).push("pam-regeneration-guard"@),
        ),
{
    assert(wiring_report(r, user, enrolled, f).ids() =~= r.ids() + Seq::<Seq<char>>::empty().push("login-wiring"@).push("display-manager"@).push("pam-regeneration-guard"@));
}

proof fn appended_checks(r: ReportV, more: ReportV)
    ensures
        adds(r, r.append(more), more.ids()),
{
    assert(r.append(more).ids() =~= r.ids() + more.ids());
}

#[verifier::spinoff_prover]
proof fn account_checks(r: ReportV, f: DoctorFacts)
    ensures
        adds(
            r,
            account_report(r, f),
            account_ids() + f.secrets@.ids() + wiring_ids() + f.strays@.ids(),
        ),
{
    let a = template_report(fingerprint_report(r, f.fingerprint), f.user@, f.recovery);
    reader_checks(r, f.fingerprint, f.user@, f.recovery);
    let b = polkit_report(a, f.polkit);
    polkit_checks(a, f.polkit);
    assert(b.ids() =~= r.ids() + account_ids());
    let c = b.append(f.secrets@);
    appended_checks(b, f.secrets@);
    let d = calibration_report(groups_report(c, f.enrollment), f.user@, f.enrollment, f.ir_pair);
    enrollment_checks(c, f.user@, f.enrollment, f.ir_pair);
    let e = wiring_report(d, f.user@, f.enrollment.enrolled, f.wiring);
    login_checks(d, f.user@, f.enrollment.enrolled, f.wiring);
    assert(e.ids() =~= c.ids() + wiring_ids());
    appended_checks(e, f.strays@);
    assert(account_report(r, f).ids() =~= r.ids() + (account_ids() + f.secrets@.ids()
        + wiring_ids() + f.strays@.ids()));
}

/// No check disappears because it had nothing to say: whatever was found, the
/// report holds the same checks in the same order. The login keyring and stray
/// files bring their own.
pub proof fn no_check_disappears(f: DoctorFacts)
    ensures
        doctor_report(f).ids() == machine_ids() + account_ids() + f.secrets@.ids() + wiring_ids()
            + f.strays@.ids(),
{
    let r = ReportV::empty();
    assert(r.ids() =~= Seq::<Seq<char>>::empty());
    machine_checks(r, f);
    assert(r.ids() + machine_ids() =~= machine_ids());
    account_checks(machine_report(r, f), f);
    assert(doctor_report(f).ids() =~= machine_ids() + account_ids() + f.secrets@.ids()
        + wiring_ids() + f.strays@.ids());
}

/// The two stream checks are always there, each once, whatever could be read.
pub proof fn both_streams_are_always_checked(
    r: ReportV,
    ir: StreamLook,
    ir_min: StreamMinimum,
    rgb: StreamLook,
    rgb_min: StreamMinimum,
)
    ensures
        streams_report(r, ir, ir_min, rgb, rgb_min).ids() == r.ids().push(
            "ir-stream-hello-minimum"@,
        ).push("rgb-stream-hello-minimum"@),
{
    assert(streams_report(r, ir, ir_min, rgb, rgb_min).ids() =~= r.ids().push(
        "ir-stream-hello-minimum"@,
    ).push("rgb-stream-hello-minimum"@));
}

/// A verdict of zero means that no check warns and none fails; a verdict of two,
/// that one fails.
pub proof fn a_clean_verdict_means_no_fault(r: ReportV)
    ensures
        doctor_outcome(r, true).exit == 0 <==> forall|i: int|
            0 <= i < r.checks.len() ==> (#[trigger] r.checks[i]).state != State::Warn
                && r.checks[i].state != State::Fail,
        doctor_outcome(r, true).exit == 2 <==> exists|i: int|
            0 <= i < r.checks.len() && (#[trigger] r.checks[i]).state == State::Fail,
{
    a_count_is_zero_without_such_a_check(r.checks, State::Warn);
    a_count_is_zero_without_such_a_check(r.checks, State::Fail);
}

/// A reader that is there passes, and one that is not is no fault. A warning about
/// it needs a stack that would use it.
pub proof fn a_missing_reader_is_no_fault(r: ReportV, f: FingerprintFacts)
    ensures
        ({
            let a = fingerprint_report(r, f);
            &&& a.checks.len() == r.checks.len() + 1
            &&& a.checks.drop_last() == r.checks
            &&& a.checks.last().id == "fingerprint-reader"@
            &&& a.checks.last().state == State::Pass <==> f.available
            &&& a.checks.last().state == State::Info <==> !f.available
            &&& !f.fprintd ==> a.lines.len() == r.lines.len() + 1
            &&& f.fprintd && f.stuck ==> a.lines.contains(STUCK_LINE@)
            &&& f.fprintd && f.shares_faillock ==> a.lines.contains(FAILLOCK_LINE@)
            &&& f.fprintd && f.in_sudo && f.sshd ==> a.lines.contains(SSH_LINE@)
        }),
{
    let a = fingerprint_report(r, f);
    assert(a.checks.drop_last() =~= r.checks);
    if f.fprintd {
        let n = a.lines.len() as int;
        let ssh: int = if f.in_sudo && f.sshd {
            1
        } else {
            0
        };
        let lock: int = if f.shares_faillock {
            1
        } else {
            0
        };
        if f.in_sudo && f.sshd {
            assert(a.lines[n - 1] == SSH_LINE@);
        }
        if f.shares_faillock {
            assert(a.lines[n - 1 - ssh] == FAILLOCK_LINE@);
        }
        if f.stuck {
            assert(a.lines[n - 1 - ssh - lock] == STUCK_LINE@);
        }
    }
}

/// Templates fail exactly where they are encrypted and their key is gone, pass
/// exactly where they are encrypted and it is there, and warn where they are
/// plain; a passphrase passes exactly where one is set. Where the daemon could not
/// be asked, nothing is claimed of either.
pub proof fn only_a_lost_template_key_fails(
    r: ReportV,
    user: Seq<char>,
    f: Option<RecoveryFacts>,
)
    ensures
        ({
            let c = template_report(r, user, f).checks;
            let n = r.checks.len() as int;
            &&& c.len() == n + 2
            &&& c.take(n) == r.checks
            &&& c[n].id == "templates"@ && c[n + 1].id == "recovery-passphrase"@
            &&& c[n].state == State::Fail <==> (f matches Some(k) && k.encrypted && !k.key_present)
            &&& c[n].state == State::Pass <==> (f matches Some(k) && k.encrypted && k.key_present)
            &&& c[n].state == State::Warn <==> (f matches Some(k) && !k.encrypted)
            &&& c[n].state == State::Unknown <==> f is None
            &&& c[n + 1].state == State::Pass <==> (f matches Some(k) && k.recovery_set)
            &&& c[n + 1].state == State::Warn <==> (f matches Some(k) && !k.recovery_set)
            &&& c[n + 1].state == State::Unknown <==> f is None
            &&& c[n].state == State::Fail ==> c[n].detail == Some(f->0.advice@)
        }),
{
    assert(template_report(r, user, f).checks.take(r.checks.len() as int) =~= r.checks);
}

/// The helper's sandbox warns exactly where the helper is active and some line of
/// its unit hides /run, and passes where a unit is there and does neither.
pub proof fn only_an_active_helper_that_hides_the_socket_warns(
    r: ReportV,
    unit: Option<String>,
    socket_active: bool,
)
    ensures
        ({
            let a = sandbox_report(r, unit, socket_active);
            let hidden = unit is Some && exists|i: int|
                0 <= i < lines_of(unit->0@).len() && #[trigger] hides(lines_of(unit->0@)[i]);
            &&& a.checks.len() == r.checks.len() + 1
            &&& a.checks.drop_last() == r.checks
            &&& a.checks.last().id == "polkit-helper-sandbox"@
            &&& a.checks.last().state == State::Warn <==> socket_active && hidden
            &&& a.checks.last().state == State::Pass <==> unit is Some && !(socket_active
                && hidden)
            &&& a.checks.last().state == State::Info <==> unit is None
        }),
{
    assert(sandbox_report(r, unit, socket_active).checks.drop_last() =~= r.checks);
}

/// Which lines of a unit hide /run: a root directory that names one, and a path or
/// a file system that covers it; every other key leaves it visible.
pub proof fn a_line_hides_run_only_under_three_keys(line: Seq<char>)
    ensures
        hides(line) ==> "RootDirectory="@.is_prefix_of(trimmed(line)) || "InaccessiblePaths="@.is_prefix_of(
            trimmed(line),
        ) || "TemporaryFileSystem="@.is_prefix_of(trimmed(line)),
        "RootDirectory="@.is_prefix_of(trimmed(line)) && !("="@.is_suffix_of(trimmed(line)))
            ==> hides(line),
        "InaccessiblePaths="@.is_prefix_of(trimmed(line)) && occurs(trimmed(line), "/run"@)
            ==> hides(line),
        "TemporaryFileSystem="@.is_prefix_of(trimmed(line)) && occurs(trimmed(line), "/run"@)
            ==> hides(line),
{
}

/// Prompts of polkit pass exactly where they are wired, are no fault where they
/// are not, and are unknown where polkit has no stack; its helper is looked at
/// only where they are wired.
pub proof fn unwired_prompts_are_no_fault(r: ReportV, f: PolkitFacts)
    ensures
        ({
            let c = polkit_report(r, f).checks;
            let n = r.checks.len() as int;
            let hidden = f.helper_unit is Some && exists|i: int|
                0 <= i < lines_of(f.helper_unit->0@).len() && #[trigger] hides(
                    lines_of(f.helper_unit->0@)[i],
                );
            &&& c.len() == n + 3
            &&& c.take(n) == r.checks
            &&& c[n].state == State::Info
            &&& c[n + 1].state == State::Pass <==> f.wired == Some(true)
            &&& c[n + 1].state == State::Info <==> f.wired == Some(false)
            &&& c[n + 1].state == State::Unknown <==> f.wired is None
            &&& c[n + 2].state == State::Warn <==> f.wired == Some(true) && f.helper_socket_active
                && hidden
            &&& f.wired != Some(true) ==> c[n + 2].state == State::Info
        }),
{
    assert(polkit_report(r, f).checks.take(r.checks.len() as int) =~= r.checks);
}

/// The camera groups warn exactly where their store is broken or some group is
/// stale or disconnected, pass exactly where there are groups and each is neither,
/// and each group has a line of its own.
pub proof fn one_sick_group_warns(r: ReportV, f: EnrollmentFacts)
    ensures
        ({
            let a = groups_report(r, f);
            let sick = exists|i: int|
                0 <= i < f.groups@.len() && ((#[trigger] f.groups@[i]).stale
                    || !f.groups@[i].connected);
            &&& a.checks.len() == r.checks.len() + 1
            &&& a.checks.drop_last() == r.checks
            &&& a.checks.last().id == "camera-groups"@
            &&& a.checks.last().state == State::Warn <==> f.store_error is Some || sick
            &&& a.checks.last().state == State::Pass <==> f.store_error is None && f.groups@.len()
                > 0 && !sick
            &&& a.checks.last().state == State::Info <==> f.store_error is None && f.groups@.len()
                == 0
            &&& f.store_error is None ==> a.lines.len() == r.lines.len() + f.groups@.len()
        }),
{
    assert(groups_report(r, f).checks.drop_last() =~= r.checks);
    if exists|i: int|
        0 <= i < f.groups@.len() && ((#[trigger] f.groups@[i]).stale || !f.groups@[i].connected) {
        let i = choose|i: int|
            0 <= i < f.groups@.len() && ((#[trigger] f.groups@[i]).stale
                || !f.groups@[i].connected);
        assert(!group_ok(f.groups@[i]));
    } else {
        assert forall|i: int| 0 <= i < f.groups@.len() implies group_ok(#[trigger] f.groups@[i]) by {
            assert(!f.groups@[i].stale && f.groups@[i].connected);
        }
    }
}

/// The per-user floor warns exactly where somebody is enrolled, the machine has an
/// infrared pair, and the floor is not in force; it passes exactly where it is.
pub proof fn only_a_missing_floor_warns(
    r: ReportV,
    user: Seq<char>,
    f: EnrollmentFacts,
    ir_pair: bool,
)
    ensures
        ({
            let a = calibration_report(r, user, f, ir_pair);
            &&& a.checks.len() == r.checks.len() + 1
            &&& a.checks.drop_last() == r.checks
            &&& a.checks.last().id == "ir-calibration"@
            &&& a.checks.last().state == State::Warn <==> f.enrolled && ir_pair
                && !f.ir_ratio_calibrated
            &&& a.checks.last().state == State::Pass <==> f.enrolled && ir_pair
                && f.ir_ratio_calibrated
            &&& a.lines.len() > r.lines.len() <==> a.checks.last().state == State::Warn
        }),
{
    assert(calibration_report(r, user, f, ir_pair).checks.drop_last() =~= r.checks);
}

/// The login is at fault exactly where somebody is enrolled and the active stack is
/// not wired; a display manager warns exactly where it is there and cannot be
/// wired; the guard warns exactly where something is wired, a tool rewrites the
/// stacks, and the watcher is not active.
pub proof fn only_an_enrolled_login_can_be_unwired(
    r: ReportV,
    user: Seq<char>,
    enrolled: bool,
    f: WiringFacts,
)
    ensures
        ({
            let c = wiring_report(r, user, enrolled, f).checks;
            let n = r.checks.len() as int;
            let rewritten = f.any_login && (f.authselect_active || f.pam_auth_update);
            &&& c.len() == n + 3
            &&& c.take(n) == r.checks
            &&& c[n].id == "login-wiring"@ && c[n + 1].id == "display-manager"@ && c[n + 2].id
                == "pam-regeneration-guard"@
            &&& c[n].state == State::Pass <==> f.active_login
            &&& c[n].state == State::Warn <==> enrolled && !f.active_login
            &&& c[n + 1].state == State::Pass <==> (f.display_manager matches Some((_, known))
                && known)
            &&& c[n + 1].state == State::Warn <==> (f.display_manager matches Some((_, known))
                && !known)
            &&& c[n + 1].state == State::Info <==> f.display_manager is None
            &&& c[n + 2].state == State::Pass <==> rewritten && f.watcher_active
            &&& c[n + 2].state == State::Warn <==> rewritten && !f.watcher_active
            &&& c[n + 2].state == State::Info <==> !rewritten
        }),
{
    assert(wiring_report(r, user, enrolled, f).checks.take(r.checks.len() as int) =~= r.checks);
}

/// Of two tools that could rewrite the stacks, an active authselect is the one.
pub proof fn an_active_authselect_is_the_regenerator(authselect: bool, pam_auth_update: bool)
    ensures
        regenerator(authselect, pam_auth_update) is None <==> !authselect && !pam_auth_update,
        authselect ==> regenerator(authselect, pam_auth_update) == Some("authselect"@),
        !authselect && pam_auth_update ==> regenerator(authselect, pam_auth_update) == Some(
            "pam-auth-update"@,
        ),
{
}

/// The first ten checks of every report: what they say of the platform, the
/// emitter and the seals is what was found there.
#[verifier::spinoff_prover]
proof fn the_machine_half_keeps_its_places(f: DoctorFacts)
    ensures
        ({
            let a = platform_report(ReportV::empty(), f.platform);
            let b = seal_report(a, f.seals);
            let c = camera_report(b, f.cameras);
            let m = machine_report(ReportV::empty(), f);
            &&& a.checks.len() == 5 && b.checks.len() == 10 && c.checks.len() == 11
                && m.checks.len() == 18
            &&& m.checks.take(5) == a.checks
            &&& m.checks.take(10) == b.checks
            &&& m.checks.take(11) == c.checks
        }),
{
    let r = ReportV::empty();
    let a = platform_report(r, f.platform);
    let b = seal_report(a, f.seals);
    let c = camera_report(b, f.cameras);
    a_machine_without_a_tpm_fails(r, f.platform);
    the_seals_say_what_protects_them(a, f.seals);
    only_an_infrared_camera_passes(b, f.cameras);
    let (rgb, ir) = match f.streams {
        Some((rgb, ir)) => (rgb, ir),
        None => (StreamLook::NoNode, StreamLook::NoNode),
    };
    let d = stream_report(c, "ir-stream-hello-minimum"@, "IR"@, ir, f.ir_minimum);
    let e = stream_report(d, "rgb-stream-hello-minimum"@, "RGB"@, rgb, f.rgb_minimum);
    only_a_stream_that_falls_short_warns(c, "ir-stream-hello-minimum"@, "IR"@, ir, f.ir_minimum);
    only_a_stream_that_falls_short_warns(d, "rgb-stream-hello-minimum"@, "RGB"@, rgb, f.rgb_minimum);
    models_fail_unless_both_can_be_read(e, f.models);
    let g = models_report(e, f.models);
    an_unusable_runtime_fails(g, f.models);
    let h = runtime_report(g, f.models);
    the_two_required_stages_are_checked(h, f.models);
    let m = machine_report(r, f);
    assert(m == stages_report(h, f.models));
    assert(m.checks.take(16) == h.checks);
    assert(h.checks.take(14) == g.checks);
    assert(g.checks.drop_last() == e.checks);
    assert(e.checks.drop_last() == d.checks);
    assert(d.checks.drop_last() == c.checks);
    assert(m.checks.take(11) =~= c.checks) by {
        assert forall|i: int| 0 <= i < 11 implies m.checks[i] == c.checks[i] by {
            assert(m.checks.take(16)[i] == m.checks[i]);
            assert(h.checks.take(14)[i] == h.checks[i]);
            assert(g.checks.drop_last()[i] == g.checks[i]);
            assert(e.checks.drop_last()[i] == e.checks[i]);
            assert(d.checks.drop_last()[i] == d.checks[i]);
        }
    }
    assert(m.checks.take(10) =~= b.checks) by {
        assert forall|i: int| 0 <= i < 10 implies m.checks[i] == b.checks[i] by {
            assert(m.checks.take(11)[i] == m.checks[i]);
            assert(c.checks.take(10)[i] == c.checks[i]);
        }
    }
    assert(m.checks.take(5) =~= a.checks) by {
        assert forall|i: int| 0 <= i < 5 implies m.checks[i] == a.checks[i] by {
            assert(m.checks.take(10)[i] == m.checks[i]);
            assert(b.checks.take(5)[i] == b.checks[i]);
        }
    }
}

#[verifier::spinoff_prover]
proof fn the_account_half_keeps_what_was_there(r: ReportV, f: DoctorFacts)
    ensures
        account_report(r, f).checks.len() == r.checks.len() + 11 + f.secrets@.checks.len()
            + f.strays@.checks.len(),
        account_report(r, f).checks.take(r.checks.len() as int) == r.checks,
{
    let a = fingerprint_report(r, f.fingerprint);
    a_missing_reader_is_no_fault(r, f.fingerprint);
    let b = template_report(a, f.user@, f.recovery);
    only_a_lost_template_key_fails(a, f.user@, f.recovery);
    let c = polkit_report(b, f.polkit);
    unwired_prompts_are_no_fault(b, f.polkit);
    let d = c.append(f.secrets@);
    let e = groups_report(d, f.enrollment);
    one_sick_group_warns(d, f.enrollment);
    let g = calibration_report(e, f.user@, f.enrollment, f.ir_pair);
    only_a_missing_floor_warns(e, f.user@, f.enrollment, f.ir_pair);
    let h = wiring_report(g, f.user@, f.enrollment.enrolled, f.wiring);
    only_an_enrolled_login_can_be_unwired(g, f.user@, f.enrollment.enrolled, f.wiring);
    let k = h.append(f.strays@);
    assert(account_report(r, f) == k);
    let n = r.checks.len() as int;
    assert forall|i: int| 0 <= i < n implies k.checks[i] == r.checks[i] by {
        assert(g.checks == h.checks.take(g.checks.len() as int));
        assert(e.checks == g.checks.drop_last());
        assert(d.checks == e.checks.drop_last());
        assert(b.checks == c.checks.take(b.checks.len() as int));
        assert(a.checks == b.checks.take(a.checks.len() as int));
        assert(r.checks == a.checks.drop_last());
    }
    assert(k.checks.take(n) =~= r.checks);
}

/// In every report, whatever else was found: the TPM check passes exactly where
/// there is one, the Secure Boot check exactly where it is present and enabled,
/// each ledger exactly where it is clear, and the camera check exactly where some
/// node is an infrared one. A machine without a TPM or a camera, and one whose
/// Secure Boot is off, has no clean verdict.
pub proof fn the_report_says_what_the_machine_is(f: DoctorFacts)
    ensures
        ({
            let c = doctor_report(f).checks;
            let boot = f.platform.secure_boot;
            let infrared = exists|i: int|
                0 <= i < f.cameras.infrared@.len() && #[trigger] f.cameras.infrared@[i];
            &&& c.len() >= 29
            &&& c[2].id == "tpm"@ && c[3].id == "secure-boot"@ && c[10].id == "camera-nodes"@
            &&& c[2].state == State::Pass <==> f.platform.tpm is Some
            &&& c[2].state == State::Fail <==> f.platform.tpm is None
            &&& c[3].state == State::Pass <==> boot.present && boot.enabled
            &&& c[3].state == State::Warn <==> boot.present && !boot.enabled
            &&& c[5].state == State::Pass <==> f.seals.setup_ledger is Clear
            &&& c[6].state == State::Pass <==> f.seals.stream_ledger is Clear
            &&& c[10].state == State::Pass <==> infrared
            &&& c[10].state == State::Fail <==> f.cameras.infrared@.len() == 0
            &&& f.platform.tpm is None || f.cameras.infrared@.len() == 0 ==> doctor_outcome(
                doctor_report(f),
                true,
            ).exit == 2
            &&& boot.present && !boot.enabled ==> doctor_outcome(doctor_report(f), true).exit >= 1
        }),
{
    let r = ReportV::empty();
    let m = machine_report(r, f);
    the_machine_half_keeps_its_places(f);
    the_account_half_keeps_what_was_there(m, f);
    let c = doctor_report(f).checks;
    let a = platform_report(r, f.platform);
    let b = seal_report(a, f.seals);
    a_machine_without_a_tpm_fails(r, f.platform);
    the_seals_say_what_protects_them(a, f.seals);
    only_an_infrared_camera_passes(b, f.cameras);
    assert(c.take(18) == m.checks);
    assert(c[2] == c.take(18)[2] && m.checks[2] == m.checks.take(5)[2]);
    assert(c[3] == c.take(18)[3] && m.checks[3] == m.checks.take(5)[3]);
    assert(c[5] == c.take(18)[5] && m.checks[5] == m.checks.take(10)[5]);
    assert(c[6] == c.take(18)[6] && m.checks[6] == m.checks.take(10)[6]);
    assert(c[10] == c.take(18)[10] && m.checks[10] == m.checks.take(11)[10]);
    a_clean_verdict_means_no_fault(doctor_report(f));
    if f.platform.tpm is None {
        assert(doctor_report(f).checks[2].state == State::Fail);
    }
    if f.cameras.infrared@.len() == 0 {
        assert(doctor_report(f).checks[10].state == State::Fail);
    }
    if f.platform.secure_boot.present && !f.platform.secure_boot.enabled {
        assert(doctor_report(f).checks[3].state == State::Warn);
    }
}

/// In every report: the infrared stream is judged by the infrared look and the
/// color stream by the color look; the models pass exactly where they are loaded or both can be read, the runtime
/// exactly where it could be used, and each stage exactly where its own file can
/// be read.
#[verifier::spinoff_prover]
pub proof fn the_report_says_what_would_be_loaded(f: DoctorFacts)
    ensures
        ({
            let c = doctor_report(f).checks;
            let m = f.models;
            let detection = m.detection matches Some(k) && k.readable;
            let recognition = m.recognition matches Some(k) && k.readable;
            &&& c.len() >= 29
            &&& c[11].id == "ir-stream-hello-minimum"@ && c[12].id == "rgb-stream-hello-minimum"@
            &&& c[11].state == State::Pass <==> (f.streams matches Some((_, ir))
                && ir matches StreamLook::Negotiated(s) && s.meets == Some(true))
            &&& c[11].state == State::Warn <==> (f.streams matches Some((_, ir))
                && ir matches StreamLook::Negotiated(s) && s.meets == Some(false))
            &&& c[12].state == State::Pass <==> (f.streams matches Some((rgb, _))
                && rgb matches StreamLook::Negotiated(s) && s.meets == Some(true))
            &&& c[12].state == State::Warn <==> (f.streams matches Some((rgb, _))
                && rgb matches StreamLook::Negotiated(s) && s.meets == Some(false))
            &&& c[13].state == State::Pass <==> m.loaded || (recognition && detection)
            &&& c[13].state == State::Fail <==> !m.loaded && !(recognition && detection)
            &&& c[15].state == State::Pass <==> m.runtime_verdict is Ok
            &&& c[15].state == State::Fail <==> m.runtime_verdict is Err
            &&& c[16].state == State::Pass <==> detection
            &&& c[16].state == State::Fail <==> !detection
            &&& c[17].state == State::Pass <==> recognition
            &&& c[17].state == State::Fail <==> !recognition
        }),
{
    let r = ReportV::empty();
    let c = camera_report(seal_report(platform_report(r, f.platform), f.seals), f.cameras);
    the_machine_half_keeps_its_places(f);
    let (rgb, ir) = match f.streams {
        Some((rgb, ir)) => (rgb, ir),
        None => (StreamLook::NoNode, StreamLook::NoNode),
    };
    let d = stream_report(c, "ir-stream-hello-minimum"@, "IR"@, ir, f.ir_minimum);
    let e = stream_report(d, "rgb-stream-hello-minimum"@, "RGB"@, rgb, f.rgb_minimum);
    only_a_stream_that_falls_short_warns(c, "ir-stream-hello-minimum"@, "IR"@, ir, f.ir_minimum);
    only_a_stream_that_falls_short_warns(d, "rgb-stream-hello-minimum"@, "RGB"@, rgb, f.rgb_minimum);
    models_fail_unless_both_can_be_read(e, f.models);
    let g = models_report(e, f.models);
    an_unusable_runtime_fails(g, f.models);
    let h = runtime_report(g, f.models);
    the_two_required_stages_are_checked(h, f.models);
    let m = machine_report(r, f);
    assert(m == stages_report(h, f.models));
    the_account_half_keeps_what_was_there(m, f);
    let k = doctor_report(f).checks;
    assert forall|i: int| 0 <= i < 18 implies k[i] == m.checks[i] by {
        assert(k.take(18)[i] == k[i]);
    }
    assert(m.checks[15] == m.checks.take(16)[15]);
    assert(m.checks[13] == m.checks.take(16)[13]);
    assert(m.checks[12] == m.checks.take(16)[12]);
    assert(m.checks[11] == m.checks.take(16)[11]);
    assert(h.checks[13] == h.checks.take(14)[13]);
    assert(h.checks[12] == h.checks.take(14)[12]);
    assert(h.checks[11] == h.checks.take(14)[11]);
    assert(g.checks[12] == g.checks.drop_last()[12]);
    assert(g.checks[11] == g.checks.drop_last()[11]);
    assert(e.checks[11] == e.checks.drop_last()[11]);
}

/// In every report, behind the machine's checks: the reader, the templates, the
/// passphrase and polkit's prompts, then what the login keyring reports, then the
/// groups, the floor and the wiring, then what stray files report; each says what
/// was found of it.
#[verifier::spinoff_prover]
#[verifier::rlimit(30)]
pub proof fn the_report_says_how_the_account_stands(f: DoctorFacts)
    ensures
        ({
            let c = doctor_report(f).checks;
            let n: int = 24 + f.secrets@.checks.len() as int;
            let e = f.enrollment;
            let sick = exists|i: int|
                0 <= i < e.groups@.len() && ((#[trigger] e.groups@[i]).stale
                    || !e.groups@[i].connected);
            &&& c.len() == n + 5 + f.strays@.checks.len()
            &&& c[18].state == State::Pass <==> f.fingerprint.available
            &&& c[19].state == State::Fail <==> (f.recovery matches Some(k) && k.encrypted
                && !k.key_present)
            &&& c[19].state == State::Pass <==> (f.recovery matches Some(k) && k.encrypted
                && k.key_present)
            &&& c[19].state == State::Warn <==> (f.recovery matches Some(k) && !k.encrypted)
            &&& c[20].state == State::Pass <==> (f.recovery matches Some(k) && k.recovery_set)
            &&& c[20].state == State::Warn <==> (f.recovery matches Some(k) && !k.recovery_set)
            &&& c[22].state == State::Pass <==> f.polkit.wired == Some(true)
            &&& c.subrange(24, n as int) == f.secrets@.checks
            &&& c[n as int].state == State::Warn <==> e.store_error is Some || sick
            &&& c[n + 1].state == State::Warn <==> e.enrolled && f.ir_pair && !e.ir_ratio_calibrated
            &&& c[n + 2].state == State::Pass <==> f.wiring.active_login
            &&& c[n + 2].state == State::Warn <==> e.enrolled && !f.wiring.active_login
            &&& c[n + 3].state == State::Warn <==> (f.wiring.display_manager matches Some((_, known))
                && !known)
            &&& c[n + 4].state == State::Warn <==> f.wiring.any_login && (f.wiring.authselect_active
                || f.wiring.pam_auth_update) && !f.wiring.watcher_active
            &&& c.skip(n + 5) == f.strays@.checks
        }),
{
    let m = machine_report(ReportV::empty(), f);
    the_machine_half_keeps_its_places(f);
    let a = fingerprint_report(m, f.fingerprint);
    a_missing_reader_is_no_fault(m, f.fingerprint);
    let b = template_report(a, f.user@, f.recovery);
    only_a_lost_template_key_fails(a, f.user@, f.recovery);
    let c = polkit_report(b, f.polkit);
    unwired_prompts_are_no_fault(b, f.polkit);
    let d = c.append(f.secrets@);
    let e = groups_report(d, f.enrollment);
    one_sick_group_warns(d, f.enrollment);
    let g = calibration_report(e, f.user@, f.enrollment, f.ir_pair);
    only_a_missing_floor_warns(e, f.user@, f.enrollment, f.ir_pair);
    let h = wiring_report(g, f.user@, f.enrollment.enrolled, f.wiring);
    only_an_enrolled_login_can_be_unwired(g, f.user@, f.enrollment.enrolled, f.wiring);
    let k = h.append(f.strays@);
    assert(doctor_report(f) == k);
    let n: int = 24 + f.secrets@.checks.len() as int;
    assert(g.checks.len() == n + 2);
    assert forall|i: int| 0 <= i < n + 2 implies k.checks[i] == g.checks[i] by {
        assert(h.checks.take(n + 2)[i] == h.checks[i]);
    }
    assert forall|i: int| 0 <= i < n implies k.checks[i] == d.checks[i] by {
        assert(g.checks.drop_last()[i] == g.checks[i]);
        assert(e.checks.drop_last()[i] == e.checks[i]);
    }
    assert(k.checks[n as int] == e.checks[n as int]) by {
        assert(g.checks.drop_last()[n as int] == g.checks[n as int]);
    }
    assert forall|i: int| 0 <= i < 24 implies k.checks[i] == c.checks[i] by {}
    assert forall|i: int| 0 <= i < 21 implies k.checks[i] == b.checks[i] by {
        assert(c.checks.take(21)[i] == c.checks[i]);
    }
    assert(k.checks[18] == a.checks[18]) by {
        assert(b.checks.take(19)[18] == b.checks[18]);
    }
    assert(k.checks.subrange(24, n as int) =~= f.secrets@.checks);
    assert(k.checks.skip(n + 5) =~= f.strays@.checks);
}

/// The exit code is a verdict only on request, and then the worst state decides:
/// two where a check fails, else one where a check warns, else zero.
pub proof fn the_worst_check_is_the_verdict(r: ReportV)
    ensures
        doctor_outcome(r, false).exit == 0,
        doctor_outcome(r, true).exit == 2 <==> exists|i: int|
            0 <= i < r.checks.len() && (#[trigger] r.checks[i]).state == State::Fail,
        doctor_outcome(r, true).exit == 1 <==> (exists|i: int|
            0 <= i < r.checks.len() && (#[trigger] r.checks[i]).state == State::Warn) && !(exists|
            i: int,
        |
            0 <= i < r.checks.len() && (#[trigger] r.checks[i]).state == State::Fail),
        doctor_outcome(r, true).says == doctor_outcome(r, false).says,
        doctor_outcome(r, true).says.len() >= r.lines.len(),
        forall|i: int|
            0 <= i < r.lines.len() ==> (#[trigger] doctor_outcome(r, true).says[i]) == SayV::Out(
                r.lines[i],
            ),
        doctor_outcome(r, true).says.len() == r.lines.len() <==> doctor_outcome(r, true).exit == 0,
{
    a_clean_verdict_means_no_fault(r);
    a_count_is_zero_without_such_a_check(r.checks, State::Warn);
    a_count_is_zero_without_such_a_check(r.checks, State::Fail);
}

/// A program reads each check, in order, under its id and the word of its state,
/// and no two states share a word.
pub proof fn a_program_reads_each_check(v: Seq<CheckV>, i: int)
    requires
        0 <= i < v.len(),
    ensures
        check_jsons(v).len() == v.len(),
        check_jsons(v)[i] is Obj,
        check_jsons(v)[i]->Obj_0.contains(("id"@, JsonV::Str(v[i].id))),
        check_jsons(v)[i]->Obj_0.contains(
            (
                "state"@,
                JsonV::Str(
                    match v[i].state {
                        State::Pass => "pass"@,
                        State::Info => "info"@,
                        State::Warn => "warn"@,
                        State::Fail => "fail"@,
                        State::Unknown => "unknown"@,
                    },
                ),
            ),
        ),
        v[i].detail matches Some(d) ==> check_jsons(v)[i]->Obj_0.contains(
            ("detail"@, JsonV::Str(d)),
        ),
{
    let o = check_jsons(v)[i]->Obj_0;
    assert(o[0] == ("id"@, JsonV::Str(v[i].id)));
    assert(o[1].0 == "state"@);
    if v[i].detail is Some {
        assert(o[2].0 == "detail"@);
    }
}

/// A report asks the daemon about one account, the one that it is about, and asks
/// nothing where no account is named.
pub proof fn a_report_is_about_one_account(
    args: Seq<Seq<char>>,
    sudo_user: Option<Seq<char>>,
    user: Option<Seq<char>>,
    root: bool,
)
    ensures
        ({
            let r = doctor_asks(args, sudo_user, user, root);
            let who = subject(args, sudo_user, user, root);
            &&& r is Ok <==> who is Some
            &&& r matches Err(o) ==> o.exit == 2
            &&& r matches Ok((account, asks)) ==> account == who->0 && asks.len() == 2 && asks[0]
                == (RequestV::RecoveryStatus { user: who->0 }) && asks[1] == (
            RequestV::ListProfiles { user: who->0, structured_errors: false })
        }),
{
}

/// A warning and a failure each count where they belong, and nothing else counts.
pub proof fn a_check_counts_as_what_it_is(r: ReportV, id: Seq<char>, state: State)
    ensures
        summary_of(r.check(id, state)).0 == summary_of(r).0 + (if state == State::Warn {
            1int
        } else {
            0
        }),
        summary_of(r.check(id, state)).1 == summary_of(r).1 + (if state == State::Fail {
            1int
        } else {
            0
        }),
        summary_of(ReportV::empty()) == (0nat, 0nat),
{
    let c = crate::report::CheckV { id, state, detail: None };
    crate::report::each_check_counts_once(r.checks, c, State::Warn);
    crate::report::each_check_counts_once(r.checks, c, State::Fail);
}

/// A group's line says what is wrong with it: a stale one is called stale, one that
/// is not connected disconnected, and one that is neither healthy.
pub proof fn a_group_is_called_what_it_is(g: GroupHealth)
    ensures
        " is healthy"@.is_suffix_of(group_line(g)) <==> !g.stale && g.connected,
        "disconnected"@.is_suffix_of(group_line(g)) <==> !g.connected,
        " (primary changed; re-add the camera)"@.is_suffix_of(group_line(g)) <==> g.stale
            && g.connected,
{
    let t = group_line(g);
    let n = t.len() as int;
    let h = " is healthy"@;
    let d = "disconnected"@;
    let s = " (primary changed; re-add the camera)"@;
    reveal_strlit(" is healthy");
    reveal_strlit("disconnected");
    reveal_strlit(" (primary changed; re-add the camera)");
    reveal_strlit("stale (primary changed; re-add the camera), disconnected");
    reveal_strlit("stale (primary changed; re-add the camera)");
    assert(h[h.len() - 1] == 'y' && d[d.len() - 1] == 'd' && s[s.len() - 1] == ')');
    if !g.stale && g.connected {
        assert(t.subrange(n - h.len(), n) =~= h);
    } else if !g.connected {
        assert(t.subrange(n - d.len(), n) =~= d);
    } else {
        assert(t.subrange(n - s.len(), n) =~= s);
    }
    if h.is_suffix_of(t) {
        assert(t.subrange(n - h.len(), n)[h.len() - 1] == 'y');
        assert(t[n - 1] == 'y');
    }
    if d.is_suffix_of(t) {
        assert(t.subrange(n - d.len(), n)[d.len() - 1] == 'd');
        assert(t[n - 1] == 'd');
    }
    if s.is_suffix_of(t) {
        assert(t.subrange(n - s.len(), n)[s.len() - 1] == ')');
        assert(t[n - 1] == ')');
    }
    assert(t[n - 1] == (if !g.stale && g.connected {
        'y'
    } else if !g.connected {
        'd'
    } else {
        ')'
    }));
}

/// Templates are called encrypted exactly where they are and their key is there, and
/// plaintext exactly where they are not encrypted.
pub proof fn templates_at_rest_are_called_what_they_are(f: RecoveryFacts)
    ensures
        at_rest(f) == "ENCRYPTED \u{2713}"@ <==> f.encrypted && f.key_present,
        at_rest(f) == "plaintext at rest"@ <==> !f.encrypted,
{
    reveal_strlit("ENCRYPTED \u{2713}");
    reveal_strlit("ENCRYPTED but the TEMPLATE KEY IS MISSING (unreadable)");
    reveal_strlit("plaintext at rest");
    assert("ENCRYPTED \u{2713}"@.len() == 11);
    assert("ENCRYPTED but the TEMPLATE KEY IS MISSING (unreadable)"@.len() == 54);
    assert("plaintext at rest"@.len() == 17);
}

/// Without a reader's name it is called present exactly where one is available, and
/// none exactly where none is.
pub proof fn an_unnamed_reader_is_called_present_or_none(f: FingerprintFacts)
    requires
        f.names@.len() == 0,
    ensures
        reader_text(f) == "present \u{2713}"@ <==> f.available,
        reader_text(f) == "none"@ <==> !f.available,
{
    reveal_strlit("present \u{2713}");
    reveal_strlit("none");
    assert("present \u{2713}"@.len() == 9 && "none"@.len() == 4);
}

/// A recovery passphrase is called set exactly where it is; where it is not, setting
/// one up is advised exactly where the template key is not lost already.
pub proof fn no_backup_is_promised_for_a_lost_key(f: RecoveryFacts)
    ensures
        passphrase_text(f) == "SET \u{2713}"@ <==> f.recovery_set,
        passphrase_text(f) == "not set; no backup available"@ <==> !f.recovery_set && f.encrypted
            && !f.key_present,
        passphrase_text(f) == "not set (run `irlume recovery setup`)"@ <==> !f.recovery_set && !(
        f.encrypted && !f.key_present),
{
    reveal_strlit("SET \u{2713}");
    reveal_strlit("not set; no backup available");
    reveal_strlit("not set (run `irlume recovery setup`)");
    assert("SET \u{2713}"@.len() == 5);
    assert("not set; no backup available"@.len() == 28);
    assert("not set (run `irlume recovery setup`)"@.len() == 37);
}

} // verus!
