//! Which command a command line asks for.

use vstd::prelude::*;

use crate::args::{arg_is, has_arg, word_at};
use crate::console::{fail_with, failed, Outcome};
use crate::text::{cat3, same, texts};

verus! {

/// A command. Those that begin with `Machine` answer in JSON.
#[derive(Clone, Copy, Debug, PartialEq, Eq, Structural)]
pub enum Command {
    SelftestAlign,
    SelftestLiveness,
    Capture,
    Eval,
    Irbench,
    Genuine,
    Calcapture,
    Padcapture,
    Padreport,
    Suncal,
    Liveness,
    Enroll,
    MachineProfilesList,
    Profiles,
    Verify,
    Enrolldev,
    Keyring,
    Recovery,
    Retry,
    Bitwarden,
    Fingerprint,
    MachineLoginStatus,
    MachineLoginPlan,
    MachineLoginApply,
    MachineLoginVerify,
    MachineLoginRollback,
    AuthConsent,
    AuthSensor,
    MachineAuthTest,
    Login,
    Logs,
    MachineModelsList,
    ModelsRemoved,
    Biopolicy,
    IrSetup,
    CameraTune,
    CameraMode,
    SetCameras,
    Update,
    Uninstall,
    MachineDoctor,
    MachineSupportReport,
    MachineCameraDiagnostics,
    MachineCameraCensus,
    CameraCensus,
    MachineStatus,
    MachineVersion,
    Version,
    Doctor,
    SupportReport,
    Trace,
    Normprobe,
    Status,
    Detect,
    Identify,
    Diag,
    Deps,
    Reseal,
    Selinux,
    Setup,
    Help,
    Tui,
}

/// Where a command line leads.
#[derive(Clone, Copy, Debug, PartialEq, Eq, Structural)]
pub enum Route {
    /// Show the help.
    Help,
    /// A developer tool that is not switched on.
    DevOnly,
    /// No command of that name.
    Unknown,
    Run(Command),
}

/// The developer and benchmark tools. They open cameras directly, and some write
/// raw embeddings to a file.
pub open spec fn dev_command(cmd: Seq<char>) -> bool {
    ||| cmd == "capture"@
    ||| cmd == "eval"@
    ||| cmd == "irbench"@
    ||| cmd == "genuine"@
    ||| cmd == "calcapture"@
    ||| cmd == "normprobe"@
    ||| cmd == "liveness"@
    ||| cmd == "selftest"@
    ||| cmd == "padcapture"@
    ||| cmd == "padreport"@
    ||| cmd == "verify"@
    ||| cmd == "enrolldev"@
    ||| cmd == "suncal"@
}

pub fn is_dev_command(cmd: &str) -> (r: bool)
    ensures
        r == dev_command(cmd@),
{
    same(cmd, "capture")
        || same(cmd, "eval")
        || same(cmd, "irbench")
        || same(cmd, "genuine")
        || same(cmd, "calcapture")
        || same(cmd, "normprobe")
        || same(cmd, "liveness")
        || same(cmd, "selftest")
        || same(cmd, "padcapture")
        || same(cmd, "padreport")
        || same(cmd, "verify")
        || same(cmd, "enrolldev")
        || same(cmd, "suncal")
}

/// The self-test that goes through the daemon: no developer tool.
pub open spec fn daemon_selftest(args: Seq<Seq<char>>) -> bool {
    word_at(args, 0) == Some("selftest"@) && word_at(args, 1) == Some("liveness"@)
}

/// Enrollment, credentials and the engine's own tools.
pub open spec fn engine_command(cmd: Seq<char>, args: Seq<Seq<char>>) -> Option<Command> {
    if cmd == "selftest"@ && word_at(args, 1) == Some("align"@) {
        Some(Command::SelftestAlign)
    } else if cmd == "selftest"@ && word_at(args, 1) == Some("liveness"@) {
        Some(Command::SelftestLiveness)
    } else if cmd == "capture"@ {
        Some(Command::Capture)
    } else if cmd == "eval"@ {
        Some(Command::Eval)
    } else if cmd == "irbench"@ {
        Some(Command::Irbench)
    } else if cmd == "genuine"@ {
        Some(Command::Genuine)
    } else if cmd == "calcapture"@ {
        Some(Command::Calcapture)
    } else if cmd == "padcapture"@ {
        Some(Command::Padcapture)
    } else if cmd == "padreport"@ {
        Some(Command::Padreport)
    } else if cmd == "suncal"@ {
        Some(Command::Suncal)
    } else if cmd == "liveness"@ {
        Some(Command::Liveness)
    } else if cmd == "enroll"@ {
        Some(Command::Enroll)
    } else if cmd == "profiles"@ && args.contains("list"@) && args.contains("--json"@) {
        Some(Command::MachineProfilesList)
    } else if cmd == "profiles"@ {
        Some(Command::Profiles)
    } else if cmd == "verify"@ {
        Some(Command::Verify)
    } else if cmd == "enrolldev"@ {
        Some(Command::Enrolldev)
    } else if cmd == "keyring"@ {
        Some(Command::Keyring)
    } else if cmd == "recovery"@ {
        Some(Command::Recovery)
    } else if cmd == "retry"@ {
        Some(Command::Retry)
    } else if cmd == "bitwarden"@ {
        Some(Command::Bitwarden)
    } else if cmd == "fingerprint"@ {
        Some(Command::Fingerprint)
    } else {
        None
    }
}

fn engine_command_of(cmd: &str, args: &[String]) -> (r: Option<Command>)
    ensures
        r == engine_command(cmd@, texts(args@)),
{
    if same(cmd, "selftest") && arg_is(args, 1, "align") {
        Some(Command::SelftestAlign)
    } else if same(cmd, "selftest") && arg_is(args, 1, "liveness") {
        Some(Command::SelftestLiveness)
    } else if same(cmd, "capture") {
        Some(Command::Capture)
    } else if same(cmd, "eval") {
        Some(Command::Eval)
    } else if same(cmd, "irbench") {
        Some(Command::Irbench)
    } else if same(cmd, "genuine") {
        Some(Command::Genuine)
    } else if same(cmd, "calcapture") {
        Some(Command::Calcapture)
    } else if same(cmd, "padcapture") {
        Some(Command::Padcapture)
    } else if same(cmd, "padreport") {
        Some(Command::Padreport)
    } else if same(cmd, "suncal") {
        Some(Command::Suncal)
    } else if same(cmd, "liveness") {
        Some(Command::Liveness)
    } else if same(cmd, "enroll") {
        Some(Command::Enroll)
    } else if same(cmd, "profiles") && has_arg(args, "list") && has_arg(args, "--json") {
        Some(Command::MachineProfilesList)
    } else if same(cmd, "profiles") {
        Some(Command::Profiles)
    } else if same(cmd, "verify") {
        Some(Command::Verify)
    } else if same(cmd, "enrolldev") {
        Some(Command::Enrolldev)
    } else if same(cmd, "keyring") {
        Some(Command::Keyring)
    } else if same(cmd, "recovery") {
        Some(Command::Recovery)
    } else if same(cmd, "retry") {
        Some(Command::Retry)
    } else if same(cmd, "bitwarden") {
        Some(Command::Bitwarden)
    } else if same(cmd, "fingerprint") {
        Some(Command::Fingerprint)
    } else {
        None
    }
}

/// Login wiring, policy and cameras.
pub open spec fn wiring_command(cmd: Seq<char>, args: Seq<Seq<char>>) -> Option<Command> {
    if cmd == "login"@ && args.contains("status"@) && args.contains("--json"@) {
        Some(Command::MachineLoginStatus)
    } else if cmd == "login"@ && args.contains("plan"@) {
        Some(Command::MachineLoginPlan)
    } else if cmd == "login"@ && args.contains("apply"@) {
        Some(Command::MachineLoginApply)
    } else if cmd == "login"@ && args.contains("verify"@) {
        Some(Command::MachineLoginVerify)
    } else if cmd == "login"@ && args.contains("rollback"@) {
        Some(Command::MachineLoginRollback)
    } else if cmd == "auth"@ && word_at(args, 1) == Some("consent"@) {
        Some(Command::AuthConsent)
    } else if cmd == "auth"@ && word_at(args, 1) == Some("sensor"@) {
        Some(Command::AuthSensor)
    } else if cmd == "auth"@ && args.contains("test"@) {
        Some(Command::MachineAuthTest)
    } else if cmd == "login"@ {
        Some(Command::Login)
    } else if cmd == "logs"@ {
        Some(Command::Logs)
    } else if cmd == "models"@ && args.contains("list"@) && args.contains("--json"@) {
        Some(Command::MachineModelsList)
    } else if cmd == "models"@ {
        Some(Command::ModelsRemoved)
    } else if cmd == "biopolicy"@ {
        Some(Command::Biopolicy)
    } else if cmd == "ir-setup"@ {
        Some(Command::IrSetup)
    } else if cmd == "camera-tune"@ {
        Some(Command::CameraTune)
    } else if cmd == "camera-mode"@ {
        Some(Command::CameraMode)
    } else if cmd == "set-cameras"@ {
        Some(Command::SetCameras)
    } else if cmd == "update"@ {
        Some(Command::Update)
    } else if cmd == "uninstall"@ {
        Some(Command::Uninstall)
    } else {
        None
    }
}

fn wiring_command_of(cmd: &str, args: &[String]) -> (r: Option<Command>)
    ensures
        r == wiring_command(cmd@, texts(args@)),
{
    if same(cmd, "login") && has_arg(args, "status") && has_arg(args, "--json") {
        Some(Command::MachineLoginStatus)
    } else if same(cmd, "login") && has_arg(args, "plan") {
        Some(Command::MachineLoginPlan)
    } else if same(cmd, "login") && has_arg(args, "apply") {
        Some(Command::MachineLoginApply)
    } else if same(cmd, "login") && has_arg(args, "verify") {
        Some(Command::MachineLoginVerify)
    } else if same(cmd, "login") && has_arg(args, "rollback") {
        Some(Command::MachineLoginRollback)
    } else if same(cmd, "auth") && arg_is(args, 1, "consent") {
        Some(Command::AuthConsent)
    } else if same(cmd, "auth") && arg_is(args, 1, "sensor") {
        Some(Command::AuthSensor)
    } else if same(cmd, "auth") && has_arg(args, "test") {
        Some(Command::MachineAuthTest)
    } else if same(cmd, "login") {
        Some(Command::Login)
    } else if same(cmd, "logs") {
        Some(Command::Logs)
    } else if same(cmd, "models") && has_arg(args, "list") && has_arg(args, "--json") {
        Some(Command::MachineModelsList)
    } else if same(cmd, "models") {
        Some(Command::ModelsRemoved)
    } else if same(cmd, "biopolicy") {
        Some(Command::Biopolicy)
    } else if same(cmd, "ir-setup") {
        Some(Command::IrSetup)
    } else if same(cmd, "camera-tune") {
        Some(Command::CameraTune)
    } else if same(cmd, "camera-mode") {
        Some(Command::CameraMode)
    } else if same(cmd, "set-cameras") {
        Some(Command::SetCameras)
    } else if same(cmd, "update") {
        Some(Command::Update)
    } else if same(cmd, "uninstall") {
        Some(Command::Uninstall)
    } else {
        None
    }
}

/// Reports and the rest.
pub open spec fn report_command(cmd: Seq<char>, args: Seq<Seq<char>>) -> Option<Command> {
    if cmd == "doctor"@ && args.contains("--json"@) {
        Some(Command::MachineDoctor)
    } else if cmd == "support-report"@ && args.contains("--json"@) {
        Some(Command::MachineSupportReport)
    } else if cmd == "camera"@ && word_at(args, 1) == Some("diagnostics"@) && args.contains("--json"@) {
        Some(Command::MachineCameraDiagnostics)
    } else if cmd == "camera"@ && word_at(args, 1) == Some("census"@) && args.contains("--json"@) {
        Some(Command::MachineCameraCensus)
    } else if cmd == "camera"@ && word_at(args, 1) == Some("census"@) {
        Some(Command::CameraCensus)
    } else if cmd == "status"@ && args.contains("--json"@) {
        Some(Command::MachineStatus)
    } else if cmd == "version"@ && args.contains("--json"@) {
        Some(Command::MachineVersion)
    } else if (cmd == "version"@ || cmd == "--version"@ || cmd == "-V"@) {
        Some(Command::Version)
    } else if cmd == "doctor"@ {
        Some(Command::Doctor)
    } else if cmd == "support-report"@ {
        Some(Command::SupportReport)
    } else if cmd == "trace"@ {
        Some(Command::Trace)
    } else if cmd == "normprobe"@ {
        Some(Command::Normprobe)
    } else if cmd == "status"@ {
        Some(Command::Status)
    } else if cmd == "detect"@ {
        Some(Command::Detect)
    } else if cmd == "identify"@ {
        Some(Command::Identify)
    } else if cmd == "diag"@ {
        Some(Command::Diag)
    } else if cmd == "deps"@ {
        Some(Command::Deps)
    } else if cmd == "reseal"@ {
        Some(Command::Reseal)
    } else if cmd == "selinux"@ {
        Some(Command::Selinux)
    } else if cmd == "setup"@ {
        Some(Command::Setup)
    } else if cmd == "help"@ {
        Some(Command::Help)
    } else if cmd == "tui"@ {
        Some(Command::Tui)
    } else {
        None
    }
}

fn report_command_of(cmd: &str, args: &[String]) -> (r: Option<Command>)
    ensures
        r == report_command(cmd@, texts(args@)),
{
    if same(cmd, "doctor") && has_arg(args, "--json") {
        Some(Command::MachineDoctor)
    } else if same(cmd, "support-report") && has_arg(args, "--json") {
        Some(Command::MachineSupportReport)
    } else if same(cmd, "camera") && arg_is(args, 1, "diagnostics") && has_arg(args, "--json") {
        Some(Command::MachineCameraDiagnostics)
    } else if same(cmd, "camera") && arg_is(args, 1, "census") && has_arg(args, "--json") {
        Some(Command::MachineCameraCensus)
    } else if same(cmd, "camera") && arg_is(args, 1, "census") {
        Some(Command::CameraCensus)
    } else if same(cmd, "status") && has_arg(args, "--json") {
        Some(Command::MachineStatus)
    } else if same(cmd, "version") && has_arg(args, "--json") {
        Some(Command::MachineVersion)
    } else if (same(cmd, "version") || same(cmd, "--version") || same(cmd, "-V")) {
        Some(Command::Version)
    } else if same(cmd, "doctor") {
        Some(Command::Doctor)
    } else if same(cmd, "support-report") {
        Some(Command::SupportReport)
    } else if same(cmd, "trace") {
        Some(Command::Trace)
    } else if same(cmd, "normprobe") {
        Some(Command::Normprobe)
    } else if same(cmd, "status") {
        Some(Command::Status)
    } else if same(cmd, "detect") {
        Some(Command::Detect)
    } else if same(cmd, "identify") {
        Some(Command::Identify)
    } else if same(cmd, "diag") {
        Some(Command::Diag)
    } else if same(cmd, "deps") {
        Some(Command::Deps)
    } else if same(cmd, "reseal") {
        Some(Command::Reseal)
    } else if same(cmd, "selinux") {
        Some(Command::Selinux)
    } else if same(cmd, "setup") {
        Some(Command::Setup)
    } else if same(cmd, "help") {
        Some(Command::Help)
    } else if same(cmd, "tui") {
        Some(Command::Tui)
    } else {
        None
    }
}

/// The command that the words name. A subcommand is looked for among all words
/// where a flag may stand before it.
pub open spec fn command_named(cmd: Seq<char>, args: Seq<Seq<char>>) -> Option<Command> {
    match engine_command(cmd, args) {
        Some(c) => Some(c),
        None => match wiring_command(cmd, args) {
            Some(c) => Some(c),
            None => report_command(cmd, args),
        },
    }
}

/// Asking for help anywhere asks for nothing else.
pub open spec fn asks_help(args: Seq<Seq<char>>) -> bool {
    args.contains("--help"@) || args.contains("-h"@)
}

/// A developer tool that is not switched on.
pub open spec fn gated(args: Seq<Seq<char>>, dev: bool) -> bool {
    args.len() > 0 && dev_command(args[0]) && !daemon_selftest(args) && !dev
}

/// Where a command line leads.
pub open spec fn route_of(args: Seq<Seq<char>>, dev: bool) -> Route {
    if gated(args, dev) {
        Route::DevOnly
    } else if asks_help(args) || args.len() == 0 {
        Route::Help
    } else {
        match command_named(args[0], args) {
            Some(Command::Help) => Route::Help,
            Some(c) => Route::Run(c),
            None => Route::Unknown,
        }
    }
}

fn command_of(cmd: &str, args: &[String]) -> (r: Option<Command>)
    ensures
        r == command_named(cmd@, texts(args@)),
{
    match engine_command_of(cmd, args) {
        Some(c) => Some(c),
        None => {
            match wiring_command_of(cmd, args) {
                Some(c) => Some(c),
                None => report_command_of(cmd, args),
            }
        },
    }
}

/// Routes a command line. `dev` says whether the developer tools are switched on.
pub fn route(args: &[String], dev: bool) -> (r: Route)
    ensures
        r == route_of(texts(args@), dev),
{
    if args.len() == 0 {
        return Route::Help;
    }
    let cmd = args[0].as_str();
    proof {
        assert(texts(args@)[0] == args@[0]@);
    }
    let selftest = arg_is(args, 0, "selftest") && arg_is(args, 1, "liveness");
    if is_dev_command(cmd) && !selftest && !dev {
        return Route::DevOnly;
    }
    if has_arg(args, "--help") || has_arg(args, "-h") {
        return Route::Help;
    }
    match command_of(cmd, args) {
        Some(c) => {
            if c == Command::Help {
                Route::Help
            } else {
                Route::Run(c)
            }
        },
        None => Route::Unknown,
    }
}

/// Refuses a developer tool that is not switched on.
pub fn refuse_dev(cmd: &str) -> (r: Outcome)
    ensures
        r@ == failed(
            "[irlume] '"@ + cmd@
                + "' is a developer/benchmark tool. Set IRLUME_DEV=1 to enable."@,
            2,
        ),
{
    fail_with(
        cat3("[irlume] '", cmd, "' is a developer/benchmark tool. Set IRLUME_DEV=1 to enable."),
        2,
    )
}

/// Refuses a command that there is not.
pub fn refuse_unknown(cmd: &str) -> (r: Outcome)
    ensures
        r@ == failed("irlume: unknown command '"@ + cmd@ + "'; run `irlume help`"@, 2),
{
    fail_with(cat3("irlume: unknown command '", cmd, "'; run `irlume help`"), 2)
}

/// Asking for help never runs a command.
pub proof fn help_never_runs_a_command(args: Seq<Seq<char>>, dev: bool)
    requires
        asks_help(args),
    ensures
        route_of(args, dev) == Route::Help || route_of(args, dev) == Route::DevOnly,
        dev ==> route_of(args, dev) == Route::Help,
{
}

/// No developer tool runs unless the tools are switched on.
pub proof fn no_dev_tool_runs_unless_asked(args: Seq<Seq<char>>)
    requires
        args.len() > 0,
        dev_command(args[0]),
        !daemon_selftest(args),
    ensures
        route_of(args, false) == Route::DevOnly,
{
}

/// What tells one first word from another: its length, and its first and its last
/// character but one.
spec fn mark(w: Seq<char>) -> (nat, char, char) {
    (w.len(), w[0], w[w.len() - 2])
}

/// No two first words have the same mark.
proof fn every_first_word_has_its_mark()
    ensures
        mark("selftest"@) == (8nat, 's', 's'),
        mark("capture"@) == (7nat, 'c', 'r'),
        mark("eval"@) == (4nat, 'e', 'a'),
        mark("irbench"@) == (7nat, 'i', 'c'),
        mark("genuine"@) == (7nat, 'g', 'n'),
        mark("calcapture"@) == (10nat, 'c', 'r'),
        mark("padcapture"@) == (10nat, 'p', 'r'),
        mark("padreport"@) == (9nat, 'p', 'r'),
        mark("suncal"@) == (6nat, 's', 'a'),
        mark("liveness"@) == (8nat, 'l', 's'),
        mark("enroll"@) == (6nat, 'e', 'l'),
        mark("profiles"@) == (8nat, 'p', 'e'),
        mark("verify"@) == (6nat, 'v', 'f'),
        mark("enrolldev"@) == (9nat, 'e', 'e'),
        mark("keyring"@) == (7nat, 'k', 'n'),
        mark("recovery"@) == (8nat, 'r', 'r'),
        mark("retry"@) == (5nat, 'r', 'r'),
        mark("bitwarden"@) == (9nat, 'b', 'e'),
        mark("fingerprint"@) == (11nat, 'f', 'n'),
        mark("login"@) == (5nat, 'l', 'i'),
        mark("auth"@) == (4nat, 'a', 't'),
        mark("logs"@) == (4nat, 'l', 'g'),
        mark("models"@) == (6nat, 'm', 'l'),
        mark("biopolicy"@) == (9nat, 'b', 'c'),
        mark("ir-setup"@) == (8nat, 'i', 'u'),
        mark("camera-tune"@) == (11nat, 'c', 'n'),
        mark("camera-mode"@) == (11nat, 'c', 'd'),
        mark("set-cameras"@) == (11nat, 's', 'a'),
        mark("update"@) == (6nat, 'u', 't'),
        mark("uninstall"@) == (9nat, 'u', 'l'),
        mark("doctor"@) == (6nat, 'd', 'o'),
        mark("support-report"@) == (14nat, 's', 'r'),
        mark("camera"@) == (6nat, 'c', 'r'),
        mark("status"@) == (6nat, 's', 'u'),
        mark("version"@) == (7nat, 'v', 'o'),
        mark("--version"@) == (9nat, '-', 'o'),
        mark("-V"@) == (2nat, '-', '-'),
        mark("trace"@) == (5nat, 't', 'c'),
        mark("normprobe"@) == (9nat, 'n', 'b'),
        mark("detect"@) == (6nat, 'd', 'c'),
        mark("identify"@) == (8nat, 'i', 'f'),
        mark("diag"@) == (4nat, 'd', 'a'),
        mark("deps"@) == (4nat, 'd', 'p'),
        mark("reseal"@) == (6nat, 'r', 'a'),
        mark("selinux"@) == (7nat, 's', 'u'),
        mark("setup"@) == (5nat, 's', 'u'),
        mark("help"@) == (4nat, 'h', 'l'),
        mark("tui"@) == (3nat, 't', 'u'),
{
    reveal_strlit("selftest");
    reveal_strlit("capture");
    reveal_strlit("eval");
    reveal_strlit("irbench");
    reveal_strlit("genuine");
    reveal_strlit("calcapture");
    reveal_strlit("padcapture");
    reveal_strlit("padreport");
    reveal_strlit("suncal");
    reveal_strlit("liveness");
    reveal_strlit("enroll");
    reveal_strlit("profiles");
    reveal_strlit("verify");
    reveal_strlit("enrolldev");
    reveal_strlit("keyring");
    reveal_strlit("recovery");
    reveal_strlit("retry");
    reveal_strlit("bitwarden");
    reveal_strlit("fingerprint");
    reveal_strlit("login");
    reveal_strlit("auth");
    reveal_strlit("logs");
    reveal_strlit("models");
    reveal_strlit("biopolicy");
    reveal_strlit("ir-setup");
    reveal_strlit("camera-tune");
    reveal_strlit("camera-mode");
    reveal_strlit("set-cameras");
    reveal_strlit("update");
    reveal_strlit("uninstall");
    reveal_strlit("doctor");
    reveal_strlit("support-report");
    reveal_strlit("camera");
    reveal_strlit("status");
    reveal_strlit("version");
    reveal_strlit("--version");
    reveal_strlit("-V");
    reveal_strlit("trace");
    reveal_strlit("normprobe");
    reveal_strlit("detect");
    reveal_strlit("identify");
    reveal_strlit("diag");
    reveal_strlit("deps");
    reveal_strlit("reseal");
    reveal_strlit("selinux");
    reveal_strlit("setup");
    reveal_strlit("help");
    reveal_strlit("tui");
}

/// Where the developer tools are switched on, each runs under its own word, and
/// nowhere else.
#[verifier::spinoff_prover]
pub proof fn each_developer_tool_has_its_word(args: Seq<Seq<char>>)
    requires
        args.len() > 0,
        !args.contains("--help"@),
        !args.contains("-h"@),
    ensures
        args[0] == "capture"@ ==> route_of(args, true) == Route::Run(Command::Capture)
            && route_of(args, false) == Route::DevOnly,
        args[0] == "eval"@ ==> route_of(args, true) == Route::Run(Command::Eval)
            && route_of(args, false) == Route::DevOnly,
        args[0] == "irbench"@ ==> route_of(args, true) == Route::Run(Command::Irbench)
            && route_of(args, false) == Route::DevOnly,
        args[0] == "genuine"@ ==> route_of(args, true) == Route::Run(Command::Genuine)
            && route_of(args, false) == Route::DevOnly,
        args[0] == "calcapture"@ ==> route_of(args, true) == Route::Run(Command::Calcapture)
            && route_of(args, false) == Route::DevOnly,
        args[0] == "padcapture"@ ==> route_of(args, true) == Route::Run(Command::Padcapture)
            && route_of(args, false) == Route::DevOnly,
        args[0] == "padreport"@ ==> route_of(args, true) == Route::Run(Command::Padreport)
            && route_of(args, false) == Route::DevOnly,
        args[0] == "suncal"@ ==> route_of(args, true) == Route::Run(Command::Suncal)
            && route_of(args, false) == Route::DevOnly,
        args[0] == "liveness"@ ==> route_of(args, true) == Route::Run(Command::Liveness)
            && route_of(args, false) == Route::DevOnly,
        args[0] == "verify"@ ==> route_of(args, true) == Route::Run(Command::Verify)
            && route_of(args, false) == Route::DevOnly,
        args[0] == "enrolldev"@ ==> route_of(args, true) == Route::Run(Command::Enrolldev)
            && route_of(args, false) == Route::DevOnly,
        args[0] == "normprobe"@ ==> route_of(args, true) == Route::Run(Command::Normprobe)
            && route_of(args, false) == Route::DevOnly,
{
    every_first_word_has_its_mark();
}

/// Each command on enrollment, credentials, cameras and the install runs under its
/// own word, whoever asks.
#[verifier::spinoff_prover]
pub proof fn each_managing_command_has_its_word(args: Seq<Seq<char>>, dev: bool)
    requires
        args.len() > 0,
        !args.contains("--help"@),
        !args.contains("-h"@),
    ensures
        args[0] == "enroll"@ ==> route_of(args, dev) == Route::Run(Command::Enroll),
        args[0] == "keyring"@ ==> route_of(args, dev) == Route::Run(Command::Keyring),
        args[0] == "recovery"@ ==> route_of(args, dev) == Route::Run(Command::Recovery),
        args[0] == "retry"@ ==> route_of(args, dev) == Route::Run(Command::Retry),
        args[0] == "bitwarden"@ ==> route_of(args, dev) == Route::Run(Command::Bitwarden),
        args[0] == "fingerprint"@ ==> route_of(args, dev) == Route::Run(Command::Fingerprint),
        args[0] == "logs"@ ==> route_of(args, dev) == Route::Run(Command::Logs),
        args[0] == "biopolicy"@ ==> route_of(args, dev) == Route::Run(Command::Biopolicy),
        args[0] == "ir-setup"@ ==> route_of(args, dev) == Route::Run(Command::IrSetup),
        args[0] == "camera-tune"@ ==> route_of(args, dev) == Route::Run(Command::CameraTune),
        args[0] == "camera-mode"@ ==> route_of(args, dev) == Route::Run(Command::CameraMode),
        args[0] == "set-cameras"@ ==> route_of(args, dev) == Route::Run(Command::SetCameras),
        args[0] == "update"@ ==> route_of(args, dev) == Route::Run(Command::Update),
        args[0] == "uninstall"@ ==> route_of(args, dev) == Route::Run(Command::Uninstall),
{
    every_first_word_has_its_mark();
}

/// Each report runs under its own word; where it has a form for programs, that
/// form runs exactly where it is asked for. Help is help under its own word too.
#[verifier::spinoff_prover]
pub proof fn each_report_has_its_word(args: Seq<Seq<char>>, dev: bool)
    requires
        args.len() > 0,
        !args.contains("--help"@),
        !args.contains("-h"@),
    ensures
        args[0] == "trace"@ ==> route_of(args, dev) == Route::Run(Command::Trace),
        args[0] == "detect"@ ==> route_of(args, dev) == Route::Run(Command::Detect),
        args[0] == "identify"@ ==> route_of(args, dev) == Route::Run(Command::Identify),
        args[0] == "diag"@ ==> route_of(args, dev) == Route::Run(Command::Diag),
        args[0] == "deps"@ ==> route_of(args, dev) == Route::Run(Command::Deps),
        args[0] == "reseal"@ ==> route_of(args, dev) == Route::Run(Command::Reseal),
        args[0] == "selinux"@ ==> route_of(args, dev) == Route::Run(Command::Selinux),
        args[0] == "setup"@ ==> route_of(args, dev) == Route::Run(Command::Setup),
        args[0] == "tui"@ ==> route_of(args, dev) == Route::Run(Command::Tui),
        args[0] == "doctor"@ && args.contains("--json"@) ==> route_of(args, dev) == Route::Run(
            Command::MachineDoctor,
        ),
        args[0] == "doctor"@ && !args.contains("--json"@) ==> route_of(args, dev) == Route::Run(
            Command::Doctor,
        ),
        args[0] == "support-report"@ && args.contains("--json"@) ==> route_of(args, dev) == Route::Run(
            Command::MachineSupportReport,
        ),
        args[0] == "support-report"@ && !args.contains("--json"@) ==> route_of(args, dev) == Route::Run(
            Command::SupportReport,
        ),
        args[0] == "status"@ && args.contains("--json"@) ==> route_of(args, dev) == Route::Run(
            Command::MachineStatus,
        ),
        args[0] == "status"@ && !args.contains("--json"@) ==> route_of(args, dev) == Route::Run(
            Command::Status,
        ),
        args[0] == "version"@ && args.contains("--json"@) ==> route_of(args, dev) == Route::Run(
            Command::MachineVersion,
        ),
        args[0] == "version"@ && !args.contains("--json"@) ==> route_of(args, dev) == Route::Run(
            Command::Version,
        ),
        args[0] == "--version"@ || args[0] == "-V"@ ==> route_of(args, dev) == Route::Run(
            Command::Version,
        ),
        args[0] == "help"@ ==> route_of(args, dev) == Route::Help,
{
    every_first_word_has_its_mark();
}

/// The commands that have subcommands go to the form for programs exactly where its
/// words are there, and a login transaction to the phase that its word names.
#[verifier::spinoff_prover]
pub proof fn each_subcommand_has_its_words(args: Seq<Seq<char>>, dev: bool)
    requires
        args.len() > 0,
        !args.contains("--help"@),
        !args.contains("-h"@),
    ensures
        args[0] == "profiles"@ && args.contains("list"@) && args.contains("--json"@) ==> route_of(args, dev) == Route::Run(
            Command::MachineProfilesList,
        ),
        args[0] == "profiles"@ && !(args.contains("list"@) && args.contains("--json"@))
            ==> route_of(args, dev) == Route::Run(
            Command::Profiles,
        ),
        args[0] == "models"@ && args.contains("list"@) && args.contains("--json"@) ==> route_of(args, dev) == Route::Run(
            Command::MachineModelsList,
        ),
        args[0] == "models"@ && !(args.contains("list"@) && args.contains("--json"@))
            ==> route_of(args, dev) == Route::Run(
            Command::ModelsRemoved,
        ),
        args[0] == "login"@ && args.contains("status"@) && args.contains("--json"@) ==> route_of(args, dev) == Route::Run(
            Command::MachineLoginStatus,
        ),
        args[0] == "login"@ && !args.contains("status"@) && args.contains("plan"@) ==> route_of(args, dev) == Route::Run(
            Command::MachineLoginPlan,
        ),
        args[0] == "login"@ && !args.contains("status"@) && !args.contains("plan"@)
            && args.contains("apply"@) ==> route_of(args, dev) == Route::Run(
            Command::MachineLoginApply,
        ),
        args[0] == "login"@ && !args.contains("status"@) && !args.contains("plan"@)
            && !args.contains("apply"@) && args.contains("verify"@) ==> route_of(args, dev) == Route::Run(
            Command::MachineLoginVerify,
        ),
        args[0] == "login"@ && !args.contains("status"@) && !args.contains("plan"@)
            && !args.contains("apply"@) && !args.contains("verify"@) && args.contains("rollback"@)
            ==> route_of(args, dev) == Route::Run(
            Command::MachineLoginRollback,
        ),
        args[0] == "login"@ && !args.contains("status"@) && !args.contains("plan"@)
            && !args.contains("apply"@) && !args.contains("verify"@) && !args.contains("rollback"@)
            ==> route_of(args, dev) == Route::Run(
            Command::Login,
        ),
        args[0] == "auth"@ && args.len() > 1 && args[1] == "consent"@ ==> route_of(args, dev) == Route::Run(
            Command::AuthConsent,
        ),
        args[0] == "auth"@ && args.len() > 1 && args[1] == "sensor"@ ==> route_of(args, dev) == Route::Run(
            Command::AuthSensor,
        ),
        args[0] == "auth"@ && args.len() > 1 && args[1] == "test"@ ==> route_of(args, dev) == Route::Run(
            Command::MachineAuthTest,
        ),
        args[0] == "camera"@ && args.len() > 1 && args[1] == "diagnostics"@ && args.contains(
            "--json"@,
        ) ==> route_of(args, dev) == Route::Run(
            Command::MachineCameraDiagnostics,
        ),
        args[0] == "camera"@ && args.len() > 1 && args[1] == "census"@ && args.contains(
            "--json"@,
        ) ==> route_of(args, dev) == Route::Run(
            Command::MachineCameraCensus,
        ),
        args[0] == "camera"@ && args.len() > 1 && args[1] == "census"@ && !args.contains(
            "--json"@,
        ) ==> route_of(args, dev) == Route::Run(
            Command::CameraCensus,
        ),
        args[0] == "selftest"@ && args.len() > 1 && args[1] == "liveness"@ ==> route_of(args, dev) == Route::Run(
            Command::SelftestLiveness,
        ),
        args[0] == "selftest"@ && args.len() > 1 && args[1] == "align"@ ==> route_of(args, true)
            == Route::Run(Command::SelftestAlign) && route_of(args, false) == Route::DevOnly,
{
    every_first_word_has_its_mark();
    reveal_strlit("consent");
    reveal_strlit("sensor");
    reveal_strlit("test");
    reveal_strlit("diagnostics");
    reveal_strlit("census");
    reveal_strlit("align");
    assert("consent"@.len() == 7 && "test"@.len() == 4 && "align"@.len() == 5);
    assert("diagnostics"@.len() == 11 && "census"@.len() == 6);
    assert("sensor"@.len() == 6 && "sensor"@[0] == 's');
    assert(mark("liveness"@).0 == 8);
    if args.len() > 1 && args[1] == "test"@ {
        assert(args.contains("test"@));
    }
}

/// Without any word the help is shown, and only a word that some command has runs
/// anything.
pub proof fn only_a_known_word_runs(args: Seq<Seq<char>>, dev: bool)
    ensures
        args.len() == 0 ==> route_of(args, dev) == Route::Help,
        route_of(args, dev) is Run ==> args.len() > 0 && command_named(args[0], args) is Some,
        args.len() > 0 && route_of(args, dev) == Route::Unknown ==> command_named(args[0], args)
            is None,
{
}

/// The word `login` differs from every other first word.
proof fn login_is_its_own_word()
    ensures
        "login"@ != "selftest"@,
        "login"@ != "capture"@,
        "login"@ != "eval"@,
        "login"@ != "irbench"@,
        "login"@ != "genuine"@,
        "login"@ != "calcapture"@,
        "login"@ != "padcapture"@,
        "login"@ != "padreport"@,
        "login"@ != "suncal"@,
        "login"@ != "liveness"@,
        "login"@ != "enroll"@,
        "login"@ != "profiles"@,
        "login"@ != "verify"@,
        "login"@ != "enrolldev"@,
        "login"@ != "keyring"@,
        "login"@ != "recovery"@,
        "login"@ != "retry"@,
        "login"@ != "bitwarden"@,
        "login"@ != "fingerprint"@,
        "login"@ != "auth"@,
        "login"@ != "logs"@,
        "login"@ != "models"@,
        "login"@ != "biopolicy"@,
        "login"@ != "ir-setup"@,
        "login"@ != "camera-tune"@,
        "login"@ != "camera-mode"@,
        "login"@ != "set-cameras"@,
        "login"@ != "update"@,
        "login"@ != "uninstall"@,
        "login"@ != "doctor"@,
        "login"@ != "support-report"@,
        "login"@ != "camera"@,
        "login"@ != "status"@,
        "login"@ != "version"@,
        "login"@ != "--version"@,
        "login"@ != "-V"@,
        "login"@ != "trace"@,
        "login"@ != "normprobe"@,
        "login"@ != "detect"@,
        "login"@ != "identify"@,
        "login"@ != "diag"@,
        "login"@ != "deps"@,
        "login"@ != "reseal"@,
        "login"@ != "selinux"@,
        "login"@ != "setup"@,
        "login"@ != "help"@,
        "login"@ != "tui"@,
{
    reveal_strlit("selftest");
    reveal_strlit("capture");
    reveal_strlit("eval");
    reveal_strlit("irbench");
    reveal_strlit("genuine");
    reveal_strlit("calcapture");
    reveal_strlit("padcapture");
    reveal_strlit("padreport");
    reveal_strlit("suncal");
    reveal_strlit("liveness");
    reveal_strlit("enroll");
    reveal_strlit("profiles");
    reveal_strlit("verify");
    reveal_strlit("enrolldev");
    reveal_strlit("keyring");
    reveal_strlit("recovery");
    reveal_strlit("retry");
    reveal_strlit("bitwarden");
    reveal_strlit("fingerprint");
    reveal_strlit("login");
    reveal_strlit("auth");
    reveal_strlit("logs");
    reveal_strlit("models");
    reveal_strlit("biopolicy");
    reveal_strlit("ir-setup");
    reveal_strlit("camera-tune");
    reveal_strlit("camera-mode");
    reveal_strlit("set-cameras");
    reveal_strlit("update");
    reveal_strlit("uninstall");
    reveal_strlit("doctor");
    reveal_strlit("support-report");
    reveal_strlit("camera");
    reveal_strlit("status");
    reveal_strlit("version");
    reveal_strlit("--version");
    reveal_strlit("-V");
    reveal_strlit("trace");
    reveal_strlit("normprobe");
    reveal_strlit("detect");
    reveal_strlit("identify");
    reveal_strlit("diag");
    reveal_strlit("deps");
    reveal_strlit("reseal");
    reveal_strlit("selinux");
    reveal_strlit("setup");
    reveal_strlit("help");
    reveal_strlit("tui");
    assert("login"@.len() == 5 && "selftest"@.len() == 8);
    assert("login"@.len() == 5 && "capture"@.len() == 7);
    assert("login"@.len() == 5 && "eval"@.len() == 4);
    assert("login"@.len() == 5 && "irbench"@.len() == 7);
    assert("login"@.len() == 5 && "genuine"@.len() == 7);
    assert("login"@.len() == 5 && "calcapture"@.len() == 10);
    assert("login"@.len() == 5 && "padcapture"@.len() == 10);
    assert("login"@.len() == 5 && "padreport"@.len() == 9);
    assert("login"@.len() == 5 && "suncal"@.len() == 6);
    assert("login"@.len() == 5 && "liveness"@.len() == 8);
    assert("login"@.len() == 5 && "enroll"@.len() == 6);
    assert("login"@.len() == 5 && "profiles"@.len() == 8);
    assert("login"@.len() == 5 && "verify"@.len() == 6);
    assert("login"@.len() == 5 && "enrolldev"@.len() == 9);
    assert("login"@.len() == 5 && "keyring"@.len() == 7);
    assert("login"@.len() == 5 && "recovery"@.len() == 8);
    assert("login"@[0] != "retry"@[0]);
    assert("login"@.len() == 5 && "bitwarden"@.len() == 9);
    assert("login"@.len() == 5 && "fingerprint"@.len() == 11);
    assert("login"@.len() == 5 && "auth"@.len() == 4);
    assert("login"@.len() == 5 && "logs"@.len() == 4);
    assert("login"@.len() == 5 && "models"@.len() == 6);
    assert("login"@.len() == 5 && "biopolicy"@.len() == 9);
    assert("login"@.len() == 5 && "ir-setup"@.len() == 8);
    assert("login"@.len() == 5 && "camera-tune"@.len() == 11);
    assert("login"@.len() == 5 && "camera-mode"@.len() == 11);
    assert("login"@.len() == 5 && "set-cameras"@.len() == 11);
    assert("login"@.len() == 5 && "update"@.len() == 6);
    assert("login"@.len() == 5 && "uninstall"@.len() == 9);
    assert("login"@.len() == 5 && "doctor"@.len() == 6);
    assert("login"@.len() == 5 && "support-report"@.len() == 14);
    assert("login"@.len() == 5 && "camera"@.len() == 6);
    assert("login"@.len() == 5 && "status"@.len() == 6);
    assert("login"@.len() == 5 && "version"@.len() == 7);
    assert("login"@.len() == 5 && "--version"@.len() == 9);
    assert("login"@.len() == 5 && "-V"@.len() == 2);
    assert("login"@[0] != "trace"@[0]);
    assert("login"@.len() == 5 && "normprobe"@.len() == 9);
    assert("login"@.len() == 5 && "detect"@.len() == 6);
    assert("login"@.len() == 5 && "identify"@.len() == 8);
    assert("login"@.len() == 5 && "diag"@.len() == 4);
    assert("login"@.len() == 5 && "deps"@.len() == 4);
    assert("login"@.len() == 5 && "reseal"@.len() == 6);
    assert("login"@.len() == 5 && "selinux"@.len() == 7);
    assert("login"@[0] != "setup"@[0]);
    assert("login"@.len() == 5 && "help"@.len() == 4);
    assert("login"@.len() == 5 && "tui"@.len() == 3);
}

/// The read-only and the writing phases of a login transaction always answer in
/// JSON, wherever their word stands.
pub proof fn login_transactions_answer_in_json(args: Seq<Seq<char>>, dev: bool)
    requires
        args.len() > 0,
        args[0] == "login"@,
        args.contains("plan"@) || args.contains("apply"@),
        !asks_help(args),
    ensures
        route_of(args, dev) matches Route::Run(c) && (c == Command::MachineLoginStatus || c
            == Command::MachineLoginPlan || c == Command::MachineLoginApply),
{
    login_is_its_own_word();
}

} // verus!
