//! The part of the health report that speaks of the machine: its trust anchors,
//! its cameras and its models.

use vstd::prelude::*;

use crate::capture::{capture_line, capture_mode_report_line, CaptureModeReport};
use crate::models::{candidate_view, ModelCandidate};
use crate::release::{origin_text, InstallOrigin};
use crate::report::{Report, ReportV, State};
use crate::text::{
    cat2, cat3, cat4, cat5, cat6, dec, decimal, hex_number, hexadecimal, join, joined, owned,
    texts,
};

verus! {

/// The TPM device the kernel offers: the one with a resource manager before the
/// bare one.
pub fn tpm_device(managed: bool, bare: bool) -> (r: Option<&'static str>)
    ensures
        crate::text::opt_slice(r) == tpm_node(managed, bare),
        crate::text::opt_slice(r) == (if managed {
            Some("/dev/tpmrm0"@)
        } else if bare {
            Some("/dev/tpm0"@)
        } else {
            None
        }),
{
    if managed {
        Some("/dev/tpmrm0")
    } else if bare {
        Some("/dev/tpm0")
    } else {
        None
    }
}

/// What the firmware says of Secure Boot.
#[derive(Clone, Copy, Debug, PartialEq, Eq, Structural)]
pub struct SecureBoot {
    pub present: bool,
    pub enabled: bool,
    pub setup_mode: bool,
}

/// What was found of the platform and its trust anchors.
pub struct PlatformFacts {
    pub family: String,
    pub origin: InstallOrigin,
    pub tpm: Option<String>,
    pub secure_boot: SecureBoot,
    pub boot_mode: String,
}

pub open spec fn secure_boot_report(r: ReportV, b: SecureBoot) -> ReportV {
    if !b.present {
        r.line("[doctor] Secure Boot: unknown (not a UEFI boot?)"@).check(
            "secure-boot"@,
            State::Unknown,
        )
    } else if b.enabled {
        r.line("[doctor] Secure Boot: enabled \u{2713}"@).check("secure-boot"@, State::Pass)
    } else if b.setup_mode {
        r.line(
            "[doctor] Secure Boot: SETUP MODE \u{26a0} (keys not enrolled); PCR-7 binding is NOT enforcing"@,
        ).check_detail("secure-boot"@, State::Warn, "setup mode: keys not enrolled"@)
    } else {
        r.line(
            "[doctor] Secure Boot: disabled \u{26a0} (TPM PCR-7 binding is weak; enable for trust)"@,
        ).check_detail("secure-boot"@, State::Warn, "disabled"@)
    }
}

pub open spec fn platform_report(r: ReportV, f: PlatformFacts) -> ReportV {
    let a = r.line("[doctor] platform: "@ + f.family@).check_detail(
        "platform"@,
        State::Info,
        f.family@,
    ).line("[doctor] install origin: "@ + origin_text(f.origin)).check_detail(
        "install-origin"@,
        State::Info,
        origin_text(f.origin),
    );
    let b = match f.tpm {
        Some(d) => a.line("[doctor] TPM 2.0: "@ + d@ + " \u{2713}"@).check("tpm"@, State::Pass),
        None => a.line(
            "[doctor] TPM 2.0: none (/dev/tpmrm0 absent) \u{2717}; required for sealing"@,
        ).check("tpm"@, State::Fail),
    };
    secure_boot_report(b, f.secure_boot).line("[doctor] boot mode: "@ + f.boot_mode@).check_detail(
        "boot-mode"@,
        State::Info,
        f.boot_mode@,
    )
}

fn report_secure_boot(r: &mut Report, b: SecureBoot)
    ensures
        final(r)@ == secure_boot_report(old(r)@, b),
{
    if !b.present {
        r.line(owned("[doctor] Secure Boot: unknown (not a UEFI boot?)"));
        r.check("secure-boot", State::Unknown);
    } else if b.enabled {
        r.line(owned("[doctor] Secure Boot: enabled \u{2713}"));
        r.check("secure-boot", State::Pass);
    } else if b.setup_mode {
        r.line(
            owned(
                "[doctor] Secure Boot: SETUP MODE \u{26a0} (keys not enrolled); PCR-7 binding is NOT enforcing",
            ),
        );
        r.check_detail("secure-boot", State::Warn, owned("setup mode: keys not enrolled"));
    } else {
        r.line(
            owned(
                "[doctor] Secure Boot: disabled \u{26a0} (TPM PCR-7 binding is weak; enable for trust)",
            ),
        );
        r.check_detail("secure-boot", State::Warn, owned("disabled"));
    }
}

/// Reports the platform, the install, the TPM, Secure Boot and the boot mode.
pub fn report_platform(r: &mut Report, f: &PlatformFacts)
    ensures
        final(r)@ == platform_report(old(r)@, *f),
{
    r.line(cat2("[doctor] platform: ", f.family.as_str()));
    r.check_detail("platform", State::Info, owned(f.family.as_str()));
    let origin = f.origin.describe();
    r.line(cat2("[doctor] install origin: ", origin.as_str()));
    r.check_detail("install-origin", State::Info, origin);
    match &f.tpm {
        Some(d) => {
            r.line(cat3("[doctor] TPM 2.0: ", d.as_str(), " \u{2713}"));
            r.check("tpm", State::Pass);
        },
        None => {
            r.line(
                owned("[doctor] TPM 2.0: none (/dev/tpmrm0 absent) \u{2717}; required for sealing"),
            );
            r.check("tpm", State::Fail);
        },
    }
    report_secure_boot(r, f.secure_boot);
    r.line(cat2("[doctor] boot mode: ", f.boot_mode.as_str()));
    r.check_detail("boot-mode", State::Info, owned(f.boot_mode.as_str()));
}

/// What a ledger of camera controls still holds.
pub enum PendingSummary {
    Clear,
    Pending(Vec<String>),
    /// The ledger is readable by root alone, so nobody looked.
    Unreadable(String),
}

/// What is said of a ledger: `before` and `after` stand round the count and the
/// entries.
pub open spec fn ledger_report(
    r: ReportV,
    id: Seq<char>,
    before: Seq<char>,
    after: Seq<char>,
    p: PendingSummary,
) -> ReportV {
    match p {
        PendingSummary::Clear => r.check(id, State::Pass),
        PendingSummary::Pending(entries) => r.line(
            "[doctor] IR emitter: "@ + decimal(entries@.len()) + before + joined(
                texts(entries@),
                "; "@,
            ) + after,
        ).check_detail(id, State::Warn, joined(texts(entries@), "; "@)),
        PendingSummary::Unreadable(why) => r.check_detail(id, State::Unknown, why@),
    }
}

fn report_ledger(r: &mut Report, id: &str, before: &str, after: &str, p: &PendingSummary)
    ensures
        final(r)@ == ledger_report(old(r)@, id@, before@, after@, *p),
{
    match p {
        PendingSummary::Clear => {
            r.check(id, State::Pass);
        },
        PendingSummary::Pending(entries) => {
            let list = join(entries, "; ");
            let count = dec(entries.len() as u64);
            r.line(cat5("[doctor] IR emitter: ", count.as_str(), before, list.as_str(), after));
            r.check_detail(id, State::Warn, list);
        },
        PendingSummary::Unreadable(why) => {
            r.check_detail(id, State::Unknown, owned(why.as_str()));
        },
    }
}

/// What was found of the emitter, the capture mode and the sealing policies.
pub struct SealFacts {
    /// Controls that an interrupted setup left changed.
    pub setup_ledger: PendingSummary,
    /// Controls that a stream wrote and did not put back.
    pub stream_ledger: PendingSummary,
    pub capture: CaptureModeReport,
    pub signed_policy: bool,
    /// The non-volatile index of a provisioned pcrlock policy.
    pub pcrlock: Option<u64>,
}

pub open spec fn seal_report(r: ReportV, f: SealFacts) -> ReportV {
    let a = ledger_report(
        r,
        "emitter-undo-pending"@,
        " camera control(s) modified by interrupted setup \u{26a0} \u{2014} "@,
        ". Run `sudo irlume ir-setup` or complete an authentication to restore them. If controls remain stuck, perform a full power cycle."@,
        f.setup_ledger,
    );
    let b = ledger_report(
        a,
        "emitter-stream-pending"@,
        " stream control record(s) pending \u{26a0} \u{2014} "@,
        ". Authenticate to restore applied controls, or power cycle the machine/camera if controls remain stuck."@,
        f.stream_ledger,
    );
    let (state, detail) = capture_line(f.capture@);
    b.check_detail("capture-mode"@, state, detail).line(
        "[doctor] capture mode: "@ + detail,
    ).check(
        "signed-pcr-policy"@,
        if f.signed_policy {
            State::Pass
        } else {
            State::Info
        },
    ).line(
        if f.signed_policy {
            "[doctor] signed PCR policy: systemd PCR-11 signature present \u{2713}; kernel updates won't need re-seal"@
        } else {
            "[doctor] signed PCR policy: none (no Tier 1 on this boot chain)"@
        },
    ).check(
        "pcrlock"@,
        if f.pcrlock is Some {
            State::Pass
        } else {
            State::Info
        },
    ).line(
        match f.pcrlock {
            Some(nv) => "[doctor] pcrlock: provisioned, NV 0x"@ + hexadecimal(nv as nat)
                + "; an arm binds to it if it unseals on this boot (Tier 2)"@,
            None =>
                "[doctor] pcrlock: not provisioned: seals use the literal PCR-7 policy + recovery passphrase (re-arm/restore after firmware updates); `systemd-pcrlock make-policy` enables Tier 2"@,
        },
    )
}

/// Reports pending camera controls, the capture mode and the sealing policies.
pub fn report_seals(r: &mut Report, f: &SealFacts)
    ensures
        final(r)@ == seal_report(old(r)@, *f),
{
    report_ledger(
        r,
        "emitter-undo-pending",
        " camera control(s) modified by interrupted setup \u{26a0} \u{2014} ",
        ". Run `sudo irlume ir-setup` or complete an authentication to restore them. If controls remain stuck, perform a full power cycle.",
        &f.setup_ledger,
    );
    report_ledger(
        r,
        "emitter-stream-pending",
        " stream control record(s) pending \u{26a0} \u{2014} ",
        ". Authenticate to restore applied controls, or power cycle the machine/camera if controls remain stuck.",
        &f.stream_ledger,
    );
    let (state, detail) = capture_mode_report_line(&f.capture);
    r.check_detail("capture-mode", state, owned(detail.as_str()));
    r.line(cat2("[doctor] capture mode: ", detail.as_str()));
    if f.signed_policy {
        r.check("signed-pcr-policy", State::Pass);
        r.line(
            owned(
                "[doctor] signed PCR policy: systemd PCR-11 signature present \u{2713}; kernel updates won't need re-seal",
            ),
        );
    } else {
        r.check("signed-pcr-policy", State::Info);
        r.line(owned("[doctor] signed PCR policy: none (no Tier 1 on this boot chain)"));
    }
    match f.pcrlock {
        Some(nv) => {
            r.check("pcrlock", State::Pass);
            let nv = hex_number(nv);
            r.line(
                cat3(
                    "[doctor] pcrlock: provisioned, NV 0x",
                    nv.as_str(),
                    "; an arm binds to it if it unseals on this boot (Tier 2)",
                ),
            );
        },
        None => {
            r.check("pcrlock", State::Info);
            r.line(
                owned(
                    "[doctor] pcrlock: not provisioned: seals use the literal PCR-7 policy + recovery passphrase (re-arm/restore after firmware updates); `systemd-pcrlock make-policy` enables Tier 2",
                ),
            );
        },
    }
}

/// What a scan of the video nodes showed.
pub struct CameraFacts {
    /// For each node that could be classified, whether it is an infrared one.
    pub infrared: Vec<bool>,
    pub listing_error: Option<String>,
    /// Whether there are nodes of any other kind: unreadable or of no use.
    pub other_nodes: bool,
    /// One line for each device, with its evidence.
    pub census: Vec<String>,
    pub support_note: String,
}

/// The state of the camera check: an infrared node passes, none at all fails.
pub open spec fn camera_state(infrared: Seq<bool>) -> State {
    if infrared.contains(true) {
        State::Pass
    } else if infrared.len() == 0 {
        State::Fail
    } else {
        State::Warn
    }
}

pub open spec fn indent(lines: Seq<Seq<char>>) -> Seq<Seq<char>> {
    lines.map_values(|l: Seq<char>| "  "@ + l)
}

pub open spec fn camera_report(r: ReportV, f: CameraFacts) -> ReportV {
    let a = r.line("[doctor] camera nodes (classified by pixel format):"@).check(
        "camera-nodes"@,
        camera_state(f.infrared@),
    );
    let b = match f.listing_error {
        Some(why) => a.line(
            "  \u{26a0} "@ + why@ + "; whether this machine has camera nodes is unknown"@,
        ),
        None => if f.infrared@.len() == 0 && !f.other_nodes {
            a.line("  (no /dev/video* nodes on this machine)"@)
        } else {
            a
        },
    };
    b.all_lines(indent(texts(f.census@))).line("[doctor] "@ + f.support_note@)
}

fn any_true(v: &Vec<bool>) -> (r: bool)
    ensures
        r == v@.contains(true),
{
    let mut i: usize = 0;
    while i < v.len()
        invariant
            i <= v@.len(),
            forall|k: int| 0 <= k < i ==> !v@[k],
        decreases v@.len() - i,
    {
        if v[i] {
            return true;
        }
        i = i + 1;
    }
    false
}

fn indented(lines: &Vec<String>) -> (r: Vec<String>)
    ensures
        texts(r@) == indent(texts(lines@)),
{
    let mut out: Vec<String> = Vec::new();
    let ghost want = indent(texts(lines@));
    let mut i: usize = 0;
    proof {
        assert(texts(out@) =~= want.take(0));
    }
    while i < lines.len()
        invariant
            i <= lines@.len(),
            want == indent(texts(lines@)),
            texts(out@) == want.take(i as int),
        decreases lines@.len() - i,
    {
        let ghost before = texts(out@);
        out.push(cat2("  ", lines[i].as_str()));
        proof {
            assert(want[i as int] == "  "@ + lines@[i as int]@);
            assert(texts(out@) =~= before.push(want[i as int]));
            assert(texts(out@) =~= want.take(i + 1));
        }
        i = i + 1;
    }
    proof {
        assert(want.take(want.len() as int) =~= want);
    }
    out
}

/// Reports the camera nodes. That they could not be listed is not that there are
/// none.
pub fn report_cameras(r: &mut Report, f: &CameraFacts)
    ensures
        final(r)@ == camera_report(old(r)@, *f),
{
    r.line(owned("[doctor] camera nodes (classified by pixel format):"));
    let state = if any_true(&f.infrared) {
        State::Pass
    } else if f.infrared.len() == 0 {
        State::Fail
    } else {
        State::Warn
    };
    r.check("camera-nodes", state);
    match &f.listing_error {
        Some(why) => {
            r.line(
                cat3(
                    "  \u{26a0} ",
                    why.as_str(),
                    "; whether this machine has camera nodes is unknown",
                ),
            );
        },
        None => {
            if f.infrared.len() == 0 && !f.other_nodes {
                r.line(owned("  (no /dev/video* nodes on this machine)"));
            }
        },
    }
    let census = indented(&f.census);
    r.all_lines(&census);
    r.line(cat2("[doctor] ", f.support_note.as_str()));
}

/// A stream as the driver negotiated it. The rate is text, with two decimals.
pub struct Stream {
    pub width: u32,
    pub height: u32,
    pub fps: Option<String>,
    pub fourcc: String,
    /// Whether it meets the minimum; `None` where only the missing rate is open.
    pub meets: Option<bool>,
}

/// What looking at a node's stream brought.
pub enum StreamLook {
    NoNode,
    Unreadable(String),
    Negotiated(Stream),
}

/// The minimum a stream is held against.
pub struct StreamMinimum {
    pub width: u32,
    pub height: u32,
    pub fps: String,
}

pub open spec fn floor_text(m: StreamMinimum) -> Seq<char> {
    decimal(m.width as nat) + "x"@ + decimal(m.height as nat) + "@"@ + m.fps@ + "fps"@
}

pub open spec fn rate_text(fps: Option<String>) -> Seq<char> {
    match fps {
        Some(fps) => "@"@ + fps@ + "fps"@,
        None => ""@,
    }
}

pub open spec fn shown_text(s: Stream) -> Seq<char> {
    decimal(s.width as nat) + "x"@ + decimal(s.height as nat) + rate_text(s.fps) + " "@ + s.fourcc@
}

/// What is said of one stream. A stream under the minimum still works: a warning,
/// no failure. One that could not be read is not one that falls short.
pub open spec fn stream_report(
    r: ReportV,
    id: Seq<char>,
    label: Seq<char>,
    look: StreamLook,
    min: StreamMinimum,
) -> ReportV {
    match look {
        StreamLook::NoNode => r.line(
            "[doctor] "@ + label + " stream: no selected node"@,
        ).check_detail(id, State::Info, "no selected node"@),
        StreamLook::Negotiated(s) => match s.meets {
            Some(true) => r.line(
                "[doctor] "@ + label + " stream: "@ + shown_text(s)
                    + (" \u{2713} (Windows Hello minimum "@ + floor_text(min) + ")"@),
            ).check_detail(id, State::Pass, shown_text(s)),
            Some(false) => r.line(
                "[doctor] "@ + label + " stream: "@ + shown_text(s) + (
                " \u{26a0} below the published Windows Hello minimum "@ + floor_text(min)
                    + "; captures work, but expect weaker liveness margins on this module"@),
            ).check_detail(id, State::Warn, shown_text(s)),
            None => r.line(
                "[doctor] "@ + label + " stream: "@ + shown_text(s) + (
                "; dimensions meet the Windows Hello minimum "@ + floor_text(min)
                    + ", the driver reports no frame rate"@),
            ).check_detail(id, State::Info, shown_text(s)),
        },
        StreamLook::Unreadable(e) => r.line(
            "[doctor] "@ + label + " stream: not readable now ("@ + e@ + ")"@,
        ).check_detail(id, State::Unknown, e@),
    }
}

/// Both stream checks, always: the infrared one, then the color one.
pub open spec fn streams_report(
    r: ReportV,
    ir: StreamLook,
    ir_min: StreamMinimum,
    rgb: StreamLook,
    rgb_min: StreamMinimum,
) -> ReportV {
    stream_report(
        stream_report(r, "ir-stream-hello-minimum"@, "IR"@, ir, ir_min),
        "rgb-stream-hello-minimum"@,
        "RGB"@,
        rgb,
        rgb_min,
    )
}

fn show_floor(m: &StreamMinimum) -> (r: String)
    ensures
        r@ == floor_text(*m),
{
    let width = dec(m.width as u64);
    let height = dec(m.height as u64);
    cat6(width.as_str(), "x", height.as_str(), "@", m.fps.as_str(), "fps")
}

fn show_stream(s: &Stream) -> (r: String)
    ensures
        r@ == shown_text(*s),
{
    let width = dec(s.width as u64);
    let height = dec(s.height as u64);
    let rate = match &s.fps {
        Some(fps) => cat3("@", fps.as_str(), "fps"),
        None => owned(""),
    };
    cat6(width.as_str(), "x", height.as_str(), rate.as_str(), " ", s.fourcc.as_str())
}

fn report_stream(r: &mut Report, id: &str, label: &str, look: &StreamLook, min: &StreamMinimum)
    ensures
        final(r)@ == stream_report(old(r)@, id@, label@, *look, *min),
{
    match look {
        StreamLook::NoNode => {
            r.line(cat3("[doctor] ", label, " stream: no selected node"));
            r.check_detail(id, State::Info, owned("no selected node"));
        },
        StreamLook::Negotiated(s) => {
            let shown = show_stream(s);
            let floor = show_floor(min);
            let (state, tail) = match s.meets {
                Some(true) => (
                    State::Pass,
                    cat3(" \u{2713} (Windows Hello minimum ", floor.as_str(), ")"),
                ),
                Some(false) => (
                    State::Warn,
                    cat3(
                        " \u{26a0} below the published Windows Hello minimum ",
                        floor.as_str(),
                        "; captures work, but expect weaker liveness margins on this module",
                    ),
                ),
                None => (
                    State::Info,
                    cat3(
                        "; dimensions meet the Windows Hello minimum ",
                        floor.as_str(),
                        ", the driver reports no frame rate",
                    ),
                ),
            };
            r.line(cat5("[doctor] ", label, " stream: ", shown.as_str(), tail.as_str()));
            r.check_detail(id, state, shown);
        },
        StreamLook::Unreadable(e) => {
            r.line(cat5("[doctor] ", label, " stream: not readable now (", e.as_str(), ")"));
            r.check_detail(id, State::Unknown, owned(e.as_str()));
        },
    }
}

/// Holds the two streams against their minimums.
pub fn stream_minimum_checks(
    r: &mut Report,
    ir: &StreamLook,
    ir_min: &StreamMinimum,
    rgb: &StreamLook,
    rgb_min: &StreamMinimum,
)
    ensures
        final(r)@ == streams_report(old(r)@, *ir, *ir_min, *rgb, *rgb_min),
{
    report_stream(r, "ir-stream-hello-minimum", "IR", ir, ir_min);
    report_stream(r, "rgb-stream-hello-minimum", "RGB", rgb, rgb_min);
}

/// The streams of the selected pair, or two missing nodes where there is none.
pub fn selected_stream_minimum_checks(
    r: &mut Report,
    pair: Option<(StreamLook, StreamLook)>,
    ir_min: &StreamMinimum,
    rgb_min: &StreamMinimum,
)
    ensures
        final(r)@ == match pair {
            Some((rgb, ir)) => streams_report(old(r)@, ir, *ir_min, rgb, *rgb_min),
            None => streams_report(
                old(r)@,
                StreamLook::NoNode,
                *ir_min,
                StreamLook::NoNode,
                *rgb_min,
            ),
        },
{
    match pair {
        Some((rgb, ir)) => {
            stream_minimum_checks(r, &ir, ir_min, &rgb, rgb_min);
        },
        None => {
            stream_minimum_checks(r, &StreamLook::NoNode, ir_min, &StreamLook::NoNode, rgb_min);
        },
    }
}

/// What was found of the models and the runtime that loads them.
pub struct ModelFacts {
    /// The daemon says that it has loaded its models.
    pub loaded: bool,
    pub detection: Option<ModelCandidate>,
    pub recognition: Option<ModelCandidate>,
    /// The value of ORT_DYLIB_PATH, empty where it is unset.
    pub ort_path: String,
    /// The runtime this shell would load; none means the system's.
    pub runtime: Option<String>,
    /// Its version, or why it cannot be used.
    pub runtime_verdict: Result<String, String>,
}

pub const RECOGNITION_FILE: &'static str = "glintr100.onnx";

pub const DETECTION_FILE: &'static str = "face_detection_yunet_2023mar.onnx";

/// The path of a candidate that can be read.
pub open spec fn readable_path(c: Option<ModelCandidate>) -> Option<Seq<char>> {
    match candidate_view(c) {
        Some((path, _, true)) => Some(path),
        _ => None,
    }
}

pub open spec fn model_line(file: Seq<char>, c: Option<ModelCandidate>) -> Seq<char> {
    match readable_path(c) {
        Some(path) => "  "@ + file + ": present \u{2713} ("@ + path + ")"@,
        None => "  "@ + file + ": not found; install the irlume package (or run from the repo)"@,
    }
}

pub open spec fn models_report(r: ReportV, f: ModelFacts) -> ReportV {
    let a = r.line("[doctor] models:"@);
    if f.loaded {
        a.line("  loaded by the daemon \u{2713}"@).check("models"@, State::Pass)
    } else {
        a.check(
            "models"@,
            if readable_path(f.recognition) is Some && readable_path(f.detection) is Some {
                State::Pass
            } else {
                State::Fail
            },
        ).line(model_line(RECOGNITION_FILE@, f.recognition)).line(
            model_line(DETECTION_FILE@, f.detection),
        )
    }
}

pub open spec fn runtime_report(r: ReportV, f: ModelFacts) -> ReportV {
    let a = r.check("ort-dylib-path"@, State::Info).line(
        "[doctor] ORT_DYLIB_PATH: "@ + (if f.ort_path@.len() == 0 {
            "(unset)"@
        } else {
            f.ort_path@
        }),
    );
    let source = match f.runtime {
        Some(path) => path@,
        None => "system libonnxruntime.so"@,
    };
    match f.runtime_verdict {
        Ok(version) => a.check_detail(
            "onnxruntime"@,
            State::Pass,
            source + " ("@ + version@ + ")"@,
        ).line("[doctor] ONNX Runtime: "@ + (source + " ("@ + version@ + ")"@) + " \u{2713}"@),
        Err(why) => a.check_detail("onnxruntime"@, State::Fail, source + ": "@ + why@).line(
            "[doctor] ONNX Runtime: "@ + source + " unusable \u{2717} ("@ + why@ + ")"@,
        ),
    }
}

/// What is said of the file a stage would load. One that is there and cannot be
/// read is at least as bad as none.
pub open spec fn stage_line(
    file: Seq<char>,
    required: bool,
    c: Option<ModelCandidate>,
) -> (State, Seq<char>) {
    match candidate_view(c) {
        Some((path, origin, true)) => (
            State::Pass,
            file + " \u{2014} "@ + origin + " ("@ + path + ")"@,
        ),
        Some((path, origin, false)) => (
            if required {
                State::Fail
            } else {
                State::Warn
            },
            file + " \u{2014} "@ + origin + " ("@ + path
                + ") exists but is NOT readable as a model file; the daemon's load of it would fail"@,
        ),
        None => if required {
            (State::Fail, file + " \u{2014} NOT FOUND; the daemon cannot start without it"@)
        } else {
            (State::Warn, file + " \u{2014} not found; detection-rescue alignment is disabled"@)
        },
    }
}

pub open spec fn stage_report(
    r: ReportV,
    stage: Seq<char>,
    id: Seq<char>,
    file: Seq<char>,
    required: bool,
    c: Option<ModelCandidate>,
) -> ReportV {
    let (state, line) = stage_line(file, required, c);
    r.line("  "@ + stage + ": "@ + line).check_detail(id, state, line)
}

pub open spec fn stages_report(r: ReportV, f: ModelFacts) -> ReportV {
    stage_report(
        stage_report(
            r.line("[doctor] pipeline stages (candidate per this shell's search order):"@),
            "detection"@,
            "stage-detection-model"@,
            DETECTION_FILE@,
            true,
            f.detection,
        ),
        "recognition"@,
        "stage-recognition-model"@,
        RECOGNITION_FILE@,
        true,
        f.recognition,
    )
}

fn show_model(file: &str, c: &Option<ModelCandidate>) -> (r: String)
    ensures
        r@ == model_line(file@, *c),
{
    match c {
        Some(c) => {
            if c.readable {
                return cat5("  ", file, ": present \u{2713} (", c.path.as_str(), ")");
            }
        },
        None => {},
    }
    cat3("  ", file, ": not found; install the irlume package (or run from the repo)")
}

fn is_readable(c: &Option<ModelCandidate>) -> (r: bool)
    ensures
        r == (readable_path(*c) is Some),
{
    match c {
        Some(c) => c.readable,
        None => false,
    }
}

/// Reports one stage of the pipeline under its check id.
pub fn report_stage(
    r: &mut Report,
    stage: &str,
    id: &str,
    file: &str,
    required: bool,
    c: &Option<ModelCandidate>,
)
    ensures
        final(r)@ == stage_report(old(r)@, stage@, id@, file@, required, *c),
{
    let (state, line) = match c {
        Some(c) => {
            let head = cat5(file, " \u{2014} ", c.origin, " (", c.path.as_str());
            if c.readable {
                (State::Pass, cat2(head.as_str(), ")"))
            } else {
                (
                    if required {
                        State::Fail
                    } else {
                        State::Warn
                    },
                    cat2(
                        head.as_str(),
                        ") exists but is NOT readable as a model file; the daemon's load of it would fail",
                    ),
                )
            }
        },
        None => {
            if required {
                (
                    State::Fail,
                    cat2(file, " \u{2014} NOT FOUND; the daemon cannot start without it"),
                )
            } else {
                (
                    State::Warn,
                    cat2(file, " \u{2014} not found; detection-rescue alignment is disabled"),
                )
            }
        },
    };
    r.line(cat4("  ", stage, ": ", line.as_str()));
    r.check_detail(id, state, line);
}

/// Reports the models, the runtime and the stages.
pub fn report_models(r: &mut Report, f: &ModelFacts)
    ensures
        final(r)@ == stages_report(runtime_report(models_report(old(r)@, *f), *f), *f),
{
    r.line(owned("[doctor] models:"));
    if f.loaded {
        r.line(owned("  loaded by the daemon \u{2713}"));
        r.check("models", State::Pass);
    } else {
        let state = if is_readable(&f.recognition) && is_readable(&f.detection) {
            State::Pass
        } else {
            State::Fail
        };
        r.check("models", state);
        r.line(show_model(RECOGNITION_FILE, &f.recognition));
        r.line(show_model(DETECTION_FILE, &f.detection));
    }
    r.check("ort-dylib-path", State::Info);
    let ort = if f.ort_path.as_str().is_empty() {
        "(unset)"
    } else {
        f.ort_path.as_str()
    };
    r.line(cat2("[doctor] ORT_DYLIB_PATH: ", ort));
    let source = match &f.runtime {
        Some(path) => path.as_str(),
        None => "system libonnxruntime.so",
    };
    match &f.runtime_verdict {
        Ok(version) => {
            let detail = cat4(source, " (", version.as_str(), ")");
            r.check_detail("onnxruntime", State::Pass, owned(detail.as_str()));
            r.line(cat3("[doctor] ONNX Runtime: ", detail.as_str(), " \u{2713}"));
        },
        Err(why) => {
            r.check_detail("onnxruntime", State::Fail, cat3(source, ": ", why.as_str()));
            r.line(
                cat5("[doctor] ONNX Runtime: ", source, " unusable \u{2717} (", why.as_str(), ")"),
            );
        },
    }
    r.line(owned("[doctor] pipeline stages (candidate per this shell's search order):"));
    report_stage(r, "detection", "stage-detection-model", DETECTION_FILE, true, &f.detection);
    report_stage(
        r,
        "recognition",
        "stage-recognition-model",
        RECOGNITION_FILE,
        true,
        &f.recognition,
    );
}

/// The Secure Boot check passes exactly where Secure Boot is present and enabled,
/// and warns exactly where it is present and is not; only where there is none to
/// look at is nothing known. The line says the same.
pub proof fn secure_boot_passes_only_where_it_is_on(r: ReportV, b: SecureBoot)
    ensures
        ({
            let after = secure_boot_report(r, b);
            let c = after.checks.last();
            &&& after.checks.len() == r.checks.len() + 1
            &&& after.lines.len() == r.lines.len() + 1
            &&& c.id == "secure-boot"@
            &&& c.state == State::Pass <==> b.present && b.enabled
            &&& c.state == State::Warn <==> b.present && !b.enabled
            &&& c.state == State::Unknown <==> !b.present
            &&& c.detail is Some <==> c.state == State::Warn
            &&& after.lines.last() == "[doctor] Secure Boot: enabled \u{2713}"@ <==> b.present
                && b.enabled
            &&& b.present && !b.enabled && !b.setup_mode ==> c.detail == Some("disabled"@)
            &&& b.present && !b.enabled && b.setup_mode ==> c.detail == Some(
                "setup mode: keys not enrolled"@,
            )
        }),
{
    reveal_strlit("[doctor] Secure Boot: enabled \u{2713}");
    reveal_strlit("[doctor] Secure Boot: unknown (not a UEFI boot?)");
    reveal_strlit(
        "[doctor] Secure Boot: SETUP MODE \u{26a0} (keys not enrolled); PCR-7 binding is NOT enforcing",
    );
    reveal_strlit(
        "[doctor] Secure Boot: disabled \u{26a0} (TPM PCR-7 binding is weak; enable for trust)",
    );
    let last = secure_boot_report(r, b).lines.last();
    if !(b.present && b.enabled) {
        assert(last[22] != 'e');
        assert("[doctor] Secure Boot: enabled \u{2713}"@[22] == 'e');
    }
}

/// A TPM passes, and a machine without one fails; what could be read of the
/// platform is told as it was read.
pub proof fn a_machine_without_a_tpm_fails(r: ReportV, f: PlatformFacts)
    ensures
        ({
            let c = platform_report(r, f).checks;
            let n = r.checks.len() as int;
            &&& c.len() == n + 5
            &&& c.take(n) == r.checks
            &&& c[n].detail == Some(f.family@)
            &&& c[n + 2].id == "tpm"@
            &&& c[n + 2].state == State::Pass <==> f.tpm is Some
            &&& c[n + 2].state == State::Fail <==> f.tpm is None
            &&& c[n + 3].id == "secure-boot"@
            &&& c[n + 3].state == State::Pass <==> f.secure_boot.present && f.secure_boot.enabled
            &&& c[n + 3].state == State::Warn <==> f.secure_boot.present && !f.secure_boot.enabled
            &&& c[n + 4].detail == Some(f.boot_mode@)
        }),
{
    assert(platform_report(r, f).checks.take(r.checks.len() as int) =~= r.checks);
}

/// A ledger passes exactly where it is clear, warns exactly where it still holds
/// something, and is unknown exactly where nobody could look; only entries are
/// worth a line.
pub proof fn a_ledger_that_holds_something_warns(
    r: ReportV,
    id: Seq<char>,
    before: Seq<char>,
    after: Seq<char>,
    p: PendingSummary,
)
    ensures
        ({
            let a = ledger_report(r, id, before, after, p);
            &&& a.checks.len() == r.checks.len() + 1
            &&& a.checks.drop_last() == r.checks
            &&& a.checks.last().id == id
            &&& a.checks.last().state == State::Pass <==> p is Clear
            &&& a.checks.last().state == State::Warn <==> p is Pending
            &&& a.checks.last().state == State::Unknown <==> p is Unreadable
            &&& a.lines.len() > r.lines.len() <==> p is Pending
        }),
{
    assert(ledger_report(r, id, before, after, p).checks.drop_last() =~= r.checks);
}

/// The five checks on the emitter, the capture mode and the seals: each passes
/// exactly where there is what it looks for.
pub proof fn the_seals_say_what_protects_them(r: ReportV, f: SealFacts)
    ensures
        ({
            let c = seal_report(r, f).checks;
            let n = r.checks.len() as int;
            &&& c.len() == n + 5
            &&& c.take(n) == r.checks
            &&& c[n].state == State::Pass <==> f.setup_ledger is Clear
            &&& c[n].state == State::Warn <==> f.setup_ledger is Pending
            &&& c[n + 1].state == State::Pass <==> f.stream_ledger is Clear
            &&& c[n + 1].state == State::Warn <==> f.stream_ledger is Pending
            &&& c[n + 3].state == State::Pass <==> f.signed_policy
            &&& c[n + 3].state == State::Info <==> !f.signed_policy
            &&& c[n + 4].state == State::Pass <==> f.pcrlock is Some
            &&& c[n + 4].state == State::Info <==> f.pcrlock is None
        }),
{
    assert(seal_report(r, f).checks.take(r.checks.len() as int) =~= r.checks);
}

/// The camera check passes exactly where some node is an infrared one, fails
/// exactly where no node could be classified, and warns on color alone.
pub proof fn only_an_infrared_camera_passes(r: ReportV, f: CameraFacts)
    ensures
        ({
            let c = camera_report(r, f).checks;
            let n = r.checks.len() as int;
            let infrared = exists|i: int| 0 <= i < f.infrared@.len() && #[trigger] f.infrared@[i];
            &&& c.len() == n + 1
            &&& c.take(n) == r.checks
            &&& c[n].state == State::Pass <==> infrared
            &&& c[n].state == State::Fail <==> f.infrared@.len() == 0
            &&& c[n].state == State::Warn <==> f.infrared@.len() > 0 && !infrared
        }),
{
    assert(camera_report(r, f).checks.take(r.checks.len() as int) =~= r.checks);
    if f.infrared@.contains(true) {
        let i = choose|i: int| 0 <= i < f.infrared@.len() && f.infrared@[i] == true;
        assert(f.infrared@[i]);
    }
}

/// A stream passes exactly where it meets the minimum and warns exactly where it
/// falls short of it; a node that is not there or cannot be read does neither,
/// and no stream fails.
pub proof fn only_a_stream_that_falls_short_warns(
    r: ReportV,
    id: Seq<char>,
    label: Seq<char>,
    look: StreamLook,
    min: StreamMinimum,
)
    ensures
        ({
            let a = stream_report(r, id, label, look, min);
            let c = a.checks.last();
            &&& a.checks.len() == r.checks.len() + 1
            &&& a.checks.drop_last() == r.checks
            &&& c.id == id
            &&& c.state == State::Pass <==> (look matches StreamLook::Negotiated(s) && s.meets
                == Some(true))
            &&& c.state == State::Warn <==> (look matches StreamLook::Negotiated(s) && s.meets
                == Some(false))
            &&& c.state == State::Unknown <==> look is Unreadable
            &&& c.state != State::Fail
        }),
{
    assert(stream_report(r, id, label, look, min).checks.drop_last() =~= r.checks);
}

/// The models pass exactly where the daemon has loaded them or both files can be
/// read; anything less is a failure.
pub proof fn models_fail_unless_both_can_be_read(r: ReportV, f: ModelFacts)
    ensures
        ({
            let c = models_report(r, f).checks;
            let both = (f.recognition matches Some(m) && m.readable) && (f.detection matches Some(m)
                && m.readable);
            &&& c.len() == r.checks.len() + 1
            &&& c.drop_last() == r.checks
            &&& c.last().state == State::Pass <==> f.loaded || both
            &&& c.last().state == State::Fail <==> !f.loaded && !both
        }),
{
    assert(models_report(r, f).checks.drop_last() =~= r.checks);
}

/// The runtime passes exactly where it could be used and fails otherwise; its path
/// alone is never a fault.
pub proof fn an_unusable_runtime_fails(r: ReportV, f: ModelFacts)
    ensures
        ({
            let c = runtime_report(r, f).checks;
            let n = r.checks.len() as int;
            &&& c.len() == n + 2
            &&& c.take(n) == r.checks
            &&& c[n].state == State::Info
            &&& c[n + 1].state == State::Pass <==> f.runtime_verdict is Ok
            &&& c[n + 1].state == State::Fail <==> f.runtime_verdict is Err
        }),
{
    assert(runtime_report(r, f).checks.take(r.checks.len() as int) =~= r.checks);
}

/// A stage passes exactly where its file is there and can be read. Short of that a
/// required stage fails and another warns.
pub proof fn a_required_stage_fails_without_a_readable_file(
    r: ReportV,
    stage: Seq<char>,
    id: Seq<char>,
    file: Seq<char>,
    required: bool,
    c: Option<ModelCandidate>,
)
    ensures
        ({
            let after = stage_report(r, stage, id, file, required, c);
            let there = c matches Some(m) && m.readable;
            let last = after.checks.last();
            &&& after.checks.len() == r.checks.len() + 1
            &&& after.checks.drop_last() == r.checks
            &&& last.id == id
            &&& last.state == State::Pass <==> there
            &&& last.state == State::Fail <==> !there && required
            &&& last.state == State::Warn <==> !there && !required
        }),
{
    assert(stage_report(r, stage, id, file, required, c).checks.drop_last() =~= r.checks);
}

/// Detection and recognition are both required: each passes exactly where its own
/// file is there and can be read, and fails otherwise.
pub proof fn the_two_required_stages_are_checked(r: ReportV, f: ModelFacts)
    ensures
        ({
            let c = stages_report(r, f).checks;
            let n = r.checks.len() as int;
            &&& c.len() == n + 2
            &&& c.take(n) == r.checks
            &&& c[n].state == State::Pass <==> (f.detection matches Some(m) && m.readable)
            &&& c[n].state == State::Fail <==> !(f.detection matches Some(m) && m.readable)
            &&& c[n + 1].state == State::Pass <==> (f.recognition matches Some(m) && m.readable)
            &&& c[n + 1].state == State::Fail <==> !(f.recognition matches Some(m) && m.readable)
        }),
{
    assert(stages_report(r, f).checks.take(r.checks.len() as int) =~= r.checks);
}

/// The TPM's node that is used, if there is one.
pub open spec fn tpm_node(managed: bool, bare: bool) -> Option<Seq<char>> {
    if managed {
        Some("/dev/tpmrm0"@)
    } else if bare {
        Some("/dev/tpm0"@)
    } else {
        None
    }
}

/// The managed node is used wherever it is there, the bare one only without it, and
/// there is no TPM exactly where neither is.
pub proof fn the_managed_node_comes_first(managed: bool, bare: bool)
    ensures
        tpm_node(managed, bare) == Some("/dev/tpmrm0"@) <==> managed,
        tpm_node(managed, bare) == Some("/dev/tpm0"@) <==> bare && !managed,
        tpm_node(managed, bare) is None <==> !bare && !managed,
{
    reveal_strlit("/dev/tpmrm0");
    reveal_strlit("/dev/tpm0");
    assert("/dev/tpmrm0"@.len() == 11 && "/dev/tpm0"@.len() == 9);
}

} // verus!
