//! The arguments of the developer and benchmark tools, and what they report.

use vstd::prelude::*;

use crate::args::{flag, flag_value, has_arg};
use crate::console::{fail_with, failed, Console, Outcome, OutcomeV, SayV};
use crate::text::{
    cat2, cat5, cat7, cat8, dec, decimal, opt_text, owned, parse_unsigned, texts,
    unsigned_value,
};

verus! {

/// The value of a flag, or a default.
pub open spec fn text_or(args: Seq<Seq<char>>, name: Seq<char>, default: Seq<char>) -> Seq<char> {
    match flag_value(args, name) {
        Some(v) => v,
        None => default,
    }
}

/// The count of a flag; the default where it is missing or no count.
pub open spec fn count_or(args: Seq<Seq<char>>, name: Seq<char>, default: usize) -> usize {
    match flag_value(args, name) {
        Some(v) => match unsigned_value(v, usize::MAX as nat) {
            Some(n) => n as usize,
            None => default,
        },
        None => default,
    }
}

fn text_of(args: &[String], name: &str, default: &str) -> (r: String)
    ensures
        r@ == text_or(texts(args@), name@, default@),
{
    match flag(args, name) {
        Some(v) => owned(v),
        None => owned(default),
    }
}

fn count_of(args: &[String], name: &str, default: usize) -> (r: usize)
    ensures
        r == count_or(texts(args@), name@, default),
{
    match flag(args, name) {
        Some(v) => {
            match parse_unsigned(v, usize::MAX as u64) {
                Some(n) => n as usize,
                None => default,
            }
        },
        None => default,
    }
}

fn value_of(args: &[String], name: &str) -> (r: Option<String>)
    ensures
        opt_text(r) == flag_value(texts(args@), name@),
{
    match flag(args, name) {
        Some(v) => Some(owned(v)),
        None => None,
    }
}

/// The two models that most tools need.
pub struct ModelArgs {
    pub det: String,
    pub model: String,
}

/// Both models are named.
pub open spec fn models_named(args: Seq<Seq<char>>) -> bool {
    flag_value(args, "--det"@) is Some && flag_value(args, "--model"@) is Some
}

pub open spec fn models_are(args: Seq<Seq<char>>, m: ModelArgs) -> bool {
    flag_value(args, "--det"@) == Some(m.det@) && flag_value(args, "--model"@) == Some(m.model@)
}

/// Reads the two models, or shows how the tool is used.
pub fn read_models(args: &[String], usage: &str) -> (r: Result<ModelArgs, Outcome>)
    ensures
        match r {
            Ok(m) => models_named(texts(args@)) && models_are(texts(args@), m),
            Err(o) => !models_named(texts(args@)) && o@ == failed(usage@, 2),
        },
{
    match (flag(args, "--det"), flag(args, "--model")) {
        (Some(det), Some(model)) => Ok(ModelArgs { det: owned(det), model: owned(model) }),
        _ => Err(fail_with(owned(usage), 2)),
    }
}

pub const VERIFY_USAGE: &'static str = "usage: irlume verify --user U --det <yunet.onnx> --model <glintr100.onnx> [--rgb ..] [--ir ..]";

/// How a direct authentication ended. The score is text, with three decimals.
pub enum VerifyResult {
    Decided { live: bool, granted: bool, score: String, reason: String },
    Failed(String),
}

/// What `verify` prints: it succeeds only where access was granted.
pub fn report_verify(v: &VerifyResult) -> (r: Outcome)
    ensures
        r@.exit == verify_exit(*v),
        r@ == match *v {
            VerifyResult::Decided { live, granted, score, reason } => OutcomeV {
                says: Seq::<SayV>::empty().push(
                    SayV::Out(
                        "[verify] live="@ + crate::camera::truth(live) + " score "@ + score@
                            + " -> "@ + (if granted {
                            "GRANT \u{2705}"@
                        } else {
                            "DENY \u{274c}"@
                        }) + " ("@ + reason@ + ")"@,
                    ),
                ),
                exit: if granted {
                    0
                } else {
                    1
                },
            },
            VerifyResult::Failed(e) => failed("verify error: "@ + e@, 1),
        },
{
    match v {
        VerifyResult::Decided { live, granted, score, reason } => {
            let mut c = Console::new();
            c.out(
                cat8(
                    "[verify] live=",
                    if *live {
                        "true"
                    } else {
                        "false"
                    },
                    " score ",
                    score.as_str(),
                    " -> ",
                    if *granted {
                        "GRANT \u{2705}"
                    } else {
                        "DENY \u{274c}"
                    },
                    " (",
                    cat2(reason.as_str(), ")").as_str(),
                ),
            );
            proof {
                let head = "[verify] live="@ + crate::camera::truth(*live) + " score "@ + score@
                    + " -> "@ + (if *granted {
                    "GRANT \u{2705}"@
                } else {
                    "DENY \u{274c}"@
                }) + " ("@;
                assert(head + (reason@ + ")"@) =~= head + reason@ + ")"@);
            }
            Outcome {
                console: c,
                exit: if *granted {
                    0
                } else {
                    1
                },
            }
        },
        VerifyResult::Failed(e) => fail_with(cat2("verify error: ", e.as_str()), 1),
    }
}

pub const ENROLLDEV_USAGE: &'static str = "usage: irlume enrolldev --user U --det <yunet.onnx> --model <glintr100.onnx> [--name N] [--scans K] [--adapter P] [--rgb ..] [--ir ..]";

/// What `enrolldev` was asked to do.
pub struct EnrolldevArgs {
    pub models: ModelArgs,
    pub name: Option<String>,
    pub scans: usize,
}

/// Reads the arguments of `enrolldev`. `default_scans` stands for a missing or
/// unreadable count.
pub fn enrolldev_args(args: &[String], default_scans: usize) -> (r: Result<EnrolldevArgs, Outcome>)
    ensures
        match r {
            Ok(a) => models_named(texts(args@)) && models_are(texts(args@), a.models) && opt_text(
                a.name,
            ) == flag_value(texts(args@), "--name"@) && a.scans == count_or(
                texts(args@),
                "--scans"@,
                default_scans,
            ),
            Err(o) => !models_named(texts(args@)) && o@ == failed(ENROLLDEV_USAGE@, 2),
        },
{
    match read_models(args, ENROLLDEV_USAGE) {
        Err(o) => Err(o),
        Ok(models) => Ok(
            EnrolldevArgs {
                models,
                name: value_of(args, "--name"),
                scans: count_of(args, "--scans", default_scans),
            },
        ),
    }
}

/// How a direct enrollment ended.
pub enum EnrolldevResult {
    New { name: String, scans: u64, ambient_lit: u64 },
    Merged { name: String, added: u64, total: u64, ambient_lit: u64 },
    Failed(String),
}

pub open spec fn room_lit_line(lit: u64, of: u64, what: Seq<char>) -> Seq<char> {
    "[enrolldev] "@ + decimal(lit as nat) + " of "@ + decimal(of as nat) + what
        + " were lit mainly by the room, not provably by the IR emitter; dark-room login is unverified. Check it: turn the lights off and run `irlume identify` (#312)"@
}

pub open spec fn enrolldev_outcome(e: EnrolldevResult) -> OutcomeV {
    match e {
        EnrolldevResult::New { name, scans, ambient_lit } => {
            let head = Seq::<SayV>::empty().push(
                SayV::Out(
                    "[enrolldev] enrolled '"@ + name@ + "' ("@ + decimal(scans as nat)
                        + " scans)"@,
                ),
            );
            OutcomeV {
                says: if ambient_lit > 0 {
                    head.push(SayV::Out(room_lit_line(ambient_lit, scans, " scans"@)))
                } else {
                    head
                },
                exit: 0,
            }
        },
        EnrolldevResult::Merged { name, added, total, ambient_lit } => {
            let head = Seq::<SayV>::empty().push(
                SayV::Out(
                    "[enrolldev] merged into '"@ + name@ + "' (+"@ + decimal(added as nat)
                        + " scans, "@ + decimal(total as nat) + " total)"@,
                ),
            );
            OutcomeV {
                says: if ambient_lit > 0 {
                    head.push(SayV::Out(room_lit_line(ambient_lit, added, " added scans"@)))
                } else {
                    head
                },
                exit: 0,
            }
        },
        EnrolldevResult::Failed(e) => failed("enrolldev error: "@ + e@, 1),
    }
}

fn room_lit(lit: u64, of: u64, what: &str) -> (r: String)
    ensures
        r@ == room_lit_line(lit, of, what@),
{
    let lit = dec(lit);
    let of = dec(of);
    crate::text::cat6(
        "[enrolldev] ",
        lit.as_str(),
        " of ",
        of.as_str(),
        what,
        " were lit mainly by the room, not provably by the IR emitter; dark-room login is unverified. Check it: turn the lights off and run `irlume identify` (#312)",
    )
}

/// What `enrolldev` prints.
pub fn report_enrolldev(e: &EnrolldevResult) -> (r: Outcome)
    ensures
        r@ == enrolldev_outcome(*e),
{
    let mut c = Console::new();
    match e {
        EnrolldevResult::New { name, scans, ambient_lit } => {
            let count = dec(*scans);
            c.out(
                cat5("[enrolldev] enrolled '", name.as_str(), "' (", count.as_str(), " scans)"),
            );
            if *ambient_lit > 0 {
                c.out(room_lit(*ambient_lit, *scans, " scans"));
            }
            Outcome { console: c, exit: 0 }
        },
        EnrolldevResult::Merged { name, added, total, ambient_lit } => {
            let more = dec(*added);
            let count = dec(*total);
            c.out(
                cat7(
                    "[enrolldev] merged into '",
                    name.as_str(),
                    "' (+",
                    more.as_str(),
                    " scans, ",
                    count.as_str(),
                    " total)",
                ),
            );
            if *ambient_lit > 0 {
                c.out(room_lit(*ambient_lit, *added, " added scans"));
            }
            Outcome { console: c, exit: 0 }
        },
        EnrolldevResult::Failed(e) => fail_with(cat2("enrolldev error: ", e.as_str()), 1),
    }
}

pub const CAPTURE_USAGE: &'static str = "usage: irlume capture --det <yunet.onnx> --model <glintr100.onnx> [--device /dev/videoN]";

pub const GENUINE_USAGE: &'static str = "usage: irlume genuine --det <yunet.onnx> --model <glintr100.onnx>";

/// What `capture` and `genuine` were asked to look at.
pub struct CaptureArgs {
    pub models: ModelArgs,
    pub device: String,
    /// A still image in place of the camera.
    pub image: Option<String>,
}

fn frame_args(args: &[String], usage: &str) -> (r: Result<CaptureArgs, Outcome>)
    ensures
        match r {
            Ok(a) => models_named(texts(args@)) && models_are(texts(args@), a.models) && a.device@
                == text_or(texts(args@), "--device"@, "/dev/video0"@) && opt_text(a.image)
                == flag_value(texts(args@), "--image"@),
            Err(o) => !models_named(texts(args@)) && o@ == failed(usage@, 2),
        },
{
    match read_models(args, usage) {
        Err(o) => Err(o),
        Ok(models) => Ok(
            CaptureArgs {
                models,
                device: text_of(args, "--device", "/dev/video0"),
                image: value_of(args, "--image"),
            },
        ),
    }
}

/// Reads the arguments of `capture`.
pub fn capture_args(args: &[String]) -> (r: Result<CaptureArgs, Outcome>)
    ensures
        match r {
            Ok(a) => models_named(texts(args@)) && models_are(texts(args@), a.models) && a.device@
                == text_or(texts(args@), "--device"@, "/dev/video0"@) && opt_text(a.image)
                == flag_value(texts(args@), "--image"@),
            Err(o) => !models_named(texts(args@)) && o@ == failed(CAPTURE_USAGE@, 2),
        },
{
    frame_args(args, CAPTURE_USAGE)
}

/// Reads the arguments of `genuine`, which never takes a still image.
pub fn genuine_args(args: &[String]) -> (r: Result<CaptureArgs, Outcome>)
    ensures
        match r {
            Ok(a) => models_named(texts(args@)) && models_are(texts(args@), a.models) && a.device@
                == text_or(texts(args@), "--device"@, "/dev/video0"@) && a.image is None,
            Err(o) => !models_named(texts(args@)) && o@ == failed(GENUINE_USAGE@, 2),
        },
{
    match frame_args(args, GENUINE_USAGE) {
        Err(o) => Err(o),
        Ok(a) => Ok(CaptureArgs { models: a.models, device: a.device, image: None }),
    }
}

pub const LIVENESS_USAGE: &'static str = "usage: irlume liveness --det <yunet.onnx> [--rgb /dev/video0] [--ir /dev/video2]";

/// What `liveness` was asked to look at.
pub struct LivenessArgs {
    pub det: String,
    pub rgb: String,
    pub ir: String,
}

/// Reads the arguments of `liveness`; `rgb` and `ir` are the default nodes.
pub fn liveness_args(args: &[String], rgb: &str, ir: &str) -> (r: Result<LivenessArgs, Outcome>)
    ensures
        match r {
            Ok(a) => flag_value(texts(args@), "--det"@) == Some(a.det@) && a.rgb@ == text_or(
                texts(args@),
                "--rgb"@,
                rgb@,
            ) && a.ir@ == text_or(texts(args@), "--ir"@, ir@),
            Err(o) => flag_value(texts(args@), "--det"@) is None && o@ == failed(
                LIVENESS_USAGE@,
                2,
            ),
        },
{
    match value_of(args, "--det") {
        None => Err(fail_with(owned(LIVENESS_USAGE), 2)),
        Some(det) => Ok(
            LivenessArgs {
                det,
                rgb: text_of(args, "--rgb", rgb),
                ir: text_of(args, "--ir", ir),
            },
        ),
    }
}

pub const CALCAPTURE_USAGE: &'static str = "usage: irlume calcapture --user U --det <yunet.onnx> --model <glintr100.onnx> --out <cal.jsonl> [--adapter <ir.onnx>] [--rgb /dev/video0] [--ir /dev/video2] [--n 40] [--tag bright]";

/// What `calcapture` was asked to record.
pub struct CalcaptureArgs {
    pub models: ModelArgs,
    pub out: String,
    pub rgb: String,
    pub ir: String,
    pub n: usize,
    pub tag: String,
    pub adapter: Option<String>,
}

pub open spec fn calcapture_named(args: Seq<Seq<char>>) -> bool {
    models_named(args) && flag_value(args, "--out"@) is Some
}

/// Reads the arguments of `calcapture`.
pub fn calcapture_args(args: &[String]) -> (r: Result<CalcaptureArgs, Outcome>)
    ensures
        match r {
            Ok(a) => calcapture_named(texts(args@)) && models_are(texts(args@), a.models)
                && flag_value(texts(args@), "--out"@) == Some(a.out@) && a.rgb@ == text_or(
                texts(args@),
                "--rgb"@,
                "/dev/video0"@,
            ) && a.ir@ == text_or(texts(args@), "--ir"@, "/dev/video2"@) && a.n == count_or(
                texts(args@),
                "--n"@,
                40,
            ) && a.tag@ == text_or(texts(args@), "--tag"@, "untagged"@) && opt_text(a.adapter)
                == flag_value(texts(args@), "--adapter"@),
            Err(o) => !calcapture_named(texts(args@)) && o@ == failed(CALCAPTURE_USAGE@, 2),
        },
{
    match read_models(args, CALCAPTURE_USAGE) {
        Err(o) => Err(o),
        Ok(models) => {
            match value_of(args, "--out") {
                None => Err(fail_with(owned(CALCAPTURE_USAGE), 2)),
                Some(out) => Ok(
                    CalcaptureArgs {
                        models,
                        out,
                        rgb: text_of(args, "--rgb", "/dev/video0"),
                        ir: text_of(args, "--ir", "/dev/video2"),
                        n: count_of(args, "--n", 40),
                        tag: text_of(args, "--tag", "untagged"),
                        adapter: value_of(args, "--adapter"),
                    },
                ),
            }
        },
    }
}

pub const EVAL_USAGE: &'static str = "usage: irlume eval --image <group.jpg> --det <yunet.onnx> --model <glintr100.onnx>";

/// What `eval` was asked to look at.
pub struct EvalArgs {
    pub models: ModelArgs,
    pub image: String,
    pub grey: bool,
}

/// Reads the arguments of `eval`.
pub fn eval_args(args: &[String]) -> (r: Result<EvalArgs, Outcome>)
    ensures
        match r {
            Ok(a) => models_named(texts(args@)) && models_are(texts(args@), a.models)
                && flag_value(texts(args@), "--image"@) == Some(a.image@) && a.grey == texts(
                args@,
            ).contains("--grey"@),
            Err(o) => !(models_named(texts(args@)) && flag_value(
                texts(args@),
                "--image"@,
            ) is Some) && o@ == failed(EVAL_USAGE@, 2),
        },
{
    match read_models(args, EVAL_USAGE) {
        Err(o) => Err(o),
        Ok(models) => {
            match value_of(args, "--image") {
                None => Err(fail_with(owned(EVAL_USAGE), 2)),
                Some(image) => Ok(EvalArgs { models, image, grey: has_arg(args, "--grey") }),
            }
        },
    }
}

pub const NORMPROBE_USAGE: &'static str = "usage: irlume normprobe --dir <imgs> [--det Y] [--model G] [--max N]";

/// What `normprobe` was asked to look at.
pub struct NormprobeArgs {
    pub dir: String,
    pub models: ModelArgs,
    pub max: usize,
}

/// Reads the arguments of `normprobe`: only the directory has no default.
pub fn normprobe_args(args: &[String]) -> (r: Result<NormprobeArgs, Outcome>)
    ensures
        match r {
            Ok(a) => a.dir@ == text_or(texts(args@), "--dir"@, ""@) && a.dir@.len() > 0
                && a.models.det@ == text_or(
                texts(args@),
                "--det"@,
                "models/face_detection_yunet_2023mar.onnx"@,
            ) && a.models.model@ == text_or(texts(args@), "--model"@, "models/glintr100.onnx"@)
                && a.max == count_or(texts(args@), "--max"@, 40),
            Err(o) => text_or(texts(args@), "--dir"@, ""@).len() == 0 && o@ == failed(
                NORMPROBE_USAGE@,
                2,
            ),
        },
{
    let dir = text_of(args, "--dir", "");
    if dir.as_str().is_empty() {
        return Err(fail_with(owned(NORMPROBE_USAGE), 2));
    }
    Ok(
        NormprobeArgs {
            dir,
            models: ModelArgs {
                det: text_of(args, "--det", "models/face_detection_yunet_2023mar.onnx"),
                model: text_of(args, "--model", "models/glintr100.onnx"),
            },
            max: count_of(args, "--max", 40),
        },
    )
}

pub const IRBENCH_USAGE: &'static str = "usage: irlume irbench --dir <imgdir> --det <yunet.onnx> --model <glintr100.onnx> [--max-persons N] [--lfw] [--impostor-only [--max-images N]]";

pub const IRBENCH_CONFLICT: &'static str = "[irbench] --impostor-only and --lfw are incompatible: --impostor-only assumes every image is a DIFFERENT person and pairs all of them, so on a set with several images per identity (which is what --lfw describes) the same-person pairs would be counted as impostor pairs and the reported FAR would be an upper bound, not an impostor rate. Drop one of the two flags.";

/// What `irbench` was asked to measure.
pub struct IrbenchArgs {
    pub dir: String,
    pub models: ModelArgs,
    /// Every image is another person: only false accepts are measured.
    pub impostor_only: bool,
    pub lfw: bool,
    pub max_persons: usize,
    pub max_images: usize,
    pub tta: bool,
    pub darken: Option<String>,
    pub lightnorm: Option<String>,
    pub export: Option<String>,
}

pub open spec fn irbench_named(args: Seq<Seq<char>>) -> bool {
    models_named(args) && flag_value(args, "--dir"@) is Some
}

/// Why `irbench` does not start.
pub open spec fn irbench_refusal(args: Seq<Seq<char>>) -> Option<Seq<char>> {
    if !irbench_named(args) {
        Some(IRBENCH_USAGE@)
    } else if args.contains("--impostor-only"@) && args.contains("--lfw"@) {
        Some(IRBENCH_CONFLICT@)
    } else {
        None
    }
}

pub open spec fn irbench_are(args: Seq<Seq<char>>, a: IrbenchArgs) -> bool {
    &&& models_are(args, a.models)
    &&& flag_value(args, "--dir"@) == Some(a.dir@)
    &&& a.impostor_only == args.contains("--impostor-only"@)
    &&& a.lfw == args.contains("--lfw"@)
    &&& a.max_persons == count_or(args, "--max-persons"@, 80)
    &&& a.max_images == count_or(args, "--max-images"@, 20_000)
    &&& a.tta == args.contains("--tta"@)
    &&& opt_text(a.darken) == flag_value(args, "--darken"@)
    &&& opt_text(a.lightnorm) == flag_value(args, "--lightnorm"@)
    &&& opt_text(a.export) == flag_value(args, "--export"@)
}

/// Reads the arguments of `irbench`. Grouping by person and a set of strangers
/// contradict each other.
pub fn irbench_args(args: &[String]) -> (r: Result<IrbenchArgs, Outcome>)
    ensures
        match r {
            Ok(a) => irbench_refusal(texts(args@)) is None && irbench_are(texts(args@), a),
            Err(o) => irbench_refusal(texts(args@)) matches Some(why) && o@ == failed(why, 2),
        },
{
    let models = match read_models(args, IRBENCH_USAGE) {
        Err(o) => {
            return Err(o);
        },
        Ok(m) => m,
    };
    let dir = match value_of(args, "--dir") {
        None => {
            return Err(fail_with(owned(IRBENCH_USAGE), 2));
        },
        Some(dir) => dir,
    };
    let impostor_only = has_arg(args, "--impostor-only");
    let lfw = has_arg(args, "--lfw");
    if impostor_only && lfw {
        return Err(fail_with(owned(IRBENCH_CONFLICT), 2));
    }
    Ok(
        IrbenchArgs {
            dir,
            models,
            impostor_only,
            lfw,
            max_persons: count_of(args, "--max-persons", 80),
            max_images: count_of(args, "--max-images", 20_000),
            tta: has_arg(args, "--tta"),
            darken: value_of(args, "--darken"),
            lightnorm: value_of(args, "--lightnorm"),
            export: value_of(args, "--export"),
        },
    )
}

/// A false-accept rate is never measured on a set that may hold a person twice.
pub proof fn strangers_are_never_grouped(args: Seq<Seq<char>>, a: IrbenchArgs)
    requires
        irbench_refusal(args) is None,
        irbench_are(args, a),
    ensures
        !(a.impostor_only && a.lfw),
{
}

/// The daemon's answer to the liveness self-test.
pub enum SelftestAnswer {
    Result { passed: bool, detail: String },
    Refused(String),
    Unexpected(String),
}

pub open spec fn selftest_outcome(a: SelftestAnswer) -> OutcomeV {
    match a {
        SelftestAnswer::Result { passed, detail } => {
            let head = Seq::<SayV>::empty().push(
                SayV::Out("[selftest liveness] "@ + detail@),
            );
            if passed {
                OutcomeV { says: head.push(SayV::Out("[selftest liveness] PASS"@)), exit: 0 }
            } else {
                OutcomeV { says: head, exit: 1 }
            }
        },
        SelftestAnswer::Refused(e) => failed("[selftest liveness] "@ + e@, 1),
        SelftestAnswer::Unexpected(o) => failed("[selftest liveness] unexpected: "@ + o@, 1),
    }
}

/// What `selftest liveness` prints.
pub fn selftest_liveness(a: &SelftestAnswer) -> (r: Outcome)
    ensures
        r@ == selftest_outcome(*a),
{
    match a {
        SelftestAnswer::Result { passed, detail } => {
            let mut c = Console::new();
            c.out(cat2("[selftest liveness] ", detail.as_str()));
            if *passed {
                c.out(owned("[selftest liveness] PASS"));
                Outcome { console: c, exit: 0 }
            } else {
                Outcome { console: c, exit: 1 }
            }
        },
        SelftestAnswer::Refused(e) => fail_with(cat2("[selftest liveness] ", e.as_str()), 1),
        SelftestAnswer::Unexpected(o) => fail_with(
            cat2("[selftest liveness] unexpected: ", o.as_str()),
            1,
        ),
    }
}

/// How the alignment self-test ended.
pub enum AlignResult {
    Ran { passed: bool, detail: String },
    NoModel { error: String },
}

pub open spec fn align_outcome(a: AlignResult) -> OutcomeV {
    match a {
        AlignResult::Ran { passed, detail } => {
            let head = Seq::<SayV>::empty().push(SayV::Out("[selftest align] "@ + detail@));
            if passed {
                OutcomeV {
                    says: head.push(
                        SayV::Out(
                            "[selftest align] PASS: ONNX embed path is deterministic."@,
                        ),
                    ),
                    exit: 0,
                }
            } else {
                OutcomeV {
                    says: head.push(
                        SayV::Warn(
                            "[selftest align] FAIL: check preprocessing / channel order."@,
                        ),
                    ),
                    exit: 1,
                }
            }
        },
        AlignResult::NoModel { error } => OutcomeV {
            says: Seq::<SayV>::empty().push(
                SayV::Warn("[selftest align] could not load model: "@ + error@),
            ).push(
                SayV::Warn("  (need the .onnx file and libonnxruntime.so on the system)"@),
            ),
            exit: 1,
        },
    }
}

/// What `selftest align` prints.
pub fn selftest_align(a: &AlignResult) -> (r: Outcome)
    ensures
        r@ == align_outcome(*a),
{
    let mut c = Console::new();
    match a {
        AlignResult::Ran { passed, detail } => {
            c.out(cat2("[selftest align] ", detail.as_str()));
            if *passed {
                c.out(owned("[selftest align] PASS: ONNX embed path is deterministic."));
                Outcome { console: c, exit: 0 }
            } else {
                c.warn(owned("[selftest align] FAIL: check preprocessing / channel order."));
                Outcome { console: c, exit: 1 }
            }
        },
        AlignResult::NoModel { error } => {
            c.warn(cat2("[selftest align] could not load model: ", error.as_str()));
            c.warn(owned("  (need the .onnx file and libonnxruntime.so on the system)"));
            Outcome { console: c, exit: 1 }
        },
    }
}

/// A flag's value is taken as written; a count that cannot be read leaves the
/// default, and so does a flag that is not there.
pub proof fn a_written_value_replaces_the_default(
    args: Seq<Seq<char>>,
    name: Seq<char>,
    text: Seq<char>,
    n: usize,
)
    ensures
        flag_value(args, name) matches Some(v) ==> text_or(args, name, text) == v,
        flag_value(args, name) is None ==> text_or(args, name, text) == text,
        flag_value(args, name) is None ==> count_or(args, name, n) == n,
        forall|k: nat|
            #![trigger decimal(k)]
            flag_value(args, name) == Some(decimal(k)) ==> count_or(args, name, n) == (if k
                <= usize::MAX {
                k as usize
            } else {
                n
            }),
{
    assert forall|k: nat| #![trigger decimal(k)] flag_value(args, name) == Some(decimal(k)) implies count_or(
        args,
        name,
        n,
    ) == (if k <= usize::MAX {
        k as usize
    } else {
        n
    }) by {
        crate::text::a_number_is_read_as_it_is_shown(k, usize::MAX as nat, decimal(k));
    }
}

/// An enrollment of the tools succeeded exactly where it did not fail, and scans
/// that the room lit are called out exactly where there are any.
pub proof fn lit_scans_of_an_enrollment_are_called_out(e: EnrolldevResult)
    ensures
        enrolldev_outcome(e).exit == 0 <==> !(e is Failed),
        enrolldev_outcome(e).exit == 1 <==> e is Failed,
        e matches EnrolldevResult::New { ambient_lit, .. } ==> enrolldev_outcome(e).says.len() == (
        if ambient_lit > 0 {
            2int
        } else {
            1
        }),
        e matches EnrolldevResult::Merged { ambient_lit, .. } ==> enrolldev_outcome(e).says.len()
            == (if ambient_lit > 0 {
            2int
        } else {
            1
        }),
{
}

/// A self-test succeeded exactly where it ran and passed.
pub proof fn only_a_passed_test_succeeds(a: SelftestAnswer, b: AlignResult)
    ensures
        selftest_outcome(a).exit == 0 <==> (a matches SelftestAnswer::Result { passed, .. }
            && passed),
        selftest_outcome(a).exit == 0 || selftest_outcome(a).exit == 1,
        align_outcome(b).exit == 0 <==> (b matches AlignResult::Ran { passed, .. } && passed),
        align_outcome(b).exit == 0 || align_outcome(b).exit == 1,
{
}

/// A benchmark starts exactly where its images and both models are named and it does
/// not both group by person and treat every image as another one.
pub proof fn a_benchmark_starts_where_its_images_are_named(args: Seq<Seq<char>>)
    ensures
        irbench_refusal(args) is None <==> flag_value(args, "--dir"@) is Some && flag_value(
            args,
            "--det"@,
        ) is Some && flag_value(args, "--model"@) is Some && !(args.contains("--impostor-only"@)
            && args.contains("--lfw"@)),
{
}

/// How a direct authentication ends for a script.
pub open spec fn verify_exit(v: VerifyResult) -> u8 {
    match v {
        VerifyResult::Decided { granted, .. } => if granted {
            0
        } else {
            1
        },
        VerifyResult::Failed(_) => 1,
    }
}

/// A direct authentication succeeded exactly where it was granted, however live the
/// face was.
pub proof fn only_a_granted_authentication_succeeds(v: VerifyResult)
    ensures
        verify_exit(v) == 0 <==> (v matches VerifyResult::Decided { granted, .. } && granted),
        verify_exit(v) == 0 || verify_exit(v) == 1,
{
}

/// A calibration is recorded exactly where both models and the file to write are
/// named.
pub proof fn a_calibration_needs_its_models_and_its_file(args: Seq<Seq<char>>)
    ensures
        calcapture_named(args) <==> flag_value(args, "--det"@) is Some && flag_value(
            args,
            "--model"@,
        ) is Some && flag_value(args, "--out"@) is Some,
{
}

/// The models are those that were named, each in its own place.
pub proof fn each_model_is_the_one_that_was_named(args: Seq<Seq<char>>, m: ModelArgs)
    requires
        models_are(args, m),
    ensures
        flag_value(args, "--det"@) == Some(m.det@),
        flag_value(args, "--model"@) == Some(m.model@),
        models_named(args),
{
}

/// A benchmark measures what was written: the images that were named, each switch
/// exactly where it stands, and each count as written or else its default.
pub proof fn a_benchmark_measures_what_was_written(args: Seq<Seq<char>>, a: IrbenchArgs)
    requires
        irbench_are(args, a),
    ensures
        flag_value(args, "--dir"@) == Some(a.dir@),
        a.impostor_only <==> args.contains("--impostor-only"@),
        a.lfw <==> args.contains("--lfw"@),
        a.tta <==> args.contains("--tta"@),
        flag_value(args, "--max-images"@) is None ==> a.max_images == 20_000,
        flag_value(args, "--max-persons"@) is None ==> a.max_persons == 80,
        a.darken is Some <==> flag_value(args, "--darken"@) is Some,
        a.lightnorm is Some <==> flag_value(args, "--lightnorm"@) is Some,
        a.export is Some <==> flag_value(args, "--export"@) is Some,
{
}

} // verus!
