//! Cameras: which nodes are in use, what they can do, how they capture, and the
//! commands that set them up and measure them.

use vstd::prelude::*;

use crate::args::{flag, flag_given, flag_present, flag_value, has_arg};
use crate::console::{fail_with, failed, Console, Outcome, SayV};
use crate::profiles_cmd::{Plan, PlanV};
use crate::protocol::{CameraSelection, Request, RequestV};
use crate::text::{
    cat2, cat3, cat4, cat8, cat9, dec, decimal, opt_slice, opt_text, owned, parse_unsigned, same,
    texts, trim, trimmed, unsigned_value,
};

verus! {

// ---- which nodes, and what they can do ----

/// What this machine's cameras can do.
#[derive(Clone, Copy, Debug, PartialEq, Eq, Structural)]
pub struct Caps {
    pub ir_pair: bool,
    pub rgb: bool,
}

/// A capability answer, and whether anything established it.
#[derive(Clone, Copy, Debug, PartialEq, Eq, Structural)]
pub struct CapsReading {
    pub caps: Caps,
    /// False where the capabilities are a guess. What acts destructively on a
    /// missing capability must refuse then.
    pub established: bool,
}

/// What asking the daemon about the cameras brought.
pub enum CameraEvidence {
    /// The daemon answered with its tier and the color node it uses.
    Daemon { tier: String, has_rgb: bool },
    /// Nobody holds the cameras, so they were looked at.
    Probed(Caps),
    /// Nothing could be established. The configured nodes, if any, exist or not.
    Unclear { configured: Option<Caps> },
}

/// What the evidence establishes. That configured nodes exist may establish that
/// there are cameras; that they are missing establishes nothing.
pub open spec fn reading_of(e: CameraEvidence) -> CapsReading {
    match e {
        CameraEvidence::Daemon { tier, has_rgb } => CapsReading {
            caps: Caps { ir_pair: tier@ == "secure"@, rgb: has_rgb || tier@ == "secure"@ },
            established: true,
        },
        CameraEvidence::Probed(caps) => CapsReading { caps, established: true },
        CameraEvidence::Unclear { configured: Some(caps) } => CapsReading {
            caps,
            established: caps.ir_pair && caps.rgb,
        },
        CameraEvidence::Unclear { configured: None } => CapsReading {
            caps: Caps { ir_pair: false, rgb: false },
            established: false,
        },
    }
}

pub fn caps_reading(e: &CameraEvidence) -> (r: CapsReading)
    ensures
        r == reading_of(*e),
{
    match e {
        CameraEvidence::Daemon { tier, has_rgb } => {
            let secure = same(tier.as_str(), "secure");
            CapsReading {
                caps: Caps { ir_pair: secure, rgb: *has_rgb || secure },
                established: true,
            }
        },
        CameraEvidence::Probed(caps) => CapsReading { caps: *caps, established: true },
        CameraEvidence::Unclear { configured } => {
            match configured {
                Some(caps) => CapsReading { caps: *caps, established: caps.ir_pair && caps.rgb },
                None => CapsReading {
                    caps: Caps { ir_pair: false, rgb: false },
                    established: false,
                },
            }
        },
    }
}

/// A missing capability is established only by the daemon's own answer or by
/// looking at cameras that nobody holds.
pub proof fn absence_is_never_guessed(e: CameraEvidence)
    ensures
        reading_of(e).established && (!reading_of(e).caps.ir_pair || !reading_of(e).caps.rgb) ==> e
            is Daemon || e is Probed,
{
}

/// The nodes in use, as far as they are known.
pub enum PairEvidence {
    Daemon { rgb: Option<String>, ir: Option<String> },
    Probed(Option<(String, String)>),
    Unclear { configured: Option<(String, String)> },
}

pub open spec fn or_word(o: Option<Seq<char>>, word: Seq<char>) -> Seq<char> {
    match o {
        Some(s) => s,
        None => word,
    }
}

/// How the color and the infrared node are named: `none` where there is none,
/// `unknown` where that could not be found out.
pub open spec fn pair_names(e: PairEvidence) -> (Seq<char>, Seq<char>) {
    match e {
        PairEvidence::Daemon { rgb, ir } => (
            or_word(opt_text(rgb), "none"@),
            or_word(opt_text(ir), "none"@),
        ),
        PairEvidence::Probed(Some((rgb, ir))) => (rgb@, ir@),
        PairEvidence::Probed(None) => ("none"@, "none"@),
        PairEvidence::Unclear { configured: Some((rgb, ir)) } => (rgb@, ir@),
        PairEvidence::Unclear { configured: None } => ("unknown"@, "unknown"@),
    }
}

fn named_or(o: &Option<String>, word: &str) -> (r: String)
    ensures
        r@ == or_word(opt_text(*o), word@),
{
    match o {
        Some(s) => owned(s.as_str()),
        None => owned(word),
    }
}

pub fn camera_pair(e: &PairEvidence) -> (r: (String, String))
    ensures
        (r.0@, r.1@) == pair_names(*e),
{
    match e {
        PairEvidence::Daemon { rgb, ir } => (named_or(rgb, "none"), named_or(ir, "none")),
        PairEvidence::Probed(pair) => {
            match pair {
                Some((rgb, ir)) => (owned(rgb.as_str()), owned(ir.as_str())),
                None => (owned("none"), owned("none")),
            }
        },
        PairEvidence::Unclear { configured } => {
            match configured {
                Some((rgb, ir)) => (owned(rgb.as_str()), owned(ir.as_str())),
                None => (owned("unknown"), owned("unknown")),
            }
        },
    }
}

pub open spec fn pair_view(p: Option<(String, String)>) -> Option<(Seq<char>, Seq<char>)> {
    match p {
        Some((a, b)) => Some((a@, b@)),
        None => None,
    }
}

/// The nodes that two optional flags name: both as given, or one as given with
/// its partner from the selection, or no override at all.
pub open spec fn overridden(
    rgb: Option<Seq<char>>,
    ir: Option<Seq<char>>,
    selected: Option<(Seq<char>, Seq<char>)>,
) -> Option<(Seq<char>, Seq<char>)> {
    match (rgb, ir) {
        (None, None) => None,
        (Some(r), Some(i)) => Some((r, i)),
        (Some(r), None) => match selected {
            Some((_, i)) => Some((r, i)),
            None => None,
        },
        (None, Some(i)) => match selected {
            Some((r, _)) => Some((r, i)),
            None => None,
        },
    }
}

/// Which nodes to open, from the optional `--rgb` and `--ir` flags. The selection
/// runs only where one flag stands alone, since it can touch devices.
pub fn devices_from_flags<F: FnOnce() -> Option<(String, String)>>(
    rgb: Option<&str>,
    ir: Option<&str>,
    selected: F,
) -> (r: Option<(String, String)>)
    requires
        (rgb is Some) != (ir is Some) ==> call_requires(selected, ()),
    ensures
        (rgb is Some) == (ir is Some) ==> pair_view(r) == overridden(
            opt_slice(rgb),
            opt_slice(ir),
            None,
        ),
        (rgb is Some) != (ir is Some) ==> exists|s: Option<(String, String)>| #[trigger]
            call_ensures(selected, (), s) && pair_view(r) == overridden(
                opt_slice(rgb),
                opt_slice(ir),
                pair_view(s),
            ),
{
    match (rgb, ir) {
        (None, None) => None,
        (Some(r), Some(i)) => Some((owned(r), owned(i))),
        (Some(r), None) => {
            let s = selected();
            match s {
                Some((_, i)) => Some((owned(r), i)),
                None => None,
            }
        },
        (None, Some(i)) => {
            let s = selected();
            match s {
                Some((r, _)) => Some((r, owned(i))),
                None => None,
            }
        },
    }
}

// ---- set-cameras, ir-setup ----

pub const SET_CAMERAS_USAGE: &'static str = "\nusage: irlume set-cameras <rgb-node> <ir-node> [--expected-camera JSON]   (root)";

/// What `set-cameras` was asked to do: set a pair, or set it only while the
/// camera is still the one described.
pub enum CameraChoice {
    Plain { rgb: String, ir: String },
    Guarded { rgb: String, ir: String, guard: String },
}

pub enum ChoiceV {
    Plain { rgb: Seq<char>, ir: Seq<char> },
    Guarded { rgb: Seq<char>, ir: Seq<char>, guard: Seq<char> },
}

impl View for CameraChoice {
    type V = ChoiceV;

    open spec fn view(&self) -> ChoiceV {
        match *self {
            CameraChoice::Plain { rgb, ir } => ChoiceV::Plain { rgb: rgb@, ir: ir@ },
            CameraChoice::Guarded { rgb, ir, guard } => ChoiceV::Guarded {
                rgb: rgb@,
                ir: ir@,
                guard: guard@,
            },
        }
    }
}

pub open spec fn camera_choice(args: Seq<Seq<char>>) -> Result<ChoiceV, Seq<char>> {
    if args.len() < 3 {
        Err("both camera paths are required"@)
    } else if args.len() == 3 {
        Ok(ChoiceV::Plain { rgb: args[1], ir: args[2] })
    } else if args.len() == 5 && args[3] == "--expected-camera"@ {
        Ok(ChoiceV::Guarded { rgb: args[1], ir: args[2], guard: args[4] })
    } else {
        Err("unexpected or incomplete camera-selection arguments"@)
    }
}

pub open spec fn choice_view(r: Result<CameraChoice, &'static str>) -> Result<ChoiceV, Seq<char>> {
    match r {
        Ok(c) => Ok(c@),
        Err(e) => Err(e@),
    }
}

/// Reads the arguments of `set-cameras`. The description of the expected camera
/// is still text here.
pub fn read_camera_choice(args: &[String]) -> (r: Result<CameraChoice, &'static str>)
    ensures
        choice_view(r) == camera_choice(texts(args@)),
{
    if args.len() < 3 {
        return Err("both camera paths are required");
    }
    let rgb = owned(args[1].as_str());
    let ir = owned(args[2].as_str());
    if args.len() == 3 {
        return Ok(CameraChoice::Plain { rgb, ir });
    }
    if args.len() == 5 && same(args[3].as_str(), "--expected-camera") {
        return Ok(CameraChoice::Guarded { rgb, ir, guard: owned(args[4].as_str()) });
    }
    Err("unexpected or incomplete camera-selection arguments")
}

/// What a choice asks of the daemon, once the description has been read. A
/// guarded choice never falls back to an unguarded one.
pub open spec fn choice_request(c: ChoiceV, expected: Option<CameraSelection>) -> Result<
    RequestV,
    Seq<char>,
> {
    match c {
        ChoiceV::Plain { rgb, ir } => Ok(RequestV::SetCameras { rgb, ir }),
        ChoiceV::Guarded { rgb, ir, .. } => match expected {
            Some(expected) => Ok(RequestV::SetCamerasIfCurrent { rgb, ir, expected }),
            None => Err(
                "invalid expected camera identity; select the camera again in the TUI"@,
            ),
        },
    }
}

pub open spec fn request_view(r: Result<Request, &'static str>) -> Result<RequestV, Seq<char>> {
    match r {
        Ok(q) => Ok(q@),
        Err(e) => Err(e@),
    }
}

/// The request of a choice. `expected` is what the description was read as, or
/// `None` where it could not be read.
pub fn set_cameras_request(c: CameraChoice, expected: Option<CameraSelection>) -> (r: Result<
    Request,
    &'static str,
>)
    ensures
        request_view(r) == choice_request(c@, expected),
{
    match c {
        CameraChoice::Plain { rgb, ir } => Ok(Request::SetCameras { rgb, ir }),
        CameraChoice::Guarded { rgb, ir, guard: _ } => {
            match expected {
                Some(expected) => Ok(Request::SetCamerasIfCurrent { rgb, ir, expected }),
                None => Err("invalid expected camera identity; select the camera again in the TUI"),
            }
        },
    }
}

/// A guarded selection is never sent as an unguarded one.
pub proof fn a_guarded_choice_stays_guarded(c: ChoiceV, expected: Option<CameraSelection>)
    requires
        c is Guarded,
    ensures
        choice_request(c, expected) matches Ok(q) ==> q is SetCamerasIfCurrent,
        expected is None ==> choice_request(c, expected) is Err,
{
}

/// Ends `set-cameras` with the reason and the usage.
pub fn set_cameras_refused(reason: &str) -> (r: Outcome)
    ensures
        r@ == failed(reason@ + SET_CAMERAS_USAGE@, 2),
{
    fail_with(cat2(reason, SET_CAMERAS_USAGE), 2)
}

pub const IR_SETUP_NOTE: &'static str = "[ir-setup] this writes to your camera. It uses only the controls your camera's USB\n\
             descriptor documents, and the values it reports for them. A few seconds\u{2026}";

/// What `ir-setup` asks of the daemon. A dry run writes nothing and warns of
/// nothing.
pub fn ir_setup(args: &[String]) -> (r: Plan)
    ensures
        r@.request == emitter_request(texts(args@)),
        ({
            let dry = texts(args@).contains("--dry-run"@);
            r@ == (PlanV {
                says: if dry {
                    Seq::empty()
                } else {
                    Seq::<SayV>::empty().push(SayV::Warn(IR_SETUP_NOTE@))
                },
                request: RequestV::SetupIrEmitter { dry_run: dry },
            })
        }),
{
    let dry = has_arg(args, "--dry-run");
    let mut console = Console::new();
    if !dry {
        console.warn(owned(IR_SETUP_NOTE));
    }
    Plan { console, request: Request::SetupIrEmitter { dry_run: dry } }
}

// ---- camera-tune ----

/// What `camera-tune` was asked to do.
pub struct TuneArgs {
    pub rounds: Option<usize>,
    pub verify_record: Option<String>,
    pub emit_record: Option<String>,
}

/// The positive count of `--rounds`, if it is given.
pub open spec fn rounds_asked(args: Seq<Seq<char>>) -> Result<Option<usize>, Seq<char>> {
    match flag_value(args, "--rounds"@) {
        None => if flag_given(args, "--rounds"@) {
            Err("[camera-tune] --rounds requires a positive integer"@)
        } else {
            Ok(None)
        },
        Some(raw) => match unsigned_value(raw, usize::MAX as nat) {
            Some(n) if n > 0 => Ok(Some(n as usize)),
            _ => Err("[camera-tune] --rounds must be a positive integer"@),
        },
    }
}

/// The path after a flag: absent, or not blank.
pub open spec fn path_asked(args: Seq<Seq<char>>, name: Seq<char>) -> Result<
    Option<Seq<char>>,
    Seq<char>,
> {
    match flag_value(args, name) {
        None => if flag_given(args, name) {
            Err("[camera-tune] "@ + name + " requires a file path"@)
        } else {
            Ok(None)
        },
        Some(raw) => if trimmed(raw).len() == 0 {
            Err("[camera-tune] "@ + name + " requires a file path"@)
        } else {
            Ok(Some(raw))
        },
    }
}

/// What the arguments of `camera-tune` ask for, or the first thing wrong with
/// them. Nothing is measured at another count than the one asked for.
pub open spec fn tune_asked(args: Seq<Seq<char>>) -> Result<
    (Option<usize>, Option<Seq<char>>, Option<Seq<char>>),
    Seq<char>,
> {
    match rounds_asked(args) {
        Err(e) => Err(e),
        Ok(rounds) => match path_asked(args, "--verify-record"@) {
            Err(e) => Err(e),
            Ok(verify) => match path_asked(args, "--emit-record"@) {
                Err(e) => Err(e),
                Ok(emit) => Ok((rounds, verify, emit)),
            },
        },
    }
}

fn read_path(args: &[String], name: &str) -> (r: Result<Option<String>, String>)
    ensures
        match r {
            Ok(p) => path_asked(texts(args@), name@) == Ok::<Option<Seq<char>>, Seq<char>>(
                opt_text(p),
            ),
            Err(e) => path_asked(texts(args@), name@) == Err::<Option<Seq<char>>, Seq<char>>(e@),
        },
{
    match flag(args, name) {
        None => {
            if flag_present(args, name) {
                Err(cat3("[camera-tune] ", name, " requires a file path"))
            } else {
                Ok(None)
            }
        },
        Some(raw) => {
            if trim(raw).is_empty() {
                Err(cat3("[camera-tune] ", name, " requires a file path"))
            } else {
                Ok(Some(owned(raw)))
            }
        },
    }
}

fn read_rounds(args: &[String]) -> (r: Result<Option<usize>, String>)
    ensures
        match r {
            Ok(n) => rounds_asked(texts(args@)) == Ok::<Option<usize>, Seq<char>>(n),
            Err(e) => rounds_asked(texts(args@)) == Err::<Option<usize>, Seq<char>>(e@),
        },
{
    match flag(args, "--rounds") {
        None => {
            if flag_present(args, "--rounds") {
                Err(owned("[camera-tune] --rounds requires a positive integer"))
            } else {
                Ok(None)
            }
        },
        Some(raw) => {
            match parse_unsigned(raw, usize::MAX as u64) {
                Some(n) => {
                    if n > 0 {
                        Ok(Some(n as usize))
                    } else {
                        Err(owned("[camera-tune] --rounds must be a positive integer"))
                    }
                },
                None => Err(owned("[camera-tune] --rounds must be a positive integer")),
            }
        },
    }
}

/// Reads the arguments of `camera-tune`.
pub fn camera_tune(args: &[String]) -> (r: Result<TuneArgs, Outcome>)
    ensures
        match r {
            Ok(t) => tune_asked(texts(args@)) == Ok::<
                (Option<usize>, Option<Seq<char>>, Option<Seq<char>>),
                Seq<char>,
            >((t.rounds, opt_text(t.verify_record), opt_text(t.emit_record))),
            Err(o) => tune_asked(texts(args@)) matches Err(e) && o@ == failed(e, 2),
        },
{
    let rounds = match read_rounds(args) {
        Ok(n) => n,
        Err(e) => {
            return Err(fail_with(e, 2));
        },
    };
    let verify_record = match read_path(args, "--verify-record") {
        Ok(p) => p,
        Err(e) => {
            return Err(fail_with(e, 2));
        },
    };
    let emit_record = match read_path(args, "--emit-record") {
        Ok(p) => p,
        Err(e) => {
            return Err(fail_with(e, 2));
        },
    };
    Ok(TuneArgs { rounds, verify_record, emit_record })
}

/// A measured rate: so many frame intervals in so many microseconds.
#[derive(Clone, Copy, Debug, PartialEq, Eq, Structural)]
pub struct RateRational {
    pub deltas: u32,
    pub span_us: u64,
}

/// `a` is the slower rate: compared as exact fractions.
pub open spec fn rate_slower(a: RateRational, b: RateRational) -> bool {
    a.deltas * b.span_us < b.deltas * a.span_us
}

pub fn rate_lt(a: &RateRational, b: &RateRational) -> (r: bool)
    ensures
        r == rate_slower(*a, *b),
{
    proof {
        assert(a.deltas * b.span_us <= 0xffff_ffff * 0xffff_ffff_ffff_ffff) by (nonlinear_arith)
            requires
                a.deltas <= 0xffff_ffff,
                b.span_us <= 0xffff_ffff_ffff_ffff,
        ;
        assert(b.deltas * a.span_us <= 0xffff_ffff * 0xffff_ffff_ffff_ffff) by (nonlinear_arith)
            requires
                b.deltas <= 0xffff_ffff,
                a.span_us <= 0xffff_ffff_ffff_ffff,
        ;
    }
    (a.deltas as u128) * (b.span_us as u128) < (b.deltas as u128) * (a.span_us as u128)
}

#[derive(Clone, Copy, Debug, PartialEq, Eq, Structural)]
pub enum MeasuredRole {
    Rgb,
    Ir,
}

/// What was measured of one stream.
#[derive(Clone, Copy, Debug, PartialEq, Eq, Structural)]
pub struct RateEvidence {
    pub rate_p50: RateRational,
    pub max_inter_frame_gap_us: Option<u64>,
    pub rounds_completed: u32,
}

/// One arm of a measurement.
pub struct MeasurementRecord {
    pub method: String,
    pub rates: Vec<(MeasuredRole, RateEvidence)>,
    pub accepted: bool,
}

/// The round count of the first stream that a reference measured, at least one:
/// a comparison repeats the reference's workload.
pub open spec fn reference_rounds_of(records: Seq<MeasurementRecord>) -> Option<u32>
    decreases records.len(),
{
    if records.len() == 0 {
        None
    } else if records[0].rates@.len() > 0 {
        let n = records[0].rates@[0].1.rounds_completed;
        Some(
            if n == 0 {
                1
            } else {
                n
            },
        )
    } else {
        reference_rounds_of(records.skip(1))
    }
}

pub fn reference_rounds(records: &[MeasurementRecord]) -> (r: Option<u32>)
    ensures
        r == reference_rounds_of(records@),
{
    let mut i: usize = 0;
    proof {
        assert(records@.skip(0) =~= records@);
    }
    while i < records.len()
        invariant
            i <= records@.len(),
            reference_rounds_of(records@) == reference_rounds_of(records@.skip(i as int)),
        decreases records@.len() - i,
    {
        proof {
            assert(records@.skip(i as int)[0] == records@[i as int]);
            assert(records@.skip(i as int).skip(1) =~= records@.skip(i + 1));
        }
        if records[i].rates.len() > 0 {
            let n: u32 = records[i].rates[0].1.rounds_completed;
            return Some(
                if n == 0 {
                    1
                } else {
                    n
                },
            );
        }
        i = i + 1;
    }
    None
}

/// What `camera-tune` asks of the daemon. A comparison measures what its
/// reference measured, into a file of its own.
pub fn tune_plan(t: &TuneArgs, reference: Option<u32>, fresh_path: &Option<String>) -> (r: Plan)
    ensures
        r@.request == tune_request(
            t.rounds,
            opt_text(t.emit_record),
            reference,
            opt_text(*fresh_path),
        ),
        r@ == (PlanV {
            says: Seq::<SayV>::empty().push(
                SayV::Warn(
                    "[camera-tune] measuring this camera under load; it fires the IR emitter for up to a minute\u{2026}"@,
                ),
            ),
            request: RequestV::TuneCaptureMode {
                rounds: match reference {
                    Some(n) => Some(n as usize),
                    None => t.rounds,
                },
                emit_record_path: match *fresh_path {
                    Some(p) => Some(p@),
                    None => opt_text(t.emit_record),
                },
            },
        }),
{
    let mut console = Console::new();
    console.warn(
        owned(
            "[camera-tune] measuring this camera under load; it fires the IR emitter for up to a minute\u{2026}",
        ),
    );
    let rounds: Option<usize> = match reference {
        Some(n) => Some(n as usize),
        None => t.rounds,
    };
    let emit_record_path = match fresh_path {
        Some(p) => Some(owned(p.as_str())),
        None => {
            match &t.emit_record {
                Some(p) => Some(owned(p.as_str())),
                None => None,
            }
        },
    };
    Plan { console, request: Request::TuneCaptureMode { rounds, emit_record_path } }
}

/// How a fresh rate compares with its reference.
#[derive(Clone, Copy, Debug, PartialEq, Eq, Structural)]
pub enum Direction {
    Slower,
    Same,
    Faster,
}

pub open spec fn direction_of(reference: RateRational, fresh: RateRational) -> Direction {
    if rate_slower(fresh, reference) {
        Direction::Slower
    } else if rate_slower(reference, fresh) {
        Direction::Faster
    } else {
        Direction::Same
    }
}

/// Comparing the other way round turns the direction round.
pub proof fn direction_is_antisymmetric(a: RateRational, b: RateRational)
    ensures
        direction_of(a, b) == Direction::Slower <==> direction_of(b, a) == Direction::Faster,
        direction_of(a, b) == Direction::Same <==> direction_of(b, a) == Direction::Same,
        direction_of(a, a) == Direction::Same,
{
}

/// The direction is that of the exact rates. With equal spans fewer intervals are
/// slower, with equal intervals a longer span is slower, and over any spans a
/// stream is slower exactly where its intervals per microsecond are fewer.
pub proof fn the_direction_is_that_of_the_exact_rates(
    reference: RateRational,
    fresh: RateRational,
)
    requires
        reference.span_us > 0,
        fresh.span_us > 0,
    ensures
        direction_of(reference, fresh) == Direction::Slower <==> fresh.deltas * reference.span_us
            < reference.deltas * fresh.span_us,
        direction_of(reference, fresh) == Direction::Faster <==> fresh.deltas * reference.span_us
            > reference.deltas * fresh.span_us,
        direction_of(reference, fresh) == Direction::Same <==> fresh.deltas * reference.span_us
            == reference.deltas * fresh.span_us,
        reference.span_us == fresh.span_us ==> {
            &&& direction_of(reference, fresh) == Direction::Slower <==> fresh.deltas
                < reference.deltas
            &&& direction_of(reference, fresh) == Direction::Faster <==> fresh.deltas
                > reference.deltas
            &&& direction_of(reference, fresh) == Direction::Same <==> fresh.deltas
                == reference.deltas
        },
        reference.deltas == fresh.deltas && fresh.deltas > 0 ==> {
            &&& direction_of(reference, fresh) == Direction::Slower <==> fresh.span_us
                > reference.span_us
            &&& direction_of(reference, fresh) == Direction::Faster <==> fresh.span_us
                < reference.span_us
        },
        fresh.deltas > reference.deltas && fresh.span_us <= reference.span_us ==> direction_of(
            reference,
            fresh,
        ) == Direction::Faster,
        fresh.deltas < reference.deltas && fresh.span_us >= reference.span_us ==> direction_of(
            reference,
            fresh,
        ) == Direction::Slower,
{
    let a = reference.deltas as int;
    let s = reference.span_us as int;
    let b = fresh.deltas as int;
    let t = fresh.span_us as int;
    assert(s == t && s > 0 ==> (b * s < a * t <==> b < a) && (b * s == a * t <==> b == a))
        by (nonlinear_arith);
    assert(a == b && b > 0 ==> (b * s < a * t <==> t > s) && (b * s > a * t <==> t < s))
        by (nonlinear_arith);
    assert(b > a && a >= 0 && t <= s && t > 0 ==> b * s > a * t) by (nonlinear_arith);
    assert(b < a && b >= 0 && t >= s && s > 0 ==> b * s < a * t) by (nonlinear_arith);
}

/// Measuring the same rate over a longer time changes no direction.
pub proof fn measuring_longer_changes_no_direction(
    rate: RateRational,
    longer: RateRational,
    other: RateRational,
    factor: int,
)
    requires
        factor > 0,
        longer.deltas == factor * rate.deltas,
        longer.span_us == factor * rate.span_us,
    ensures
        direction_of(longer, other) == direction_of(rate, other),
        direction_of(other, longer) == direction_of(other, rate),
        rate.span_us > 0 ==> direction_of(rate, longer) == Direction::Same,
{
    let d = rate.deltas as int;
    let s = rate.span_us as int;
    let e = other.deltas as int;
    let t = other.span_us as int;
    assert((factor * d) * t == factor * (d * t)) by (nonlinear_arith);
    assert(e * (factor * s) == factor * (e * s)) by (nonlinear_arith);
    assert(factor > 0 ==> (factor * (d * t) < factor * (e * s) <==> d * t < e * s) && (factor * (d
        * t) > factor * (e * s) <==> d * t > e * s)) by (nonlinear_arith);
    assert((factor * d) * s == d * (factor * s)) by (nonlinear_arith);
}

/// What is slower than a slower stream is slower too.
pub proof fn slower_is_transitive(a: RateRational, b: RateRational, c: RateRational)
    requires
        a.span_us > 0,
        b.span_us > 0,
        c.span_us > 0,
        direction_of(a, b) == Direction::Slower,
        direction_of(b, c) == Direction::Slower,
    ensures
        direction_of(a, c) == Direction::Slower,
{
    let (p, q, r) = (a.deltas as int, b.deltas as int, c.deltas as int);
    let (s, t, u) = (a.span_us as int, b.span_us as int, c.span_us as int);
    // q * s < p * t and r * t < q * u, so r * s * t < q * s * u < p * t * u.
    assert(r * s < p * u) by (nonlinear_arith)
        requires
            s > 0,
            t > 0,
            u > 0,
            q * s < p * t,
            r * t < q * u,
            p >= 0,
            q >= 0,
            r >= 0,
    {
        assert((r * t) * s < (q * u) * s);
        assert((q * s) * u < (p * t) * u);
        assert((r * t) * s == (r * s) * t);
        assert((q * u) * s == (q * s) * u);
        assert((p * t) * u == (p * u) * t);
        assert((r * s) * t < (p * u) * t);
    }
}

/// One line of a drift report.
pub enum DriftLine {
    /// An arm of the reference that did not run again.
    NoFreshArm { arm: String },
    /// A stream of an arm that was not measured again.
    NoFreshRole { arm: String, role: MeasuredRole },
    /// A stream measured both times.
    Compared {
        arm: String,
        role: MeasuredRole,
        direction: Direction,
        reference: RateEvidence,
        fresh: RateEvidence,
        reference_accepted: bool,
        fresh_accepted: bool,
    },
    /// A fresh arm that the reference does not have.
    NoReferenceArm { arm: String },
}

pub enum DriftV {
    NoFreshArm { arm: Seq<char> },
    NoFreshRole { arm: Seq<char>, role: MeasuredRole },
    Compared {
        arm: Seq<char>,
        role: MeasuredRole,
        direction: Direction,
        reference: RateEvidence,
        fresh: RateEvidence,
        reference_accepted: bool,
        fresh_accepted: bool,
    },
    NoReferenceArm { arm: Seq<char> },
}

impl View for DriftLine {
    type V = DriftV;

    open spec fn view(&self) -> DriftV {
        match *self {
            DriftLine::NoFreshArm { arm } => DriftV::NoFreshArm { arm: arm@ },
            DriftLine::NoFreshRole { arm, role } => DriftV::NoFreshRole { arm: arm@, role },
            DriftLine::Compared {
                arm,
                role,
                direction,
                reference,
                fresh,
                reference_accepted,
                fresh_accepted,
            } => DriftV::Compared {
                arm: arm@,
                role,
                direction,
                reference,
                fresh,
                reference_accepted,
                fresh_accepted,
            },
            DriftLine::NoReferenceArm { arm } => DriftV::NoReferenceArm { arm: arm@ },
        }
    }
}

pub open spec fn drift_views(v: Seq<DriftLine>) -> Seq<DriftV> {
    v.map_values(|d: DriftLine| d@)
}

/// The first record of that method.
pub open spec fn arm_of(records: Seq<MeasurementRecord>, method: Seq<char>) -> Option<
    MeasurementRecord,
>
    decreases records.len(),
{
    if records.len() == 0 {
        None
    } else if records[0].method@ == method {
        Some(records[0])
    } else {
        arm_of(records.skip(1), method)
    }
}

/// The first evidence of that role.
pub open spec fn evidence_of(rates: Seq<(MeasuredRole, RateEvidence)>, role: MeasuredRole) -> Option<
    RateEvidence,
>
    decreases rates.len(),
{
    if rates.len() == 0 {
        None
    } else if rates[0].0 == role {
        Some(rates[0].1)
    } else {
        evidence_of(rates.skip(1), role)
    }
}

/// How one stream of a reference arm compares.
pub open spec fn role_drift(
    reference: MeasurementRecord,
    fresh: MeasurementRecord,
    rate: (MeasuredRole, RateEvidence),
) -> DriftV {
    match evidence_of(fresh.rates@, rate.0) {
        None => DriftV::NoFreshRole { arm: reference.method@, role: rate.0 },
        Some(e) => DriftV::Compared {
            arm: reference.method@,
            role: rate.0,
            direction: direction_of(rate.1.rate_p50, e.rate_p50),
            reference: rate.1,
            fresh: e,
            reference_accepted: reference.accepted,
            fresh_accepted: fresh.accepted,
        },
    }
}

/// What is said of one reference arm: a line for every stream, or one line that
/// it did not run again.
pub open spec fn arm_drift(reference: MeasurementRecord, fresh: Seq<MeasurementRecord>) -> Seq<
    DriftV,
> {
    match arm_of(fresh, reference.method@) {
        None => Seq::empty().push(DriftV::NoFreshArm { arm: reference.method@ }),
        Some(f) => reference.rates@.map_values(
            |rate: (MeasuredRole, RateEvidence)| role_drift(reference, f, rate),
        ),
    }
}

pub open spec fn reference_drift(
    reference: Seq<MeasurementRecord>,
    fresh: Seq<MeasurementRecord>,
) -> Seq<DriftV>
    decreases reference.len(),
{
    if reference.len() == 0 {
        Seq::empty()
    } else {
        reference_drift(reference.drop_last(), fresh) + arm_drift(reference.last(), fresh)
    }
}

pub open spec fn extra_drift(
    reference: Seq<MeasurementRecord>,
    fresh: Seq<MeasurementRecord>,
) -> Seq<DriftV>
    decreases fresh.len(),
{
    if fresh.len() == 0 {
        Seq::empty()
    } else {
        extra_drift(reference, fresh.drop_last()) + (if arm_of(
            reference,
            fresh.last().method@,
        ) is None {
            Seq::empty().push(DriftV::NoReferenceArm { arm: fresh.last().method@ })
        } else {
            Seq::empty()
        })
    }
}

/// An arm is found exactly where some record is of its method, and it is the first
/// of them.
pub proof fn the_first_arm_of_a_method_counts(records: Seq<MeasurementRecord>, method: Seq<char>)
    ensures
        arm_of(records, method) is Some <==> exists|i: int|
            0 <= i < records.len() && (#[trigger] records[i]).method@ == method,
        arm_of(records, method) matches Some(m) ==> exists|i: int|
            0 <= i < records.len() && #[trigger] records[i] == m && m.method@ == method
                && forall|j: int| 0 <= j < i ==> (#[trigger] records[j]).method@ != method,
    decreases records.len(),
{
    if records.len() > 0 {
        let rest = records.skip(1);
        the_first_arm_of_a_method_counts(rest, method);
        if records[0].method@ == method {
            assert(records[0] == arm_of(records, method)->0);
        } else {
            if arm_of(rest, method) is Some {
                let m = arm_of(rest, method)->0;
                let i = choose|i: int|
                    0 <= i < rest.len() && #[trigger] rest[i] == m && m.method@ == method
                        && forall|j: int| 0 <= j < i ==> (#[trigger] rest[j]).method@ != method;
                assert(records[i + 1] == m);
                assert forall|j: int| 0 <= j < i + 1 implies (#[trigger] records[j]).method@
                    != method by {
                    if j > 0 {
                        assert(rest[j - 1] == records[j]);
                    }
                }
            }
            if exists|i: int| 0 <= i < records.len() && (#[trigger] records[i]).method@ == method {
                let i = choose|i: int|
                    0 <= i < records.len() && (#[trigger] records[i]).method@ == method;
                assert(rest[i - 1] == records[i]);
            }
        }
    }
}

/// A stream is found exactly where some evidence is of its role, and it is the
/// first of them.
pub proof fn the_first_evidence_of_a_role_counts(
    rates: Seq<(MeasuredRole, RateEvidence)>,
    role: MeasuredRole,
)
    ensures
        evidence_of(rates, role) is Some <==> exists|i: int|
            0 <= i < rates.len() && (#[trigger] rates[i]).0 == role,
        evidence_of(rates, role) matches Some(e) ==> exists|i: int|
            0 <= i < rates.len() && #[trigger] rates[i] == (role, e) && forall|j: int|
                0 <= j < i ==> (#[trigger] rates[j]).0 != role,
    decreases rates.len(),
{
    if rates.len() > 0 {
        let rest = rates.skip(1);
        the_first_evidence_of_a_role_counts(rest, role);
        if rates[0].0 == role {
            assert(rates[0] == (role, evidence_of(rates, role)->0));
        } else {
            if evidence_of(rest, role) is Some {
                let e = evidence_of(rest, role)->0;
                let i = choose|i: int|
                    0 <= i < rest.len() && #[trigger] rest[i] == (role, e) && forall|j: int|
                        0 <= j < i ==> (#[trigger] rest[j]).0 != role;
                assert(rates[i + 1] == (role, e));
                assert forall|j: int| 0 <= j < i + 1 implies (#[trigger] rates[j]).0 != role by {
                    if j > 0 {
                        assert(rest[j - 1] == rates[j]);
                    }
                }
            }
            if exists|i: int| 0 <= i < rates.len() && (#[trigger] rates[i]).0 == role {
                let i = choose|i: int| 0 <= i < rates.len() && (#[trigger] rates[i]).0 == role;
                assert(rest[i - 1] == rates[i]);
            }
        }
    }
}

/// Every stream of a reference arm has a line of its own, in order: compared where
/// the fresh arm measured that stream, with both its measurements and the
/// direction of their rates, else missing. An arm that did not run again has one
/// line in all.
pub proof fn every_reference_stream_is_accounted_for(
    reference: MeasurementRecord,
    fresh: Seq<MeasurementRecord>,
)
    ensures
        (forall|i: int| 0 <= i < fresh.len() ==> (#[trigger] fresh[i]).method@ != reference.method@)
            ==> arm_drift(reference, fresh) == seq![DriftV::NoFreshArm { arm: reference.method@ }],
        forall|i: int|
            0 <= i < fresh.len() && (#[trigger] fresh[i]).method@ == reference.method@ && (forall|
                j: int,
            |
                0 <= j < i ==> (#[trigger] fresh[j]).method@ != reference.method@) ==> arm_drift(
                reference,
                fresh,
            ).len() == reference.rates@.len() && forall|k: int|
                0 <= k < reference.rates@.len() ==> match #[trigger] arm_drift(
                    reference,
                    fresh,
                )[k] {
                    DriftV::NoFreshRole { arm, role } => arm == reference.method@ && role
                        == reference.rates@[k].0 && forall|j: int|
                        0 <= j < fresh[i].rates@.len() ==> (#[trigger] fresh[i].rates@[j]).0
                            != role,
                    DriftV::Compared {
                        arm,
                        role,
                        direction,
                        reference: was,
                        fresh: now,
                        reference_accepted,
                        fresh_accepted,
                    } => arm == reference.method@ && (role, was) == reference.rates@[k]
                        && fresh[i].rates@.contains((role, now)) && direction == direction_of(
                        was.rate_p50,
                        now.rate_p50,
                    ) && reference_accepted == reference.accepted && fresh_accepted
                        == fresh[i].accepted,
                    _ => false,
                },
{
    the_first_arm_of_a_method_counts(fresh, reference.method@);
    assert(Seq::<DriftV>::empty().push(DriftV::NoFreshArm { arm: reference.method@ }) =~= seq![
        DriftV::NoFreshArm { arm: reference.method@ },
    ]);
    assert forall|i: int|
        0 <= i < fresh.len() && (#[trigger] fresh[i]).method@ == reference.method@ && (forall|
            j: int,
        |
            0 <= j < i ==> (#[trigger] fresh[j]).method@ != reference.method@) implies arm_of(
        fresh,
        reference.method@,
    ) == Some(fresh[i]) by {
        let m = arm_of(fresh, reference.method@)->0;
        let at = choose|at: int|
            0 <= at < fresh.len() && #[trigger] fresh[at] == m && m.method@ == reference.method@
                && forall|j: int| 0 <= j < at ==> (#[trigger] fresh[j]).method@ != reference.method@;
        assert(fresh[at].method@ == reference.method@);
        assert(at == i);
    }
    assert forall|i: int|
        0 <= i < fresh.len() && (#[trigger] fresh[i]).method@ == reference.method@ && (forall|
            j: int,
        |
            0 <= j < i ==> (#[trigger] fresh[j]).method@ != reference.method@) implies arm_drift(
        reference,
        fresh,
    ).len() == reference.rates@.len() && forall|k: int|
        0 <= k < reference.rates@.len() ==> match #[trigger] arm_drift(reference, fresh)[k] {
            DriftV::NoFreshRole { arm, role } => arm == reference.method@ && role
                == reference.rates@[k].0 && forall|j: int|
                0 <= j < fresh[i].rates@.len() ==> (#[trigger] fresh[i].rates@[j]).0 != role,
            DriftV::Compared {
                arm,
                role,
                direction,
                reference: was,
                fresh: now,
                reference_accepted,
                fresh_accepted,
            } => arm == reference.method@ && (role, was) == reference.rates@[k]
                && fresh[i].rates@.contains((role, now)) && direction == direction_of(
                was.rate_p50,
                now.rate_p50,
            ) && reference_accepted == reference.accepted && fresh_accepted == fresh[i].accepted,
            _ => false,
        } by {
        assert forall|k: int| 0 <= k < reference.rates@.len() implies match #[trigger] arm_drift(
            reference,
            fresh,
        )[k] {
            DriftV::NoFreshRole { arm, role } => arm == reference.method@ && role
                == reference.rates@[k].0 && forall|j: int|
                0 <= j < fresh[i].rates@.len() ==> (#[trigger] fresh[i].rates@[j]).0 != role,
            DriftV::Compared {
                arm,
                role,
                direction,
                reference: was,
                fresh: now,
                reference_accepted,
                fresh_accepted,
            } => arm == reference.method@ && (role, was) == reference.rates@[k]
                && fresh[i].rates@.contains((role, now)) && direction == direction_of(
                was.rate_p50,
                now.rate_p50,
            ) && reference_accepted == reference.accepted && fresh_accepted == fresh[i].accepted,
            _ => false,
        } by {
            the_first_evidence_of_a_role_counts(fresh[i].rates@, reference.rates@[k].0);
        }
    }
}

/// The report takes the reference's arms in order, and then each fresh arm that the
/// reference does not have, in order, and no other.
pub proof fn every_arm_is_accounted_for(
    reference: Seq<MeasurementRecord>,
    fresh: Seq<MeasurementRecord>,
    one: MeasurementRecord,
)
    ensures
        reference_drift(Seq::empty(), fresh) == Seq::<DriftV>::empty(),
        reference_drift(reference.push(one), fresh) == reference_drift(reference, fresh)
            + arm_drift(one, fresh),
        extra_drift(reference, Seq::empty()) == Seq::<DriftV>::empty(),
        (exists|i: int| 0 <= i < reference.len() && (#[trigger] reference[i]).method@ == one.method@)
            ==> extra_drift(reference, fresh.push(one)) == extra_drift(reference, fresh),
        (forall|i: int| 0 <= i < reference.len() ==> (#[trigger] reference[i]).method@ != one.method@)
            ==> extra_drift(reference, fresh.push(one)) == extra_drift(reference, fresh).push(
            DriftV::NoReferenceArm { arm: one.method@ },
        ),
{
    the_first_arm_of_a_method_counts(reference, one.method@);
    assert(reference.push(one).drop_last() =~= reference);
    assert(fresh.push(one).drop_last() =~= fresh);
    assert(extra_drift(reference, fresh) + Seq::<DriftV>::empty() =~= extra_drift(reference, fresh));
    assert(extra_drift(reference, fresh) + Seq::<DriftV>::empty().push(
        DriftV::NoReferenceArm { arm: one.method@ },
    ) =~= extra_drift(reference, fresh).push(DriftV::NoReferenceArm { arm: one.method@ }));
}

/// No two directions and no two roles are named alike.
pub proof fn directions_and_roles_have_names_of_their_own(
    a: Direction,
    b: Direction,
    p: MeasuredRole,
    q: MeasuredRole,
)
    ensures
        direction_name(a) == direction_name(b) <==> a == b,
        role_name(p) == role_name(q) <==> p == q,
        direction_name(Direction::Slower) == "slower"@,
        direction_name(Direction::Faster) == "faster"@,
        role_name(MeasuredRole::Ir) == "Ir"@,
{
    reveal_strlit("slower");
    reveal_strlit("same");
    reveal_strlit("faster");
    reveal_strlit("Rgb");
    reveal_strlit("Ir");
    assert("slower"@[0] == 's' && "faster"@[0] == 'f');
    assert("same"@.len() == 4 && "slower"@.len() == 6 && "faster"@.len() == 6);
    assert("Rgb"@.len() == 3 && "Ir"@.len() == 2);
}

/// A comparison repeats the reference's workload: the rounds of the first stream
/// that it measured, and never none.
pub proof fn a_comparison_repeats_the_references_rounds(records: Seq<MeasurementRecord>)
    ensures
        reference_rounds_of(records) is None <==> forall|i: int|
            0 <= i < records.len() ==> (#[trigger] records[i]).rates@.len() == 0,
        reference_rounds_of(records) matches Some(n) ==> n > 0 && exists|i: int|
            0 <= i < records.len() && (#[trigger] records[i]).rates@.len() > 0 && (forall|j: int|
                0 <= j < i ==> (#[trigger] records[j]).rates@.len() == 0) && (
            records[i].rates@[0].1.rounds_completed > 0 ==> n
                == records[i].rates@[0].1.rounds_completed),
    decreases records.len(),
{
    if records.len() > 0 {
        let rest = records.skip(1);
        a_comparison_repeats_the_references_rounds(rest);
        if records[0].rates@.len() == 0 {
            if reference_rounds_of(rest) is None {
                assert forall|i: int| 0 <= i < records.len() implies (
                #[trigger] records[i]).rates@.len() == 0 by {
                    if i > 0 {
                        assert(rest[i - 1] == records[i]);
                    }
                }
            } else {
                let n = reference_rounds_of(rest)->0;
                let i = choose|i: int|
                    0 <= i < rest.len() && (#[trigger] rest[i]).rates@.len() > 0 && (forall|j: int|
                        0 <= j < i ==> (#[trigger] rest[j]).rates@.len() == 0) && (
                    rest[i].rates@[0].1.rounds_completed > 0 ==> n
                        == rest[i].rates@[0].1.rounds_completed);
                assert(records[i + 1] == rest[i]);
                assert forall|j: int| 0 <= j < i + 1 implies (#[trigger] records[j]).rates@.len()
                    == 0 by {
                    if j > 0 {
                        assert(rest[j - 1] == records[j]);
                    }
                }
                assert(records[i + 1].rates@.len() > 0);
            }
        } else {
            assert(records[0].rates@.len() > 0);
        }
    }
}

/// Only the daemon's word or a look at cameras nobody holds establishes that one is
/// missing: of the daemon it takes the secure tier to name a pair, a look is taken
/// as it is, and without either a capability is established only where both
/// configured nodes are there.
pub proof fn capabilities_are_read_as_they_were_shown(e: CameraEvidence)
    ensures
        e matches CameraEvidence::Daemon { tier, has_rgb } ==> reading_of(e).established && (
        reading_of(e).caps.ir_pair <==> tier@ == "secure"@) && (has_rgb ==> reading_of(
            e,
        ).caps.rgb) && (!has_rgb && tier@ != "secure"@ ==> !reading_of(e).caps.rgb),
        e matches CameraEvidence::Probed(caps) ==> reading_of(e).established && reading_of(e).caps
            == caps,
        e matches CameraEvidence::Unclear { configured } ==> (reading_of(e).established
            <==> (configured matches Some(caps) && caps.ir_pair && caps.rgb)),
{
}

/// A node that a flag names is used as named; its missing partner comes from the
/// selection, which is not looked at where both are named or none is.
pub proof fn a_named_node_is_used_as_named(
    rgb: Option<Seq<char>>,
    ir: Option<Seq<char>>,
    selected: Option<(Seq<char>, Seq<char>)>,
)
    ensures
        overridden(rgb, ir, selected) matches Some((r, i)) ==> (rgb is Some ==> r == rgb->0) && (
        ir is Some ==> i == ir->0) && (rgb is None ==> selected is Some && r == (selected->0).0) && (
        ir is None ==> selected is Some && i == (selected->0).1),
        overridden(rgb, ir, selected) is None <==> (rgb is None && ir is None) || (selected is None
            && (rgb is None || ir is None)),
{
}

fn find_arm<'a>(records: &'a [MeasurementRecord], method: &str) -> (r: Option<&'a MeasurementRecord>)
    ensures
        match r {
            Some(m) => arm_of(records@, method@) == Some(*m),
            None => arm_of(records@, method@) is None,
        },
{
    let mut i: usize = 0;
    proof {
        assert(records@.skip(0) =~= records@);
    }
    while i < records.len()
        invariant
            i <= records@.len(),
            arm_of(records@, method@) == arm_of(records@.skip(i as int), method@),
        decreases records@.len() - i,
    {
        proof {
            assert(records@.skip(i as int)[0] == records@[i as int]);
            assert(records@.skip(i as int).skip(1) =~= records@.skip(i + 1));
        }
        if same(records[i].method.as_str(), method) {
            return Some(&records[i]);
        }
        i = i + 1;
    }
    None
}

fn find_evidence(rates: &Vec<(MeasuredRole, RateEvidence)>, role: MeasuredRole) -> (r: Option<
    RateEvidence,
>)
    ensures
        r == evidence_of(rates@, role),
{
    let mut i: usize = 0;
    proof {
        assert(rates@.skip(0) =~= rates@);
    }
    while i < rates.len()
        invariant
            i <= rates@.len(),
            evidence_of(rates@, role) == evidence_of(rates@.skip(i as int), role),
        decreases rates@.len() - i,
    {
        proof {
            assert(rates@.skip(i as int)[0] == rates@[i as int]);
            assert(rates@.skip(i as int).skip(1) =~= rates@.skip(i + 1));
        }
        if rates[i].0 == role {
            return Some(rates[i].1);
        }
        i = i + 1;
    }
    None
}

fn compare_arm(reference: &MeasurementRecord, fresh: &[MeasurementRecord]) -> (r: Vec<DriftLine>)
    ensures
        drift_views(r@) == arm_drift(*reference, fresh@),
{
    let mut out: Vec<DriftLine> = Vec::new();
    match find_arm(fresh, reference.method.as_str()) {
        None => {
            out.push(DriftLine::NoFreshArm { arm: owned(reference.method.as_str()) });
            proof {
                assert(drift_views(out@) =~= arm_drift(*reference, fresh@));
            }
        },
        Some(f) => {
            let ghost want = arm_drift(*reference, fresh@);
            let mut i: usize = 0;
            proof {
                assert(drift_views(out@) =~= want.take(0));
            }
            while i < reference.rates.len()
                invariant
                    i <= reference.rates@.len(),
                    arm_of(fresh@, reference.method@) == Some(*f),
                    want == arm_drift(*reference, fresh@),
                    drift_views(out@) == want.take(i as int),
                decreases reference.rates@.len() - i,
            {
                let role = reference.rates[i].0;
                let evidence = reference.rates[i].1;
                let ghost before = drift_views(out@);
                match find_evidence(&f.rates, role) {
                    None => {
                        out.push(
                            DriftLine::NoFreshRole { arm: owned(reference.method.as_str()), role },
                        );
                    },
                    Some(e) => {
                        let direction = if rate_lt(&e.rate_p50, &evidence.rate_p50) {
                            Direction::Slower
                        } else if rate_lt(&evidence.rate_p50, &e.rate_p50) {
                            Direction::Faster
                        } else {
                            Direction::Same
                        };
                        out.push(
                            DriftLine::Compared {
                                arm: owned(reference.method.as_str()),
                                role,
                                direction,
                                reference: evidence,
                                fresh: e,
                                reference_accepted: reference.accepted,
                                fresh_accepted: f.accepted,
                            },
                        );
                    },
                }
                proof {
                    assert(want[i as int] == role_drift(*reference, *f, reference.rates@[i as int]));
                    assert(drift_views(out@) =~= before.push(want[i as int]));
                    assert(drift_views(out@) =~= want.take(i + 1));
                }
                i = i + 1;
            }
            proof {
                assert(want.take(want.len() as int) =~= want);
            }
        },
    }
    out
}

/// Compares a fresh measurement with a reference: every arm and stream of the
/// reference is named, and every arm only the fresh run has.
pub fn measurement_drift_report(reference: &[MeasurementRecord], fresh: &[MeasurementRecord]) -> (r:
    Vec<DriftLine>)
    ensures
        drift_views(r@) == reference_drift(reference@, fresh@) + extra_drift(reference@, fresh@),
{
    let mut out: Vec<DriftLine> = Vec::new();
    let mut i: usize = 0;
    proof {
        assert(reference@.take(0) =~= Seq::<MeasurementRecord>::empty());
        assert(drift_views(out@) =~= Seq::<DriftV>::empty());
    }
    while i < reference.len()
        invariant
            i <= reference@.len(),
            drift_views(out@) == reference_drift(reference@.take(i as int), fresh@),
        decreases reference@.len() - i,
    {
        let mut more = compare_arm(&reference[i], fresh);
        let ghost before = drift_views(out@);
        let ghost added = drift_views(more@);
        out.append(&mut more);
        proof {
            assert(drift_views(out@) =~= before + added);
            assert(reference@.take(i + 1).drop_last() =~= reference@.take(i as int));
            assert(reference@.take(i + 1).last() == reference@[i as int]);
        }
        i = i + 1;
    }
    proof {
        assert(reference@.take(reference@.len() as int) =~= reference@);
        assert(fresh@.take(0) =~= Seq::<MeasurementRecord>::empty());
    }
    let ghost head = drift_views(out@);
    let mut k: usize = 0;
    proof {
        assert(head + Seq::<DriftV>::empty() =~= head);
    }
    while k < fresh.len()
        invariant
            k <= fresh@.len(),
            drift_views(out@) == head + extra_drift(reference@, fresh@.take(k as int)),
        decreases fresh@.len() - k,
    {
        let ghost before = drift_views(out@);
        proof {
            assert(fresh@.take(k + 1).drop_last() =~= fresh@.take(k as int));
            assert(fresh@.take(k + 1).last() == fresh@[k as int]);
        }
        match find_arm(reference, fresh[k].method.as_str()) {
            None => {
                out.push(DriftLine::NoReferenceArm { arm: owned(fresh[k].method.as_str()) });
                proof {
                    assert(drift_views(out@) =~= before.push(
                        DriftV::NoReferenceArm { arm: fresh@[k as int].method@ },
                    ));
                }
            },
            Some(_) => {},
        }
        proof {
            assert(drift_views(out@) =~= head + extra_drift(reference@, fresh@.take(k + 1)));
        }
        k = k + 1;
    }
    proof {
        assert(fresh@.take(fresh@.len() as int) =~= fresh@);
    }
    out
}

pub open spec fn role_name(r: MeasuredRole) -> Seq<char> {
    match r {
        MeasuredRole::Rgb => "Rgb"@,
        MeasuredRole::Ir => "Ir"@,
    }
}

pub open spec fn direction_name(d: Direction) -> Seq<char> {
    match d {
        Direction::Slower => "slower"@,
        Direction::Same => "same"@,
        Direction::Faster => "faster"@,
    }
}

pub open spec fn truth(b: bool) -> Seq<char> {
    if b {
        "true"@
    } else {
        "false"@
    }
}

pub open spec fn or_zero(o: Option<u64>) -> nat {
    match o {
        Some(n) => n as nat,
        None => 0,
    }
}

/// A drift line as text. The two rates in frames per second come as text.
pub open spec fn drift_line_text(d: DriftV, reference_fps: Seq<char>, fresh_fps: Seq<char>) -> Seq<
    char,
> {
    match d {
        DriftV::NoFreshArm { arm } => arm + ": no fresh "@ + arm + " arm ran; cannot compare"@,
        DriftV::NoFreshRole { arm, role } => arm + " "@ + role_name(role)
            + ": no fresh rounds; cannot compare"@,
        DriftV::Compared {
            arm,
            role,
            direction,
            reference,
            fresh,
            reference_accepted,
            fresh_accepted,
        } => (arm + " "@ + role_name(role) + ": p50 "@ + reference_fps + " -> "@ + fresh_fps
            + " fps ("@ + direction_name(direction)) + ("); max gap "@ + decimal(
            or_zero(reference.max_inter_frame_gap_us),
        ) + " -> "@ + decimal(or_zero(fresh.max_inter_frame_gap_us)) + " us; rounds "@ + decimal(
            reference.rounds_completed as nat,
        ) + " -> "@ + decimal(fresh.rounds_completed as nat)) + ("; accepted "@ + truth(
            reference_accepted,
        ) + " -> "@ + truth(fresh_accepted)),
        DriftV::NoReferenceArm { arm } => arm + ": fresh arm with no reference counterpart"@,
    }
}

fn role_text(r: MeasuredRole) -> (s: &'static str)
    ensures
        s@ == role_name(r),
{
    match r {
        MeasuredRole::Rgb => "Rgb",
        MeasuredRole::Ir => "Ir",
    }
}

fn truth_text(b: bool) -> (s: &'static str)
    ensures
        s@ == truth(b),
{
    if b {
        "true"
    } else {
        "false"
    }
}

fn gap_text(o: Option<u64>) -> (s: String)
    ensures
        s@ == decimal(or_zero(o)),
{
    match o {
        Some(n) => dec(n),
        None => dec(0),
    }
}

pub fn drift_text(d: &DriftLine, reference_fps: &str, fresh_fps: &str) -> (r: String)
    ensures
        r@ == drift_line_text(d@, reference_fps@, fresh_fps@),
{
    match d {
        DriftLine::NoFreshArm { arm } => cat4(
            arm.as_str(),
            ": no fresh ",
            arm.as_str(),
            " arm ran; cannot compare",
        ),
        DriftLine::NoFreshRole { arm, role } => cat4(
            arm.as_str(),
            " ",
            role_text(*role),
            ": no fresh rounds; cannot compare",
        ),
        DriftLine::Compared {
            arm,
            role,
            direction,
            reference,
            fresh,
            reference_accepted,
            fresh_accepted,
        } => {
            let direction = match direction {
                Direction::Slower => "slower",
                Direction::Same => "same",
                Direction::Faster => "faster",
            };
            let head = cat9(
                arm.as_str(),
                " ",
                role_text(*role),
                ": p50 ",
                reference_fps,
                " -> ",
                fresh_fps,
                " fps (",
                direction,
            );
            let gap_before = gap_text(reference.max_inter_frame_gap_us);
            let gap_after = gap_text(fresh.max_inter_frame_gap_us);
            let rounds_before = dec(reference.rounds_completed as u64);
            let rounds_after = dec(fresh.rounds_completed as u64);
            let middle = cat8(
                "); max gap ",
                gap_before.as_str(),
                " -> ",
                gap_after.as_str(),
                " us; rounds ",
                rounds_before.as_str(),
                " -> ",
                rounds_after.as_str(),
            );
            let tail = cat4(
                "; accepted ",
                truth_text(*reference_accepted),
                " -> ",
                truth_text(*fresh_accepted),
            );
            cat3(head.as_str(), middle.as_str(), tail.as_str())
        },
        DriftLine::NoReferenceArm { arm } => cat2(
            arm.as_str(),
            ": fresh arm with no reference counterpart",
        ),
    }
}

/// The note that says what a measurement file is, where one was asked for.
pub fn evidence_note(t: &TuneArgs) -> (r: Console)
    ensures
        r@ == match t.emit_record {
            Some(p) => Seq::<SayV>::empty().push(
                SayV::Warn(
                    "[camera-tune] "@ + p@
                        + " is MEASUREMENT EVIDENCE, not a camera profile; attach it to the PR that contributes this camera's tuning"@,
                ),
            ),
            None => Seq::<SayV>::empty(),
        },
{
    let mut c = Console::new();
    match &t.emit_record {
        Some(p) => {
            c.warn(
                cat3(
                    "[camera-tune] ",
                    p.as_str(),
                    " is MEASUREMENT EVIDENCE, not a camera profile; attach it to the PR that contributes this camera's tuning",
                ),
            );
        },
        None => {},
    }
    c
}

/// What reading the two measurement files brought.
pub enum DriftFiles {
    NoReference { error: String },
    NoFresh { path: String, error: String },
    Unparsed { error: String },
    /// The drift lines as text.
    Read { lines: Vec<String> },
}

pub open spec fn drift_says(reference_path: Seq<char>, f: DriftFiles) -> Seq<SayV> {
    match f {
        DriftFiles::NoReference { error } => Seq::<SayV>::empty().push(
            SayV::Warn("[camera-tune] cannot read "@ + reference_path + ": "@ + error@),
        ),
        DriftFiles::NoFresh { path, error } => Seq::<SayV>::empty().push(
            SayV::Warn("[camera-tune] no fresh artifact at "@ + path@ + ": "@ + error@),
        ),
        DriftFiles::Unparsed { error } => Seq::<SayV>::empty().push(
            SayV::Warn("[camera-tune] artifact parse failed: "@ + error@),
        ),
        DriftFiles::Read { lines } => Seq::<SayV>::empty().push(
            SayV::Warn("[camera-tune] drift vs "@ + reference_path + ":"@),
        ) + texts(lines@).map_values(|l: Seq<char>| SayV::Warn("[camera-tune]   "@ + l)),
    }
}

/// What a comparison prints. It never changes how the measurement ended.
pub fn report_drift(reference_path: &str, f: &DriftFiles) -> (r: Console)
    ensures
        r@ == drift_says(reference_path@, *f),
{
    let mut c = Console::new();
    match f {
        DriftFiles::NoReference { error } => {
            c.warn(cat4("[camera-tune] cannot read ", reference_path, ": ", error.as_str()));
        },
        DriftFiles::NoFresh { path, error } => {
            c.warn(
                cat4("[camera-tune] no fresh artifact at ", path.as_str(), ": ", error.as_str()),
            );
        },
        DriftFiles::Unparsed { error } => {
            c.warn(cat2("[camera-tune] artifact parse failed: ", error.as_str()));
        },
        DriftFiles::Read { lines } => {
            c.warn(cat3("[camera-tune] drift vs ", reference_path, ":"));
            let ghost head = c@;
            let ghost want = texts(lines@).map_values(
                |l: Seq<char>| SayV::Warn("[camera-tune]   "@ + l),
            );
            let mut i: usize = 0;
            proof {
                assert(head + want.take(0) =~= head);
            }
            while i < lines.len()
                invariant
                    i <= lines@.len(),
                    want == texts(lines@).map_values(
                        |l: Seq<char>| SayV::Warn("[camera-tune]   "@ + l),
                    ),
                    c@ == head + want.take(i as int),
                decreases lines@.len() - i,
            {
                c.warn(cat2("[camera-tune]   ", lines[i].as_str()));
                proof {
                    assert(c@ =~= head + want.take(i + 1));
                }
                i = i + 1;
            }
            proof {
                assert(want.take(want.len() as int) =~= want);
            }
        },
    }
    c
}

/// Cameras are chosen by exactly two paths, or by two paths and the camera that is
/// expected to hold them; fewer, more or anything else chooses nothing.
pub proof fn a_choice_is_two_paths_and_at_most_a_guard(args: Seq<Seq<char>>)
    ensures
        camera_choice(args) is Ok <==> args.len() == 3 || (args.len() == 5 && args[3]
            == "--expected-camera"@),
        camera_choice(args) matches Ok(ChoiceV::Plain { rgb, ir }) ==> args.len() == 3 && rgb
            == args[1] && ir == args[2],
        camera_choice(args) matches Ok(ChoiceV::Guarded { rgb, ir, guard }) ==> args.len() == 5 && rgb
            == args[1] && ir == args[2] && guard == args[4],
{
}

/// Rounds are measured as many as were written, at least one; without the flag there
/// is no count, and a flag without a count is refused.
pub proof fn rounds_are_taken_as_written(args: Seq<Seq<char>>, n: nat)
    ensures
        flag_value(args, "--rounds"@) == Some(decimal(n)) ==> (rounds_asked(args) is Ok <==> 0 < n
            <= usize::MAX),
        flag_value(args, "--rounds"@) == Some(decimal(n)) && 0 < n <= usize::MAX ==> rounds_asked(
            args,
        )->Ok_0 == Some(n as usize),
        flag_value(args, "--rounds"@) is None ==> (rounds_asked(args) is Ok <==> !flag_given(
            args,
            "--rounds"@,
        )),
        rounds_asked(args) matches Ok(None) ==> flag_value(args, "--rounds"@) is None,
        rounds_asked(args) matches Ok(Some(k)) ==> k > 0,
{
    crate::text::a_number_is_read_as_it_is_shown(n, usize::MAX as nat, decimal(n));
}

/// A record's path is taken as written and must not be blank; without the flag there
/// is none, and a flag without a path is refused.
pub proof fn a_records_path_is_taken_as_written(args: Seq<Seq<char>>, name: Seq<char>)
    ensures
        path_asked(args, name) matches Ok(Some(p)) ==> flag_value(args, name) == Some(p) && trimmed(
            p,
        ).len() > 0,
        path_asked(args, name) == Ok::<Option<Seq<char>>, Seq<char>>(None) <==> flag_value(
            args,
            name,
        ) is None && !flag_given(args, name),
        flag_value(args, name) matches Some(p) ==> (path_asked(args, name) is Ok <==> trimmed(
            p,
        ).len() > 0),
{
}

/// A measurement starts exactly where its count and both paths can be read, and with
/// exactly those.
pub proof fn a_measurement_starts_where_all_is_read(args: Seq<Seq<char>>)
    ensures
        tune_asked(args) is Ok <==> rounds_asked(args) is Ok && path_asked(
            args,
            "--verify-record"@,
        ) is Ok && path_asked(args, "--emit-record"@) is Ok,
        tune_asked(args) matches Ok(t) ==> rounds_asked(args)->Ok_0 == t.0 && path_asked(
            args,
            "--verify-record"@,
        )->Ok_0 == t.1 && path_asked(args, "--emit-record"@)->Ok_0 == t.2,
{
}

/// A truth is spelled as what it is.
pub proof fn a_truth_is_spelled_as_it_is(b: bool)
    ensures
        truth(b) == "true"@ <==> b,
        truth(b) == "false"@ <==> !b,
{
    reveal_strlit("true");
    reveal_strlit("false");
    assert("true"@.len() == 4 && "false"@.len() == 5);
}

/// What setting up the emitter asks for.
pub open spec fn emitter_request(args: Seq<Seq<char>>) -> RequestV {
    RequestV::SetupIrEmitter { dry_run: args.contains("--dry-run"@) }
}

/// What measuring asks for: a comparison repeats the reference's rounds and records
/// where it can be compared.
pub open spec fn tune_request(
    rounds: Option<usize>,
    emit: Option<Seq<char>>,
    reference: Option<u32>,
    fresh: Option<Seq<char>>,
) -> RequestV {
    RequestV::TuneCaptureMode {
        rounds: match reference {
            Some(n) => Some(n as usize),
            None => rounds,
        },
        emit_record_path: match fresh {
            Some(p) => Some(p),
            None => emit,
        },
    }
}

/// The emitter is left as it is exactly where a dry run was asked for; a measurement
/// keeps to what was written unless it is compared with a reference.
pub proof fn only_a_dry_run_leaves_the_emitter(
    args: Seq<Seq<char>>,
    rounds: Option<usize>,
    emit: Option<Seq<char>>,
    n: u32,
    path: Seq<char>,
)
    ensures
        emitter_request(args) == (RequestV::SetupIrEmitter { dry_run: true }) <==> args.contains(
            "--dry-run"@,
        ),
        emitter_request(args) == (RequestV::SetupIrEmitter { dry_run: false }) <==> !args.contains(
            "--dry-run"@,
        ),
        tune_request(rounds, emit, None, None) == (RequestV::TuneCaptureMode {
            rounds,
            emit_record_path: emit,
        }),
        tune_request(rounds, emit, Some(n), Some(path)) == (RequestV::TuneCaptureMode {
            rounds: Some(n as usize),
            emit_record_path: Some(path),
        }),
{
}

/// The secure tier has a color camera too; where nothing could be established, the
/// configured nodes are what is shown, and none where none is configured.
pub proof fn the_secure_tier_has_both_cameras(e: CameraEvidence)
    ensures
        e matches CameraEvidence::Daemon { tier, .. } ==> (tier@ == "secure"@ ==> reading_of(
            e,
        ).caps.rgb && reading_of(e).caps.ir_pair),
        e matches CameraEvidence::Unclear { configured } ==> (match configured {
            Some(caps) => reading_of(e).caps == caps,
            None => !reading_of(e).caps.rgb && !reading_of(e).caps.ir_pair,
        }),
{
}

} // verus!
