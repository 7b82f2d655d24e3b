//! The records of a calibration capture: a session line, then a line for each
//! sample. Numbers that were measured come as JSON text.

use vstd::prelude::*;

use crate::ids::{digest, lemma_hex, sha256};
use crate::json::{no_fields, Json, JsonArr, JsonObj, JsonV};
use crate::machine::ENGINE_VERSION;
use crate::text::{hex, hex_of, owned};

verus! {

/// The first twelve hexadecimal digits of a file's SHA-256.
pub open spec fn short_digest(data: Seq<u8>) -> Seq<char> {
    hex(sha256(data)).take(12)
}

/// The short digest of a file, or null where it could not be read.
pub open spec fn file_tag(data: Option<Vec<u8>>) -> JsonV {
    match data {
        Some(d) => JsonV::Str(short_digest(d@)),
        None => JsonV::Null,
    }
}

fn file_value(data: &Option<Vec<u8>>) -> (r: Json)
    ensures
        r@ == file_tag(*data),
{
    match data {
        Some(d) => {
            let sum = digest(d.as_slice());
            let text = hex_of(sum.as_slice());
            proof {
                lemma_hex(sha256(d@));
            }
            let head = text.as_str().substring_char(0, 12);
            proof {
                assert(text@.subrange(0, 12) =~= text@.take(12));
            }
            Json::text(head)
        },
        None => Json::null(),
    }
}

/// What a session line records: who, on what hardware, with which models.
pub struct Session {
    pub user: String,
    pub tag: String,
    pub n: u64,
    pub host: String,
    pub rgb_camera: String,
    pub ir_camera: String,
    /// What the model files hold; `None` where one could not be read.
    pub det: Option<Vec<u8>>,
    pub model: Option<Vec<u8>>,
    pub adapter: Option<Vec<u8>>,
    pub ts_unix: String,
}

pub open spec fn session_json(s: Session) -> JsonV {
    JsonV::Obj(
        no_fields().push(("session"@, JsonV::Bool(true))).push(
            ("user"@, JsonV::Str(s.user@)),
        ).push(("tag"@, JsonV::Str(s.tag@))).push(("n"@, JsonV::Num(s.n as nat))).push(
            ("host"@, JsonV::Str(s.host@)),
        ).push(("rgb_camera"@, JsonV::Str(s.rgb_camera@))).push(
            ("ir_camera"@, JsonV::Str(s.ir_camera@)),
        ).push(("irlume_version"@, JsonV::Str(ENGINE_VERSION@))).push(
            ("det_sha256"@, file_tag(s.det)),
        ).push(("model_sha256"@, file_tag(s.model))).push(
            ("adapter_sha256"@, file_tag(s.adapter)),
        ).push(("ts_unix"@, JsonV::Raw(s.ts_unix@))),
    )
}

/// The session line.
pub fn session_record(s: &Session) -> (r: Json)
    ensures
        r@ == session_json(*s),
{
    let mut o = JsonObj::new();
    o.put("session", Json::flag(true));
    o.put("user", Json::text(s.user.as_str()));
    o.put("tag", Json::text(s.tag.as_str()));
    o.put("n", Json::num(s.n));
    o.put("host", Json::text(s.host.as_str()));
    o.put("rgb_camera", Json::text(s.rgb_camera.as_str()));
    o.put("ir_camera", Json::text(s.ir_camera.as_str()));
    o.put("irlume_version", Json::text(ENGINE_VERSION));
    o.put("det_sha256", file_value(&s.det));
    o.put("model_sha256", file_value(&s.model));
    o.put("adapter_sha256", file_value(&s.adapter));
    o.put("ts_unix", Json::raw(s.ts_unix.as_str()));
    Json::obj(o)
}

/// What was measured of a face in one spectrum.
pub struct FaceShot {
    pub score: String,
    pub cosine: String,
    pub brightness: String,
    pub sharpness: String,
    pub contrast: String,
    pub bbox: String,
    pub landmarks: String,
    pub iod_px: String,
    pub embedding: String,
}

/// What the infrared spectrum shows besides.
pub struct IrCues {
    pub center_edge_ratio: String,
    /// The brightest point of the eyes; `None` where it reached the ceiling, so
    /// that its true height is unknown.
    pub glint: Option<String>,
}

/// One sample.
pub struct Sample {
    pub idx: u64,
    pub tag: String,
    pub elapsed_ms: String,
    pub rgb_sat_pct: String,
    pub ir_sat_pct: String,
    pub rgb_res: (u32, u32),
    pub ir_res: (u32, u32),
    pub ts_unix: String,
    pub ir_ambient: String,
    pub ir_strobe_gap: String,
    pub rgb: Option<FaceShot>,
    pub ir: Option<(FaceShot, IrCues)>,
}

pub open spec fn resolution(r: (u32, u32)) -> JsonV {
    JsonV::Arr(
        Seq::<JsonV>::empty().push(JsonV::Num(r.0 as nat)).push(JsonV::Num(r.1 as nat)),
    )
}

pub open spec fn raw(s: String) -> JsonV {
    JsonV::Raw(s@)
}

pub open spec fn rgb_fields(fields: Seq<(Seq<char>, JsonV)>, f: FaceShot) -> Seq<
    (Seq<char>, JsonV),
> {
    fields.push(("rgb_face_score"@, raw(f.score))).push(("rgb_cos"@, raw(f.cosine))).push(
        ("rgb_brightness"@, raw(f.brightness)),
    ).push(("rgb_sharpness"@, raw(f.sharpness))).push(("rgb_contrast"@, raw(f.contrast))).push(
        ("rgb_bbox"@, raw(f.bbox)),
    ).push(("rgb_landmarks"@, raw(f.landmarks))).push(("rgb_iod_px"@, raw(f.iod_px))).push(
        ("rgb_emb"@, raw(f.embedding)),
    )
}

pub open spec fn ir_fields(fields: Seq<(Seq<char>, JsonV)>, f: FaceShot, c: IrCues) -> Seq<
    (Seq<char>, JsonV),
> {
    fields.push(("ir_face_score"@, raw(f.score))).push(("ir_cos_v1"@, raw(f.cosine))).push(
        ("ir_brightness"@, raw(f.brightness)),
    ).push(("ir_sharpness"@, raw(f.sharpness))).push(("ir_contrast"@, raw(f.contrast))).push(
        ("ir_bbox"@, raw(f.bbox)),
    ).push(("ir_landmarks"@, raw(f.landmarks))).push(("ir_iod_px"@, raw(f.iod_px))).push(
        ("ir_center_edge_ratio"@, raw(c.center_edge_ratio)),
    ).push(
        (
            "ir_glint"@,
            match c.glint {
                Some(g) => raw(g),
                None => JsonV::Null,
            },
        ),
    ).push(("ir_emb_raw"@, raw(f.embedding)))
}

/// The fields of a sample. What was measured of a face is there only where a face
/// was seen, so that a null glint means one that reached the ceiling.
pub open spec fn sample_fields(s: Sample) -> Seq<(Seq<char>, JsonV)> {
    let head = no_fields().push(("idx"@, JsonV::Num(s.idx as nat))).push(
        ("tag"@, JsonV::Str(s.tag@)),
    ).push(("elapsed_ms"@, raw(s.elapsed_ms))).push(("rgb_sat_pct"@, raw(s.rgb_sat_pct))).push(
        ("ir_sat_pct"@, raw(s.ir_sat_pct)),
    ).push(("rgb_res"@, resolution(s.rgb_res))).push(("ir_res"@, resolution(s.ir_res))).push(
        ("ts_unix"@, raw(s.ts_unix)),
    ).push(("ir_ambient"@, raw(s.ir_ambient))).push(("ir_strobe_gap"@, raw(s.ir_strobe_gap)));
    let rgb = match s.rgb {
        Some(f) => rgb_fields(head, f),
        None => head,
    };
    let ir = rgb.push(("rgb_present"@, JsonV::Bool(s.rgb is Some)));
    let end = match s.ir {
        Some((f, c)) => ir_fields(ir, f, c),
        None => ir,
    };
    end.push(("ir_present"@, JsonV::Bool(s.ir is Some)))
}

fn resolution_value(r: (u32, u32)) -> (j: Json)
    ensures
        j@ == resolution(r),
{
    let mut a = JsonArr::new();
    a.put(Json::num(r.0 as u64));
    a.put(Json::num(r.1 as u64));
    Json::arr(a)
}

fn put_rgb(o: &mut JsonObj, f: &FaceShot)
    ensures
        final(o)@ == rgb_fields(old(o)@, *f),
{
    o.put("rgb_face_score", Json::raw(f.score.as_str()));
    o.put("rgb_cos", Json::raw(f.cosine.as_str()));
    o.put("rgb_brightness", Json::raw(f.brightness.as_str()));
    o.put("rgb_sharpness", Json::raw(f.sharpness.as_str()));
    o.put("rgb_contrast", Json::raw(f.contrast.as_str()));
    o.put("rgb_bbox", Json::raw(f.bbox.as_str()));
    o.put("rgb_landmarks", Json::raw(f.landmarks.as_str()));
    o.put("rgb_iod_px", Json::raw(f.iod_px.as_str()));
    o.put("rgb_emb", Json::raw(f.embedding.as_str()));
}

fn put_ir(o: &mut JsonObj, f: &FaceShot, c: &IrCues)
    ensures
        final(o)@ == ir_fields(old(o)@, *f, *c),
{
    o.put("ir_face_score", Json::raw(f.score.as_str()));
    o.put("ir_cos_v1", Json::raw(f.cosine.as_str()));
    o.put("ir_brightness", Json::raw(f.brightness.as_str()));
    o.put("ir_sharpness", Json::raw(f.sharpness.as_str()));
    o.put("ir_contrast", Json::raw(f.contrast.as_str()));
    o.put("ir_bbox", Json::raw(f.bbox.as_str()));
    o.put("ir_landmarks", Json::raw(f.landmarks.as_str()));
    o.put("ir_iod_px", Json::raw(f.iod_px.as_str()));
    o.put("ir_center_edge_ratio", Json::raw(c.center_edge_ratio.as_str()));
    let glint = match &c.glint {
        Some(g) => Json::raw(g.as_str()),
        None => Json::null(),
    };
    o.put("ir_glint", glint);
    o.put("ir_emb_raw", Json::raw(f.embedding.as_str()));
}

/// The line of a sample.
pub fn sample_record(s: &Sample) -> (r: Json)
    ensures
        r@ == JsonV::Obj(sample_fields(*s)),
{
    let mut o = JsonObj::new();
    o.put("idx", Json::num(s.idx));
    o.put("tag", Json::text(s.tag.as_str()));
    o.put("elapsed_ms", Json::raw(s.elapsed_ms.as_str()));
    o.put("rgb_sat_pct", Json::raw(s.rgb_sat_pct.as_str()));
    o.put("ir_sat_pct", Json::raw(s.ir_sat_pct.as_str()));
    o.put("rgb_res", resolution_value(s.rgb_res));
    o.put("ir_res", resolution_value(s.ir_res));
    o.put("ts_unix", Json::raw(s.ts_unix.as_str()));
    o.put("ir_ambient", Json::raw(s.ir_ambient.as_str()));
    o.put("ir_strobe_gap", Json::raw(s.ir_strobe_gap.as_str()));
    match &s.rgb {
        Some(f) => {
            put_rgb(&mut o, f);
        },
        None => {},
    }
    o.put("rgb_present", Json::flag(s.rgb.is_some()));
    match &s.ir {
        Some((f, c)) => {
            put_ir(&mut o, f, c);
        },
        None => {},
    }
    o.put("ir_present", Json::flag(s.ir.is_some()));
    Json::obj(o)
}

/// The index of the sample to take after `written` of `n`, while one is left.
pub open spec fn sample_due(n: nat, written: nat) -> Option<nat> {
    if written < n {
        Some(written)
    } else {
        None
    }
}

/// The next sample of a capture of `n`, or `None` where it is complete.
pub fn next_sample(n: usize, written: usize) -> (r: Option<usize>)
    ensures
        r == (if written < n {
            Some(written)
        } else {
            None::<usize>
        }),
        (match r {
            Some(i) => Some(i as nat),
            None => None,
        }) == sample_due(n as nat, written as nat),
{
    if written < n {
        Some(written)
    } else {
        None
    }
}

/// The lines of a capture: the session, and then each sample that was taken.
pub open spec fn capture_lines(s: Session, samples: Seq<Sample>) -> Seq<JsonV> {
    seq![session_json(s)] + samples.map_values(|t: Sample| JsonV::Obj(sample_fields(t)))
}

/// Whether each sample was taken when it was due, and none is left.
pub open spec fn complete(n: nat, samples: Seq<Sample>) -> bool {
    &&& forall|k: int|
        0 <= k < samples.len() ==> sample_due(n, k as nat) == Some(
            (#[trigger] samples[k]).idx as nat,
        )
    &&& sample_due(n, samples.len()) is None
}

/// A complete capture of `n` has written one session line and then exactly `n`
/// sample lines, and the samples count from zero without gaps.
pub proof fn a_capture_is_a_session_and_its_samples(s: Session, samples: Seq<Sample>)
    requires
        complete(s.n as nat, samples),
    ensures
        samples.len() == s.n,
        capture_lines(s, samples).len() == s.n + 1,
        capture_lines(s, samples)[0] == session_json(s),
        forall|k: int|
            0 <= k < s.n ==> (#[trigger] samples[k]).idx == k && capture_lines(s, samples)[k + 1]
                == JsonV::Obj(sample_fields(samples[k])) && sample_fields(samples[k])[0] == (
                "idx"@,
                JsonV::Num(k as nat),
            ),
{
    let n = s.n as nat;
    if samples.len() > n {
        assert(sample_due(n, n) == Some(samples[n as int].idx as nat));
    }
}

/// The glint as the console shows it: no face, a peak at the ceiling, or the
/// measured height.
pub open spec fn glint_text(ir_present: bool, glint: Option<Seq<char>>) -> Seq<char> {
    if !ir_present {
        "n/a"@
    } else {
        match glint {
            None => "railed"@,
            Some(g) => g,
        }
    }
}

/// Shows the glint. A measured height comes as text, with one decimal.
pub fn format_ir_glint(ir_present: bool, glint: Option<&str>) -> (r: String)
    ensures
        r@ == glint_text(ir_present, crate::text::opt_slice(glint)),
{
    if !ir_present {
        return owned("n/a");
    }
    match glint {
        None => owned("railed"),
        Some(g) => owned(g),
    }
}

/// A session line names the samples it was asked for, and each model by the first
/// twelve digits of its digest exactly where the file could be read.
pub proof fn a_session_names_its_models(s: Session)
    ensures
        ({
            let o = session_json(s)->Obj_0;
            &&& o.contains(("session"@, JsonV::Bool(true)))
            &&& o.contains(("user"@, JsonV::Str(s.user@)))
            &&& o.contains(("n"@, JsonV::Num(s.n as nat)))
            &&& o.contains(("rgb_camera"@, JsonV::Str(s.rgb_camera@)))
            &&& o.contains(("ir_camera"@, JsonV::Str(s.ir_camera@)))
            &&& o.contains(("det_sha256"@, file_tag(s.det)))
            &&& o.contains(("model_sha256"@, file_tag(s.model)))
            &&& o.contains(("adapter_sha256"@, file_tag(s.adapter)))
            &&& file_tag(s.det) == JsonV::Null <==> s.det is None
            &&& s.det matches Some(d) ==> file_tag(s.det) == JsonV::Str(
                hex(sha256(d@)).subrange(0, 12),
            )
        }),
{
    let o = session_json(s)->Obj_0;
    assert(o[0] == ("session"@, JsonV::Bool(true)));
    assert(o[1] == ("user"@, JsonV::Str(s.user@)));
    assert(o[3] == ("n"@, JsonV::Num(s.n as nat)));
    assert(o[5] == ("rgb_camera"@, JsonV::Str(s.rgb_camera@)));
    assert(o[6] == ("ir_camera"@, JsonV::Str(s.ir_camera@)));
    assert(o[8] == ("det_sha256"@, file_tag(s.det)));
    assert(o[9] == ("model_sha256"@, file_tag(s.model)));
    assert(o[10] == ("adapter_sha256"@, file_tag(s.adapter)));
    if s.det is Some {
        assert(short_digest(s.det->0@) =~= hex(sha256(s.det->0@)).subrange(0, 12));
    }
}

/// A sample says in each spectrum whether a face was seen, and holds the nine values
/// of a color face, and the eleven of an infrared one, exactly where it was.
pub proof fn a_sample_holds_a_face_only_where_one_was_seen(s: Sample)
    ensures
        ({
            let f = sample_fields(s);
            &&& f.contains(("rgb_present"@, JsonV::Bool(s.rgb is Some)))
            &&& f.contains(("ir_present"@, JsonV::Bool(s.ir is Some)))
            &&& f.len() == 12 + (if s.rgb is Some {
                9int
            } else {
                0
            }) + (if s.ir is Some {
                11int
            } else {
                0
            })
            &&& f.contains(("rgb_res"@, resolution(s.rgb_res)))
            &&& f.contains(("ir_res"@, resolution(s.ir_res)))
            &&& s.rgb is Some ==> f.contains(("rgb_cos"@, JsonV::Raw(s.rgb->0.cosine@)))
            &&& s.ir is Some ==> f.contains(("ir_cos_v1"@, JsonV::Raw((s.ir->0).0.cosine@)))
            &&& s.ir is Some && (s.ir->0).1.glint is None ==> f.contains(
                ("ir_glint"@, JsonV::Null),
            )
            &&& s.ir is Some && (s.ir->0).1.glint is Some ==> f.contains(
                ("ir_glint"@, JsonV::Raw((s.ir->0).1.glint->0@)),
            )
        }),
{
    let f = sample_fields(s);
    let k: int = if s.rgb is Some {
        19
    } else {
        10
    };
    assert(f[5] == ("rgb_res"@, resolution(s.rgb_res)));
    assert(f[6] == ("ir_res"@, resolution(s.ir_res)));
    if s.rgb is Some {
        assert(f[11] == ("rgb_cos"@, JsonV::Raw(s.rgb->0.cosine@)));
    }
    assert(f[k] == ("rgb_present"@, JsonV::Bool(s.rgb is Some)));
    if s.ir is Some {
        assert(f[k + 2] == ("ir_cos_v1"@, JsonV::Raw((s.ir->0).0.cosine@)));
        assert(f[k + 10].0 == "ir_glint"@);
        if (s.ir->0).1.glint is None {
            assert(f[k + 10] == ("ir_glint"@, JsonV::Null));
        } else {
            assert(f[k + 10] == ("ir_glint"@, JsonV::Raw((s.ir->0).1.glint->0@)));
        }
        assert(f[k + 12] == ("ir_present"@, JsonV::Bool(true)));
    } else {
        assert(f[k + 1] == ("ir_present"@, JsonV::Bool(false)));
    }
}

/// The glint is shown as measured, as railed where it reached the ceiling, and as
/// not applicable exactly where no face was seen.
pub proof fn a_glint_is_shown_as_it_was_measured(g: Seq<char>, glint: Option<Seq<char>>)
    ensures
        glint_text(true, Some(g)) == g,
        glint_text(true, None) == "railed"@,
        glint_text(false, glint) == "n/a"@,
        "railed"@ != "n/a"@,
{
    reveal_strlit("railed");
    reveal_strlit("n/a");
    assert("railed"@.len() == 6 && "n/a"@.len() == 3);
}

/// A resolution is published as width and then height.
pub proof fn a_resolution_keeps_its_order(w: u32, h: u32)
    ensures
        resolution((w, h))->Arr_0.len() == 2,
        resolution((w, h))->Arr_0[0] == JsonV::Num(w as nat),
        resolution((w, h))->Arr_0[1] == JsonV::Num(h as nat),
{
}

/// A capture is complete exactly where its samples count from zero up to what was
/// asked for, so one sample missing or out of place leaves it incomplete.
pub proof fn a_capture_is_complete_with_its_last_sample(n: nat, samples: Seq<Sample>)
    ensures
        complete(n, samples) <==> samples.len() == n && forall|k: int|
            0 <= k < samples.len() ==> (#[trigger] samples[k]).idx == k,
{
    if complete(n, samples) {
        if samples.len() > n {
            assert(sample_due(n, n) == Some(samples[n as int].idx as nat));
        }
        assert forall|k: int| 0 <= k < samples.len() implies (#[trigger] samples[k]).idx == k by {
            assert(sample_due(n, k as nat) == Some(samples[k].idx as nat));
        }
    }
}

} // verus!
