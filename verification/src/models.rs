//! The shipped model set: where its files are looked for, the stages that load
//! them, and the names of recognizer spaces.

use vstd::prelude::*;

use crate::args::slices;
use crate::console::{fail_with, failed, Outcome};
use crate::json::{no_fields, Json, JsonArr, JsonObj, JsonV};
use crate::machine::{answer, answered, Reply};
use crate::text::{
    all_hex, ascii_lower, cat2, cat3, is_hex_digit, opt_text, owned, same, strip_prefix,
    to_ascii_lower, after_prefix,
};

verus! {

/// What the removed `irlume models` command answers.
pub fn removed_notice() -> (r: Outcome)
    ensures
        r@ == failed(
            "[models] third-party model support was removed; irlume ships its full model set (models-v1). Check installed weights with: irlume doctor"@,
            2,
        ),
{
    fail_with(
        owned(
            "[models] third-party model support was removed; irlume ships its full model set (models-v1). Check installed weights with: irlume doctor",
        ),
        2,
    )
}

/// The recognizer space that a name denotes: `shipped` is the space of scans
/// from before spaces were tagged, a literal digest names itself in lower case.
pub open spec fn space_named(name: Seq<char>, legacy: Seq<char>) -> Result<Seq<char>, Seq<char>> {
    if name == "shipped"@ {
        Ok(legacy)
    } else {
        match after_prefix(name, "embed:"@) {
            Some(hex) => if hex.len() == 64 && (forall|i: int|
                0 <= i < hex.len() ==> is_hex_digit(#[trigger] hex[i])) {
                Ok("embed:"@ + ascii_lower(hex))
            } else {
                Err(
                    "'"@ + name
                        + "': an embed space is 'embed:' plus exactly 64 hex characters"@,
                )
            },
            None => Err(
                "'"@ + name
                    + "': unknown model (with third-party support removed, forget-model accepts 'shipped' or a literal 'embed:<64-hex>' space)"@,
            ),
        }
    }
}

pub open spec fn text_result(r: Result<String, String>) -> Result<Seq<char>, Seq<char>> {
    match r {
        Ok(s) => Ok(s@),
        Err(e) => Err(e@),
    }
}

/// Resolves a `profiles forget-model` argument to the stored space it names.
/// `legacy` is the tag of scans that carry none.
pub fn recognizer_space_for(name: &str, legacy: &str) -> (r: Result<String, String>)
    ensures
        text_result(r) == space_named(name@, legacy@),
{
    if same(name, "shipped") {
        return Ok(owned(legacy));
    }
    match strip_prefix(name, "embed:") {
        Some(hex) => {
            if hex.unicode_len() == 64 && all_hex(hex) {
                let low = to_ascii_lower(hex);
                Ok(cat2("embed:", low.as_str()))
            } else {
                Err(
                    cat3(
                        "'",
                        name,
                        "': an embed space is 'embed:' plus exactly 64 hex characters",
                    ),
                )
            }
        },
        None => Err(
            cat3(
                "'",
                name,
                "': unknown model (with third-party support removed, forget-model accepts 'shipped' or a literal 'embed:<64-hex>' space)",
            ),
        ),
    }
}

/// What opening a candidate file showed.
#[derive(Clone, Copy, Debug, PartialEq, Eq, Structural)]
pub enum Probe {
    /// Nothing is there.
    NotFound,
    /// It opened as a regular file.
    Readable,
    /// Something is there that the loader could not read.
    Unreadable,
}

/// A place to look for a model file.
pub struct Place {
    pub path: String,
    /// `caller-env` where this process's environment chose the path, else
    /// `shipped`.
    pub origin: &'static str,
}

pub open spec fn place_views(v: Seq<Place>) -> Seq<(Seq<char>, Seq<char>)> {
    v.map_values(|p: Place| (p.path@, p.origin@))
}

/// Where a model file is looked for, in order: the path the environment names,
/// then the packaged locations, then beside a checkout.
pub open spec fn search_order(filename: Seq<char>, env: Option<Seq<char>>) -> Seq<
    (Seq<char>, Seq<char>),
> {
    let shipped = Seq::<(Seq<char>, Seq<char>)>::empty().push(
        ("/usr/share/irlume/models/"@ + filename, "shipped"@),
    ).push(("/usr/lib/irlume/models/"@ + filename, "shipped"@)).push(
        ("models/"@ + filename, "shipped"@),
    );
    match env {
        Some(path) => Seq::empty().push((path, "caller-env"@)) + shipped,
        None => shipped,
    }
}

pub fn model_places(filename: &str, env: Option<String>) -> (r: Vec<Place>)
    ensures
        place_views(r@) == search_order(filename@, opt_text(env)),
{
    let mut v: Vec<Place> = Vec::new();
    let ghost e = opt_text(env);
    match env {
        Some(path) => {
            v.push(Place { path, origin: "caller-env" });
        },
        None => {},
    }
    v.push(Place { path: cat2("/usr/share/irlume/models/", filename), origin: "shipped" });
    v.push(Place { path: cat2("/usr/lib/irlume/models/", filename), origin: "shipped" });
    v.push(Place { path: cat2("models/", filename), origin: "shipped" });
    proof {
        assert(place_views(v@) =~= search_order(filename@, e));
    }
    v
}

/// The file a search lands on.
pub struct ModelCandidate {
    pub path: String,
    pub origin: &'static str,
    pub readable: bool,
}

/// The first place where something is. An unreadable file still ends the search:
/// the loader would not look further either.
pub open spec fn first_present(
    places: Seq<(Seq<char>, Seq<char>)>,
    probes: Seq<Probe>,
) -> Option<(Seq<char>, Seq<char>, bool)>
    decreases places.len(),
{
    if places.len() == 0 || probes.len() == 0 {
        None
    } else if probes[0] == Probe::NotFound {
        first_present(places.skip(1), probes.skip(1))
    } else {
        Some((places[0].0, places[0].1, probes[0] == Probe::Readable))
    }
}

pub open spec fn candidate_view(c: Option<ModelCandidate>) -> Option<(Seq<char>, Seq<char>, bool)> {
    match c {
        Some(c) => Some((c.path@, c.origin@, c.readable)),
        None => None,
    }
}

/// Picks the candidate from what probing the places, in order, showed.
pub fn resolve_model_candidate(places: &Vec<Place>, probes: &Vec<Probe>) -> (r: Option<
    ModelCandidate,
>)
    ensures
        candidate_view(r) == first_present(place_views(places@), probes@),
{
    let ghost pv = place_views(places@);
    let mut i: usize = 0;
    proof {
        assert(pv.skip(0) =~= pv);
        assert(probes@.skip(0) =~= probes@);
    }
    while i < places.len() && i < probes.len()
        invariant
            i <= places@.len(),
            i <= probes@.len(),
            pv == place_views(places@),
            first_present(pv, probes@) == first_present(
                pv.skip(i as int),
                probes@.skip(i as int),
            ),
        decreases places@.len() - i,
    {
        proof {
            assert(pv.skip(i as int)[0] == (places@[i as int].path@, places@[i as int].origin@));
            assert(probes@.skip(i as int)[0] == probes@[i as int]);
            assert(pv.skip(i as int).skip(1) =~= pv.skip(i + 1));
            assert(probes@.skip(i as int).skip(1) =~= probes@.skip(i + 1));
        }
        match probes[i] {
            Probe::NotFound => {},
            Probe::Readable => {
                return Some(
                    ModelCandidate {
                        path: owned(places[i].path.as_str()),
                        origin: places[i].origin,
                        readable: true,
                    },
                );
            },
            Probe::Unreadable => {
                return Some(
                    ModelCandidate {
                        path: owned(places[i].path.as_str()),
                        origin: places[i].origin,
                        readable: false,
                    },
                );
            },
        }
        i = i + 1;
    }
    None
}

/// The path of the candidate, where it is readable.
pub fn resolve_model(candidate: Option<ModelCandidate>) -> (r: Option<String>)
    ensures
        opt_text(r) == (match candidate_view(candidate) {
            Some((path, _, true)) => Some(path),
            _ => None,
        }),
{
    match candidate {
        Some(c) => {
            if c.readable {
                Some(c.path)
            } else {
                None
            }
        },
        None => None,
    }
}

/// Where distributions put the ONNX runtime.
pub open spec fn distro_runtimes() -> Seq<Seq<char>> {
    seq![
        "/usr/lib64/libonnxruntime.so"@,
        "/usr/lib/libonnxruntime.so"@,
        "/usr/lib/x86_64-linux-gnu/libonnxruntime.so"@,
    ]
}

/// Whether the ONNX runtime is on disk anywhere a distribution or irlume's own
/// packages put it. `packaged` are the packages' paths.
pub fn ort_on_disk<F: Fn(&str) -> bool>(packaged: &[&str], present: F) -> (r: bool)
    requires
        forall|p: &str| call_requires(present, (p,)),
    ensures
        r ==> exists|p: &str|
            #![trigger call_ensures(present, (p,), true)]
            call_ensures(present, (p,), true) && (distro_runtimes().contains(p@) || slices(
                packaged@,
            ).contains(p@)),
        !r ==> (forall|i: int|
            #![trigger distro_runtimes()[i]]
            0 <= i < 3 ==> exists|p: &str|
                #![trigger call_ensures(present, (p,), false)]
                p@ == distro_runtimes()[i] && call_ensures(present, (p,), false)) && (forall|i: int|
            0 <= i < packaged@.len() ==> call_ensures(present, (#[trigger] packaged@[i],), false)),
{
    let distro = [
        "/usr/lib64/libonnxruntime.so",
        "/usr/lib/libonnxruntime.so",
        "/usr/lib/x86_64-linux-gnu/libonnxruntime.so",
    ];
    let mut i: usize = 0;
    while i < 3
        invariant
            i <= 3,
            forall|p: &str| call_requires(present, (p,)),
            distro@.len() == 3,
            forall|j: int| 0 <= j < 3 ==> (#[trigger] distro@[j])@ == distro_runtimes()[j],
            forall|j: int| 0 <= j < i ==> call_ensures(present, (#[trigger] distro@[j],), false),
        decreases 3 - i,
    {
        if present(distro[i]) {
            proof {
                assert(distro_runtimes()[i as int] == distro@[i as int]@);
                assert(distro_runtimes().contains(distro@[i as int]@));
            }
            return true;
        }
        i = i + 1;
    }
    let mut k: usize = 0;
    while k < packaged.len()
        invariant
            k <= packaged@.len(),
            forall|p: &str| call_requires(present, (p,)),
            forall|j: int| 0 <= j < k ==> call_ensures(present, (#[trigger] packaged@[j],), false),
        decreases packaged@.len() - k,
    {
        if present(packaged[k]) {
            proof {
                assert(slices(packaged@)[k as int] == packaged@[k as int]@);
            }
            return true;
        }
        k = k + 1;
    }
    proof {
        assert forall|j: int|
            #![trigger distro_runtimes()[j]]
            0 <= j < 3 implies exists|p: &str|
            #![trigger call_ensures(present, (p,), false)]
            p@ == distro_runtimes()[j] && call_ensures(present, (p,), false) by {
            assert(call_ensures(present, (distro@[j],), false));
        }
    }
    false
}

/// A stage of the pipeline: its model file, the variable that overrides where it
/// is, and whether the stage is required.
pub struct Stage {
    pub stage: &'static str,
    pub file: &'static str,
    pub env: &'static str,
    pub required: bool,
}

pub open spec fn stage_views(v: Seq<Stage>) -> Seq<(Seq<char>, Seq<char>, Seq<char>, bool)> {
    v.map_values(|s: Stage| (s.stage@, s.file@, s.env@, s.required))
}

/// The stages in order.
pub open spec fn pipeline() -> Seq<(Seq<char>, Seq<char>, Seq<char>, bool)> {
    seq![
        ("detection"@, "face_detection_yunet_2023mar.onnx"@, "IRLUME_DET_MODEL"@, true),
        ("recognition"@, "glintr100.onnx"@, "IRLUME_MODEL"@, true),
    ]
}

pub fn stages() -> (r: Vec<Stage>)
    ensures
        stage_views(r@) == pipeline(),
{
    let mut v: Vec<Stage> = Vec::new();
    v.push(
        Stage {
            stage: "detection",
            file: "face_detection_yunet_2023mar.onnx",
            env: "IRLUME_DET_MODEL",
            required: true,
        },
    );
    v.push(
        Stage {
            stage: "recognition",
            file: "glintr100.onnx",
            env: "IRLUME_MODEL",
            required: true,
        },
    );
    proof {
        assert(stage_views(v@) =~= pipeline());
    }
    v
}

/// A stage and where its file was found.
pub struct StageStatus {
    pub stage: &'static str,
    pub file: Option<&'static str>,
    pub resolved: Option<ModelCandidate>,
    pub required: bool,
}

/// What a stage's candidate publishes.
pub open spec fn candidate_json(s: StageStatus) -> JsonV {
    match s.file {
        None => JsonV::Obj(no_fields().push(("origin"@, JsonV::Str("built-in"@)))),
        Some(file) => match candidate_view(s.resolved) {
            Some((path, origin, readable)) => JsonV::Obj(
                no_fields().push(("file"@, JsonV::Str(file@))).push(
                    ("observed"@, JsonV::Bool(true)),
                ).push(("readable"@, JsonV::Bool(readable))).push(
                    ("origin"@, JsonV::Str(origin)),
                ).push(("path"@, JsonV::Str(path))),
            ),
            None => JsonV::Obj(
                no_fields().push(("file"@, JsonV::Str(file@))).push(
                    ("observed"@, JsonV::Bool(false)),
                ),
            ),
        },
    }
}

/// What a stage publishes: no stage is open to other models.
pub open spec fn stage_json(stage: Seq<char>, required: bool, candidate: JsonV) -> JsonV {
    JsonV::Obj(
        no_fields().push(("stage"@, JsonV::Str(stage))).push(("open"@, JsonV::Bool(false))).push(
            ("required"@, JsonV::Bool(required)),
        ).push(("candidate"@, candidate)),
    )
}

pub open spec fn stage_jsons(v: Seq<StageStatus>) -> Seq<JsonV> {
    v.map_values(|s: StageStatus| stage_json(s.stage@, s.required, candidate_json(s)))
}

/// What `models list --json` answers: the stages that load a file, then the
/// built-in presentation-attack stage.
pub open spec fn models_data(v: Seq<StageStatus>) -> JsonV {
    JsonV::Obj(
        no_fields().push(
            (
                "stages"@,
                JsonV::Arr(
                    stage_jsons(v).push(
                        stage_json(
                            "pad"@,
                            false,
                            JsonV::Obj(no_fields().push(("origin"@, JsonV::Str("built-in"@)))),
                        ),
                    ),
                ),
            ),
        ),
    )
}

fn candidate_object(s: &StageStatus) -> (r: Json)
    ensures
        r@ == candidate_json(*s),
{
    let mut o = JsonObj::new();
    match s.file {
        None => {
            o.put("origin", Json::text("built-in"));
        },
        Some(file) => {
            o.put("file", Json::text(file));
            match &s.resolved {
                Some(c) => {
                    o.put("observed", Json::flag(true));
                    o.put("readable", Json::flag(c.readable));
                    o.put("origin", Json::text(c.origin));
                    o.put("path", Json::text(c.path.as_str()));
                },
                None => {
                    o.put("observed", Json::flag(false));
                },
            }
        },
    }
    Json::obj(o)
}

fn stage_object(stage: &str, required: bool, candidate: Json) -> (r: Json)
    ensures
        r@ == stage_json(stage@, required, candidate@),
{
    let mut o = JsonObj::new();
    o.put("stage", Json::text(stage));
    o.put("open", Json::flag(false));
    o.put("required", Json::flag(required));
    o.put("candidate", candidate);
    Json::obj(o)
}

/// The data of `models list --json`.
pub fn models_list_data(v: &Vec<StageStatus>) -> (r: Json)
    ensures
        r@ == models_data(v@),
{
    let ghost want = stage_jsons(v@);
    let mut a = JsonArr::new();
    let mut i: usize = 0;
    proof {
        assert(want.take(0) =~= Seq::<JsonV>::empty());
    }
    while i < v.len()
        invariant
            i <= v@.len(),
            want == stage_jsons(v@),
            a@ == want.take(i as int),
        decreases v@.len() - i,
    {
        a.put(stage_object(v[i].stage, v[i].required, candidate_object(&v[i])));
        proof {
            assert(a@ =~= want.take(i + 1));
        }
        i = i + 1;
    }
    proof {
        assert(want.take(want.len() as int) =~= want);
    }
    let mut built_in = JsonObj::new();
    built_in.put("origin", Json::text("built-in"));
    a.put(stage_object("pad", false, Json::obj(built_in)));
    let mut o = JsonObj::new();
    o.put("stages", Json::arr(a));
    Json::obj(o)
}

/// What `models list --json` answers.
pub fn models_list_reply(v: &Vec<StageStatus>, contract: u32) -> (r: Reply)
    ensures
        r@ == answered("models.list"@, models_data(v@), contract),
{
    answer("models.list", models_list_data(v), contract)
}

/// A recognizer is named by its word or its digest: the word stands for the scans
/// from before spaces were tagged, a digest of sixty-four hexadecimal digits for
/// itself in lower case, and nothing else for any.
pub proof fn a_space_is_named_by_its_word_or_digest(hex: Seq<char>, legacy: Seq<char>)
    ensures
        space_named("shipped"@, legacy) == Ok::<Seq<char>, Seq<char>>(legacy),
        space_named("embed:"@ + hex, legacy) is Ok <==> hex.len() == 64 && (forall|i: int|
            0 <= i < 64 ==> '0' <= #[trigger] hex[i] <= '9' || 'a' <= hex[i] <= 'f' || 'A' <= hex[i]
                <= 'F'),
        space_named("embed:"@ + hex, legacy) is Ok ==> space_named("embed:"@ + hex, legacy)->Ok_0
            == "embed:"@ + ascii_lower(hex),
        forall|name: Seq<char>|
            #![trigger space_named(name, legacy)]
            name != "shipped"@ && !("embed:"@.is_prefix_of(name)) ==> space_named(name, legacy)
                is Err,
{
    let e = "embed:"@;
    let name = e + hex;
    reveal_strlit("embed:");
    reveal_strlit("shipped");
    assert(name.subrange(0, e.len() as int) =~= e);
    assert(name.skip(e.len() as int) =~= hex);
    assert(name[0] == 'e' && "shipped"@[0] == 's');
}

/// A search lands on the first place where something is, readable or not, and finds
/// nothing exactly where nothing is.
pub proof fn a_search_lands_on_the_first_file(
    places: Seq<(Seq<char>, Seq<char>)>,
    probes: Seq<Probe>,
)
    requires
        places.len() == probes.len(),
    ensures
        first_present(places, probes) is None <==> forall|i: int|
            0 <= i < probes.len() ==> #[trigger] probes[i] == Probe::NotFound,
        first_present(places, probes) matches Some(c) ==> exists|i: int|
            0 <= i < probes.len() && #[trigger] probes[i] != Probe::NotFound && places[i] == (
                c.0,
                c.1,
            ) && (c.2 <==> probes[i] == Probe::Readable) && forall|j: int|
                0 <= j < i ==> #[trigger] probes[j] == Probe::NotFound,
    decreases places.len(),
{
    if places.len() > 0 {
        let (ps, qs) = (places.skip(1), probes.skip(1));
        a_search_lands_on_the_first_file(ps, qs);
        if probes[0] == Probe::NotFound {
            if first_present(ps, qs) is Some {
                let c = first_present(ps, qs)->0;
                let i = choose|i: int|
                    0 <= i < qs.len() && #[trigger] qs[i] != Probe::NotFound && ps[i] == (c.0, c.1)
                        && (c.2 <==> qs[i] == Probe::Readable) && forall|j: int|
                        0 <= j < i ==> #[trigger] qs[j] == Probe::NotFound;
                assert(probes[i + 1] == qs[i] && places[i + 1] == ps[i]);
                assert forall|j: int| 0 <= j < i + 1 implies #[trigger] probes[j]
                    == Probe::NotFound by {
                    if j > 0 {
                        assert(qs[j - 1] == probes[j]);
                    }
                }
            } else {
                assert forall|i: int| 0 <= i < probes.len() implies #[trigger] probes[i]
                    == Probe::NotFound by {
                    if i > 0 {
                        assert(qs[i - 1] == probes[i]);
                    }
                }
            }
        } else {
            assert(places[0] == (places[0].0, places[0].1));
        }
    }
}

/// The environment's path comes before the packaged places, which stay as they are,
/// and only it is the caller's.
pub proof fn the_environment_comes_before_the_packages(filename: Seq<char>, path: Seq<char>)
    ensures
        search_order(filename, Some(path))[0] == (path, "caller-env"@),
        search_order(filename, Some(path)).skip(1) == search_order(filename, None),
        search_order(filename, None).len() == 3,
        forall|i: int|
            0 <= i < 3 ==> (#[trigger] search_order(filename, None)[i]).1 == "shipped"@
                && filename.is_suffix_of(search_order(filename, None)[i].0),
{
    assert(search_order(filename, Some(path)).skip(1) =~= search_order(filename, None));
    let s = search_order(filename, None);
    assert forall|i: int| 0 <= i < 3 implies filename.is_suffix_of((#[trigger] s[i]).0) by {
        let t = s[i].0;
        assert(t.subrange(t.len() - filename.len(), t.len() as int) =~= filename);
    }
}

/// A stage that loads a file is published as observed exactly where a file was
/// found, and as readable exactly where that file is.
pub proof fn a_stage_is_published_as_it_was_found(s: StageStatus)
    requires
        s.file is Some,
    ensures
        ({
            let o = candidate_json(s)->Obj_0;
            &&& o.contains(("observed"@, JsonV::Bool(true))) <==> s.resolved is Some
            &&& o.contains(("readable"@, JsonV::Bool(true))) <==> s.resolved is Some
                && s.resolved->0.readable
            &&& s.resolved is Some ==> o.contains(("path"@, JsonV::Str(s.resolved->0.path@)))
                && o.contains(("origin"@, JsonV::Str(s.resolved->0.origin@)))
        }),
{
    let o = candidate_json(s)->Obj_0;
    reveal_strlit("file");
    reveal_strlit("observed");
    reveal_strlit("readable");
    assert("file"@.len() == 4);
    assert("observed"@.len() == 8 && "observed"@[0] == 'o');
    assert("readable"@.len() == 8 && "readable"@[0] == 'r');
    assert(o[0].0 == "file"@);
    assert(o[1] == ("observed"@, JsonV::Bool(s.resolved is Some)));
    if s.resolved is Some {
        assert(o[2] == ("readable"@, JsonV::Bool(s.resolved->0.readable)));
        assert(o[3] == ("origin"@, JsonV::Str(s.resolved->0.origin@)));
        assert(o[4] == ("path"@, JsonV::Str(s.resolved->0.path@)));
    }
}

/// Every stage is published in order, each as required exactly where it is and none
/// as open, and the built-in stage behind them.
pub proof fn every_stage_is_published(v: Seq<StageStatus>, i: int)
    ensures
        ({
            let a = (models_data(v)->Obj_0[0].1)->Arr_0;
            &&& models_data(v)->Obj_0[0].0 == "stages"@
            &&& a.len() == v.len() + 1
            &&& 0 <= i < v.len() ==> a[i]->Obj_0.contains(("stage"@, JsonV::Str(v[i].stage@)))
                && a[i]->Obj_0.contains(("required"@, JsonV::Bool(v[i].required)))
                && a[i]->Obj_0.contains(("open"@, JsonV::Bool(false))) && a[i]->Obj_0.contains(
                ("candidate"@, candidate_json(v[i])),
            )
            &&& a[v.len() as int]->Obj_0.contains(("stage"@, JsonV::Str("pad"@)))
        }),
{
    let a = (models_data(v)->Obj_0[0].1)->Arr_0;
    if 0 <= i < v.len() {
        let o = a[i]->Obj_0;
        assert(o[0] == ("stage"@, JsonV::Str(v[i].stage@)));
        assert(o[1] == ("open"@, JsonV::Bool(false)));
        assert(o[2] == ("required"@, JsonV::Bool(v[i].required)));
        assert(o[3] == ("candidate"@, candidate_json(v[i])));
    }
    assert(a[v.len() as int]->Obj_0[0] == ("stage"@, JsonV::Str("pad"@)));
}

/// Detection comes before recognition, and the pipeline requires both.
pub proof fn the_pipeline_requires_both_stages()
    ensures
        pipeline().len() == 2,
        pipeline()[0].0 == "detection"@,
        pipeline()[1].0 == "recognition"@,
        forall|i: int| 0 <= i < pipeline().len() ==> (#[trigger] pipeline()[i]).3,
{
}

/// The built-in stage is required of nobody and open to nobody.
pub proof fn the_built_in_stage_is_not_required(v: Seq<StageStatus>)
    ensures
        ({
            let o = (models_data(v)->Obj_0[0].1)->Arr_0[v.len() as int]->Obj_0;
            &&& o.contains(("required"@, JsonV::Bool(false)))
            &&& o.contains(("open"@, JsonV::Bool(false)))
            &&& o.len() == 4
        }),
{
    let o = (models_data(v)->Obj_0[0].1)->Arr_0[v.len() as int]->Obj_0;
    assert(o[1] == ("open"@, JsonV::Bool(false)));
    assert(o[2] == ("required"@, JsonV::Bool(false)));
}

} // verus!
