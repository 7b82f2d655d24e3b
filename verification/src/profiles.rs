//! Face profiles: what the daemon reports of them, how they are listed, and the
//! requests that change them.

use vstd::prelude::*;

use crate::json::{no_fields, Json, JsonArr, JsonObj, JsonV};
use crate::machine::{relay, relayed, Answered, Reply};
use crate::text::{opt_text, same, texts};

verus! {

/// One profile as the daemon reports it. A daemon that does not count scans per
/// recognizer sends no counts, and one that does not report infrared templates
/// sends none.
pub struct ProfileSummary {
    pub name: String,
    pub scans: Vec<String>,
    /// Scans per recognizer space, each space once.
    pub scans_by_recognizer: Vec<(String, u64)>,
    /// The recognizer that is loaded.
    pub live_recognizer: Option<String>,
    /// The infrared summary, as the daemon wrote it.
    pub ir: Option<String>,
    /// What the infrared summary says, line by line.
    pub ir_lines: Vec<String>,
    /// Whether the profile lacks infrared scans that it could have.
    pub needs_ir_capture: bool,
}

pub struct ProfileV {
    pub name: Seq<char>,
    pub scans: Seq<Seq<char>>,
    pub counts: Seq<(Seq<char>, nat)>,
    pub live: Option<Seq<char>>,
    pub ir: Option<Seq<char>>,
    pub ir_lines: Seq<Seq<char>>,
    pub needs_ir: bool,
}

pub open spec fn count_views(v: Seq<(String, u64)>) -> Seq<(Seq<char>, nat)> {
    v.map_values(|c: (String, u64)| (c.0@, c.1 as nat))
}

impl View for ProfileSummary {
    type V = ProfileV;

    open spec fn view(&self) -> ProfileV {
        ProfileV {
            name: self.name@,
            scans: texts(self.scans@),
            counts: count_views(self.scans_by_recognizer@),
            live: opt_text(self.live_recognizer),
            ir: opt_text(self.ir),
            ir_lines: texts(self.ir_lines@),
            needs_ir: self.needs_ir_capture,
        }
    }
}

pub open spec fn profile_views(v: Seq<ProfileSummary>) -> Seq<ProfileV> {
    v.map_values(|p: ProfileSummary| p@)
}

/// The count under that space, or none.
pub open spec fn count_of(counts: Seq<(Seq<char>, nat)>, space: Seq<char>) -> Option<nat>
    decreases counts.len(),
{
    if counts.len() == 0 {
        None
    } else if counts[0].0 == space {
        Some(counts[0].1)
    } else {
        count_of(counts.skip(1), space)
    }
}

/// How many scans of a profile the loaded recognizer can match; zero where the
/// daemon counted none for it.
pub open spec fn live_count(p: ProfileV) -> nat {
    match p.live {
        Some(space) => match count_of(p.counts, space) {
            Some(n) => n,
            None => 0,
        },
        None => 0,
    }
}

fn find_count(counts: &Vec<(String, u64)>, space: &str) -> (r: Option<u64>)
    ensures
        match r {
            Some(n) => count_of(count_views(counts@), space@) == Some(n as nat),
            None => count_of(count_views(counts@), space@) is None,
        },
{
    let ghost m = count_views(counts@);
    let mut i: usize = 0;
    proof {
        assert(m.skip(0) =~= m);
    }
    while i < counts.len()
        invariant
            i <= counts@.len(),
            m == count_views(counts@),
            count_of(m, space@) == count_of(m.skip(i as int), space@),
        decreases counts@.len() - i,
    {
        proof {
            assert(m.skip(i as int)[0] == (counts@[i as int].0@, counts@[i as int].1 as nat));
            assert(m.skip(i as int).skip(1) =~= m.skip(i + 1));
        }
        if same(counts[i].0.as_str(), space) {
            return Some(counts[i].1);
        }
        i = i + 1;
    }
    None
}

/// How many scans of this profile the loaded recognizer can match.
pub fn live_scans(p: &ProfileSummary) -> (r: u64)
    ensures
        r == live_count(p@),
{
    match &p.live_recognizer {
        Some(space) => {
            match find_count(&p.scans_by_recognizer, space.as_str()) {
                Some(n) => n,
                None => 0,
            }
        },
        None => 0,
    }
}

/// The daemon said which of a profile's scans can match.
pub open spec fn counts_known(p: ProfileV) -> bool {
    p.live is Some && p.counts.len() > 0
}

/// The matching scans of the first profiles together.
pub open spec fn live_total(v: Seq<ProfileV>) -> nat
    decreases v.len(),
{
    if v.len() == 0 {
        0
    } else {
        live_total(v.drop_last()) + live_count(v.last())
    }
}

/// How many enrolled scans the loaded recognizer could match, if the daemon said
/// so of every profile. Not knowing is not zero.
pub open spec fn usable(v: Seq<ProfileV>) -> Option<nat> {
    if forall|i: int| 0 <= i < v.len() ==> counts_known(#[trigger] v[i]) {
        Some(live_total(v))
    } else {
        None
    }
}

/// Sums the scans the loaded recognizer could match, or `None` when the daemon
/// did not say.
pub fn usable_scans(profiles: &[ProfileSummary]) -> (r: Option<u128>)
    ensures
        match r {
            Some(n) => usable(profile_views(profiles@)) == Some(n as nat),
            None => usable(profile_views(profiles@)) is None,
        },
{
    let ghost views = profile_views(profiles@);
    let n: usize = profiles.len();
    let mut total: u128 = 0;
    let mut i: usize = 0;
    proof {
        assert(views.take(0) =~= Seq::<ProfileV>::empty());
    }
    while i < n
        invariant
            n == profiles@.len(),
            i <= n,
            views == profile_views(profiles@),
            forall|j: int| 0 <= j < i ==> counts_known(#[trigger] views[j]),
            total == live_total(views.take(i as int)),
            total <= i * 0xffff_ffff_ffff_ffff,
        decreases n - i,
    {
        proof {
            assert(views[i as int] == profiles@[i as int]@);
            assert(views.take(i + 1).drop_last() =~= views.take(i as int));
            assert(views.take(i + 1).last() == views[i as int]);
            assert(i * 0xffff_ffff_ffff_ffff <= 0xffff_ffff_ffff_fffe * 0xffff_ffff_ffff_ffff)
                by (nonlinear_arith)
                requires
                    i <= 0xffff_ffff_ffff_fffe,
            ;
            assert(i * 0xffff_ffff_ffff_ffff + 0xffff_ffff_ffff_ffff == (i + 1) * 0xffff_ffff_ffff_ffff)
                by (nonlinear_arith);
        }
        if profiles[i].live_recognizer.is_none() || profiles[i].scans_by_recognizer.len() == 0 {
            proof {
                assert(!counts_known(views[i as int]));
            }
            return None;
        }
        total = total + live_scans(&profiles[i]) as u128;
        i = i + 1;
    }
    proof {
        assert(views.take(views.len() as int) =~= views);
    }
    Some(total)
}

/// All scans of the first profiles together.
pub open spec fn scan_total(v: Seq<ProfileV>) -> nat
    decreases v.len(),
{
    if v.len() == 0 {
        0
    } else {
        scan_total(v.drop_last()) + v.last().scans.len()
    }
}

/// Counts all scans.
pub fn count_scans(profiles: &[ProfileSummary]) -> (r: u128)
    ensures
        r == scan_total(profile_views(profiles@)),
{
    let ghost views = profile_views(profiles@);
    let n: usize = profiles.len();
    let mut total: u128 = 0;
    let mut i: usize = 0;
    proof {
        assert(views.take(0) =~= Seq::<ProfileV>::empty());
    }
    while i < n
        invariant
            n == profiles@.len(),
            i <= n,
            views == profile_views(profiles@),
            total == scan_total(views.take(i as int)),
            total <= i * 0xffff_ffff_ffff_ffff,
        decreases n - i,
    {
        let k: usize = profiles[i].scans.len();
        proof {
            assert(views[i as int] == profiles@[i as int]@);
            assert(views.take(i + 1).drop_last() =~= views.take(i as int));
            assert(views.take(i + 1).last() == views[i as int]);
            assert(i * 0xffff_ffff_ffff_ffff <= 0xffff_ffff_ffff_fffe * 0xffff_ffff_ffff_ffff)
                by (nonlinear_arith)
                requires
                    i <= 0xffff_ffff_ffff_fffe,
            ;
            assert(i * 0xffff_ffff_ffff_ffff + 0xffff_ffff_ffff_ffff == (i + 1) * 0xffff_ffff_ffff_ffff)
                by (nonlinear_arith);
        }
        total = total + k as u128;
        i = i + 1;
    }
    proof {
        assert(views.take(views.len() as int) =~= views);
    }
    total
}

/// A recognizer's entry: its space, its scans, and whether it is the one loaded.
pub open spec fn recognizer_json(c: (Seq<char>, nat), live: Option<Seq<char>>) -> JsonV {
    JsonV::Obj(
        no_fields().push(("space"@, JsonV::Str(c.0))).push(("scans"@, JsonV::Num(c.1))).push(
            ("live"@, JsonV::Bool(live == Some(c.0))),
        ),
    )
}

pub open spec fn recognizer_jsons(counts: Seq<(Seq<char>, nat)>, live: Option<Seq<char>>) -> Seq<
    JsonV,
> {
    counts.map_values(|c: (Seq<char>, nat)| recognizer_json(c, live))
}

pub open spec fn scan_json(name: Seq<char>) -> JsonV {
    JsonV::Obj(no_fields().push(("display_name"@, JsonV::Str(name))))
}

pub open spec fn scan_jsons(scans: Seq<Seq<char>>) -> Seq<JsonV> {
    scans.map_values(|s: Seq<char>| scan_json(s))
}

/// What one profile publishes. The recognizer list is absent where the daemon
/// sent no counts beside existing scans: unknown is not an empty list.
pub open spec fn profile_json(p: ProfileV) -> JsonV {
    let head = no_fields().push(("display_name"@, JsonV::Str(p.name))).push(
        ("scans"@, JsonV::Arr(scan_jsons(p.scans))),
    );
    let with_recognizers = if p.counts.len() > 0 || p.scans.len() == 0 {
        head.push(("recognizers"@, JsonV::Arr(recognizer_jsons(p.counts, p.live))))
    } else {
        head
    };
    JsonV::Obj(
        match p.ir {
            Some(ir) => with_recognizers.push(("ir"@, JsonV::Raw(ir))),
            None => with_recognizers,
        },
    )
}

pub open spec fn profile_jsons(v: Seq<ProfileV>) -> Seq<JsonV> {
    v.map_values(|p: ProfileV| profile_json(p))
}

/// What `profiles list --json` answers. The two retired policies are published
/// as off, whatever an old daemon reports.
pub open spec fn profiles_json(v: Seq<ProfileV>) -> JsonV {
    JsonV::Obj(
        no_fields().push(("profiles"@, JsonV::Arr(profile_jsons(v)))).push(
            ("require_eyes_open"@, JsonV::Bool(false)),
        ).push(("require_challenge"@, JsonV::Bool(false))),
    )
}

fn is_live(live: &Option<String>, space: &str) -> (r: bool)
    ensures
        r == (opt_text(*live) == Some(space@)),
{
    match live {
        Some(l) => same(l.as_str(), space),
        None => false,
    }
}

fn recognizer_list(p: &ProfileSummary) -> (r: Json)
    ensures
        r@ == JsonV::Arr(recognizer_jsons(p@.counts, p@.live)),
{
    let ghost want = recognizer_jsons(p@.counts, p@.live);
    let mut a = JsonArr::new();
    let mut i: usize = 0;
    proof {
        assert(want.take(0) =~= Seq::<JsonV>::empty());
    }
    while i < p.scans_by_recognizer.len()
        invariant
            i <= p.scans_by_recognizer@.len(),
            want == recognizer_jsons(p@.counts, p@.live),
            a@ == want.take(i as int),
        decreases p.scans_by_recognizer@.len() - i,
    {
        let space = p.scans_by_recognizer[i].0.as_str();
        let mut o = JsonObj::new();
        o.put("space", Json::text(space));
        o.put("scans", Json::num(p.scans_by_recognizer[i].1));
        o.put("live", Json::flag(is_live(&p.live_recognizer, space)));
        a.put(Json::obj(o));
        proof {
            assert(p@.counts[i as int] == (
                p.scans_by_recognizer@[i as int].0@,
                p.scans_by_recognizer@[i as int].1 as nat,
            ));
            assert(a@ =~= want.take(i + 1));
        }
        i = i + 1;
    }
    proof {
        assert(want.take(want.len() as int) =~= want);
    }
    Json::arr(a)
}

fn scan_list(scans: &Vec<String>) -> (r: Json)
    ensures
        r@ == JsonV::Arr(scan_jsons(texts(scans@))),
{
    let ghost want = scan_jsons(texts(scans@));
    let mut a = JsonArr::new();
    let mut i: usize = 0;
    proof {
        assert(want.take(0) =~= Seq::<JsonV>::empty());
    }
    while i < scans.len()
        invariant
            i <= scans@.len(),
            want == scan_jsons(texts(scans@)),
            a@ == want.take(i as int),
        decreases scans@.len() - i,
    {
        let mut o = JsonObj::new();
        o.put("display_name", Json::text(scans[i].as_str()));
        a.put(Json::obj(o));
        proof {
            assert(a@ =~= want.take(i + 1));
        }
        i = i + 1;
    }
    proof {
        assert(want.take(want.len() as int) =~= want);
    }
    Json::arr(a)
}

fn profile_object(p: &ProfileSummary) -> (r: Json)
    ensures
        r@ == profile_json(p@),
{
    let mut o = JsonObj::new();
    o.put("display_name", Json::text(p.name.as_str()));
    o.put("scans", scan_list(&p.scans));
    if p.scans_by_recognizer.len() > 0 || p.scans.len() == 0 {
        o.put("recognizers", recognizer_list(p));
    }
    match &p.ir {
        Some(ir) => {
            o.put("ir", Json::raw(ir.as_str()));
        },
        None => {},
    }
    Json::obj(o)
}

/// The data of `profiles list --json`.
pub fn profiles_data(profiles: &[ProfileSummary], _require_eyes_open: bool) -> (r: Json)
    ensures
        r@ == profiles_json(profile_views(profiles@)),
{
    let ghost want = profile_jsons(profile_views(profiles@));
    let mut a = JsonArr::new();
    let mut i: usize = 0;
    proof {
        assert(want.take(0) =~= Seq::<JsonV>::empty());
    }
    while i < profiles.len()
        invariant
            i <= profiles@.len(),
            want == profile_jsons(profile_views(profiles@)),
            a@ == want.take(i as int),
        decreases profiles@.len() - i,
    {
        a.put(profile_object(&profiles[i]));
        proof {
            assert(a@ =~= want.take(i + 1));
        }
        i = i + 1;
    }
    proof {
        assert(want.take(want.len() as int) =~= want);
    }
    let mut o = JsonObj::new();
    o.put("profiles", Json::arr(a));
    o.put("require_eyes_open", Json::flag(false));
    o.put("require_challenge", Json::flag(false));
    Json::obj(o)
}

/// Each recognizer space is counted once.
pub open spec fn distinct_spaces(p: ProfileV) -> bool {
    forall|i: int, j: int|
        0 <= i < j < p.counts.len() ==> (#[trigger] p.counts[i]).0 != (#[trigger] p.counts[j]).0
}

/// At most one recognizer of a profile is published as live, and it is the one
/// that is loaded.
pub proof fn only_the_loaded_recognizer_is_live(p: ProfileV, i: int, j: int)
    requires
        distinct_spaces(p),
        0 <= i < p.counts.len(),
        0 <= j < p.counts.len(),
        recognizer_jsons(p.counts, p.live)[i] == recognizer_json(p.counts[i], Some(p.counts[i].0)),
        recognizer_jsons(p.counts, p.live)[j] == recognizer_json(p.counts[j], Some(p.counts[j].0)),
    ensures
        i == j,
        p.live == Some(p.counts[i].0),
{
    lemma_live_flag(p.counts[i], p.live);
    lemma_live_flag(p.counts[j], p.live);
    if i < j {
        assert(p.counts[i].0 != p.counts[j].0);
    } else if j < i {
        assert(p.counts[j].0 != p.counts[i].0);
    }
}

proof fn lemma_live_flag(c: (Seq<char>, nat), live: Option<Seq<char>>)
    requires
        recognizer_json(c, live) == recognizer_json(c, Some(c.0)),
    ensures
        live == Some(c.0),
{
    let head = no_fields().push(("space"@, JsonV::Str(c.0))).push(("scans"@, JsonV::Num(c.1)));
    let a = head.push(("live"@, JsonV::Bool(live == Some(c.0))));
    let b = head.push(("live"@, JsonV::Bool(true)));
    assert(recognizer_json(c, live) == JsonV::Obj(a));
    assert(recognizer_json(c, Some(c.0)) == JsonV::Obj(b));
    assert(a == b);
    assert(a[2] == b[2]);
}

/// What `profiles list` answers for a daemon's answer.
pub open spec fn profiles_answer(a: Answered<Seq<ProfileV>>) -> Answered<JsonV> {
    match a {
        Answered::Payload(v) => Answered::Payload(profiles_json(v)),
        Answered::Refused { code, retryable } => Answered::Refused { code, retryable },
        Answered::Prose => Answered::Prose,
        Answered::Unexpected => Answered::Unexpected,
        Answered::Unavailable => Answered::Unavailable,
    }
}

pub open spec fn profiles_answered(a: Answered<Vec<ProfileSummary>>) -> Answered<Seq<ProfileV>> {
    match a {
        Answered::Payload(v) => Answered::Payload(profile_views(v@)),
        Answered::Refused { code, retryable } => Answered::Refused { code, retryable },
        Answered::Prose => Answered::Prose,
        Answered::Unexpected => Answered::Unexpected,
        Answered::Unavailable => Answered::Unavailable,
    }
}

/// What `profiles list --json` answers once the daemon has answered.
pub fn profiles_list_reply(
    a: Answered<Vec<ProfileSummary>>,
    require_eyes_open: bool,
    contract: u32,
) -> (r: Reply)
    ensures
        r@ == relayed(
            "profiles.list"@,
            profiles_answer(profiles_answered(a)),
            contract,
        ),
{
    let data = match a {
        Answered::Payload(v) => Answered::Payload(profiles_data(v.as_slice(), require_eyes_open)),
        Answered::Refused { code, retryable } => Answered::Refused { code, retryable },
        Answered::Prose => Answered::Prose,
        Answered::Unexpected => Answered::Unexpected,
        Answered::Unavailable => Answered::Unavailable,
    };
    relay("profiles.list", data, contract)
}

/// The count of a recognizer is the first one under its name, and there is one
/// exactly where its name is there.
pub proof fn a_recognizers_count_stands_under_its_name(
    counts: Seq<(Seq<char>, nat)>,
    space: Seq<char>,
)
    ensures
        count_of(counts, space) is Some <==> exists|i: int|
            0 <= i < counts.len() && (#[trigger] counts[i]).0 == space,
        count_of(counts, space) matches Some(n) ==> exists|i: int|
            0 <= i < counts.len() && #[trigger] counts[i] == (space, n) && forall|j: int|
                0 <= j < i ==> (#[trigger] counts[j]).0 != space,
    decreases counts.len(),
{
    if counts.len() > 0 {
        let rest = counts.skip(1);
        a_recognizers_count_stands_under_its_name(rest, space);
        if counts[0].0 == space {
            assert(counts[0] == (space, count_of(counts, space)->0));
        } else {
            if count_of(rest, space) is Some {
                let n = count_of(rest, space)->0;
                let i = choose|i: int|
                    0 <= i < rest.len() && #[trigger] rest[i] == (space, n) && forall|j: int|
                        0 <= j < i ==> (#[trigger] rest[j]).0 != space;
                assert(counts[i + 1] == (space, n));
                assert forall|j: int| 0 <= j < i + 1 implies (#[trigger] counts[j]).0 != space by {
                    if j > 0 {
                        assert(rest[j - 1] == counts[j]);
                    }
                }
            }
            if exists|i: int| 0 <= i < counts.len() && (#[trigger] counts[i]).0 == space {
                let i = choose|i: int| 0 <= i < counts.len() && (#[trigger] counts[i]).0 == space;
                assert(rest[i - 1] == counts[i]);
            }
        }
    }
}

/// The scans that can match are those of the loaded recognizer, and none where no
/// recognizer is loaded or none of its scans is there.
pub proof fn only_the_loaded_recognizers_scans_can_match(p: ProfileV, i: int)
    requires
        distinct_spaces(p),
    ensures
        0 <= i < p.counts.len() && p.live == Some(p.counts[i].0) ==> live_count(p) == p.counts[i].1,
        p.live is None ==> live_count(p) == 0,
        (forall|j: int| 0 <= j < p.counts.len() ==> p.live != Some((#[trigger] p.counts[j]).0))
            ==> live_count(p) == 0,
{
    if p.live is Some {
        a_recognizers_count_stands_under_its_name(p.counts, p.live->0);
        if 0 <= i < p.counts.len() && p.live == Some(p.counts[i].0) {
            assert(p.counts[i].0 == p.live->0);
            let n = count_of(p.counts, p.live->0)->0;
            let k = choose|k: int|
                0 <= k < p.counts.len() && #[trigger] p.counts[k] == (p.live->0, n) && forall|j: int|
                    0 <= j < k ==> (#[trigger] p.counts[j]).0 != p.live->0;
            assert(k == i) by {
                if k < i {
                    assert(p.counts[k].0 != p.counts[i].0);
                } else if i < k {
                    assert(p.counts[i].0 != p.live->0);
                }
            }
        }
    }
}

/// Each profile adds its own scans to the totals, and the number that can match is
/// known exactly where it is known of every profile: not knowing is not zero.
pub proof fn the_totals_add_up_over_profiles(v: Seq<ProfileV>, p: ProfileV)
    ensures
        scan_total(Seq::empty()) == 0,
        scan_total(v.push(p)) == scan_total(v) + p.scans.len(),
        usable(Seq::empty()) == Some(0nat),
        usable(v.push(p)) is Some <==> usable(v) is Some && p.live is Some && p.counts.len() > 0,
        usable(v.push(p)) is Some ==> usable(v.push(p))->0 == usable(v)->0 + live_count(p),
{
    let w = v.push(p);
    assert(w.drop_last() =~= v);
    if usable(w) is Some {
        assert forall|i: int| 0 <= i < v.len() implies counts_known(#[trigger] v[i]) by {
            assert(w[i] == v[i]);
        }
        assert(counts_known(w[v.len() as int]));
    }
    if usable(v) is Some && counts_known(p) {
        assert forall|i: int| 0 <= i < w.len() implies counts_known(#[trigger] w[i]) by {
            if i < v.len() {
                assert(w[i] == v[i]);
            }
        }
    }
}

/// What a program reads of a profile: its name, its scans in order, and its
/// recognizers, each with its count and marked live exactly where it is the one that
/// is loaded. The recognizers are left out exactly where the daemon counted none of
/// the scans that are there.
pub proof fn a_program_reads_what_each_profile_holds(p: ProfileV)
    ensures
        ({
            let o = profile_json(p)->Obj_0;
            let listed = p.counts.len() > 0 || p.scans.len() == 0;
            &&& o.contains(("display_name"@, JsonV::Str(p.name)))
            &&& exists|s: Seq<JsonV>|
                #[trigger] o.contains(("scans"@, JsonV::Arr(s))) && s.len() == p.scans.len()
            &&& listed ==> exists|r: Seq<JsonV>|
                #[trigger] o.contains(("recognizers"@, JsonV::Arr(r))) && r.len() == p.counts.len()
                    && forall|i: int|
                    0 <= i < r.len() ==> (#[trigger] r[i]) is Obj && r[i]->Obj_0.contains(
                        ("space"@, JsonV::Str(p.counts[i].0)),
                    ) && r[i]->Obj_0.contains(("scans"@, JsonV::Num(p.counts[i].1))) && (
                    r[i]->Obj_0.contains(("live"@, JsonV::Bool(true))) <==> p.live == Some(
                        p.counts[i].0,
                    ))
            &&& o.len() == 2 + (if listed {
                1int
            } else {
                0
            }) + (if p.ir is Some {
                1int
            } else {
                0
            })
        }),
{
    let o = profile_json(p)->Obj_0;
    assert(o[0] == ("display_name"@, JsonV::Str(p.name)));
    assert(o[1] == ("scans"@, JsonV::Arr(scan_jsons(p.scans))));
    assert(o.contains(("scans"@, JsonV::Arr(scan_jsons(p.scans)))));
    if p.counts.len() > 0 || p.scans.len() == 0 {
        let r = recognizer_jsons(p.counts, p.live);
        assert(o[2] == ("recognizers"@, JsonV::Arr(r)));
        assert(o.contains(("recognizers"@, JsonV::Arr(r))));
        assert forall|i: int| 0 <= i < r.len() implies (#[trigger] r[i]) is Obj
            && r[i]->Obj_0.contains(("space"@, JsonV::Str(p.counts[i].0)))
            && r[i]->Obj_0.contains(("scans"@, JsonV::Num(p.counts[i].1))) && (
        r[i]->Obj_0.contains(("live"@, JsonV::Bool(true))) <==> p.live == Some(p.counts[i].0)) by {
            let e = r[i]->Obj_0;
            assert(e[0] == ("space"@, JsonV::Str(p.counts[i].0)));
            assert(e[1] == ("scans"@, JsonV::Num(p.counts[i].1)));
            assert(e[2] == ("live"@, JsonV::Bool(p.live == Some(p.counts[i].0))));
        }
    }
}

/// Every profile is published, in order, and the two retired policies as off.
pub proof fn every_profile_is_published(v: Seq<ProfileV>)
    ensures
        ({
            let o = profiles_json(v)->Obj_0;
            &&& o.contains(("profiles"@, JsonV::Arr(profile_jsons(v))))
            &&& profile_jsons(v).len() == v.len()
            &&& forall|i: int|
                0 <= i < v.len() ==> #[trigger] profile_jsons(v)[i] == profile_json(v[i])
            &&& o.contains(("require_eyes_open"@, JsonV::Bool(false)))
            &&& o.contains(("require_challenge"@, JsonV::Bool(false)))
            &&& !o.contains(("require_eyes_open"@, JsonV::Bool(true)))
            &&& !o.contains(("require_challenge"@, JsonV::Bool(true)))
        }),
{
    let o = profiles_json(v)->Obj_0;
    assert(o[0].0 == "profiles"@);
    assert(o[1] == ("require_eyes_open"@, JsonV::Bool(false)));
    assert(o[2] == ("require_challenge"@, JsonV::Bool(false)));
}

/// No recognizer is counted twice exactly where no two counts stand under one name.
pub proof fn a_recognizer_is_counted_once(p: ProfileV)
    ensures
        p.counts.len() <= 1 ==> distinct_spaces(p),
        distinct_spaces(p) ==> forall|i: int, j: int|
            0 <= i < p.counts.len() && 0 <= j < p.counts.len() && i != j ==> (
            #[trigger] p.counts[i]).0 != (#[trigger] p.counts[j]).0,
{
    if distinct_spaces(p) {
        assert forall|i: int, j: int|
            0 <= i < p.counts.len() && 0 <= j < p.counts.len() && i != j implies (
        #[trigger] p.counts[i]).0 != (#[trigger] p.counts[j]).0 by {
            if i < j {
                assert(p.counts[i].0 != p.counts[j].0);
            } else {
                assert(p.counts[j].0 != p.counts[i].0);
            }
        }
    }
}

} // verus!
