//! `status --json` and `login status --json`: readiness as values.

use vstd::prelude::*;

use crate::contract::{negotiated, stripped, without_contract, Contract};
use crate::daemon::DaemonReach;
use crate::flags::{status_args_valid, valid_status_args};
use crate::json::{no_fields, text_values, Json, JsonArr, JsonObj, JsonV};
use crate::machine::{answer, answered, open_contract, opened_if, refuse_usage, Reply, ReplyV};
use crate::profiles::{count_scans, profile_views, scan_total, ProfileSummary};
use crate::text::{lower, lowercase, texts};

verus! {

/// Opens `status --json`: the contract, and the arguments without it.
pub fn status(args: &[String]) -> (r: Result<(u32, Vec<String>), Reply>)
    ensures
        match r {
            Ok((v, rest)) => negotiated(texts(args@)) == Contract::Agreed(v) && status_args_valid(
                stripped(texts(args@)),
            ) && texts(rest@) == stripped(texts(args@)),
            Err(reply) => opened_if(
                "status"@,
                texts(args@),
                status_args_valid(stripped(texts(args@))),
            ) == Err::<u32, ReplyV>(reply@),
        },
{
    match open_contract("status", args) {
        Err(reply) => Err(reply),
        Ok(v) => {
            let rest = without_contract(args);
            if valid_status_args(rest.as_slice()) {
                Ok((v, rest))
            } else {
                Err(refuse_usage("status", v))
            }
        },
    }
}

/// What the daemon said of its cameras: its tier, and for each node that it names
/// whether it is there.
pub struct HealthFacts {
    pub secure: bool,
    pub rgb: Option<bool>,
    pub ir: Option<bool>,
}

/// What the daemon said of the sealed credential without testing it.
pub enum MetadataAnswer {
    Info { armed: bool, policy: Option<String> },
    /// An older daemon, and what it then said of the plain bit.
    Refused { bit: Option<bool> },
    Other,
}

/// What was observed, each `None` where nothing was.
pub struct ReadinessFacts {
    pub reach: DaemonReach,
    pub health: Option<HealthFacts>,
    /// Whether the configured color and infrared nodes are there.
    pub configured: Option<(bool, bool)>,
    pub keyring: MetadataAnswer,
    /// Whether templates are encrypted, a passphrase is set, the key is there.
    pub recovery: Option<(bool, bool, bool)>,
    pub method: String,
    pub face_disabled: bool,
    pub enrollment: Option<Vec<ProfileSummary>>,
    pub fingerprint: Option<bool>,
}

pub open spec fn reach_word(reach: DaemonReach) -> Seq<char> {
    match reach {
        DaemonReach::Running => "running"@,
        DaemonReach::Starting => "starting"@,
        DaemonReach::AccessDenied => "access-denied"@,
        DaemonReach::Down => "unreachable"@,
    }
}

pub open spec fn unknown_json() -> JsonV {
    JsonV::Obj(no_fields().push(("known"@, JsonV::Bool(false))))
}

/// What is known of the cameras. Configured nodes are shown and stay unobserved.
pub open spec fn camera_json(
    running: bool,
    health: Option<HealthFacts>,
    configured: Option<(bool, bool)>,
) -> JsonV {
    match health {
        Some(h) if running => JsonV::Obj(
            no_fields().push(("known"@, JsonV::Bool(true))).push(
                ("rgb"@, JsonV::Bool(h.rgb == Some(true))),
            ).push(("ir"@, JsonV::Bool(h.secure && h.ir == Some(true)))),
        ),
        _ => JsonV::Obj(
            no_fields().push(("known"@, JsonV::Bool(false))).push(
                ("rgb"@, JsonV::Bool(configured matches Some((true, _)))),
            ).push(("ir"@, JsonV::Bool(configured matches Some((_, true))))),
        ),
    }
}

pub open spec fn armed_json(armed: bool, policy: JsonV) -> JsonV {
    JsonV::Obj(
        no_fields().push(("known"@, JsonV::Bool(true))).push(("armed"@, JsonV::Bool(armed))).push(
            ("policy"@, policy),
        ),
    )
}

pub open spec fn keyring_json(running: bool, a: MetadataAnswer) -> JsonV {
    match a {
        MetadataAnswer::Info { armed, policy } if running => armed_json(
            armed,
            match policy {
                Some(p) => JsonV::Str(p@),
                None => JsonV::Null,
            },
        ),
        MetadataAnswer::Refused { bit: Some(armed) } if running => armed_json(armed, JsonV::Null),
        _ => unknown_json(),
    }
}

pub open spec fn templates_json(running: bool, r: Option<(bool, bool, bool)>) -> JsonV {
    match r {
        Some((encrypted, _, _)) if running => JsonV::Str(
            if encrypted {
                "encrypted"@
            } else {
                "plaintext"@
            },
        ),
        _ => JsonV::Str("unknown"@),
    }
}

pub open spec fn recovery_json(running: bool, r: Option<(bool, bool, bool)>) -> JsonV {
    match r {
        Some((_, set, key)) if running => JsonV::Obj(
            no_fields().push(("known"@, JsonV::Bool(true))).push(
                ("passphrase_set"@, JsonV::Bool(set)),
            ).push(("key_present"@, JsonV::Bool(key))),
        ),
        _ => unknown_json(),
    }
}

/// What is known of the enrollment. Unknown is not zero.
pub open spec fn enrollment_json(running: bool, e: Option<Vec<ProfileSummary>>) -> JsonV {
    match e {
        Some(v) if running => JsonV::Obj(
            no_fields().push(("known"@, JsonV::Bool(true))).push(
                ("profiles"@, JsonV::Num(profile_views(v@).len())),
            ).push(("scans"@, JsonV::Num(scan_total(profile_views(v@))))),
        ),
        _ => unknown_json(),
    }
}

/// The readiness summary. Only a running daemon is asked for observations.
pub open spec fn readiness_json(f: ReadinessFacts) -> JsonV {
    let running = f.reach == DaemonReach::Running;
    JsonV::Obj(
        no_fields().push(("daemon"@, JsonV::Str(reach_word(f.reach)))).push(
            ("auth_method"@, JsonV::Str(lower(f.method@))),
        ).push(("face_disabled"@, JsonV::Bool(f.face_disabled))).push(
            ("enrollment"@, enrollment_json(running, f.enrollment)),
        ).push(("templates"@, templates_json(running, f.recovery))).push(
            ("keyring"@, keyring_json(running, f.keyring)),
        ).push(("recovery"@, recovery_json(running, f.recovery))).push(
            ("camera"@, camera_json(running, f.health, f.configured)),
        ).push(("fingerprint"@, JsonV::Bool(f.fingerprint == Some(true)))).push(
            ("fingerprint_known"@, JsonV::Bool(f.fingerprint is Some)),
        ),
    )
}

fn unknown() -> (r: Json)
    ensures
        r@ == unknown_json(),
{
    let mut o = JsonObj::new();
    o.put("known", Json::flag(false));
    Json::obj(o)
}

fn camera_value(running: bool, health: &Option<HealthFacts>, configured: Option<(bool, bool)>) -> (r:
    Json)
    ensures
        r@ == camera_json(running, *health, configured),
{
    let mut o = JsonObj::new();
    match health {
        Some(h) => {
            if running {
                let rgb = match h.rgb {
                    Some(b) => b,
                    None => false,
                };
                let ir = match h.ir {
                    Some(b) => b,
                    None => false,
                };
                o.put("known", Json::flag(true));
                o.put("rgb", Json::flag(rgb));
                o.put("ir", Json::flag(h.secure && ir));
                return Json::obj(o);
            }
        },
        None => {},
    }
    let (rgb, ir) = match configured {
        Some((rgb, ir)) => (rgb, ir),
        None => (false, false),
    };
    o.put("known", Json::flag(false));
    o.put("rgb", Json::flag(rgb));
    o.put("ir", Json::flag(ir));
    Json::obj(o)
}

fn armed_value(armed: bool, policy: Json) -> (r: Json)
    ensures
        r@ == armed_json(armed, policy@),
{
    let mut o = JsonObj::new();
    o.put("known", Json::flag(true));
    o.put("armed", Json::flag(armed));
    o.put("policy", policy);
    Json::obj(o)
}

fn keyring_value(running: bool, a: &MetadataAnswer) -> (r: Json)
    ensures
        r@ == keyring_json(running, *a),
{
    if !running {
        return unknown();
    }
    match a {
        MetadataAnswer::Info { armed, policy } => armed_value(*armed, Json::text_or_null(policy)),
        MetadataAnswer::Refused { bit } => {
            match bit {
                Some(armed) => armed_value(*armed, Json::null()),
                None => unknown(),
            }
        },
        MetadataAnswer::Other => unknown(),
    }
}

fn templates_value(running: bool, r: Option<(bool, bool, bool)>) -> (j: Json)
    ensures
        j@ == templates_json(running, r),
{
    match r {
        Some((encrypted, _, _)) => {
            if running {
                return Json::text(
                    if encrypted {
                        "encrypted"
                    } else {
                        "plaintext"
                    },
                );
            }
        },
        None => {},
    }
    Json::text("unknown")
}

fn recovery_value(running: bool, r: Option<(bool, bool, bool)>) -> (j: Json)
    ensures
        j@ == recovery_json(running, r),
{
    match r {
        Some((_, set, key)) => {
            if running {
                let mut o = JsonObj::new();
                o.put("known", Json::flag(true));
                o.put("passphrase_set", Json::flag(set));
                o.put("key_present", Json::flag(key));
                return Json::obj(o);
            }
        },
        None => {},
    }
    unknown()
}

fn enrollment_value(running: bool, e: &Option<Vec<ProfileSummary>>) -> (j: Json)
    ensures
        j@ == enrollment_json(running, *e),
{
    match e {
        Some(v) => {
            if running {
                let mut o = JsonObj::new();
                o.put("known", Json::flag(true));
                o.put("profiles", Json::num(v.len() as u64));
                o.put("scans", Json::wide(count_scans(v.as_slice())));
                return Json::obj(o);
            }
        },
        None => {},
    }
    unknown()
}

/// Answers `status --json`.
pub fn status_reply(f: &ReadinessFacts, contract: u32) -> (r: Reply)
    ensures
        r@ == answered("status"@, readiness_json(*f), contract),
{
    let running = f.reach == DaemonReach::Running;
    let word = match f.reach {
        DaemonReach::Running => "running",
        DaemonReach::Starting => "starting",
        DaemonReach::AccessDenied => "access-denied",
        DaemonReach::Down => "unreachable",
    };
    let method = lowercase(f.method.as_str());
    let (fingerprint, known) = match f.fingerprint {
        Some(b) => (b, true),
        None => (false, false),
    };
    let mut o = JsonObj::new();
    o.put("daemon", Json::text(word));
    o.put("auth_method", Json::text(method.as_str()));
    o.put("face_disabled", Json::flag(f.face_disabled));
    o.put("enrollment", enrollment_value(running, &f.enrollment));
    o.put("templates", templates_value(running, f.recovery));
    o.put("keyring", keyring_value(running, &f.keyring));
    o.put("recovery", recovery_value(running, f.recovery));
    o.put("camera", camera_value(running, &f.health, f.configured));
    o.put("fingerprint", Json::flag(fingerprint));
    o.put("fingerprint_known", Json::flag(known));
    answer("status", Json::obj(o), contract)
}

/// A daemon that is not running establishes nothing: every observation that it
/// would have made is unknown, never zero or false.
pub proof fn an_unready_daemon_establishes_nothing(f: ReadinessFacts)
    requires
        f.reach != DaemonReach::Running,
    ensures
        enrollment_json(false, f.enrollment) == unknown_json(),
        keyring_json(false, f.keyring) == unknown_json(),
        recovery_json(false, f.recovery) == unknown_json(),
        templates_json(false, f.recovery) == JsonV::Str("unknown"@),
        camera_json(false, f.health, f.configured) == camera_json(false, None, f.configured),
        readiness_json(f) == readiness_json(
            ReadinessFacts {
                health: None,
                keyring: MetadataAnswer::Other,
                recovery: None,
                enrollment: None,
                ..f
            },
        ),
{
}

// ---- login status ----

/// The active login manager.
pub struct ManagerFact {
    pub name: Option<String>,
    pub recognized: bool,
    pub services: Vec<String>,
}

/// One login surface.
pub struct SurfaceFact {
    pub id: String,
    pub role: String,
    pub present: bool,
    pub wired: bool,
    pub mode: Option<String>,
}

/// The login manager. One that nobody could name is unknown, not missing.
pub open spec fn manager_json(m: ManagerFact) -> JsonV {
    match m.name {
        Some(name) => JsonV::Obj(
            no_fields().push(("known"@, JsonV::Bool(true))).push(("name"@, JsonV::Str(name@))).push(
                ("recognized"@, JsonV::Bool(m.recognized)),
            ).push(("services"@, JsonV::Arr(text_values(texts(m.services@))))),
        ),
        None => unknown_json(),
    }
}

/// A surface. One that is not wired has no mode at all.
pub open spec fn surface_json(s: SurfaceFact) -> JsonV {
    let fields = no_fields().push(("id"@, JsonV::Str(s.id@))).push(
        ("role"@, JsonV::Str(s.role@)),
    ).push(("present"@, JsonV::Bool(s.present))).push(("wired"@, JsonV::Bool(s.wired)));
    JsonV::Obj(
        match s.mode {
            Some(mode) => fields.push(("mode"@, JsonV::Str(mode@))),
            None => fields,
        },
    )
}

pub open spec fn surface_jsons(v: Seq<SurfaceFact>) -> Seq<JsonV> {
    v.map_values(|s: SurfaceFact| surface_json(s))
}

pub open spec fn module_word(loaded: Option<bool>) -> Seq<char> {
    match loaded {
        Some(true) => "loaded"@,
        Some(false) => "not-loaded"@,
        None => "unknown"@,
    }
}

pub open spec fn login_status_json(
    m: ManagerFact,
    surfaces: Seq<SurfaceFact>,
    module: Option<bool>,
) -> JsonV {
    JsonV::Obj(
        no_fields().push(("login_manager"@, manager_json(m))).push(
            ("surfaces"@, JsonV::Arr(surface_jsons(surfaces))),
        ).push(("selinux_module"@, JsonV::Str(module_word(module)))),
    )
}

fn manager_value(m: &ManagerFact) -> (r: Json)
    ensures
        r@ == manager_json(*m),
{
    match &m.name {
        Some(name) => {
            let mut o = JsonObj::new();
            o.put("known", Json::flag(true));
            o.put("name", Json::text(name.as_str()));
            o.put("recognized", Json::flag(m.recognized));
            o.put("services", Json::texts(&m.services));
            Json::obj(o)
        },
        None => unknown(),
    }
}

fn surface_value(s: &SurfaceFact) -> (r: Json)
    ensures
        r@ == surface_json(*s),
{
    let mut o = JsonObj::new();
    o.put("id", Json::text(s.id.as_str()));
    o.put("role", Json::text(s.role.as_str()));
    o.put("present", Json::flag(s.present));
    o.put("wired", Json::flag(s.wired));
    match &s.mode {
        Some(mode) => {
            o.put("mode", Json::text(mode.as_str()));
        },
        None => {},
    }
    Json::obj(o)
}

/// Answers `login status --json`.
pub fn login_status_reply(
    m: &ManagerFact,
    surfaces: &Vec<SurfaceFact>,
    module: Option<bool>,
    contract: u32,
) -> (r: Reply)
    ensures
        r@ == answered("login.status"@, login_status_json(*m, surfaces@, module), contract),
{
    let mut a = JsonArr::new();
    let ghost want = surface_jsons(surfaces@);
    let mut i: usize = 0;
    proof {
        assert(want.take(0) =~= Seq::<JsonV>::empty());
    }
    while i < surfaces.len()
        invariant
            i <= surfaces@.len(),
            want == surface_jsons(surfaces@),
            a@ == want.take(i as int),
        decreases surfaces@.len() - i,
    {
        a.put(surface_value(&surfaces[i]));
        proof {
            assert(want[i as int] == surface_json(surfaces@[i as int]));
            assert(a@ =~= want.take(i + 1));
        }
        i = i + 1;
    }
    proof {
        assert(want.take(want.len() as int) =~= want);
    }
    let word = match module {
        Some(true) => "loaded",
        Some(false) => "not-loaded",
        None => "unknown",
    };
    let mut o = JsonObj::new();
    o.put("login_manager", manager_value(m));
    o.put("surfaces", Json::arr(a));
    o.put("selinux_module", Json::text(word));
    answer("login.status", Json::obj(o), contract)
}

/// What is said of the enrollment: it is known exactly where a running daemon said
/// it, and then the profiles and their scans are counted.
pub proof fn enrollment_is_counted_only_where_it_was_told(
    running: bool,
    e: Option<Vec<ProfileSummary>>,
)
    ensures
        ({
            let o = enrollment_json(running, e)->Obj_0;
            &&& o.contains(("known"@, JsonV::Bool(true))) <==> running && e is Some
            &&& running && e is Some ==> o.contains(("profiles"@, JsonV::Num(e->0@.len())))
                && o.contains(("scans"@, JsonV::Num(scan_total(profile_views(e->0@)))))
            &&& !(running && e is Some) ==> o.len() == 1
        }),
{
    let o = enrollment_json(running, e)->Obj_0;
    reveal_strlit("known");
    reveal_strlit("profiles");
    reveal_strlit("scans");
    assert("known"@.len() == 5 && "known"@[0] == 'k' && "profiles"@.len() == 8);
    assert("scans"@.len() == 5 && "scans"@[0] == 's');
    assert(o[0].0 == "known"@);
    if running && e is Some {
        assert(o[0] == ("known"@, JsonV::Bool(true)));
        assert(o[1] == ("profiles"@, JsonV::Num(e->0@.len())));
        assert(o[2] == ("scans"@, JsonV::Num(scan_total(profile_views(e->0@)))));
    }
}

/// A credential is published as armed exactly where a running daemon said that it
/// is, and as not armed exactly where it said that it is not.
pub proof fn armed_is_published_only_where_it_was_told(running: bool, a: MetadataAnswer)
    ensures
        ({
            let o = keyring_json(running, a)->Obj_0;
            let told = match a {
                MetadataAnswer::Info { armed, .. } => Some(armed),
                MetadataAnswer::Refused { bit } => bit,
                MetadataAnswer::Other => None,
            };
            &&& o.contains(("armed"@, JsonV::Bool(true))) <==> running && told == Some(true)
            &&& o.contains(("armed"@, JsonV::Bool(false))) <==> running && told == Some(false)
            &&& o.contains(("known"@, JsonV::Bool(true))) <==> running && told is Some
        }),
{
    let o = keyring_json(running, a)->Obj_0;
    reveal_strlit("known");
    reveal_strlit("armed");
    reveal_strlit("policy");
    assert("known"@.len() == 5 && "known"@[0] == 'k');
    assert("armed"@.len() == 5 && "armed"@[0] == 'a');
    assert("policy"@.len() == 6);
    assert(o[0].0 == "known"@);
    if o.len() > 1 {
        assert(o[1].0 == "armed"@);
        assert(o[2].0 == "policy"@);
    }
}

/// Templates are called encrypted exactly where a running daemon said that they
/// are, plaintext exactly where it said that they are not, and else unknown.
pub proof fn templates_are_called_what_they_are(running: bool, r: Option<(bool, bool, bool)>)
    ensures
        templates_json(running, r) == JsonV::Str("encrypted"@) <==> running && r is Some && (r->0).0,
        templates_json(running, r) == JsonV::Str("plaintext"@) <==> running && r is Some && !(r->0).0,
        templates_json(running, r) == JsonV::Str("unknown"@) <==> !(running && r is Some),
{
    reveal_strlit("encrypted");
    reveal_strlit("plaintext");
    reveal_strlit("unknown");
    assert("encrypted"@.len() == 9 && "encrypted"@[0] == 'e');
    assert("plaintext"@.len() == 9 && "plaintext"@[0] == 'p');
    assert("unknown"@.len() == 7);
}

/// A recovery passphrase is published as set, and its key as there, exactly where a
/// running daemon said so.
pub proof fn recovery_is_published_as_it_was_told(running: bool, r: Option<(bool, bool, bool)>)
    ensures
        ({
            let o = recovery_json(running, r)->Obj_0;
            &&& o.contains(("known"@, JsonV::Bool(true))) <==> running && r is Some
            &&& o.contains(("passphrase_set"@, JsonV::Bool(true))) <==> running && r is Some && (
            r->0).1
            &&& o.contains(("key_present"@, JsonV::Bool(true))) <==> running && r is Some && (r->0).2
        }),
{
    let o = recovery_json(running, r)->Obj_0;
    reveal_strlit("known");
    reveal_strlit("passphrase_set");
    reveal_strlit("key_present");
    assert("known"@.len() == 5 && "passphrase_set"@.len() == 14 && "key_present"@.len() == 11);
    assert(o[0].0 == "known"@);
    if o.len() > 1 {
        assert(o[1] == ("passphrase_set"@, JsonV::Bool((r->0).1)));
        assert(o[2] == ("key_present"@, JsonV::Bool((r->0).2)));
    }
}

/// Cameras are known exactly where a running daemon said which are there; infrared
/// is then only what the secure tier holds. Without that the configured nodes are
/// shown as they are found.
pub proof fn cameras_are_published_as_they_were_seen(
    running: bool,
    health: Option<HealthFacts>,
    configured: Option<(bool, bool)>,
)
    ensures
        ({
            let o = camera_json(running, health, configured)->Obj_0;
            let seen = running && health is Some;
            &&& o.contains(("known"@, JsonV::Bool(true))) <==> seen
            &&& o.contains(("rgb"@, JsonV::Bool(true))) <==> (if seen {
                health->0.rgb == Some(true)
            } else {
                configured is Some && (configured->0).0
            })
            &&& o.contains(("ir"@, JsonV::Bool(true))) <==> (if seen {
                health->0.secure && health->0.ir == Some(true)
            } else {
                configured is Some && (configured->0).1
            })
        }),
{
    let o = camera_json(running, health, configured)->Obj_0;
    reveal_strlit("known");
    reveal_strlit("rgb");
    reveal_strlit("ir");
    assert("known"@.len() == 5 && "rgb"@.len() == 3 && "ir"@.len() == 2);
    assert(o[0].0 == "known"@);
    assert(o[1].0 == "rgb"@);
    assert(o[2].0 == "ir"@);
}

/// A fingerprint is published exactly where one was found, and as known exactly
/// where anybody looked; the summary names the daemon's state by its own word.
pub proof fn the_summary_says_what_was_observed(f: ReadinessFacts)
    ensures
        ({
            let o = readiness_json(f)->Obj_0;
            let running = f.reach == DaemonReach::Running;
            &&& o.contains(("daemon"@, JsonV::Str(reach_word(f.reach))))
            &&& o.contains(("face_disabled"@, JsonV::Bool(f.face_disabled)))
            &&& o.contains(("fingerprint"@, JsonV::Bool(f.fingerprint == Some(true))))
            &&& o.contains(("fingerprint_known"@, JsonV::Bool(f.fingerprint is Some)))
            &&& o.contains(("enrollment"@, enrollment_json(running, f.enrollment)))
            &&& o.contains(("templates"@, templates_json(running, f.recovery)))
            &&& o.contains(("keyring"@, keyring_json(running, f.keyring)))
            &&& o.contains(("recovery"@, recovery_json(running, f.recovery)))
            &&& o.contains(("camera"@, camera_json(running, f.health, f.configured)))
            &&& o.len() == 10
        }),
{
    let o = readiness_json(f)->Obj_0;
    let running = f.reach == DaemonReach::Running;
    assert(o[0] == ("daemon"@, JsonV::Str(reach_word(f.reach))));
    assert(o[2] == ("face_disabled"@, JsonV::Bool(f.face_disabled)));
    assert(o[3] == ("enrollment"@, enrollment_json(running, f.enrollment)));
    assert(o[4] == ("templates"@, templates_json(running, f.recovery)));
    assert(o[5] == ("keyring"@, keyring_json(running, f.keyring)));
    assert(o[6] == ("recovery"@, recovery_json(running, f.recovery)));
    assert(o[7] == ("camera"@, camera_json(running, f.health, f.configured)));
    assert(o[8] == ("fingerprint"@, JsonV::Bool(f.fingerprint == Some(true))));
    assert(o[9] == ("fingerprint_known"@, JsonV::Bool(f.fingerprint is Some)));
}

/// Each state of the daemon has a word of its own.
pub proof fn each_state_of_the_daemon_has_its_word(a: DaemonReach, b: DaemonReach)
    ensures
        reach_word(a) == reach_word(b) ==> a == b,
        reach_word(a) == "running"@ <==> a == DaemonReach::Running,
        reach_word(a) == "unreachable"@ <==> a == DaemonReach::Down,
        reach_word(a) == "access-denied"@ <==> a == DaemonReach::AccessDenied,
{
    reveal_strlit("running");
    reveal_strlit("starting");
    reveal_strlit("access-denied");
    reveal_strlit("unreachable");
    assert("running"@.len() == 7 && "starting"@.len() == 8 && "access-denied"@.len() == 13
        && "unreachable"@.len() == 11);
}

/// A login surface is published as it is, with a mode exactly where it has one; the
/// policy module's three states have words of their own; a manager is known exactly
/// where somebody could name it.
pub proof fn the_login_path_is_published_as_it_is(s: SurfaceFact, m: ManagerFact, loaded: Option<bool>)
    ensures
        surface_json(s)->Obj_0.contains(("id"@, JsonV::Str(s.id@))),
        surface_json(s)->Obj_0.contains(("present"@, JsonV::Bool(s.present))),
        surface_json(s)->Obj_0.contains(("wired"@, JsonV::Bool(s.wired))),
        surface_json(s)->Obj_0.len() == 4 <==> s.mode is None,
        s.mode is Some ==> surface_json(s)->Obj_0.contains(("mode"@, JsonV::Str(s.mode->0@))),
        module_word(loaded) == "loaded"@ <==> loaded == Some(true),
        module_word(loaded) == "not-loaded"@ <==> loaded == Some(false),
        module_word(loaded) == "unknown"@ <==> loaded is None,
        m.name is None ==> manager_json(m)->Obj_0.len() == 1,
        m.name is None ==> manager_json(m)->Obj_0.contains(("known"@, JsonV::Bool(false))),
        m.name is Some ==> manager_json(m)->Obj_0.contains(("known"@, JsonV::Bool(true))),
        m.name is Some ==> manager_json(m)->Obj_0.contains(("name"@, JsonV::Str(m.name->0@))),
        m.name is Some ==> manager_json(m)->Obj_0.contains(
            ("recognized"@, JsonV::Bool(m.recognized)),
        ),
{
    reveal_strlit("loaded");
    reveal_strlit("not-loaded");
    reveal_strlit("unknown");
    assert("loaded"@.len() == 6 && "not-loaded"@.len() == 10 && "unknown"@.len() == 7);
    let o = surface_json(s)->Obj_0;
    assert(o[0] == ("id"@, JsonV::Str(s.id@)));
    assert(o[2] == ("present"@, JsonV::Bool(s.present)));
    assert(o[3] == ("wired"@, JsonV::Bool(s.wired)));
    if s.mode is Some {
        assert(o[4] == ("mode"@, JsonV::Str(s.mode->0@)));
    }
    let p = manager_json(m)->Obj_0;
    assert(p[0] == ("known"@, JsonV::Bool(m.name is Some)));
    if m.name is Some {
        assert(p[1] == ("name"@, JsonV::Str(m.name->0@)));
        assert(p[2] == ("recognized"@, JsonV::Bool(m.recognized)));
    }
}

/// Every login surface is published, in order.
pub proof fn every_surface_is_published(
    m: ManagerFact,
    surfaces: Seq<SurfaceFact>,
    module: Option<bool>,
)
    ensures
        ({
            let o = login_status_json(m, surfaces, module)->Obj_0;
            &&& o.contains(("surfaces"@, JsonV::Arr(surface_jsons(surfaces))))
            &&& o.contains(("selinux_module"@, JsonV::Str(module_word(module))))
            &&& o.contains(("login_manager"@, manager_json(m)))
            &&& surface_jsons(surfaces).len() == surfaces.len()
            &&& forall|i: int|
                0 <= i < surfaces.len() ==> #[trigger] surface_jsons(surfaces)[i] == surface_json(
                    surfaces[i],
                )
        }),
{
    let o = login_status_json(m, surfaces, module)->Obj_0;
    assert(o[0] == ("login_manager"@, manager_json(m)));
    assert(o[1] == ("surfaces"@, JsonV::Arr(surface_jsons(surfaces))));
    assert(o[2] == ("selinux_module"@, JsonV::Str(module_word(module))));
}

} // verus!
