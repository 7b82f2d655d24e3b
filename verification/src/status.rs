//! `status`, `detect` and `identify`: what a person is told about an install.

use vstd::prelude::*;

use crate::console::{fail_with, failed, Console, Outcome, OutcomeV, SayV};
use crate::daemon::DaemonReach;
use crate::doctor::RecoveryFacts;
use crate::profiles::{
    count_scans, profile_views, scan_total, usable, usable_scans, ProfileSummary, ProfileV,
};
use crate::quote::{shell_single_quote, single_quoted};
use crate::text::{
    cat2, cat3, cat4, cat5, cat6, cat7, dec, dec_wide, decimal, ends_with, owned, texts,
};

verus! {

/// Present, and in order.
pub const OK: &'static str = "\u{2705}";

/// Worth a look.
pub const WARN: &'static str = "\u{26a0}";

/// Missing or wrong.
pub const NO: &'static str = "\u{2717}";

/// What the daemon said of the enrollment.
pub enum EnrollmentAnswer {
    Profiles { profiles: Vec<ProfileSummary>, require_eyes_open: bool },
    Refused(String),
    Unreachable,
}

/// What the daemon said of the sealed credential.
pub enum KeyringAnswer {
    Info { armed: bool, policy: Option<String>, drifted: Option<bool> },
    /// An older daemon says only whether it is armed.
    Bit(bool),
    Unknown,
}

/// Everything that `status` shows.
pub struct StatusFacts {
    pub user: String,
    pub sensors: String,
    pub reach: DaemonReach,
    pub socket: String,
    pub method: String,
    pub face_disabled: bool,
    pub enrollment: EnrollmentAnswer,
    pub keyring: KeyringAnswer,
    pub recovery: Option<RecoveryFacts>,
    pub preference_source: String,
    pub hands_free: String,
    pub biopolicy: Option<bool>,
    pub forbid_external: Option<bool>,
    pub rgb: String,
    pub ir: String,
    pub reader: Option<String>,
    pub reader_available: bool,
}

pub open spec fn daemon_text(reach: DaemonReach, socket: Seq<char>) -> Seq<char> {
    match reach {
        DaemonReach::Running => "running "@ + OK@,
        DaemonReach::Starting => "starting (loading models) "@ + WARN@ + "; retry shortly"@,
        DaemonReach::AccessDenied => "running, but this user may not connect "@ + WARN@
            + " (EACCES on "@ + socket + ")"@,
        DaemonReach::Down => "NOT reachable "@ + NO@ + " (systemctl status irlumed)"@,
    }
}

pub open spec fn scan_line(p: ProfileV) -> Seq<char> {
    "                  - "@ + p.name + " ("@ + decimal(p.scans.len()) + " scan(s))"@
}

pub open spec fn scan_says(profiles: Seq<ProfileV>) -> Seq<SayV> {
    profiles.map_values(|p: ProfileV| SayV::Out(scan_line(p)))
}

pub open spec fn no_match_line() -> Seq<char> {
    "                  "@ + WARN@
        + " none of those scans belong to the recognizer that is loaded now, so no face can match: re-enable the model it was enrolled with, or run `irlume enroll` again"@
}

/// What is said of the enrollment. Scans that no loaded recognizer can match are
/// called out, where the daemon said which can.
pub open spec fn enrollment_says(a: EnrollmentAnswer, user: Seq<char>) -> Seq<SayV> {
    match a {
        EnrollmentAnswer::Profiles { profiles, require_eyes_open } => {
            let views = profile_views(profiles@);
            let head = if views.len() == 0 {
                Seq::<SayV>::empty().push(
                    SayV::Out("  enrollment    : none "@ + WARN@ + " (run `irlume enroll`)"@),
                )
            } else {
                let listed = Seq::<SayV>::empty().push(
                    SayV::Out(
                        "  enrollment    : "@ + decimal(views.len()) + " profile(s), "@ + decimal(
                            scan_total(views),
                        ) + " scan(s) "@ + (if require_eyes_open {
                            WARN@
                        } else {
                            OK@
                        }),
                    ),
                ) + scan_says(views);
                if usable(views) == Some(0nat) && scan_total(views) > 0 {
                    listed.push(SayV::Out(no_match_line()))
                } else {
                    listed
                }
            };
            if require_eyes_open {
                head.push(
                    SayV::Out(
                        "                  legacy policy blocks authentication; run: sudo irlume profiles eyes-open off --user "@
                            + single_quoted(user),
                    ),
                )
            } else {
                head
            }
        },
        EnrollmentAnswer::Refused(e) => Seq::<SayV>::empty().push(
            SayV::Out("  enrollment    : error: "@ + e@),
        ),
        EnrollmentAnswer::Unreachable => Seq::<SayV>::empty().push(
            SayV::Out("  enrollment    : unknown (daemon unreachable)"@),
        ),
    }
}

pub open spec fn keyring_text(a: KeyringAnswer) -> Seq<char> {
    match a {
        KeyringAnswer::Info { armed, policy, drifted } => if armed {
            "  keyring unlock: armed "@ + OK@ + (match policy {
                Some(p) => ", "@ + p@,
                None => ""@,
            }) + (if drifted == Some(true) {
                " PCR DRIFT "@ + WARN@ + " (re-run `irlume keyring arm`)"@
            } else {
                ""@
            })
        } else {
            "  keyring unlock: not armed (run `irlume keyring arm`)"@
        },
        KeyringAnswer::Bit(armed) => if armed {
            "  keyring unlock: "@ + ("armed "@ + OK@)
        } else {
            "  keyring unlock: not armed (run `irlume keyring arm`)"@
        },
        KeyringAnswer::Unknown => "  keyring unlock: unknown"@,
    }
}

/// What is said of templates and recovery, where the daemon answered. A lost key
/// is not plaintext.
pub open spec fn recovery_says(f: Option<RecoveryFacts>) -> Seq<SayV> {
    match f {
        None => Seq::empty(),
        Some(f) => Seq::<SayV>::empty().push(
            SayV::Out(
                "  templates     : "@ + (if f.encrypted && f.key_present {
                    "encrypted at rest "@ + OK@
                } else if f.encrypted {
                    "encrypted, but the TEMPLATE KEY IS MISSING "@ + WARN@ + " ("@ + f.advice@
                        + ")"@
                } else {
                    "plaintext "@ + WARN@ + " (run `irlume recovery setup`)"@
                }),
            ),
        ).push(
            SayV::Out(
                "  recovery pass : "@ + (if f.recovery_set {
                    "set "@ + OK@
                } else {
                    "not set "@ + WARN@
                }),
            ),
        ),
    }
}

/// A setting that only root may read.
pub open spec fn setting_text(o: Option<bool>, on: Seq<char>, off: Seq<char>) -> Seq<char> {
    match o {
        Some(true) => on,
        Some(false) => off,
        None => "unknown: root-only setting, re-run with sudo"@,
    }
}

pub open spec fn reader_line(name: Option<String>, available: bool) -> Seq<char> {
    match name {
        Some(n) => n@ + " "@ + OK@,
        None => if available {
            "present "@ + OK@
        } else {
            "none"@
        },
    }
}

pub open spec fn status_says(f: StatusFacts) -> Seq<SayV> {
    let head = Seq::<SayV>::empty().push(SayV::Out("irlume status for '"@ + f.user@ + "'"@)).push(
        SayV::Out("  face sensors  : "@ + f.sensors@),
    ).push(SayV::Out("  daemon        : "@ + daemon_text(f.reach, f.socket@))).push(
        SayV::Out(
            "  auth method   : "@ + f.method@ + (if f.face_disabled {
                " (face disabled)"@
            } else {
                ""@
            }),
        ),
    );
    let keyed = (head + enrollment_says(f.enrollment, f.user@)).push(
        SayV::Out(keyring_text(f.keyring)),
    );
    (keyed + recovery_says(f.recovery)).push(
        SayV::Out("  preferences   : "@ + f.preference_source@),
    ).push(SayV::Out("  hands-free    : "@ + f.hands_free@)).push(
        SayV::Out(
            "  biopolicy     : "@ + setting_text(
                f.biopolicy,
                "ENFORCING "@ + OK@ + " (operation-class gate)"@,
                "off (default)"@,
            ),
        ),
    ).push(
        SayV::Out(
            "  external cams : "@ + setting_text(
                f.forbid_external,
                "FORBIDDEN "@ + OK@ + " (internal cameras only)"@,
                "allowed (default)"@,
            ),
        ),
    ).push(SayV::Out("  cameras       : rgb="@ + f.rgb@ + " ir="@ + f.ir@)).push(
        SayV::Out("  fingerprint   : "@ + reader_line(f.reader, f.reader_available)),
    )
}

fn show_daemon(reach: DaemonReach, socket: &str) -> (r: String)
    ensures
        r@ == daemon_text(reach, socket@),
{
    match reach {
        DaemonReach::Running => cat2("running ", OK),
        DaemonReach::Starting => cat3("starting (loading models) ", WARN, "; retry shortly"),
        DaemonReach::AccessDenied => cat5(
            "running, but this user may not connect ",
            WARN,
            " (EACCES on ",
            socket,
            ")",
        ),
        DaemonReach::Down => cat3("NOT reachable ", NO, " (systemctl status irlumed)"),
    }
}

fn say_scans(c: &mut Console, profiles: &Vec<ProfileSummary>)
    ensures
        final(c)@ == old(c)@ + scan_says(profile_views(profiles@)),
{
    let ghost before = c@;
    let ghost want = scan_says(profile_views(profiles@));
    let mut i: usize = 0;
    proof {
        assert(before + want.take(0) =~= before);
    }
    while i < profiles.len()
        invariant
            i <= profiles@.len(),
            want == scan_says(profile_views(profiles@)),
            c@ == before + want.take(i as int),
        decreases profiles@.len() - i,
    {
        let count = dec(profiles[i].scans.len() as u64);
        c.out(
            cat5(
                "                  - ",
                profiles[i].name.as_str(),
                " (",
                count.as_str(),
                " scan(s))",
            ),
        );
        proof {
            assert(profiles@[i as int]@.scans.len() == profiles@[i as int].scans@.len());
            assert(want[i as int] == SayV::Out(scan_line(profiles@[i as int]@)));
            assert(c@ =~= before + want.take(i + 1));
        }
        i = i + 1;
    }
    proof {
        assert(want.take(want.len() as int) =~= want);
    }
}

fn say_enrollment(c: &mut Console, a: &EnrollmentAnswer, user: &str)
    ensures
        final(c)@ == old(c)@ + enrollment_says(*a, user@),
{
    let ghost before = c@;
    match a {
        EnrollmentAnswer::Profiles { profiles, require_eyes_open } => {
            let ghost views = profile_views(profiles@);
            if profiles.len() == 0 {
                c.out(cat3("  enrollment    : none ", WARN, " (run `irlume enroll`)"));
            } else {
                let scans = count_scans(profiles.as_slice());
                let count = dec(profiles.len() as u64);
                let total = dec_wide(scans);
                c.out(
                    cat6(
                        "  enrollment    : ",
                        count.as_str(),
                        " profile(s), ",
                        total.as_str(),
                        " scan(s) ",
                        if *require_eyes_open {
                            WARN
                        } else {
                            OK
                        },
                    ),
                );
                say_scans(c, profiles);
                match usable_scans(profiles.as_slice()) {
                    Some(n) => {
                        if n == 0 && scans > 0 {
                            c.out(
                                cat3(
                                    "                  ",
                                    WARN,
                                    " none of those scans belong to the recognizer that is loaded now, so no face can match: re-enable the model it was enrolled with, or run `irlume enroll` again",
                                ),
                            );
                        }
                    },
                    None => {},
                }
            }
            if *require_eyes_open {
                let quoted = shell_single_quote(user);
                c.out(
                    cat2(
                        "                  legacy policy blocks authentication; run: sudo irlume profiles eyes-open off --user ",
                        quoted.as_str(),
                    ),
                );
            }
        },
        EnrollmentAnswer::Refused(e) => {
            c.out(cat2("  enrollment    : error: ", e.as_str()));
        },
        EnrollmentAnswer::Unreachable => {
            c.out(owned("  enrollment    : unknown (daemon unreachable)"));
        },
    }
    proof {
        assert(c@ =~= before + enrollment_says(*a, user@));
    }
}

fn show_keyring(a: &KeyringAnswer) -> (r: String)
    ensures
        r@ == keyring_text(*a),
{
    match a {
        KeyringAnswer::Info { armed, policy, drifted } => {
            if *armed {
                let tier = match policy {
                    Some(p) => cat2(", ", p.as_str()),
                    None => owned(""),
                };
                let drift = match drifted {
                    Some(true) => cat3(" PCR DRIFT ", WARN, " (re-run `irlume keyring arm`)"),
                    _ => owned(""),
                };
                cat4("  keyring unlock: armed ", OK, tier.as_str(), drift.as_str())
            } else {
                owned("  keyring unlock: not armed (run `irlume keyring arm`)")
            }
        },
        KeyringAnswer::Bit(armed) => {
            if *armed {
                let armed = cat2("armed ", OK);
                cat2("  keyring unlock: ", armed.as_str())
            } else {
                owned("  keyring unlock: not armed (run `irlume keyring arm`)")
            }
        },
        KeyringAnswer::Unknown => owned("  keyring unlock: unknown"),
    }
}

fn say_recovery(c: &mut Console, f: &Option<RecoveryFacts>)
    ensures
        final(c)@ == old(c)@ + recovery_says(*f),
{
    let ghost before = c@;
    match f {
        None => {},
        Some(f) => {
            let rest = if f.encrypted && f.key_present {
                cat2("encrypted at rest ", OK)
            } else if f.encrypted {
                cat5(
                    "encrypted, but the TEMPLATE KEY IS MISSING ",
                    WARN,
                    " (",
                    f.advice.as_str(),
                    ")",
                )
            } else {
                cat3("plaintext ", WARN, " (run `irlume recovery setup`)")
            };
            c.out(cat2("  templates     : ", rest.as_str()));
            let set = if f.recovery_set {
                cat2("set ", OK)
            } else {
                cat2("not set ", WARN)
            };
            c.out(cat2("  recovery pass : ", set.as_str()));
        },
    }
    proof {
        assert(c@ =~= before + recovery_says(*f));
    }
}

fn show_setting(o: Option<bool>, on: &str, off: &str) -> (r: String)
    ensures
        r@ == setting_text(o, on@, off@),
{
    match o {
        Some(true) => owned(on),
        Some(false) => owned(off),
        None => owned("unknown: root-only setting, re-run with sudo"),
    }
}

/// What `status` prints.
pub fn status(f: &StatusFacts) -> (r: Outcome)
    ensures
        r@ == (OutcomeV { says: status_says(*f), exit: 0 }),
{
    let mut c = Console::new();
    c.out(cat3("irlume status for '", f.user.as_str(), "'"));
    c.out(cat2("  face sensors  : ", f.sensors.as_str()));
    let daemon = show_daemon(f.reach, f.socket.as_str());
    c.out(cat2("  daemon        : ", daemon.as_str()));
    c.out(
        cat3(
            "  auth method   : ",
            f.method.as_str(),
            if f.face_disabled {
                " (face disabled)"
            } else {
                ""
            },
        ),
    );
    say_enrollment(&mut c, &f.enrollment, f.user.as_str());
    c.out(show_keyring(&f.keyring));
    say_recovery(&mut c, &f.recovery);
    c.out(cat2("  preferences   : ", f.preference_source.as_str()));
    c.out(cat2("  hands-free    : ", f.hands_free.as_str()));
    let on = cat3("ENFORCING ", OK, " (operation-class gate)");
    let biopolicy = show_setting(f.biopolicy, on.as_str(), "off (default)");
    c.out(cat2("  biopolicy     : ", biopolicy.as_str()));
    let forbidden = cat3("FORBIDDEN ", OK, " (internal cameras only)");
    let external = show_setting(f.forbid_external, forbidden.as_str(), "allowed (default)");
    c.out(cat2("  external cams : ", external.as_str()));
    c.out(cat4("  cameras       : rgb=", f.rgb.as_str(), " ir=", f.ir.as_str()));
    let reader = match &f.reader {
        Some(n) => cat3(n.as_str(), " ", OK),
        None => {
            if f.reader_available {
                cat2("present ", OK)
            } else {
                owned("none")
            }
        },
    };
    c.out(cat2("  fingerprint   : ", reader.as_str()));
    Outcome { console: c, exit: 0 }
}

// ---- detect ----

/// A file in a directory of the search path.
pub open spec fn in_dir(dir: Seq<char>, file: Seq<char>) -> Seq<char> {
    if dir.len() == 0 || "/"@.is_suffix_of(dir) {
        dir + file
    } else {
        dir + "/"@ + file
    }
}

/// Where the daemon's program is looked for: the fixed places, then the search
/// path.
pub open spec fn daemon_places(dirs: Seq<Seq<char>>) -> Seq<Seq<char>> {
    Seq::<Seq<char>>::empty().push("/usr/local/bin/irlumed"@).push("/usr/bin/irlumed"@).push(
        "/run/current-system/sw/bin/irlumed"@,
    ) + dirs.map_values(|d: Seq<char>| in_dir(d, "irlumed"@))
}

fn places_of(dirs: &[String]) -> (r: Vec<String>)
    ensures
        texts(r@) == daemon_places(texts(dirs@)),
{
    let mut v: Vec<String> = Vec::new();
    v.push(owned("/usr/local/bin/irlumed"));
    v.push(owned("/usr/bin/irlumed"));
    v.push(owned("/run/current-system/sw/bin/irlumed"));
    let ghost head = texts(v@);
    let ghost want = texts(dirs@).map_values(|d: Seq<char>| in_dir(d, "irlumed"@));
    proof {
        assert(head =~= Seq::<Seq<char>>::empty().push("/usr/local/bin/irlumed"@).push(
            "/usr/bin/irlumed"@,
        ).push("/run/current-system/sw/bin/irlumed"@));
        assert(head + want.take(0) =~= head);
    }
    let mut i: usize = 0;
    while i < dirs.len()
        invariant
            i <= dirs@.len(),
            want == texts(dirs@).map_values(|d: Seq<char>| in_dir(d, "irlumed"@)),
            texts(v@) == head + want.take(i as int),
        decreases dirs@.len() - i,
    {
        let dir = dirs[i].as_str();
        let ghost before = texts(v@);
        if dir.is_empty() || ends_with(dir, "/") {
            v.push(cat2(dir, "irlumed"));
        } else {
            v.push(cat3(dir, "/", "irlumed"));
        }
        proof {
            assert(want[i as int] == in_dir(dirs@[i as int]@, "irlumed"@));
            assert(texts(v@) =~= before.push(want[i as int]));
            assert(texts(v@) =~= head + want.take(i + 1));
        }
        i = i + 1;
    }
    proof {
        assert(want.take(want.len() as int) =~= want);
    }
    v
}

/// Asking `present` about that place may be answered so.
pub open spec fn answers<F: Fn(&str) -> bool>(present: F, place: Seq<char>, answer: bool) -> bool {
    exists|p: &str|
        #![trigger call_ensures(present, (p,), answer)]
        p@ == place && call_ensures(present, (p,), answer)
}

/// Whether the daemon's program is on this machine: in a fixed place or on the
/// search path.
pub fn irlumed_binary_in<F: Fn(&str) -> bool>(dirs: &[String], present: F) -> (r: bool)
    requires
        forall|p: &str| call_requires(present, (p,)),
    ensures
        r ==> exists|i: int|
            0 <= i < daemon_places(texts(dirs@)).len() && answers(
                present,
                #[trigger] daemon_places(texts(dirs@))[i],
                true,
            ),
        !r ==> forall|i: int|
            0 <= i < daemon_places(texts(dirs@)).len() ==> answers(
                present,
                #[trigger] daemon_places(texts(dirs@))[i],
                false,
            ),
{
    let places = places_of(dirs);
    let ghost all = daemon_places(texts(dirs@));
    let mut i: usize = 0;
    while i < places.len()
        invariant
            i <= places@.len(),
            all == daemon_places(texts(dirs@)),
            texts(places@) == all,
            forall|p: &str| call_requires(present, (p,)),
            forall|j: int| 0 <= j < i ==> answers(present, #[trigger] all[j], false),
        decreases places@.len() - i,
    {
        let place = places[i].as_str();
        proof {
            assert(texts(places@)[i as int] == places@[i as int]@);
            assert(all[i as int] == place@);
        }
        if present(place) {
            proof {
                assert(call_ensures(present, (place,), true));
                assert(answers(present, all[i as int], true));
            }
            return true;
        }
        proof {
            assert(call_ensures(present, (place,), false));
            assert(answers(present, all[i as int], false));
        }
        i = i + 1;
    }
    proof {
        assert(texts(places@).len() == places@.len());
    }
    false
}

/// How `detect` ends. A daemon that answers is the best sign of an install;
/// where the socket is refused, readiness is not claimed either way.
pub open spec fn detection(
    reach: DaemonReach,
    binary: bool,
    socket: Seq<char>,
    enrolled: bool,
) -> (Seq<char>, u8) {
    if reach == DaemonReach::Down && !binary {
        ("absent: irlumed is not installed"@, 20)
    } else if reach == DaemonReach::AccessDenied {
        (
            "partial: cannot determine readiness; not permitted to connect to "@ + socket
                + " (EACCES). The daemon may be running fine."@,
            10,
        )
    } else if reach == DaemonReach::Running && enrolled {
        ("ready: daemon running and a face is enrolled"@, 0)
    } else {
        (
            "partial: installed but not ready ("@ + (if reach == DaemonReach::Running {
                "daemon up"@
            } else {
                "daemon down"@
            }) + (if enrolled {
                ", enrolled"@
            } else {
                ", not enrolled"@
            }) + ")"@,
            10,
        )
    }
}

/// What `detect` prints, with its exit code.
pub fn detect(reach: DaemonReach, binary: bool, socket: &str, enrolled: bool) -> (r: Outcome)
    ensures
        r@ == (OutcomeV {
            says: Seq::<SayV>::empty().push(
                SayV::Out(detection(reach, binary, socket@, enrolled).0),
            ),
            exit: detection(reach, binary, socket@, enrolled).1,
        }),
{
    let mut c = Console::new();
    let up = reach == DaemonReach::Running;
    if reach == DaemonReach::Down && !binary {
        c.out(owned("absent: irlumed is not installed"));
        return Outcome { console: c, exit: 20 };
    }
    if reach == DaemonReach::AccessDenied {
        c.out(
            cat3(
                "partial: cannot determine readiness; not permitted to connect to ",
                socket,
                " (EACCES). The daemon may be running fine.",
            ),
        );
        return Outcome { console: c, exit: 10 };
    }
    if up && enrolled {
        c.out(owned("ready: daemon running and a face is enrolled"));
        return Outcome { console: c, exit: 0 };
    }
    c.out(
        cat4(
            "partial: installed but not ready (",
            if up {
                "daemon up"
            } else {
                "daemon down"
            },
            if enrolled {
                ", enrolled"
            } else {
                ", not enrolled"
            },
            ")",
        ),
    );
    Outcome { console: c, exit: 10 }
}

/// Readiness is claimed only of a daemon that answers with a face enrolled, and
/// absence only where neither the daemon nor its program is there.
pub proof fn detection_never_guesses(
    reach: DaemonReach,
    binary: bool,
    socket: Seq<char>,
    enrolled: bool,
)
    ensures
        detection(reach, binary, socket, enrolled).1 == 0 <==> reach == DaemonReach::Running
            && enrolled,
        detection(reach, binary, socket, enrolled).1 == 20 <==> reach == DaemonReach::Down
            && !binary,
        detection(reach, binary, socket, enrolled).1 == 0 || detection(
            reach,
            binary,
            socket,
            enrolled,
        ).1 == 10 || detection(reach, binary, socket, enrolled).1 == 20,
{
}

// ---- identify ----

/// The daemon's answer to `identify`. The score is text, with three decimals.
pub enum IdentifyAnswer {
    Match { user: String, profile: Option<String>, score: String },
    NoMatch { live: bool, reason: String },
    Refused(String),
    Unexpected(String),
    Failed(String),
}

pub open spec fn identified(a: IdentifyAnswer) -> OutcomeV {
    match a {
        IdentifyAnswer::Match { user, profile, score } => OutcomeV {
            says: Seq::<SayV>::empty().push(
                SayV::Out(
                    "[identify] "@ + user@ + " (profile '"@ + (match profile {
                        Some(p) => p@,
                        None => ""@,
                    }) + "', score "@ + score@ + ") "@ + OK@,
                ),
            ),
            exit: 0,
        },
        IdentifyAnswer::NoMatch { live, reason } => OutcomeV {
            says: Seq::<SayV>::empty().push(
                SayV::Out(
                    "[identify] no match: "@ + (if live {
                        "live face, not enrolled"@
                    } else {
                        "no live face"@
                    }) + " ("@ + reason@ + ")"@,
                ),
            ),
            exit: 1,
        },
        IdentifyAnswer::Refused(e) => failed("[identify] error: "@ + e@, 1),
        IdentifyAnswer::Unexpected(other) => failed(
            "[identify] unexpected response: "@ + other@,
            1,
        ),
        IdentifyAnswer::Failed(e) => failed("[identify] "@ + e@, 1),
    }
}

/// What `identify` prints.
pub fn identify(a: &IdentifyAnswer) -> (r: Outcome)
    ensures
        r@ == identified(*a),
{
    match a {
        IdentifyAnswer::Match { user, profile, score } => {
            let mut c = Console::new();
            let profile = match profile {
                Some(p) => p.as_str(),
                None => "",
            };
            let tail = OK;
            let head = cat7(
                "[identify] ",
                user.as_str(),
                " (profile '",
                profile,
                "', score ",
                score.as_str(),
                ") ",
            );
            c.out(cat2(head.as_str(), tail));
            Outcome { console: c, exit: 0 }
        },
        IdentifyAnswer::NoMatch { live, reason } => {
            let mut c = Console::new();
            c.out(
                cat5(
                    "[identify] no match: ",
                    if *live {
                        "live face, not enrolled"
                    } else {
                        "no live face"
                    },
                    " (",
                    reason.as_str(),
                    ")",
                ),
            );
            Outcome { console: c, exit: 1 }
        },
        IdentifyAnswer::Refused(e) => fail_with(cat2("[identify] error: ", e.as_str()), 1),
        IdentifyAnswer::Unexpected(other) => fail_with(
            cat2("[identify] unexpected response: ", other.as_str()),
            1,
        ),
        IdentifyAnswer::Failed(e) => fail_with(cat2("[identify] ", e.as_str()), 1),
    }
}

/// An exit code of `detect` says one thing: twenty exactly where neither the daemon
/// nor its program is there, zero exactly where the daemon answers and a face is
/// enrolled, and ten otherwise.
pub proof fn each_detection_code_says_one_thing(
    reach: DaemonReach,
    binary: bool,
    socket: Seq<char>,
    enrolled: bool,
)
    ensures
        detection(reach, binary, socket, enrolled).1 == 20 <==> reach == DaemonReach::Down
            && !binary,
        detection(reach, binary, socket, enrolled).1 == 0 <==> reach == DaemonReach::Running
            && enrolled,
        detection(reach, binary, socket, enrolled).1 == 10 <==> !(reach == DaemonReach::Down
            && !binary) && !(reach == DaemonReach::Running && enrolled),
{
}

/// Somebody is identified exactly where the daemon names a match.
pub proof fn only_a_match_identifies(a: IdentifyAnswer)
    ensures
        identified(a).exit == 0 <==> a is Match,
        identified(a).exit == 1 <==> !(a is Match),
        identified(a).says.len() == 1,
        identified(a).says[0] is Out <==> a is Match || a is NoMatch,
{
}

/// The status says that no scan can match exactly where the daemon said of every
/// profile which can, and none can though there are scans.
pub proof fn unmatched_scans_are_called_out(
    profiles: Vec<ProfileSummary>,
    eyes: bool,
    user: Seq<char>,
)
    ensures
        ({
            let v = profile_views(profiles@);
            let says = enrollment_says(
                EnrollmentAnswer::Profiles { profiles, require_eyes_open: eyes },
                user,
            );
            let unmatched = v.len() > 0 && usable(v) == Some(0nat) && scan_total(v) > 0;
            &&& v.len() > 0 ==> says.len() == 1 + v.len() + (if unmatched {
                1int
            } else {
                0
            }) + (if eyes {
                1int
            } else {
                0
            })
            &&& unmatched ==> says[1 + v.len() as int] == SayV::Out(no_match_line())
            &&& v.len() == 0 ==> says.len() == 1 + (if eyes {
                1int
            } else {
                0
            })
            &&& forall|i: int|
                0 <= i < v.len() ==> says[1 + i] == SayV::Out(
                    "                  - "@ + (#[trigger] v[i]).name + " ("@ + decimal(
                        v[i].scans.len(),
                    ) + " scan(s))"@,
                )
        }),
{
}

/// A setting is shown as it is, and as unknown where nobody could read it.
pub proof fn a_setting_is_shown_as_it_is(o: Option<bool>, on: Seq<char>, off: Seq<char>)
    ensures
        o == Some(true) ==> setting_text(o, on, off) == on,
        o == Some(false) ==> setting_text(o, on, off) == off,
        o is None ==> setting_text(o, on, off) == "unknown: root-only setting, re-run with sudo"@,
{
}

/// The keyring is shown as armed exactly where it is said to be, with its drift
/// exactly where drift was found.
pub proof fn the_keyring_is_shown_as_it_is_said_to_be(
    policy: Option<String>,
    drifted: Option<bool>,
)
    ensures
        keyring_text(KeyringAnswer::Info { armed: false, policy, drifted })
            == "  keyring unlock: not armed (run `irlume keyring arm`)"@,
        keyring_text(KeyringAnswer::Bit(false))
            == "  keyring unlock: not armed (run `irlume keyring arm`)"@,
        keyring_text(KeyringAnswer::Unknown) == "  keyring unlock: unknown"@,
        "  keyring unlock: armed "@.is_prefix_of(
            keyring_text(KeyringAnswer::Info { armed: true, policy, drifted }),
        ),
        keyring_text(KeyringAnswer::Info { armed: true, policy: None, drifted: Some(true) }).len()
            > keyring_text(KeyringAnswer::Info { armed: true, policy: None, drifted: None }).len(),
        drifted != Some(true) ==> keyring_text(KeyringAnswer::Info { armed: true, policy, drifted })
            == keyring_text(KeyringAnswer::Info { armed: true, policy, drifted: None }),
{
    let p = "  keyring unlock: armed "@;
    let t = keyring_text(KeyringAnswer::Info { armed: true, policy, drifted });
    assert(t.subrange(0, p.len() as int) =~= p);
    reveal_strlit(" PCR DRIFT ");
    reveal_strlit("");
    assert(" PCR DRIFT "@.len() == 11 && ""@.len() == 0);
}

/// The daemon's state is told apart: running exactly where it answers, reachable by
/// others exactly where only this user may not connect, and else starting or down.
pub proof fn each_state_of_the_daemon_is_told_apart(reach: DaemonReach, socket: Seq<char>)
    ensures
        "running "@.is_prefix_of(daemon_text(reach, socket)) <==> reach == DaemonReach::Running,
        "running, but"@.is_prefix_of(daemon_text(reach, socket)) <==> reach
            == DaemonReach::AccessDenied,
        "starting "@.is_prefix_of(daemon_text(reach, socket)) <==> reach == DaemonReach::Starting,
        "NOT reachable "@.is_prefix_of(daemon_text(reach, socket)) <==> reach == DaemonReach::Down,
{
    let t = daemon_text(reach, socket);
    let r = "running "@;
    let d = "running, but"@;
    let s = "starting "@;
    let n = "NOT reachable "@;
    reveal_strlit("running ");
    reveal_strlit("running, but");
    reveal_strlit("starting ");
    reveal_strlit("NOT reachable ");
    reveal_strlit("starting (loading models) ");
    reveal_strlit("running, but this user may not connect ");
    assert(r[7] == ' ' && d[7] == ',' && s[0] == 's' && n[0] == 'N' && r[0] == 'r' && d[0] == 'r');
    let q = match reach {
        DaemonReach::Running => r,
        DaemonReach::AccessDenied => d,
        DaemonReach::Starting => s,
        DaemonReach::Down => n,
    };
    assert(t.subrange(0, q.len() as int) =~= q);
    if q == r {
        crate::text::a_text_opens_one_way(d, q, t, 7);
        crate::text::a_text_opens_one_way(s, q, t, 0);
        crate::text::a_text_opens_one_way(n, q, t, 0);
    } else if q == d {
        crate::text::a_text_opens_one_way(r, q, t, 7);
        crate::text::a_text_opens_one_way(s, q, t, 0);
        crate::text::a_text_opens_one_way(n, q, t, 0);
    } else if q == s {
        crate::text::a_text_opens_one_way(r, q, t, 0);
        crate::text::a_text_opens_one_way(d, q, t, 0);
        crate::text::a_text_opens_one_way(n, q, t, 0);
    } else {
        crate::text::a_text_opens_one_way(r, q, t, 0);
        crate::text::a_text_opens_one_way(d, q, t, 0);
        crate::text::a_text_opens_one_way(s, q, t, 0);
    }
}

/// Templates are called encrypted at rest exactly where they are and their key is
/// there, a missing key is named exactly where it is missing, and a recovery
/// passphrase is called set exactly where it is.
pub proof fn a_missing_key_is_never_called_encrypted_at_rest(f: RecoveryFacts)
    ensures
        ({
            let s = recovery_says(Some(f));
            &&& s.len() == 2
            &&& s[0] is Out && s[1] is Out
            &&& "  templates     : encrypted at rest "@.is_prefix_of(s[0]->Out_0) <==> f.encrypted
                && f.key_present
            &&& "  templates     : encrypted, but"@.is_prefix_of(s[0]->Out_0) <==> f.encrypted
                && !f.key_present
            &&& "  templates     : plaintext "@.is_prefix_of(s[0]->Out_0) <==> !f.encrypted
            &&& "  recovery pass : set "@.is_prefix_of(s[1]->Out_0) <==> f.recovery_set
            &&& "  recovery pass : not set "@.is_prefix_of(s[1]->Out_0) <==> !f.recovery_set
        }),
        recovery_says(None).len() == 0,
{
    let t = recovery_says(Some(f))[0]->Out_0;
    let p = recovery_says(Some(f))[1]->Out_0;
    let a = "  templates     : encrypted at rest "@;
    let b = "  templates     : encrypted, but"@;
    let c = "  templates     : plaintext "@;
    let y = "  recovery pass : set "@;
    let n = "  recovery pass : not set "@;
    reveal_strlit("  templates     : encrypted at rest ");
    reveal_strlit("  templates     : encrypted, but");
    reveal_strlit("  templates     : plaintext ");
    reveal_strlit("  templates     : ");
    reveal_strlit("encrypted at rest ");
    reveal_strlit("encrypted, but the TEMPLATE KEY IS MISSING ");
    reveal_strlit("plaintext ");
    reveal_strlit("  recovery pass : set ");
    reveal_strlit("  recovery pass : not set ");
    reveal_strlit("  recovery pass : ");
    reveal_strlit("set ");
    reveal_strlit("not set ");
    assert(a[27] == ' ' && b[27] == ',' && a[18] == 'e' && b[18] == 'e' && c[18] == 'p');
    assert(y[18] == 's' && n[18] == 'n');
    let q = if f.encrypted && f.key_present {
        a
    } else if f.encrypted {
        b
    } else {
        c
    };
    assert(t.subrange(0, q.len() as int) =~= q);
    if q == a {
        crate::text::a_text_opens_one_way(b, q, t, 27);
        crate::text::a_text_opens_one_way(c, q, t, 18);
    } else if q == b {
        crate::text::a_text_opens_one_way(a, q, t, 27);
        crate::text::a_text_opens_one_way(c, q, t, 18);
    } else {
        crate::text::a_text_opens_one_way(a, q, t, 18);
        crate::text::a_text_opens_one_way(b, q, t, 18);
    }
    if f.recovery_set {
        assert(p.subrange(0, y.len() as int) =~= y);
        crate::text::a_text_opens_one_way(n, y, p, 18);
    } else {
        assert(p.subrange(0, n.len() as int) =~= n);
        crate::text::a_text_opens_one_way(y, n, p, 18);
    }
}

/// The status shows every part: four lines on the account's ways in, the enrollment,
/// the keyring, the recovery where it is known, and six on settings and devices.
pub proof fn the_status_shows_every_part(f: StatusFacts)
    ensures
        ({
            let s = status_says(f);
            let e = enrollment_says(f.enrollment, f.user@);
            let r = recovery_says(f.recovery);
            &&& s.len() == 4 + e.len() + 1 + r.len() + 6
            &&& s[2] == SayV::Out("  daemon        : "@ + daemon_text(f.reach, f.socket@))
            &&& forall|i: int| 0 <= i < e.len() ==> s[4 + i] == #[trigger] e[i]
            &&& s[4 + e.len() as int] == SayV::Out(keyring_text(f.keyring))
            &&& forall|i: int| 0 <= i < r.len() ==> s[5 + e.len() + i] == #[trigger] r[i]
            &&& s[s.len() - 1] == SayV::Out(
                "  fingerprint   : "@ + reader_line(f.reader, f.reader_available),
            )
            &&& f.face_disabled ==> s[3] == SayV::Out(
                "  auth method   : "@ + f.method@ + " (face disabled)"@,
            )
            &&& !f.face_disabled ==> s[3] == SayV::Out("  auth method   : "@ + f.method@ + ""@)
        }),
{
}

/// A fingerprint reader is called missing exactly where none was found.
pub proof fn only_a_missing_reader_is_called_none(name: Option<String>, available: bool)
    ensures
        reader_line(name, available) == "none"@ <==> name is None && !available,
{
    reveal_strlit("none");
    reveal_strlit("present ");
    reveal_strlit(" ");
    reveal_strlit("\u{2705}");
    let l = reader_line(name, available);
    assert("none"@.len() == 4 && "none"@[3] == 'e');
    assert(OK@.len() == 1 && OK@[0] != 'e');
    if name is Some || available {
        assert(l[l.len() - 1] == OK@[0]);
    }
}

/// A file in a directory is the directory, one slash and the file; where there is no
/// directory, or it ends in a slash, none is added.
pub proof fn a_file_stands_behind_one_slash(dir: Seq<char>, file: Seq<char>)
    ensures
        in_dir(Seq::empty(), file) == file,
        in_dir(dir.push('/'), file) == dir.push('/') + file,
        dir.len() > 0 && dir.last() != '/' ==> in_dir(dir, file) == dir.push('/') + file,
{
    reveal_strlit("/");
    assert("/"@.len() == 1 && "/"@[0] == '/');
    assert(in_dir(Seq::empty(), file) =~= file);
    let d = dir.push('/');
    assert(d.subrange(d.len() - 1, d.len() as int) =~= "/"@);
    if dir.len() > 0 && dir.last() != '/' {
        if "/"@.is_suffix_of(dir) {
            assert(dir.subrange(dir.len() - 1, dir.len() as int)[0] == '/');
        }
        assert(in_dir(dir, file) =~= dir.push('/') + file);
    }
}

/// What is missing is named: whether the daemon answers and whether a face is
/// enrolled.
pub proof fn what_is_not_ready_is_named(reach: DaemonReach, socket: Seq<char>, enrolled: bool)
    requires
        reach == DaemonReach::Running || reach == DaemonReach::Starting,
    ensures
        "partial: installed but not ready (daemon up"@.is_prefix_of(
            detection(reach, true, socket, enrolled).0,
        ) <==> reach == DaemonReach::Running && !enrolled,
        "partial: installed but not ready (daemon down"@.is_prefix_of(
            detection(reach, true, socket, enrolled).0,
        ) <==> reach != DaemonReach::Running,
        "ready:"@.is_prefix_of(detection(reach, true, socket, enrolled).0) <==> reach
            == DaemonReach::Running && enrolled,
{
    let t = detection(reach, true, socket, enrolled).0;
    let u = "partial: installed but not ready (daemon up"@;
    let d = "partial: installed but not ready (daemon down"@;
    let r = "ready:"@;
    reveal_strlit("partial: installed but not ready (daemon up");
    reveal_strlit("partial: installed but not ready (daemon down");
    reveal_strlit("ready:");
    reveal_strlit("ready: daemon running and a face is enrolled");
    reveal_strlit("partial: installed but not ready (");
    reveal_strlit("daemon up");
    reveal_strlit("daemon down");
    assert(u[41] == 'u' && d[41] == 'd' && r[0] == 'r' && u[0] == 'p' && d[0] == 'p');
    let q = if reach == DaemonReach::Running {
        if enrolled {
            r
        } else {
            u
        }
    } else {
        d
    };
    assert(t.subrange(0, q.len() as int) =~= q);
    if q == r {
        crate::text::a_text_opens_one_way(u, q, t, 0);
        crate::text::a_text_opens_one_way(d, q, t, 0);
    } else if q == u {
        crate::text::a_text_opens_one_way(d, q, t, 41);
        crate::text::a_text_opens_one_way(r, q, t, 0);
    } else {
        crate::text::a_text_opens_one_way(u, q, t, 41);
        crate::text::a_text_opens_one_way(r, q, t, 0);
    }
}

/// An answer about a place was given to a question that names that place.
pub proof fn an_answer_is_about_the_place_asked_for<F: Fn(&str) -> bool>(
    present: F,
    place: Seq<char>,
    answer: bool,
)
    requires
        answers(present, place, answer),
    ensures
        exists|p: &str|
            #![trigger call_ensures(present, (p,), answer)]
            p@ == place && call_ensures(present, (p,), answer),
{
}

} // verus!
