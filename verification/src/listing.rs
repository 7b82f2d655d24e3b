//! What `irlume profiles` prints once the daemon has answered.

use vstd::prelude::*;

use crate::console::{fail_with, failed, outs, said, say_out, Console, Outcome, OutcomeV, SayV};
use crate::profiles::{live_count, live_scans, profile_views, ProfileSummary, ProfileV};
use crate::quote::{shell_single_quote, single_quoted};
use crate::text::{
    cat2, cat3, cat4, cat5, cat6, dec, decimal, join, joined, no_lines, one_line, opt_text, owned,
    push_line, push_lines, same, texts,
};

verus! {

/// No lines.
pub open spec fn none() -> Seq<Seq<char>> {
    Seq::empty()
}

/// Whether a profile's scans are broken down by recognizer: where it holds
/// several recognizers' scans, or not all of them can match.
pub open spec fn shows_breakdown(p: ProfileV) -> bool {
    p.counts.len() > 1 || (p.live is Some && live_count(p) != p.scans.len())
}

pub open spec fn count_line(c: (Seq<char>, nat), live: Option<Seq<char>>) -> Seq<char> {
    "      "@ + decimal(c.1) + " scans \u{b7} recognizer "@ + c.0 + (if live == Some(c.0) {
        " (live)"@
    } else {
        " (not loaded)"@
    })
}

pub open spec fn count_lines(counts: Seq<(Seq<char>, nat)>, live: Option<Seq<char>>) -> Seq<
    Seq<char>,
> {
    counts.map_values(|c: (Seq<char>, nat)| count_line(c, live))
}

/// The command that adds scans to a profile, quoted for a shell.
pub open spec fn add_scan_hint(name: Seq<char>, user: Seq<char>) -> Seq<char> {
    "irlume profiles add-scan --profile "@ + single_quoted(name) + " --user "@ + single_quoted(user)
}

pub open spec fn breakdown_lines(p: ProfileV, user: Seq<char>) -> Seq<Seq<char>> {
    if !shows_breakdown(p) {
        none()
    } else if live_count(p) == 0 {
        count_lines(p.counts, p.live).push(
            "      none of these match the loaded recognizer; add scans with `"@ + add_scan_hint(
                p.name,
                user,
            ) + "`"@,
        )
    } else {
        count_lines(p.counts, p.live)
    }
}

pub open spec fn indented(lines: Seq<Seq<char>>, by: Seq<char>) -> Seq<Seq<char>> {
    lines.map_values(|l: Seq<char>| by + l)
}

/// How one profile is listed.
pub open spec fn profile_lines(p: ProfileV, user: Seq<char>) -> Seq<Seq<char>> {
    none().push("  "@ + p.name + " ("@ + decimal(p.scans.len()) + " scans)"@) + breakdown_lines(
        p,
        user,
    ) + indented(p.ir_lines, "      "@) + (if p.needs_ir {
        none().push("      Add IR scans with an IR camera: "@ + add_scan_hint(p.name, user))
    } else {
        none()
    }) + indented(p.scans, "      - "@)
}

pub open spec fn all_profile_lines(v: Seq<ProfileV>, user: Seq<char>) -> Seq<Seq<char>>
    decreases v.len(),
{
    if v.len() == 0 {
        none()
    } else {
        all_profile_lines(v.drop_last(), user) + profile_lines(v.last(), user)
    }
}

fn hint(name: &str, user: &str) -> (r: String)
    ensures
        r@ == add_scan_hint(name@, user@),
{
    let n = shell_single_quote(name);
    let u = shell_single_quote(user);
    cat4("irlume profiles add-scan --profile ", n.as_str(), " --user ", u.as_str())
}

fn indent_all(lines: &Vec<String>, by: &str) -> (r: Vec<String>)
    ensures
        texts(r@) == indented(texts(lines@), by@),
{
    let ghost want = indented(texts(lines@), by@);
    let mut out = no_lines();
    let mut i: usize = 0;
    proof {
        assert(want.take(0) =~= none());
    }
    while i < lines.len()
        invariant
            i <= lines@.len(),
            want == indented(texts(lines@), by@),
            texts(out@) == want.take(i as int),
        decreases lines@.len() - i,
    {
        push_line(&mut out, cat2(by, lines[i].as_str()));
        proof {
            assert(texts(out@) =~= want.take(i + 1));
        }
        i = i + 1;
    }
    proof {
        assert(want.take(want.len() as int) =~= want);
    }
    out
}

fn is_live(live: &Option<String>, space: &str) -> (r: bool)
    ensures
        r == (opt_text(*live) == Some(space@)),
{
    match live {
        Some(l) => same(l.as_str(), space),
        None => false,
    }
}

fn breakdown(p: &ProfileSummary, user: &str) -> (r: Vec<String>)
    ensures
        texts(r@) == breakdown_lines(p@, user@),
{
    let matching: u64 = live_scans(p);
    let shown = p.scans_by_recognizer.len() > 1 || (p.live_recognizer.is_some() && matching
        != p.scans.len() as u64);
    let mut out = no_lines();
    if !shown {
        return out;
    }
    let ghost want = count_lines(p@.counts, p@.live);
    let mut i: usize = 0;
    proof {
        assert(want.take(0) =~= none());
    }
    while i < p.scans_by_recognizer.len()
        invariant
            i <= p.scans_by_recognizer@.len(),
            want == count_lines(p@.counts, p@.live),
            texts(out@) == want.take(i as int),
        decreases p.scans_by_recognizer@.len() - i,
    {
        let n = dec(p.scans_by_recognizer[i].1);
        let space = p.scans_by_recognizer[i].0.as_str();
        let marker = if is_live(&p.live_recognizer, space) {
            " (live)"
        } else {
            " (not loaded)"
        };
        push_line(
            &mut out,
            cat5("      ", n.as_str(), " scans \u{b7} recognizer ", space, marker),
        );
        proof {
            assert(p@.counts[i as int] == (
                p.scans_by_recognizer@[i as int].0@,
                p.scans_by_recognizer@[i as int].1 as nat,
            ));
            assert(texts(out@) =~= want.take(i + 1));
        }
        i = i + 1;
    }
    proof {
        assert(want.take(want.len() as int) =~= want);
    }
    if matching == 0 {
        let h = hint(p.name.as_str(), user);
        push_line(
            &mut out,
            cat3(
                "      none of these match the loaded recognizer; add scans with `",
                h.as_str(),
                "`",
            ),
        );
    }
    out
}

fn list_profile(p: &ProfileSummary, user: &str) -> (r: Vec<String>)
    ensures
        texts(r@) == profile_lines(p@, user@),
{
    let n = dec(p.scans.len() as u64);
    let mut out = one_line(cat5("  ", p.name.as_str(), " (", n.as_str(), " scans)"));
    push_lines(&mut out, breakdown(p, user));
    push_lines(&mut out, indent_all(&p.ir_lines, "      "));
    let mut add = no_lines();
    if p.needs_ir_capture {
        let h = hint(p.name.as_str(), user);
        push_line(&mut add, cat2("      Add IR scans with an IR camera: ", h.as_str()));
    }
    push_lines(&mut out, add);
    push_lines(&mut out, indent_all(&p.scans, "      - "));
    out
}

/// A profile of an enrolled camera: its scans, and how far they are calibrated.
pub struct GroupRow {
    pub profile: String,
    pub scans: u64,
    pub calibrated: bool,
    pub calibration_fittable: bool,
    pub capture_target_met: bool,
}

/// One enrolled camera beside the primary one.
pub struct CameraGroupSummary {
    pub id: String,
    pub selected: bool,
    pub connected: bool,
    pub stale: bool,
    pub profiles: Vec<GroupRow>,
}

pub open spec fn row_line(r: GroupRow, target: nat) -> Seq<char> {
    "      "@ + r.profile@ + " \u{b7} "@ + decimal(r.scans as nat) + " scans"@ + (
    if r.capture_target_met {
        ""@
    } else {
        " (below the "@ + decimal(target) + "-scan target)"@
    }) + " \u{b7} "@ + (if r.calibrated {
        "calibrated"@
    } else if r.calibration_fittable {
        "uncalibrated"@
    } else {
        "no IR calibration"@
    })
}

pub open spec fn row_lines(rows: Seq<GroupRow>, target: nat) -> Seq<Seq<char>> {
    rows.map_values(|r: GroupRow| row_line(r, target))
}

/// What is said of a camera's state, in order.
pub open spec fn group_states(g: CameraGroupSummary) -> Seq<Seq<char>> {
    (if g.selected {
        none().push("selected"@)
    } else {
        none()
    }) + none().push(
        if g.connected {
            "connected"@
        } else {
            "disconnected"@
        },
    ) + (if g.stale {
        none().push("STALE (primary changed; re-add the camera)"@)
    } else {
        none()
    })
}

pub open spec fn group_lines(g: CameraGroupSummary, target: nat) -> Seq<Seq<char>> {
    none().push("  "@ + g.id@ + " ["@ + joined(group_states(g), ", "@) + "]"@) + row_lines(
        g.profiles@,
        target,
    )
}

pub open spec fn all_group_lines(v: Seq<CameraGroupSummary>, target: nat) -> Seq<Seq<char>>
    decreases v.len(),
{
    if v.len() == 0 {
        none()
    } else {
        all_group_lines(v.drop_last(), target) + group_lines(v.last(), target)
    }
}

/// The camera part of a listing. A store that exists but cannot be read is
/// reported, never passed over.
pub open spec fn camera_lines(
    groups: Seq<CameraGroupSummary>,
    store_error: Option<Seq<char>>,
    target: nat,
) -> Seq<Seq<char>> {
    match store_error {
        Some(e) => none().push("[profiles] camera groups unavailable: "@ + e),
        None => if groups.len() == 0 {
            none()
        } else {
            none().push("[profiles] enrolled cameras:"@) + all_group_lines(groups, target)
        },
    }
}

fn group_row(r: &GroupRow, target: u64) -> (s: String)
    ensures
        s@ == row_line(*r, target as nat),
{
    let n = dec(r.scans);
    let t = dec(target);
    let short = if r.capture_target_met {
        owned("")
    } else {
        cat3(" (below the ", t.as_str(), "-scan target)")
    };
    let calib = if r.calibrated {
        "calibrated"
    } else if r.calibration_fittable {
        "uncalibrated"
    } else {
        "no IR calibration"
    };
    let head = cat5("      ", r.profile.as_str(), " \u{b7} ", n.as_str(), " scans");
    cat4(head.as_str(), short.as_str(), " \u{b7} ", calib)
}

fn group_state_words(g: &CameraGroupSummary) -> (r: Vec<String>)
    ensures
        texts(r@) == group_states(*g),
{
    let mut out = no_lines();
    if g.selected {
        push_line(&mut out, owned("selected"));
    }
    if g.connected {
        push_line(&mut out, owned("connected"));
    } else {
        push_line(&mut out, owned("disconnected"));
    }
    if g.stale {
        push_line(&mut out, owned("STALE (primary changed; re-add the camera)"));
    }
    proof {
        assert(texts(out@) =~= group_states(*g));
    }
    out
}

fn list_group(g: &CameraGroupSummary, target: u64) -> (r: Vec<String>)
    ensures
        texts(r@) == group_lines(*g, target as nat),
{
    let words = group_state_words(g);
    let state = join(&words, ", ");
    let mut out = one_line(cat5("  ", g.id.as_str(), " [", state.as_str(), "]"));
    let ghost head = texts(out@);
    let ghost want = row_lines(g.profiles@, target as nat);
    let mut i: usize = 0;
    proof {
        assert(head + want.take(0) =~= head);
    }
    while i < g.profiles.len()
        invariant
            i <= g.profiles@.len(),
            want == row_lines(g.profiles@, target as nat),
            texts(out@) == head + want.take(i as int),
        decreases g.profiles@.len() - i,
    {
        push_line(&mut out, group_row(&g.profiles[i], target));
        proof {
            assert(texts(out@) =~= head + want.take(i + 1));
        }
        i = i + 1;
    }
    proof {
        assert(want.take(want.len() as int) =~= want);
    }
    out
}

/// Lists the enrolled cameras. `target` is how many scans an enrollment aims
/// for.
pub fn print_camera_groups(
    groups: &[CameraGroupSummary],
    store_error: &Option<String>,
    target: u64,
) -> (r: Vec<String>)
    ensures
        texts(r@) == camera_lines(groups@, opt_text(*store_error), target as nat),
{
    match store_error {
        Some(e) => {
            return one_line(cat2("[profiles] camera groups unavailable: ", e.as_str()));
        },
        None => {},
    }
    if groups.len() == 0 {
        return no_lines();
    }
    let mut out = one_line(owned("[profiles] enrolled cameras:"));
    let ghost head = texts(out@);
    let mut i: usize = 0;
    proof {
        assert(groups@.take(0) =~= Seq::<CameraGroupSummary>::empty());
        assert(head + none() =~= head);
    }
    while i < groups.len()
        invariant
            i <= groups@.len(),
            texts(out@) == head + all_group_lines(groups@.take(i as int), target as nat),
        decreases groups@.len() - i,
    {
        let ghost before = all_group_lines(groups@.take(i as int), target as nat);
        push_lines(&mut out, list_group(&groups[i], target));
        proof {
            assert(groups@.take(i + 1).drop_last() =~= groups@.take(i as int));
            assert(groups@.take(i + 1).last() == groups@[i as int]);
            assert(texts(out@) =~= head + all_group_lines(groups@.take(i + 1), target as nat));
        }
        i = i + 1;
    }
    proof {
        assert(groups@.take(groups@.len() as int) =~= groups@);
    }
    out
}

/// The warning about scans that the room lit.
pub open spec fn ambient_says(tag: Seq<char>, lit: Option<u64>) -> Seq<SayV> {
    match lit {
        Some(n) if n > 0 => Seq::empty().push(
            SayV::Out(
                "["@ + tag + "] "@ + decimal(n as nat)
                    + " scan(s) were lit mainly by the room, not provably by the IR emitter; dark-room login is unverified. Check it with the lights off: irlume identify"@,
            ),
        ),
        _ => Seq::empty(),
    }
}

pub fn ambient_note(tag: &str, lit: Option<u64>) -> (r: Console)
    ensures
        r@ == ambient_says(tag@, lit),
{
    let mut console = Console::new();
    match lit {
        Some(n) => {
            if n > 0 {
                let count = dec(n);
                console.out(
                    cat5(
                        "[",
                        tag,
                        "] ",
                        count.as_str(),
                        " scan(s) were lit mainly by the room, not provably by the IR emitter; dark-room login is unverified. Check it with the lights off: irlume identify",
                    ),
                );
            }
        },
        None => {},
    }
    console
}

/// What the daemon answered to a profiles request.
pub enum ProfilesAnswer {
    Enrollment {
        profiles: Vec<ProfileSummary>,
        require_eyes_open: bool,
        camera_groups: Vec<CameraGroupSummary>,
        camera_store_error: Option<String>,
    },
    Enrolled { added: u64, total: u64, added_scans: Vec<String>, ambient_lit: Option<u64> },
    Acknowledged(String),
    Refused(String),
    /// An answer of another kind, as the daemon's side prints it.
    Unexpected(String),
    /// No answer, and why.
    Failed(String),
}

/// What is printed of an enrollment.
pub open spec fn enrollment_lines(
    profiles: Seq<ProfileV>,
    require_eyes_open: bool,
    groups: Seq<CameraGroupSummary>,
    store_error: Option<Seq<char>>,
    user: Seq<char>,
    target: nat,
) -> Seq<Seq<char>> {
    (if require_eyes_open {
        none().push(
            "[profiles] legacy policy blocks authentication; run: sudo irlume profiles eyes-open off --user "@
                + single_quoted(user),
        )
    } else {
        none()
    }) + (if profiles.len() == 0 {
        none().push("[profiles] none enrolled"@)
    } else {
        all_profile_lines(profiles, user)
    }) + camera_lines(groups, store_error, target)
}

/// How an answer to a profiles request is reported.
pub open spec fn profiles_report(a: ProfilesAnswer, user: Seq<char>, target: nat) -> OutcomeV {
    match a {
        ProfilesAnswer::Enrollment {
            profiles,
            require_eyes_open,
            camera_groups,
            camera_store_error,
        } => OutcomeV {
            says: outs(
                enrollment_lines(
                    profile_views(profiles@),
                    require_eyes_open,
                    camera_groups@,
                    opt_text(camera_store_error),
                    user,
                    target,
                ),
            ),
            exit: 0,
        },
        ProfilesAnswer::Enrolled { added, total, added_scans, ambient_lit } => OutcomeV {
            says: Seq::empty().push(
                SayV::Out(
                    "[profiles] added "@ + decimal(added as nat) + " scan(s) ("@ + decimal(
                        total as nat,
                    ) + " for the loaded recognizer): "@ + joined(texts(added_scans@), ", "@),
                ),
            ) + ambient_says("profiles"@, ambient_lit),
            exit: 0,
        },
        ProfilesAnswer::Acknowledged(m) => said("[profiles] "@ + m@),
        ProfilesAnswer::Refused(e) => failed("[profiles] "@ + e@, 1),
        ProfilesAnswer::Unexpected(d) => failed("[profiles] unexpected response "@ + d@, 1),
        ProfilesAnswer::Failed(e) => failed("[profiles] "@ + e@, 1),
    }
}

fn list_enrollment(
    profiles: &Vec<ProfileSummary>,
    require_eyes_open: bool,
    groups: &Vec<CameraGroupSummary>,
    store_error: &Option<String>,
    user: &str,
    target: u64,
) -> (r: Vec<String>)
    ensures
        texts(r@) == enrollment_lines(
            profile_views(profiles@),
            require_eyes_open,
            groups@,
            opt_text(*store_error),
            user@,
            target as nat,
        ),
{
    let ghost views = profile_views(profiles@);
    let mut out = no_lines();
    if require_eyes_open {
        let quoted = shell_single_quote(user);
        push_line(
            &mut out,
            cat2(
                "[profiles] legacy policy blocks authentication; run: sudo irlume profiles eyes-open off --user ",
                quoted.as_str(),
            ),
        );
    }
    let mut body = no_lines();
    if profiles.len() == 0 {
        push_line(&mut body, owned("[profiles] none enrolled"));
    } else {
        let mut i: usize = 0;
        proof {
            assert(views.take(0) =~= Seq::<ProfileV>::empty());
        }
        while i < profiles.len()
            invariant
                i <= profiles@.len(),
                views == profile_views(profiles@),
                texts(body@) == all_profile_lines(views.take(i as int), user@),
            decreases profiles@.len() - i,
        {
            push_lines(&mut body, list_profile(&profiles[i], user));
            proof {
                assert(views.take(i + 1).drop_last() =~= views.take(i as int));
                assert(views.take(i + 1).last() == profiles@[i as int]@);
            }
            i = i + 1;
        }
        proof {
            assert(views.take(views.len() as int) =~= views);
        }
    }
    push_lines(&mut out, body);
    push_lines(&mut out, print_camera_groups(groups.as_slice(), store_error, target));
    out
}

/// Reports the daemon's answer to a profiles request.
pub fn report_profiles(a: ProfilesAnswer, user: &str, target: u64) -> (r: Outcome)
    ensures
        r@ == profiles_report(a, user@, target as nat),
{
    match a {
        ProfilesAnswer::Enrollment {
            profiles,
            require_eyes_open,
            camera_groups,
            camera_store_error,
        } => {
            let lines = list_enrollment(
                &profiles,
                require_eyes_open,
                &camera_groups,
                &camera_store_error,
                user,
                target,
            );
            let mut console = Console::new();
            console.extend_out(&lines);
            proof {
                assert(console@ =~= outs(texts(lines@)));
            }
            Outcome { console, exit: 0 }
        },
        ProfilesAnswer::Enrolled { added, total, added_scans, ambient_lit } => {
            let a = dec(added);
            let t = dec(total);
            let names = join(&added_scans, ", ");
            let mut console = Console::new();
            console.out(
                cat6(
                    "[profiles] added ",
                    a.as_str(),
                    " scan(s) (",
                    t.as_str(),
                    " for the loaded recognizer): ",
                    names.as_str(),
                ),
            );
            console.extend(ambient_note("profiles", ambient_lit));
            Outcome { console, exit: 0 }
        },
        ProfilesAnswer::Acknowledged(m) => say_out(cat2("[profiles] ", m.as_str())),
        ProfilesAnswer::Refused(e) => fail_with(cat2("[profiles] ", e.as_str()), 1),
        ProfilesAnswer::Unexpected(d) => fail_with(
            cat2("[profiles] unexpected response ", d.as_str()),
            1,
        ),
        ProfilesAnswer::Failed(e) => fail_with(cat2("[profiles] ", e.as_str()), 1),
    }
}

/// A recognizer's scans are listed as live exactly where it is the one that is
/// loaded.
pub proof fn only_the_loaded_recognizer_is_listed_as_live(
    c: (Seq<char>, nat),
    live: Option<Seq<char>>,
)
    ensures
        " (live)"@.is_suffix_of(count_line(c, live)) <==> live == Some(c.0),
        " (not loaded)"@.is_suffix_of(count_line(c, live)) <==> live != Some(c.0),
{
    reveal_strlit(" (live)");
    reveal_strlit(" (not loaded)");
    let l = count_line(c, live);
    let n = l.len() as int;
    let w = if live == Some(c.0) {
        " (live)"@
    } else {
        " (not loaded)"@
    };
    assert(w =~= l.subrange(n - w.len(), n));
    assert(l[n - 2] == w[w.len() - 2]);
    assert(" (live)"@.len() == 7 && " (live)"@[5] == 'e');
    assert(" (not loaded)"@.len() == 13 && " (not loaded)"@[11] == 'd');
    if " (live)"@.is_suffix_of(l) {
        assert(l.subrange(n - 7, n)[5] == " (live)"@[5]);
    }
    if " (not loaded)"@.is_suffix_of(l) {
        assert(l.subrange(n - 13, n)[11] == " (not loaded)"@[11]);
    }
}

/// Scans are broken down by recognizer exactly where several recognizers' scans are
/// held or some of the scans cannot match; then every recognizer has its line, and
/// advice follows exactly where none can match.
pub proof fn scans_that_cannot_match_are_broken_down(p: ProfileV, user: Seq<char>)
    ensures
        ({
            let shown = p.counts.len() > 1 || (p.live is Some && live_count(p) != p.scans.len());
            let l = breakdown_lines(p, user);
            &&& !shown ==> l.len() == 0
            &&& shown ==> l.len() == p.counts.len() + (if live_count(p) == 0 {
                1int
            } else {
                0
            })
            &&& shown ==> forall|i: int|
                0 <= i < p.counts.len() ==> l[i] == #[trigger] count_line(p.counts[i], p.live)
        }),
{
}

/// Profiles and cameras are listed one after the other, none left out.
pub proof fn nothing_is_left_out_of_a_listing(
    v: Seq<ProfileV>,
    p: ProfileV,
    user: Seq<char>,
    w: Seq<CameraGroupSummary>,
    g: CameraGroupSummary,
    target: nat,
)
    ensures
        all_profile_lines(v.push(p), user) == all_profile_lines(v, user) + profile_lines(p, user),
        all_group_lines(w.push(g), target) == all_group_lines(w, target) + group_lines(g, target),
        profile_lines(p, user).len() == 1 + breakdown_lines(p, user).len() + p.ir_lines.len() + (
        if p.needs_ir {
            1int
        } else {
            0
        }) + p.scans.len(),
        group_lines(g, target).len() == 1 + g.profiles@.len(),
{
    assert(v.push(p).drop_last() =~= v);
    assert(w.push(g).drop_last() =~= w);
}

/// A camera is said to be selected, connected or stale exactly where it is.
pub proof fn a_camera_is_said_to_be_what_it_is(g: CameraGroupSummary)
    ensures
        group_states(g).contains("selected"@) <==> g.selected,
        group_states(g).contains("connected"@) <==> g.connected,
        group_states(g).contains("disconnected"@) <==> !g.connected,
        group_states(g).contains("STALE (primary changed; re-add the camera)"@) <==> g.stale,
{
    reveal_strlit("selected");
    reveal_strlit("connected");
    reveal_strlit("disconnected");
    reveal_strlit("STALE (primary changed; re-add the camera)");
    assert("selected"@.len() == 8 && "connected"@.len() == 9 && "disconnected"@.len() == 12);
    assert("STALE (primary changed; re-add the camera)"@.len() == 42);
    let s = group_states(g);
    let first: int = if g.selected {
        1
    } else {
        0
    };
    if g.selected {
        assert(s[0] == "selected"@);
    }
    assert(s[first] == (if g.connected {
        "connected"@
    } else {
        "disconnected"@
    }));
    if g.stale {
        assert(s[first + 1] == "STALE (primary changed; re-add the camera)"@);
    }
    assert(s.len() == first + 1 + (if g.stale {
        1int
    } else {
        0
    }));
}

/// A row says that its scans are calibrated exactly where they are, that they could
/// be exactly where they are not and could, and warns exactly where there are fewer
/// than wanted.
pub proof fn a_row_says_how_far_it_is_calibrated(r: GroupRow, target: nat)
    ensures
        " calibrated"@.is_suffix_of(row_line(r, target)) <==> r.calibrated,
        " uncalibrated"@.is_suffix_of(row_line(r, target)) <==> !r.calibrated
            && r.calibration_fittable,
        " no IR calibration"@.is_suffix_of(row_line(r, target)) <==> !r.calibrated
            && !r.calibration_fittable,
        row_line((GroupRow { capture_target_met: false, ..r }), target) != row_line(
            (GroupRow { capture_target_met: true, ..r }),
            target,
        ),
{
    reveal_strlit(" calibrated");
    reveal_strlit(" uncalibrated");
    reveal_strlit(" no IR calibration");
    reveal_strlit("calibrated");
    reveal_strlit("uncalibrated");
    reveal_strlit("no IR calibration");
    reveal_strlit(" \u{b7} ");
    reveal_strlit("");
    reveal_strlit(" (below the ");
    let l = row_line(r, target);
    let n = l.len() as int;
    let w = if r.calibrated {
        " calibrated"@
    } else if r.calibration_fittable {
        " uncalibrated"@
    } else {
        " no IR calibration"@
    };
    assert(w =~= l.subrange(n - w.len(), n));
    assert(" calibrated"@.len() == 11 && " uncalibrated"@.len() == 13 && " no IR calibration"@.len()
        == 18);
    assert(l[n - 1] == w[w.len() - 1]);
    assert(l[n - 11] == w[w.len() - 11]);
    if " calibrated"@.is_suffix_of(l) {
        assert(l.subrange(n - 11, n)[0] == " calibrated"@[0]);
        assert(l.subrange(n - 11, n)[10] == " calibrated"@[10]);
    }
    if " uncalibrated"@.is_suffix_of(l) {
        assert(l.subrange(n - 13, n)[2] == " uncalibrated"@[2]);
        assert(l.subrange(n - 13, n)[12] == " uncalibrated"@[12]);
    }
    if " no IR calibration"@.is_suffix_of(l) {
        assert(l.subrange(n - 18, n)[17] == " no IR calibration"@[17]);
    }
    let short = row_line((GroupRow { capture_target_met: false, ..r }), target);
    let met = row_line((GroupRow { capture_target_met: true, ..r }), target);
    assert(short.len() > met.len());
}

/// A store that cannot be read is reported and nothing else is said of the cameras;
/// one that can is listed exactly where it holds a camera.
pub proof fn an_unreadable_store_is_reported(
    groups: Seq<CameraGroupSummary>,
    e: Seq<char>,
    target: nat,
)
    ensures
        camera_lines(groups, Some(e), target).len() == 1,
        e.is_suffix_of(camera_lines(groups, Some(e), target)[0]),
        camera_lines(groups, None, target).len() == 0 <==> groups.len() == 0,
        groups.len() > 0 ==> camera_lines(groups, None, target).skip(1) == all_group_lines(
            groups,
            target,
        ),
{
    let l = camera_lines(groups, Some(e), target)[0];
    assert(e =~= l.subrange(l.len() - e.len(), l.len() as int));
    if groups.len() > 0 {
        assert(camera_lines(groups, None, target).skip(1) =~= all_group_lines(groups, target));
    }
}

/// Scans that the room lit are warned of exactly where there are any.
pub proof fn only_lit_scans_are_warned_of(tag: Seq<char>, lit: Option<u64>)
    ensures
        ambient_says(tag, lit).len() == 1 <==> lit is Some && lit->0 > 0,
        ambient_says(tag, lit).len() == 0 <==> !(lit is Some && lit->0 > 0),
{
}

/// A profiles request succeeded exactly where the daemon listed, enrolled or
/// acknowledged; a refusal is told on stderr.
pub proof fn only_an_answered_request_succeeded(a: ProfilesAnswer, user: Seq<char>, target: nat)
    ensures
        profiles_report(a, user, target).exit == 0 <==> a is Enrollment || a is Enrolled
            || a is Acknowledged,
        profiles_report(a, user, target).exit == 1 <==> a is Refused || a is Unexpected || a is Failed,
        a is Refused || a is Unexpected || a is Failed ==> profiles_report(a, user, target).says.len()
            == 1 && profiles_report(a, user, target).says[0] is Warn,
        a matches ProfilesAnswer::Enrolled { ambient_lit, .. } ==> profiles_report(
            a,
            user,
            target,
        ).says.len() == 1 + ambient_says("profiles"@, ambient_lit).len(),
{
}

/// A legacy policy that blocks authentication is named exactly where it is on, and
/// nobody is called enrolled exactly where there is no profile.
pub proof fn a_blocking_policy_is_named(
    profiles: Seq<ProfileV>,
    blocks: bool,
    groups: Seq<CameraGroupSummary>,
    store_error: Option<Seq<char>>,
    user: Seq<char>,
    target: nat,
)
    ensures
        enrollment_lines(profiles, blocks, groups, store_error, user, target).len() == (if blocks {
            1int
        } else {
            0
        }) + (if profiles.len() == 0 {
            1int
        } else {
            all_profile_lines(profiles, user).len() as int
        }) + camera_lines(groups, store_error, target).len(),
        profiles.len() == 0 ==> enrollment_lines(
            profiles,
            blocks,
            groups,
            store_error,
            user,
            target,
        ).contains("[profiles] none enrolled"@),
{
    if profiles.len() == 0 {
        let l = enrollment_lines(profiles, blocks, groups, store_error, user, target);
        let k: int = if blocks {
            1
        } else {
            0
        };
        assert(l[k] == "[profiles] none enrolled"@);
    }
}

} // verus!
