//! `irlume enroll`: a new face profile, or the same face on another camera.

use vstd::prelude::*;

use crate::args::{flag, flag_value, has_arg, scans_asked, scans_flag, subject, user_arg, Caller};
use crate::console::{fail_with, failed, Console, Outcome, OutcomeV, SayV};
use crate::daemon::TextAnswer;
use crate::listing::{ambient_note, ambient_says};
use crate::profiles_cmd::{as_usize, plan_result, Plan, PlanV};
use crate::protocol::{Request, RequestV};
use crate::text::{cat2, cat3, cat5, cat9, dec, decimal, opt_text, owned, texts};

verus! {

/// What is printed before an enrollment.
pub open spec fn enroll_says(user: Seq<char>, reset: bool) -> Seq<SayV> {
    let approve = Seq::<SayV>::empty().push(
        SayV::Warn(
            "[enroll] approve the system authentication dialog before capture; each additional scan request needs approval"@,
        ),
    );
    let resetting = if reset {
        approve.push(
            SayV::Warn(
                "[enroll] --reset: replacing '"@ + user
                    + "'s enrollment after successful capture (preserves the template key and recovery setup)"@,
            ),
        )
    } else {
        approve
    };
    resetting.push(
        SayV::Warn(
            "[enroll] '"@ + user
                + "': capturing a new face profile; stay in frame, look at the camera\u{2026}"@,
        ),
    ).push(
        SayV::Warn(
            "[enroll] if this camera pair has no measured capture mode yet, irlume measures it first (one time, up to a minute; the IR emitter fires)"@,
        ),
    )
}

/// What is printed before a camera is added.
pub open spec fn add_camera_says(user: Seq<char>) -> Seq<SayV> {
    Seq::<SayV>::empty().push(
        SayV::Warn("[add-camera] approve the system authentication dialog before capture"@),
    ).push(
        SayV::Warn(
            "[add-camera] '"@ + user
                + "': capturing this face on the CURRENT camera pair; stay in frame, look at the camera\u{2026}"@,
        ),
    ).push(
        SayV::Warn(
            "[add-camera] an unmeasured pair is measured first (one time, up to a minute; the IR emitter fires)"@,
        ),
    )
}

/// What `irlume enroll` asks of the daemon. A count that cannot be read stops
/// the command: nothing is captured at another count than the one asked for.
pub open spec fn enroll_plan(
    args: Seq<Seq<char>>,
    sudo_user: Option<Seq<char>>,
    user: Option<Seq<char>>,
    root: bool,
) -> Result<PlanV, OutcomeV> {
    match subject(args, sudo_user, user, root) {
        None => Err(failed("irlume: --user requires a username"@, 2)),
        Some(who) => match scans_asked(args) {
            Err(_) => Err(
                failed(
                    "["@ + "enroll"@ + (if flag_value(args, "--scans"@) is None {
                        "] --scans requires a count"@
                    } else {
                        "] --scans must be a positive integer"@
                    }),
                    2,
                ),
            ),
            Ok(scans) => if args.contains("--add-camera"@) {
                Ok(
                    PlanV {
                        says: add_camera_says(who),
                        request: RequestV::AddCameraGroup {
                            user: who,
                            new_profile: flag_value(args, "--name"@),
                            scans: as_usize(scans),
                        },
                    },
                )
            } else {
                Ok(
                    PlanV {
                        says: enroll_says(who, args.contains("--reset"@)),
                        request: RequestV::Enroll {
                            user: who,
                            new_profile: flag_value(args, "--name"@),
                            scans: as_usize(scans),
                            reset: args.contains("--reset"@),
                        },
                    },
                )
            },
        },
    }
}

fn name_of(args: &[String]) -> (r: Option<String>)
    ensures
        opt_text(r) == flag_value(texts(args@), "--name"@),
{
    match flag(args, "--name") {
        Some(n) => Some(owned(n)),
        None => None,
    }
}

fn enroll_add_camera(user: String, profile: Option<String>, scans: Option<usize>) -> (r: Plan)
    ensures
        r@ == (PlanV {
            says: add_camera_says(user@),
            request: RequestV::AddCameraGroup {
                user: user@,
                new_profile: opt_text(profile),
                scans,
            },
        }),
{
    let mut console = Console::new();
    console.warn(owned("[add-camera] approve the system authentication dialog before capture"));
    console.warn(
        cat3(
            "[add-camera] '",
            user.as_str(),
            "': capturing this face on the CURRENT camera pair; stay in frame, look at the camera\u{2026}",
        ),
    );
    console.warn(
        owned(
            "[add-camera] an unmeasured pair is measured first (one time, up to a minute; the IR emitter fires)",
        ),
    );
    Plan { console, request: Request::AddCameraGroup { user, new_profile: profile, scans } }
}

/// Reads `irlume enroll`: what to ask the daemon, or why nothing is asked.
pub fn enroll(args: &[String], caller: &Caller) -> (r: Result<Plan, Outcome>)
    ensures
        plan_result(r) == enroll_plan(
            texts(args@),
            opt_text(caller.sudo_user),
            opt_text(caller.user),
            caller.root,
        ),
{
    let user = match user_arg(args, caller) {
        Some(user) => user,
        None => {
            return Err(fail_with(owned("irlume: --user requires a username"), 2));
        },
    };
    let name = name_of(args);
    let scans = match scans_flag(args, "enroll") {
        Ok(scans) => scans,
        Err(message) => {
            return Err(fail_with(message, 2));
        },
    };
    let reset = has_arg(args, "--reset");
    if has_arg(args, "--add-camera") {
        return Ok(enroll_add_camera(user, name, scans));
    }
    let mut console = Console::new();
    console.warn(
        owned(
            "[enroll] approve the system authentication dialog before capture; each additional scan request needs approval",
        ),
    );
    if reset {
        console.warn(
            cat3(
                "[enroll] --reset: replacing '",
                user.as_str(),
                "'s enrollment after successful capture (preserves the template key and recovery setup)",
            ),
        );
    }
    console.warn(
        cat3(
            "[enroll] '",
            user.as_str(),
            "': capturing a new face profile; stay in frame, look at the camera\u{2026}",
        ),
    );
    console.warn(
        owned(
            "[enroll] if this camera pair has no measured capture mode yet, irlume measures it first (one time, up to a minute; the IR emitter fires)",
        ),
    );
    Ok(Plan { console, request: Request::Enroll { user, new_profile: name, scans, reset } })
}

/// What the daemon answered to an enrollment.
pub enum EnrollAnswer {
    Enrolled { profile: String, created: bool, added: u64, total: u64, ambient_lit: Option<u64> },
    Refused(String),
    Unexpected(String),
    Failed(String),
}

/// What is printed of a successful enrollment. A face owns one profile, so one
/// that is known already gets its scans added there.
pub open spec fn enrolled_line(profile: Seq<char>, created: bool, added: nat, total: nat) -> Seq<
    char,
> {
    if created {
        "[enroll] enrolled '"@ + profile + "' with "@ + decimal(total) + " scans"@
    } else {
        "[enroll] this face is already enrolled as '"@ + profile + "'; added "@ + decimal(added)
            + " scans to it ("@ + decimal(total)
            + " total). A face can only own one profile; to strengthen recognition use `irlume profiles add-scan --profile '"@
            + profile + "'`."@
    }
}

pub open spec fn enroll_report(a: EnrollAnswer) -> OutcomeV {
    match a {
        EnrollAnswer::Enrolled { profile, created, added, total, ambient_lit } => OutcomeV {
            says: ambient_says("enroll"@, ambient_lit).push(
                SayV::Out(enrolled_line(profile@, created, added as nat, total as nat)),
            ),
            exit: 0,
        },
        EnrollAnswer::Refused(e) => failed("enroll failed: "@ + e@, 1),
        EnrollAnswer::Unexpected(d) => failed("enroll: unexpected response "@ + d@, 1),
        EnrollAnswer::Failed(e) => failed("enroll: "@ + e@, 1),
    }
}

/// Reports the daemon's answer to an enrollment.
pub fn report_enroll(a: EnrollAnswer) -> (r: Outcome)
    ensures
        r@ == enroll_report(a),
{
    match a {
        EnrollAnswer::Enrolled { profile, created, added, total, ambient_lit } => {
            let mut console = ambient_note("enroll", ambient_lit);
            let t = dec(total);
            if created {
                console.out(
                    cat5("[enroll] enrolled '", profile.as_str(), "' with ", t.as_str(), " scans"),
                );
            } else {
                let n = dec(added);
                console.out(
                    cat9(
                        "[enroll] this face is already enrolled as '",
                        profile.as_str(),
                        "'; added ",
                        n.as_str(),
                        " scans to it (",
                        t.as_str(),
                        " total). A face can only own one profile; to strengthen recognition use `irlume profiles add-scan --profile '",
                        profile.as_str(),
                        "'`.",
                    ),
                );
            }
            Outcome { console, exit: 0 }
        },
        EnrollAnswer::Refused(e) => fail_with(cat2("enroll failed: ", e.as_str()), 1),
        EnrollAnswer::Unexpected(d) => fail_with(
            cat2("enroll: unexpected response ", d.as_str()),
            1,
        ),
        EnrollAnswer::Failed(e) => fail_with(cat2("enroll: ", e.as_str()), 1),
    }
}

pub open spec fn add_camera_report(a: TextAnswer) -> OutcomeV {
    match a {
        TextAnswer::Acknowledged(m) => OutcomeV {
            says: Seq::<SayV>::empty().push(SayV::Out("[add-camera] "@ + m@)).push(
                SayV::Out(
                    "[add-camera] manage groups with `irlume profiles` (listing shows every enrolled camera)"@,
                ),
            ),
            exit: 0,
        },
        TextAnswer::Refused(e) => failed("add-camera failed: "@ + e@, 1),
        TextAnswer::Unexpected(d) => failed("add-camera: unexpected response "@ + d@, 1),
        TextAnswer::Failed(e) => failed("add-camera: "@ + e@, 1),
    }
}

/// Reports the daemon's answer to an added camera.
pub fn report_add_camera(a: TextAnswer) -> (r: Outcome)
    ensures
        r@ == add_camera_report(a),
{
    match a {
        TextAnswer::Acknowledged(m) => {
            let mut console = Console::new();
            console.out(cat2("[add-camera] ", m.as_str()));
            console.out(
                owned(
                    "[add-camera] manage groups with `irlume profiles` (listing shows every enrolled camera)",
                ),
            );
            Outcome { console, exit: 0 }
        },
        TextAnswer::Refused(e) => fail_with(cat2("add-camera failed: ", e.as_str()), 1),
        TextAnswer::Unexpected(d) => fail_with(
            cat2("add-camera: unexpected response ", d.as_str()),
            1,
        ),
        TextAnswer::Failed(e) => fail_with(cat2("add-camera: ", e.as_str()), 1),
    }
}

/// An enrollment resets only where `--reset` was written, and never where a
/// camera is added.
pub proof fn an_enrollment_resets_only_on_request(
    args: Seq<Seq<char>>,
    sudo_user: Option<Seq<char>>,
    user: Option<Seq<char>>,
    root: bool,
)
    ensures
        enroll_plan(args, sudo_user, user, root) matches Ok(p) ==> (p.request matches RequestV::Enroll {
            reset,
            ..
        } ==> reset == args.contains("--reset"@)),
        args.contains("--add-camera"@) ==> (enroll_plan(args, sudo_user, user, root) matches Ok(p)
            ==> !(p.request is Enroll)),
{
}

/// An enrollment asks for exactly what was written: about the account that was
/// named, under the name that was given, with the count that was given and no other,
/// and starting over only where that was written. A camera is added exactly where
/// that was asked for. What cannot be read is a usage error, and nothing is asked.
pub proof fn an_enrollment_asks_for_what_was_written(
    args: Seq<Seq<char>>,
    sudo_user: Option<Seq<char>>,
    user: Option<Seq<char>>,
    root: bool,
)
    ensures
        ({
            let r = enroll_plan(args, sudo_user, user, root);
            let who = subject(args, sudo_user, user, root);
            &&& r is Ok <==> who is Some && scans_asked(args) is Ok
            &&& r matches Err(o) ==> o.exit == 2
            &&& r matches Ok(p) ==> (if args.contains("--add-camera"@) {
                p.request matches RequestV::AddCameraGroup { user: account, new_profile, scans }
                    && account == who->0 && new_profile == flag_value(args, "--name"@) && (
                scans matches Some(n) ==> scans_asked(args) == Ok::<Option<nat>, ()>(
                    Some(n as nat),
                )) && (scans is None ==> scans_asked(args) == Ok::<Option<nat>, ()>(None))
            } else {
                p.request matches RequestV::Enroll { user: account, new_profile, scans, reset }
                    && account == who->0 && new_profile == flag_value(args, "--name"@) && (reset
                    <==> args.contains("--reset"@)) && (scans matches Some(n) ==> scans_asked(args)
                    == Ok::<Option<nat>, ()>(Some(n as nat))) && (scans is None ==> scans_asked(
                    args,
                ) == Ok::<Option<nat>, ()>(None))
            })
        }),
{
    crate::args::a_count_is_taken_as_written(args);
}

/// An enrollment succeeded exactly where the daemon says that it enrolled, and a
/// camera was added exactly where it says that it was.
pub proof fn only_the_daemons_word_is_a_success(a: EnrollAnswer, b: TextAnswer)
    ensures
        enroll_report(a).exit == 0 <==> a is Enrolled,
        enroll_report(a).exit == 1 <==> !(a is Enrolled),
        add_camera_report(b).exit == 0 <==> b is Acknowledged,
        add_camera_report(b).exit == 1 <==> !(b is Acknowledged),
{
}

/// That an enrollment is replaced is said exactly where it is.
pub proof fn a_replaced_enrollment_is_announced(user: Seq<char>)
    ensures
        enroll_says(user, true).len() == enroll_says(user, false).len() + 1,
        enroll_says(user, true).remove(1) == enroll_says(user, false),
        forall|i: int|
            0 <= i < enroll_says(user, true).len() ==> (#[trigger] enroll_says(user, true)[i]) is Warn,
{
    assert(enroll_says(user, true).remove(1) =~= enroll_says(user, false));
}

/// A new profile is called enrolled, and scans that went to a profile that was there
/// are called added to it.
pub proof fn only_a_new_profile_is_called_enrolled(
    profile: Seq<char>,
    created: bool,
    added: nat,
    total: nat,
)
    ensures
        "[enroll] enrolled '"@.is_prefix_of(enrolled_line(profile, created, added, total))
            <==> created,
        "[enroll] this face is already enrolled as '"@.is_prefix_of(
            enrolled_line(profile, created, added, total),
        ) <==> !created,
{
    let t = enrolled_line(profile, created, added, total);
    let y = "[enroll] enrolled '"@;
    let n = "[enroll] this face is already enrolled as '"@;
    reveal_strlit("[enroll] enrolled '");
    reveal_strlit("[enroll] this face is already enrolled as '");
    assert(y[9] == 'e' && n[9] == 't');
    if created {
        assert(t.subrange(0, y.len() as int) =~= y);
        crate::text::a_text_opens_one_way(n, y, t, 9);
    } else {
        assert(t.subrange(0, n.len() as int) =~= n);
        crate::text::a_text_opens_one_way(y, n, t, 9);
    }
}

} // verus!
