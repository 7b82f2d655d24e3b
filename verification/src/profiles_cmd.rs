//! `irlume profiles`: from arguments to a request for the daemon.

use vstd::prelude::*;

use crate::args::{
    flag, flag_given, flag_present, flag_value, has_arg, positional_after_subcommand,
    profiles_positional, scans_asked, scans_flag, subject, toggle, toggle_value, user_arg, Caller,
};
use crate::console::{fail_with, failed, Console, Outcome, OutcomeV, SayV};
use crate::contract::{negotiated, stripped, without_contract, Contract};
use crate::flags::{profiles_list_args_valid, valid_profiles_list_args};
use crate::machine::{open_contract, opened_if, refuse_usage, Reply, ReplyV};
use crate::models::{recognizer_space_for, space_named};
use crate::protocol::{Request, RequestV};
use crate::text::{
    cat2, cat3, cat5, dec, decimal, opt_slice, opt_text, owned, same, starts_with, texts,
};

verus! {

pub const USAGE_PROFILES: &'static str = "usage: irlume profiles [--user U] <subcommand>\n  \
        (no sub) | list                         list profiles + scans + cameras\n  \
        add-scan --profile P [--scans N]         add scans to P (improve recognition, or\n  \
                                                add templates for a second model)\n  \
        remove-camera --group ID                remove an enrolled camera group\n  \
                                                (add one with: irlume enroll --add-camera)\n  \
        rename --profile P [--scan S] --name N  rename a profile or a scan\n  \
        delete --profile P [--scan S]           delete a profile or a scan\n  \
        forget-model <model>                    remove one recognizer's scans from every\n  \
                                                profile (shipped | a catalog name | embed:<sha256>)\n  \
        eyes-open off                           one-release migration: clear the retired gate\n  \
        \x20                                       (it cannot be turned on; see issue #386)";

pub const APPROVE_CAPTURE: &'static str = "[profiles] approve the system authentication dialog before capture";

pub const ADD_SCAN_NOTE: &'static str = "[profiles] scans are recorded for the recognizer the daemon has loaded; this is also how a profile gains templates for a second model without re-enrolling as a new person.";

pub const REMOVE_CAMERA_NOTE: &'static str = "[profiles] Removing an enrolled camera requires OS approval for a non-root user.";

pub const REMOVE_PROFILE_NOTE: &'static str = "[profiles] Removing a profile or a recognizer's face data requires OS approval for a non-root user.";

pub const LAST_PROFILE_NOTE: &'static str = "[profiles] If no profiles remain, the template key and recovery passphrase are also erased.";

/// A command that is ready to ask the daemon: what to print first, and the
/// request.
pub struct Plan {
    pub console: Console,
    pub request: Request,
}

pub struct PlanV {
    pub says: Seq<SayV>,
    pub request: RequestV,
}

impl View for Plan {
    type V = PlanV;

    open spec fn view(&self) -> PlanV {
        PlanV { says: self.console@, request: self.request@ }
    }
}

pub open spec fn plan_result(r: Result<Plan, Outcome>) -> Result<PlanV, OutcomeV> {
    match r {
        Ok(p) => Ok(p@),
        Err(o) => Err(o@),
    }
}

pub open spec fn silent(request: RequestV) -> Result<PlanV, OutcomeV> {
    Ok(PlanV { says: Seq::empty(), request })
}

pub open spec fn usage_profiles_outcome() -> OutcomeV {
    failed(USAGE_PROFILES@, 2)
}

pub fn usage_profiles() -> (r: Outcome)
    ensures
        r@ == usage_profiles_outcome(),
{
    fail_with(owned(USAGE_PROFILES), 2)
}

fn quietly(request: Request) -> (r: Plan)
    ensures
        r@ == (PlanV { says: Seq::empty(), request: request@ }),
{
    Plan { console: Console::new(), request }
}

/// A supplied `--user` carries a real name, not nothing and not a flag.
pub open spec fn user_flag_names_somebody(args: Seq<Seq<char>>) -> bool {
    flag_given(args, "--user"@) ==> (match flag_value(args, "--user"@) {
        Some(u) => u.len() > 0 && !("--"@.is_prefix_of(u)),
        None => false,
    })
}

pub open spec fn as_usize(o: Option<nat>) -> Option<usize> {
    match o {
        Some(n) => Some(n as usize),
        None => None,
    }
}

/// What is printed before scans are added.
pub open spec fn add_scan_says(profile: Seq<char>, scans: Option<usize>) -> Seq<SayV> {
    Seq::empty().push(SayV::Warn(APPROVE_CAPTURE@)).push(
        SayV::Warn(
            match scans {
                Some(n) if n > 1 => "[profiles] adding "@ + decimal(n as nat) + " scans to '"@
                    + profile + "'; stay in frame, vary your pose slightly\u{2026}"@,
                _ => "[profiles] adding a scan to '"@ + profile + "'; stay in frame\u{2026}"@,
            },
        ),
    ).push(SayV::Warn(ADD_SCAN_NOTE@))
}

pub open spec fn add_scan_plan(args: Seq<Seq<char>>, user: Seq<char>) -> Result<PlanV, OutcomeV> {
    match flag_value(args, "--profile"@) {
        Some(p) => match scans_asked(args) {
            Ok(n) => Ok(
                PlanV {
                    says: add_scan_says(p, as_usize(n)),
                    request: RequestV::AddScan {
                        user,
                        profile: p,
                        scans: as_usize(n),
                        report_enrollment: true,
                    },
                },
            ),
            Err(_) => Err(
                failed(
                    "["@ + "profiles"@ + (if flag_value(args, "--scans"@) is None {
                        "] --scans requires a count"@
                    } else {
                        "] --scans must be a positive integer"@
                    }),
                    2,
                ),
            ),
        },
        None => Err(usage_profiles_outcome()),
    }
}

pub open spec fn removal_says() -> Seq<SayV> {
    Seq::empty().push(SayV::Out(REMOVE_PROFILE_NOTE@)).push(SayV::Out(LAST_PROFILE_NOTE@))
}

pub open spec fn forget_model_plan(args: Seq<Seq<char>>, user: Seq<char>, legacy: Seq<char>) -> Result<
    PlanV,
    OutcomeV,
> {
    match profiles_positional(args) {
        Some(name) => match space_named(name, legacy) {
            Ok(space) => Ok(
                PlanV {
                    says: removal_says(),
                    request: RequestV::ForgetRecognizer { user, space },
                },
            ),
            Err(e) => Err(failed("[profiles] "@ + e, 2)),
        },
        None => Err(usage_profiles_outcome()),
    }
}

pub open spec fn remove_camera_plan(args: Seq<Seq<char>>, user: Seq<char>) -> Result<
    PlanV,
    OutcomeV,
> {
    match flag_value(args, "--group"@) {
        Some(group) => Ok(
            PlanV {
                says: Seq::empty().push(SayV::Out(REMOVE_CAMERA_NOTE@)),
                request: RequestV::RemoveCameraGroup { user, group },
            },
        ),
        None => if args.contains("--group"@) {
            Err(
                failed(
                    "[profiles] --group requires a camera group id (see `irlume profiles`)"@,
                    2,
                ),
            )
        } else {
            Err(usage_profiles_outcome())
        },
    }
}

/// A `--scan` with nothing after it never widens a deletion to the profile.
pub open spec fn delete_plan(args: Seq<Seq<char>>, user: Seq<char>) -> Result<PlanV, OutcomeV> {
    let profile = flag_value(args, "--profile"@);
    let scan = flag_value(args, "--scan"@);
    if args.contains("--scan"@) && scan is None {
        Err(failed("[profiles] --scan requires a scan name"@, 2))
    } else {
        match (profile, scan) {
            (Some(profile), Some(scan)) => silent(RequestV::DeleteScan { user, profile, scan }),
            (Some(profile), None) => Ok(
                PlanV {
                    says: removal_says(),
                    request: RequestV::DeleteProfile { user, profile },
                },
            ),
            _ => Err(usage_profiles_outcome()),
        }
    }
}

pub open spec fn rename_plan(args: Seq<Seq<char>>, user: Seq<char>) -> Result<PlanV, OutcomeV> {
    match (
        flag_value(args, "--profile"@),
        flag_value(args, "--scan"@),
        flag_value(args, "--name"@),
    ) {
        (Some(profile), Some(scan), Some(new_name)) => silent(
            RequestV::RenameScan { user, profile, scan, new_name },
        ),
        (Some(profile), None, Some(new_name)) => silent(
            RequestV::RenameProfile { user, profile, new_name },
        ),
        _ => Err(usage_profiles_outcome()),
    }
}

pub open spec fn eyes_open_plan(args: Seq<Seq<char>>, user: Seq<char>) -> Result<PlanV, OutcomeV> {
    match toggle(args, "eyes-open"@) {
        Some(false) => silent(RequestV::SetRequireEyesOpen { user, on: false }),
        Some(true) => Err(
            failed(
                "[profiles] eyes-open can only be turned off; this legacy gate cannot be enabled"@,
                2,
            ),
        ),
        None => if args.contains("eyes-open"@) {
            Err(eyes_open_usage())
        } else {
            Err(usage_profiles_outcome())
        },
    }
}

/// A setting that is neither on nor off: the setting's own usage line, then the
/// command's.
pub open spec fn eyes_open_usage() -> OutcomeV {
    OutcomeV {
        says: Seq::empty().push(
            SayV::Warn(
                "usage: irlume profiles eyes-open off [--user U] (one-release migration only)"@,
            ),
        ).push(SayV::Warn(USAGE_PROFILES@)),
        exit: 2,
    }
}

/// What a profiles subcommand asks of the daemon.
pub open spec fn profiles_plan(
    sub: Option<Seq<char>>,
    args: Seq<Seq<char>>,
    user: Seq<char>,
    legacy: Seq<char>,
) -> Result<PlanV, OutcomeV> {
    match sub {
        None => silent(RequestV::ListProfiles { user, structured_errors: false }),
        Some(s) => if s == "list"@ {
            silent(RequestV::ListProfiles { user, structured_errors: false })
        } else if s == "add-scan"@ {
            add_scan_plan(args, user)
        } else if s == "forget-model"@ {
            forget_model_plan(args, user, legacy)
        } else if s == "remove-camera"@ {
            remove_camera_plan(args, user)
        } else if s == "delete"@ {
            delete_plan(args, user)
        } else if s == "rename"@ {
            rename_plan(args, user)
        } else if s == "eyes-open"@ {
            eyes_open_plan(args, user)
        } else {
            Err(usage_profiles_outcome())
        },
    }
}

/// The account and what the command asks of the daemon about it.
pub open spec fn profiles_command(
    sub: Option<Seq<char>>,
    args: Seq<Seq<char>>,
    sudo_user: Option<Seq<char>>,
    user: Option<Seq<char>>,
    root: bool,
    legacy: Seq<char>,
) -> Result<PlanV, OutcomeV> {
    if !user_flag_names_somebody(args) {
        Err(failed("[profiles] --user requires a username"@, 2))
    } else {
        profiles_plan(sub, args, subject(args, sudo_user, user, root)->0, legacy)
    }
}

fn add_scan(args: &[String], user: String) -> (r: Result<Plan, Outcome>)
    ensures
        plan_result(r) == add_scan_plan(texts(args@), user@),
{
    match flag(args, "--profile") {
        Some(p) => {
            match scans_flag(args, "profiles") {
                Err(message) => Err(fail_with(message, 2)),
                Ok(scans) => {
                    let mut console = Console::new();
                    console.warn(owned(APPROVE_CAPTURE));
                    let many: Option<usize> = match scans {
                        Some(n) => {
                            if n > 1 {
                                Some(n)
                            } else {
                                None
                            }
                        },
                        None => None,
                    };
                    match many {
                        Some(n) => {
                            let count = dec(n as u64);
                            console.warn(
                                cat5(
                                    "[profiles] adding ",
                                    count.as_str(),
                                    " scans to '",
                                    p,
                                    "'; stay in frame, vary your pose slightly\u{2026}",
                                ),
                            );
                        },
                        None => {
                            console.warn(
                                cat3("[profiles] adding a scan to '", p, "'; stay in frame\u{2026}"),
                            );
                        },
                    }
                    console.warn(owned(ADD_SCAN_NOTE));
                    Ok(
                        Plan {
                            console,
                            request: Request::AddScan {
                                user,
                                profile: owned(p),
                                scans,
                                report_enrollment: true,
                            },
                        },
                    )
                },
            }
        },
        None => Err(usage_profiles()),
    }
}

fn removal_console() -> (c: Console)
    ensures
        c@ == removal_says(),
{
    let mut console = Console::new();
    console.out(owned(REMOVE_PROFILE_NOTE));
    console.out(owned(LAST_PROFILE_NOTE));
    console
}

fn forget_model(args: &[String], user: String, legacy: &str) -> (r: Result<Plan, Outcome>)
    ensures
        plan_result(r) == forget_model_plan(texts(args@), user@, legacy@),
{
    match positional_after_subcommand(args) {
        Some(name) => {
            match recognizer_space_for(name, legacy) {
                Ok(space) => Ok(
                    Plan {
                        console: removal_console(),
                        request: Request::ForgetRecognizer { user, space },
                    },
                ),
                Err(e) => Err(fail_with(cat2("[profiles] ", e.as_str()), 2)),
            }
        },
        None => Err(usage_profiles()),
    }
}

fn remove_camera(args: &[String], user: String) -> (r: Result<Plan, Outcome>)
    ensures
        plan_result(r) == remove_camera_plan(texts(args@), user@),
{
    match flag(args, "--group") {
        Some(group) => {
            let mut console = Console::new();
            console.out(owned(REMOVE_CAMERA_NOTE));
            Ok(Plan { console, request: Request::RemoveCameraGroup { user, group: owned(group) } })
        },
        None => {
            if has_arg(args, "--group") {
                Err(
                    fail_with(
                        owned(
                            "[profiles] --group requires a camera group id (see `irlume profiles`)",
                        ),
                        2,
                    ),
                )
            } else {
                Err(usage_profiles())
            }
        },
    }
}

fn delete(args: &[String], user: String) -> (r: Result<Plan, Outcome>)
    ensures
        plan_result(r) == delete_plan(texts(args@), user@),
{
    let scan = flag(args, "--scan");
    if has_arg(args, "--scan") && scan.is_none() {
        return Err(fail_with(owned("[profiles] --scan requires a scan name"), 2));
    }
    match (flag(args, "--profile"), scan) {
        (Some(p), Some(s)) => Ok(
            quietly(Request::DeleteScan { user, profile: owned(p), scan: owned(s) }),
        ),
        (Some(p), None) => Ok(
            Plan {
                console: removal_console(),
                request: Request::DeleteProfile { user, profile: owned(p) },
            },
        ),
        _ => Err(usage_profiles()),
    }
}

fn rename(args: &[String], user: String) -> (r: Result<Plan, Outcome>)
    ensures
        plan_result(r) == rename_plan(texts(args@), user@),
{
    match (flag(args, "--profile"), flag(args, "--scan"), flag(args, "--name")) {
        (Some(p), Some(s), Some(n)) => Ok(
            quietly(
                Request::RenameScan {
                    user,
                    profile: owned(p),
                    scan: owned(s),
                    new_name: owned(n),
                },
            ),
        ),
        (Some(p), None, Some(n)) => Ok(
            quietly(Request::RenameProfile { user, profile: owned(p), new_name: owned(n) }),
        ),
        _ => Err(usage_profiles()),
    }
}

fn eyes_open(args: &[String], user: String) -> (r: Result<Plan, Outcome>)
    ensures
        plan_result(r) == eyes_open_plan(texts(args@), user@),
{
    match toggle_value(args, "eyes-open") {
        Some(on) => {
            if on {
                Err(
                    fail_with(
                        owned(
                            "[profiles] eyes-open can only be turned off; this legacy gate cannot be enabled",
                        ),
                        2,
                    ),
                )
            } else {
                Ok(quietly(Request::SetRequireEyesOpen { user, on: false }))
            }
        },
        None => {
            if !has_arg(args, "eyes-open") {
                return Err(usage_profiles());
            }
            let mut console = Console::new();
            console.warn(
                owned("usage: irlume profiles eyes-open off [--user U] (one-release migration only)"),
            );
            console.warn(owned(USAGE_PROFILES));
            Err(Outcome { console, exit: 2 })
        },
    }
}

/// Reads `irlume profiles`: what to ask the daemon, or why nothing is asked.
/// `legacy` is the recognizer space of scans that carry no tag.
pub fn profiles(sub: Option<&str>, args: &[String], caller: &Caller, legacy: &str) -> (r: Result<
    Plan,
    Outcome,
>)
    ensures
        plan_result(r) == profiles_command(
            opt_slice(sub),
            texts(args@),
            opt_text(caller.sudo_user),
            opt_text(caller.user),
            caller.root,
            legacy@,
        ),
{
    let named = match flag(args, "--user") {
        Some(u) => !u.is_empty() && !starts_with(u, "--"),
        None => false,
    };
    if flag_present(args, "--user") && !named {
        return Err(fail_with(owned("[profiles] --user requires a username"), 2));
    }
    let user = match user_arg(args, caller) {
        Some(user) => user,
        None => {
            return Err(fail_with(owned("[profiles] --user requires a username"), 2));
        },
    };
    match sub {
        None => Ok(quietly(Request::ListProfiles { user, structured_errors: false })),
        Some(s) => {
            if same(s, "list") {
                Ok(quietly(Request::ListProfiles { user, structured_errors: false }))
            } else if same(s, "add-scan") {
                add_scan(args, user)
            } else if same(s, "forget-model") {
                forget_model(args, user, legacy)
            } else if same(s, "remove-camera") {
                remove_camera(args, user)
            } else if same(s, "delete") {
                delete(args, user)
            } else if same(s, "rename") {
                rename(args, user)
            } else if same(s, "eyes-open") {
                eyes_open(args, user)
            } else {
                Err(usage_profiles())
            }
        },
    }
}

/// A command line that writes `--scan` never deletes a whole profile, whether or
/// not a scan's name follows.
pub proof fn a_dangling_scan_never_deletes_a_profile(args: Seq<Seq<char>>, user: Seq<char>)
    requires
        args.contains("--scan"@),
    ensures
        delete_plan(args, user) matches Ok(p) ==> !(p.request is DeleteProfile),
{
}

/// Opens `profiles list --json`: the contract, and the arguments without it.
pub fn profiles_list(args: &[String]) -> (r: Result<(u32, Vec<String>), Reply>)
    ensures
        match r {
            Ok((v, rest)) => negotiated(texts(args@)) == Contract::Agreed(v)
                && profiles_list_args_valid(stripped(texts(args@))) && texts(rest@) == stripped(
                texts(args@),
            ),
            Err(reply) => opened_if(
                "profiles.list"@,
                texts(args@),
                profiles_list_args_valid(stripped(texts(args@))),
            ) == Err::<u32, ReplyV>(reply@),
        },
{
    match open_contract("profiles.list", args) {
        Err(reply) => Err(reply),
        Ok(v) => {
            let rest = without_contract(args);
            if valid_profiles_list_args(rest.as_slice()) {
                Ok((v, rest))
            } else {
                Err(refuse_usage("profiles.list", v))
            }
        },
    }
}

/// Scans are added to the profile that is named, as many as asked for, and to none
/// where no profile is named or the count cannot be read.
pub proof fn scans_are_added_as_asked(args: Seq<Seq<char>>, user: Seq<char>)
    ensures
        ({
            let r = add_scan_plan(args, user);
            &&& r is Ok <==> flag_value(args, "--profile"@) is Some && scans_asked(args) is Ok
            &&& r matches Err(o) ==> o.exit == 2
            &&& r matches Ok(p) ==> (p.request matches RequestV::AddScan {
                user: account,
                profile,
                scans,
                report_enrollment,
            } && account == user && Some(profile) == flag_value(args, "--profile"@)
                && report_enrollment && (scans matches Some(n) ==> scans_asked(args) == Ok::<
                Option<nat>,
                (),
            >(Some(n as nat))) && (scans is None ==> scans_asked(args) == Ok::<Option<nat>, ()>(
                None,
            )))
        }),
{
    crate::args::a_count_is_taken_as_written(args);
}

/// What a deletion asks for: the one scan of a profile where a scan is named, the
/// whole profile exactly where a profile is named and no scan is written at all, and
/// nothing otherwise.
pub proof fn a_deletion_asks_for_no_more_than_was_named(args: Seq<Seq<char>>, user: Seq<char>)
    ensures
        ({
            let r = delete_plan(args, user);
            let profile = flag_value(args, "--profile"@);
            let scan = flag_value(args, "--scan"@);
            &&& r is Ok <==> profile is Some && (scan is Some || !args.contains("--scan"@))
            &&& r matches Ok(p) ==> (if scan is Some {
                p.request == (RequestV::DeleteScan {
                    user,
                    profile: profile->0,
                    scan: scan->0,
                })
            } else {
                p.request == (RequestV::DeleteProfile { user, profile: profile->0 })
            })
            &&& r matches Err(o) ==> o.exit == 2
        }),
{
}

/// What is renamed is what was named, to the name that was given: the scan where one
/// is named, else the profile.
pub proof fn a_renaming_keeps_to_what_was_named(args: Seq<Seq<char>>, user: Seq<char>)
    ensures
        ({
            let r = rename_plan(args, user);
            let profile = flag_value(args, "--profile"@);
            let scan = flag_value(args, "--scan"@);
            let name = flag_value(args, "--name"@);
            &&& r is Ok <==> profile is Some && name is Some
            &&& r matches Ok(p) ==> (if scan is Some {
                p.request == (RequestV::RenameScan {
                    user,
                    profile: profile->0,
                    scan: scan->0,
                    new_name: name->0,
                })
            } else {
                p.request == (RequestV::RenameProfile {
                    user,
                    profile: profile->0,
                    new_name: name->0,
                })
            })
            &&& r matches Err(o) ==> o.exit == 2
        }),
{
}

/// A camera is removed exactly where its group is named, and that one; a legacy gate
/// can be turned off and never on.
pub proof fn only_a_named_camera_is_removed(args: Seq<Seq<char>>, user: Seq<char>)
    ensures
        remove_camera_plan(args, user) is Ok <==> flag_value(args, "--group"@) is Some,
        remove_camera_plan(args, user) matches Ok(p) ==> p.request == (RequestV::RemoveCameraGroup {
            user,
            group: flag_value(args, "--group"@)->0,
        }),
        remove_camera_plan(args, user) matches Err(o) ==> o.exit == 2,
        eyes_open_plan(args, user) is Ok <==> toggle(args, "eyes-open"@) == Some(false),
        eyes_open_plan(args, user) matches Ok(p) ==> p.request == (RequestV::SetRequireEyesOpen {
            user,
            on: false,
        }),
        eyes_open_plan(args, user) matches Err(o) ==> o.exit == 2,
{
}

/// A recognizer's face data are forgotten exactly where a recognizer is named that
/// is known, and that one's.
pub proof fn only_a_named_recognizer_is_forgotten(
    args: Seq<Seq<char>>,
    user: Seq<char>,
    legacy: Seq<char>,
)
    ensures
        ({
            let r = forget_model_plan(args, user, legacy);
            let name = profiles_positional(args);
            &&& r is Ok <==> name is Some && space_named(name->0, legacy) is Ok
            &&& r matches Ok(p) ==> p.request == (RequestV::ForgetRecognizer {
                user,
                space: space_named(name->0, legacy)->Ok_0,
            })
            &&& r matches Err(o) ==> o.exit == 2
        }),
{
}

/// Each profiles command has its own word; without one the profiles are listed, a
/// word that none has asks nothing, and a `--user` that names nobody stops all of
/// them.
pub proof fn each_profiles_command_has_its_word(
    args: Seq<Seq<char>>,
    user: Seq<char>,
    legacy: Seq<char>,
    sub: Seq<char>,
)
    ensures
        profiles_plan(None, args, user, legacy) == silent(
            RequestV::ListProfiles { user, structured_errors: false },
        ),
        profiles_plan(Some("list"@), args, user, legacy) == silent(
            RequestV::ListProfiles { user, structured_errors: false },
        ),
        profiles_plan(Some("add-scan"@), args, user, legacy) == add_scan_plan(args, user),
        profiles_plan(Some("forget-model"@), args, user, legacy) == forget_model_plan(
            args,
            user,
            legacy,
        ),
        profiles_plan(Some("remove-camera"@), args, user, legacy) == remove_camera_plan(args, user),
        profiles_plan(Some("delete"@), args, user, legacy) == delete_plan(args, user),
        profiles_plan(Some("rename"@), args, user, legacy) == rename_plan(args, user),
        profiles_plan(Some("eyes-open"@), args, user, legacy) == eyes_open_plan(args, user),
        sub != "list"@ && sub != "add-scan"@ && sub != "forget-model"@ && sub != "remove-camera"@
            && sub != "delete"@ && sub != "rename"@ && sub != "eyes-open"@ ==> profiles_plan(
            Some(sub),
            args,
            user,
            legacy,
        ) is Err,
{
    reveal_strlit("list");
    reveal_strlit("add-scan");
    reveal_strlit("forget-model");
    reveal_strlit("remove-camera");
    reveal_strlit("delete");
    reveal_strlit("rename");
    reveal_strlit("eyes-open");
    assert("list"@.len() == 4 && "add-scan"@.len() == 8 && "forget-model"@.len() == 12);
    assert("remove-camera"@.len() == 13 && "eyes-open"@.len() == 9);
    assert("delete"@.len() == 6 && "delete"@[0] == 'd');
    assert("rename"@.len() == 6 && "rename"@[0] == 'r');
}

/// A profiles command whose `--user` names nobody, or a flag, asks nothing; one that
/// names somebody asks about that account.
pub proof fn a_profiles_command_is_about_who_was_named(
    sub: Option<Seq<char>>,
    args: Seq<Seq<char>>,
    sudo_user: Option<Seq<char>>,
    user: Option<Seq<char>>,
    root: bool,
    legacy: Seq<char>,
)
    ensures
        flag_given(args, "--user"@) && flag_value(args, "--user"@) is None ==> (
        profiles_command(sub, args, sudo_user, user, root, legacy) matches Err(o) && o.exit == 2),
        flag_given(args, "--user"@) && flag_value(args, "--user"@) is Some ==> ({
            let u = flag_value(args, "--user"@)->0;
            let r = profiles_command(sub, args, sudo_user, user, root, legacy);
            if u.len() == 0 || "--"@.is_prefix_of(u) {
                r is Err && r->Err_0.exit == 2
            } else {
                r == profiles_plan(sub, args, u, legacy)
            }
        }),
{
}

/// One scan is announced as one however it was asked for, and several with their
/// number.
pub proof fn one_scan_is_announced_as_one(profile: Seq<char>, n: usize)
    ensures
        add_scan_says(profile, Some(1)) == add_scan_says(profile, None),
        n > 1 ==> add_scan_says(profile, Some(n))[1] == SayV::Warn(
            "[profiles] adding "@ + decimal(n as nat) + " scans to '"@ + profile
                + "'; stay in frame, vary your pose slightly\u{2026}"@,
        ),
{
}

} // verus!
