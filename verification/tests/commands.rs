use irlume_cli::args::Caller;
use irlume_cli::console::{Outcome, Say};
use irlume_cli::daemon::DaemonReach;
use irlume_cli::doctor::RecoveryFacts;
use irlume_cli::enroll::enroll;
use irlume_cli::hardware::SecureBoot;
use irlume_cli::keyring::{
    finish_token_arm, needs_rollback, refuse_password, report_status, Cleanup, EraseAnswer, Forget,
    ForgetStep, InfoAnswer, ReleaseAnswer, SecretKind,
};
use irlume_cli::models::removed_notice;
use irlume_cli::profiles::ProfileSummary;
use irlume_cli::profiles_cmd::profiles;
use irlume_cli::protocol::Request;
use irlume_cli::setup::{
    help, question, setup, yes_no, ArmEnd, SetupAction, SetupArm, SetupEnrollAnswer, SetupEvent,
    SetupState, HELP,
};
use irlume_cli::status::{
    detect, identify, irlumed_binary_in, status, EnrollmentAnswer, IdentifyAnswer, KeyringAnswer,
    StatusFacts,
};
use irlume_cli::upkeep::{
    biopolicy, biopolicy_value, deps, diag, diag_requests, pick_policy, prompt_login_password, report_biopolicy,
    report_biopolicy_set, report_load, report_reseal, reseal, selinux, selinux_present,
    selinux_status, BiopolicyCommand, DepFacts, DiagFacts, KeyringSeal, LoadResult, ModuleList,
    Replay, ResealAnswer, SealFile, SelinuxCommand, TemplateSeal,
};

fn argv(v: &[&str]) -> Vec<String> {
    v.iter().map(|s| s.to_string()).collect()
}

fn printed(o: &Outcome) -> String {
    let lines: Vec<&str> = o
        .console
        .lines
        .iter()
        .map(|l| match l {
            Say::Out(s) => s.as_str(),
            Say::Warn(s) => s.as_str(),
            Say::Part(s) => s.as_str(),
        })
        .collect();
    lines.join("\n")
}

fn alice() -> Caller {
    Caller {
        sudo_user: None,
        user: Some("alice".into()),
        root: false,
    }
}

#[test]
fn the_daemon_binary_is_found_wherever_the_distro_keeps_it() {
    let dirs = argv(&["/tmp/irlume-detect-path"]);
    assert!(!irlumed_binary_in(&dirs, |_: &str| false));
    assert!(!irlumed_binary_in(&[], |p: &str| p == "/tmp/irlume-detect-path/irlumed"));
    assert!(irlumed_binary_in(&[], |p: &str| p == "/usr/bin/irlumed"));
    assert!(
        irlumed_binary_in(&dirs, |p: &str| p == "/tmp/irlume-detect-path/irlumed"),
        "a daemon on PATH (a Nix profile link) is installed"
    );
    assert!(irlumed_binary_in(&argv(&["/opt/"]), |p: &str| p == "/opt/irlumed"));
}

#[test]
fn detect_answers_with_three_exit_codes() {
    let socket = "/run/irlume.sock";
    assert_eq!(detect(DaemonReach::Running, false, socket, true).exit, 0);
    assert_eq!(detect(DaemonReach::Running, false, socket, false).exit, 10);
    assert_eq!(detect(DaemonReach::Starting, true, socket, true).exit, 10);
    assert_eq!(detect(DaemonReach::Down, true, socket, false).exit, 10);
    assert_eq!(detect(DaemonReach::Down, false, socket, false).exit, 20);
    let denied = detect(DaemonReach::AccessDenied, false, socket, false);
    assert_eq!(denied.exit, 10);
    assert!(printed(&denied).contains("/run/irlume.sock (EACCES)"));
}

#[test]
fn identify_succeeds_only_on_a_match() {
    let found = identify(&IdentifyAnswer::Match {
        user: "alice".into(),
        profile: None,
        score: "0.712".into(),
    });
    assert_eq!(found.exit, 0);
    assert_eq!(
        printed(&found),
        "[identify] alice (profile '', score 0.712) \u{2705}"
    );
    let none = identify(&IdentifyAnswer::NoMatch {
        live: false,
        reason: "no face".into(),
    });
    assert_eq!(none.exit, 1);
    assert_eq!(printed(&none), "[identify] no match: no live face (no face)");
    assert_eq!(identify(&IdentifyAnswer::Refused("x".into())).exit, 1);
    assert_eq!(identify(&IdentifyAnswer::Unexpected("x".into())).exit, 1);
    assert_eq!(identify(&IdentifyAnswer::Failed("x".into())).exit, 1);
}

fn status_facts() -> StatusFacts {
    StatusFacts {
        user: "o'brien".into(),
        sensors: "dual".into(),
        reach: DaemonReach::Running,
        socket: "/run/irlume.sock".into(),
        method: "Face".into(),
        face_disabled: false,
        enrollment: EnrollmentAnswer::Profiles {
            profiles: vec![ProfileSummary {
                name: "P".into(),
                scans: argv(&["a", "b"]),
                scans_by_recognizer: vec![("embed:old".into(), 2)],
                live_recognizer: Some("embed:new".into()),
                ir: None,
                ir_lines: Vec::new(),
                needs_ir_capture: false,
            }],
            require_eyes_open: true,
        },
        keyring: KeyringAnswer::Info {
            armed: true,
            policy: Some("literal PCR 7".into()),
            drifted: Some(true),
        },
        recovery: Some(RecoveryFacts {
            encrypted: true,
            recovery_set: false,
            key_present: false,
            advice: "re-enroll".into(),
        }),
        preference_source: "daemon".into(),
        hands_free: "off".into(),
        biopolicy: None,
        forbid_external: Some(false),
        rgb: "/dev/video0".into(),
        ir: "none".into(),
        reader: None,
        reader_available: true,
    }
}

#[test]
fn status_calls_out_what_cannot_work() {
    let text = printed(&status(&status_facts()));
    assert!(text.contains("1 profile(s), 2 scan(s)"));
    assert!(text.contains("none of those scans belong to the recognizer that is loaded now"));
    assert!(text.contains("eyes-open off --user 'o'\"'\"'brien'"));
    assert!(text.contains("armed \u{2705}, literal PCR 7 PCR DRIFT"));
    assert!(text.contains("the TEMPLATE KEY IS MISSING \u{26a0} (re-enroll)"));
    assert!(text.contains("biopolicy     : unknown"));
    assert!(text.contains("external cams : allowed (default)"));
    assert!(text.contains("fingerprint   : present"));
}

#[test]
fn status_does_not_guess_without_a_daemon() {
    let mut f = status_facts();
    f.reach = DaemonReach::Down;
    f.enrollment = EnrollmentAnswer::Unreachable;
    f.keyring = KeyringAnswer::Unknown;
    f.recovery = None;
    let text = printed(&status(&f));
    assert!(text.contains("enrollment    : unknown (daemon unreachable)"));
    assert!(text.contains("keyring unlock: unknown"));
    assert!(!text.contains("templates"));
}

#[test]
fn deps_names_every_missing_part() {
    let mut f = DepFacts {
        loaded: false,
        ort_env: false,
        ort_on_disk: true,
        recognition: true,
        detection: true,
        tpm: true,
        video: true,
    };
    assert_eq!(deps(&f).exit, 0);
    f.detection = false;
    let missing = deps(&f);
    assert_eq!(missing.exit, 1);
    assert!(printed(&missing).contains("face_detection_yunet_2023mar.onnx: \u{2717} install"));
    f.loaded = true;
    assert_eq!(deps(&f).exit, 0, "a daemon that has loaded its models proves them");
}

#[test]
fn diag_tells_of_both_seals() {
    let mut f = DiagFacts {
        user: "alice".into(),
        tpm: None,
        boot_mode: "uki".into(),
        secure_boot: SecureBoot {
            present: true,
            enabled: false,
            setup_mode: false,
        },
        signed_policy: false,
        pcrlock: Some(0x2a),
        keyring_file: SealFile::Read {
            path: "/var/lib/irlume/alice".into(),
            policy: "literal".into(),
            pcrs: vec![7, 11],
            replay: Some(Replay::Drifted(vec![7])),
        },
        keyring: KeyringSeal::Armed,
        template_file: SealFile::Hidden,
        template: TemplateSeal::Status {
            encrypted: true,
            key_present: false,
            recovery_set: true,
        },
    };
    let text = printed(&diag(&f));
    assert!(text.contains("NV 0x2a"));
    assert!(text.contains("  keyring seal  : /var/lib/irlume/alice"));
    assert!(text.contains("bound PCRs [7, 11]"));
    assert!(text.contains("DRIFTED at [7]"));
    assert!(text.contains("template seal : MISSING \u{26a0} (recoverable"));
    f.keyring_file = SealFile::Corrupt;
    f.template_file = SealFile::Unreadable { kind: "Other".into() };
    let text = printed(&diag(&f));
    assert!(text.contains("keyring seal  : CORRUPT"));
    assert!(text.contains("template seal : UNREADABLE"));
}

#[test]
fn selinux_is_not_managed_where_there_is_none() {
    assert!(!selinux_present(false, false));
    assert_eq!(selinux(None, false).err().unwrap().exit, 0);
    assert_eq!(selinux(Some("load"), false).err().unwrap().exit, 1);
    assert_eq!(selinux(Some("wat"), true).err().unwrap().exit, 2);
    assert!(matches!(selinux(Some("load"), true), Ok(SelinuxCommand::Load)));
}

#[test]
fn an_empty_module_list_is_not_an_unloaded_module() {
    let list = |success, text: &str| {
        Some(ModuleList {
            success,
            text: text.into(),
        })
    };
    assert!(printed(&selinux_status(&None, "")).contains("unknown"));
    assert!(printed(&selinux_status(&list(true, ""), "")).contains("unknown"));
    assert!(printed(&selinux_status(&list(true, "foo\nbar\n"), "")).contains("not loaded"));
    assert!(printed(&selinux_status(&list(true, "foo\n irlume \n"), "")).contains(": loaded"));
    let labelled = selinux_status(&None, "system_u:object_r:irlume_runtime_t:s0 /run/irlume.sock\n");
    assert!(printed(&labelled).contains(": loaded"));
    assert!(matches!(
        labelled.console.lines.last(),
        Some(Say::Part(s))
            if s == "[selinux] socket label: system_u:object_r:irlume_runtime_t:s0 /run/irlume.sock\n"
    ));
    let unbroken = selinux_status(&None, "a:b");
    assert!(matches!(
        unbroken.console.lines.last(),
        Some(Say::Part(s)) if s == "[selinux] socket label: a:b"
    ));
    assert_eq!(selinux_status(&None, "? /run/irlume.sock\n").console.lines.len(), 1);
}

#[test]
fn the_daemon_is_asked_only_of_a_hidden_seal() {
    let (keyring, template) = diag_requests("alice", &SealFile::Hidden, &SealFile::Hidden);
    assert!(matches!(keyring, Some(Request::HasSealedPassword { user }) if user == "alice"));
    assert!(matches!(template, Some(Request::RecoveryStatus { user }) if user == "alice"));
    let (keyring, template) = diag_requests("alice", &SealFile::Corrupt, &SealFile::Hidden);
    assert!(keyring.is_none() && template.is_some());
    let broken = SealFile::Unreadable { kind: "Other".into() };
    let (keyring, template) = diag_requests("alice", &SealFile::Hidden, &broken);
    assert!(keyring.is_some() && template.is_none());
}

#[test]
fn a_named_policy_is_never_replaced_by_another() {
    let places = argv(&["/a.pp", "/b.pp"]);
    let there = vec![false, true];
    assert_eq!(pick_policy(None, &places, &there).as_deref(), Some("/b.pp"));
    assert_eq!(
        pick_policy(Some(("/mine.pp".into(), true)), &places, &there).as_deref(),
        Some("/mine.pp")
    );
    assert_eq!(
        pick_policy(Some(("/mine.pp".into(), false)), &places, &there),
        None
    );
}

#[test]
fn a_loaded_module_with_a_stale_label_is_a_failure() {
    assert_eq!(report_load(&LoadResult::Loaded { relabel: Ok(()) }).exit, 0);
    assert_eq!(
        report_load(&LoadResult::Loaded {
            relabel: Err("x".into())
        })
        .exit,
        1
    );
    assert_eq!(report_load(&LoadResult::Exited("1".into())).exit, 1);
    assert_eq!(report_load(&LoadResult::NotRun("x".into())).exit, 1);
}

#[test]
fn biopolicy_is_changed_by_root_without_an_override() {
    assert!(matches!(
        biopolicy(Some("on"), true, false),
        Ok(BiopolicyCommand::Change { on: true })
    ));
    assert!(matches!(biopolicy(None, false, true), Ok(BiopolicyCommand::Status)));
    assert_eq!(biopolicy(Some("on"), false, false).err().unwrap().exit, 1);
    assert_eq!(biopolicy(Some("off"), true, true).err().unwrap().exit, 1);
    assert_eq!(biopolicy(Some("wat"), true, false).err().unwrap().exit, 2);
    assert_eq!((biopolicy_value(true), biopolicy_value(false)), ("1", "0"));
    assert!(printed(&report_biopolicy(None, "daemon", true)).contains("environment override"));
    assert_eq!(report_biopolicy_set(true, &Ok(())).exit, 0);
    assert_eq!(report_biopolicy_set(true, &Err("x".into())).exit, 1);
}

#[test]
fn a_token_is_not_resealed_by_hand() {
    assert!(reseal("alice", Some(true), false).is_ok());
    assert_eq!(reseal("alice", Some(true), true).err().unwrap().exit, 0);
    assert_eq!(reseal("alice", Some(false), false).err().unwrap().exit, 2);
    assert_eq!(reseal("alice", None, false).err().unwrap().exit, 1);
    assert_eq!(report_reseal(&ResealAnswer::Sealed).exit, 0);
    assert_eq!(report_reseal(&ResealAnswer::Unexpected("x".into())).exit, 1);
    assert_eq!(report_reseal(&ResealAnswer::Failed("x".into())).exit, 1);
}

#[test]
fn a_password_is_confirmed_where_someone_can_retype_it() {
    assert!(prompt_login_password("pw", Some("pw")).is_none());
    assert!(prompt_login_password("pw", None).is_none());
    assert!(prompt_login_password("pw", Some("pv")).is_some());
    assert!(prompt_login_password("", None).is_some());
    assert!(refuse_password("pw", Some("pw")).is_none());
    assert!(refuse_password("pw", Some("pv")).is_some());
}

#[test]
fn a_question_is_answered_by_a_word_or_its_default() {
    assert!(yes_no(None, true));
    assert!(!yes_no(None, false));
    assert!(yes_no(Some(" YES \n"), false));
    assert!(yes_no(Some("\n"), true));
    assert!(!yes_no(Some("yep"), true));
    assert_eq!(question("Go?", false), "Go? [y/N] ");
}

#[test]
fn an_unattended_setup_enrolls_but_wipes_nothing() {
    let step = setup("alice", SetupState::Start, &SetupEvent::Daemon { up: true });
    assert!(matches!(step.action, SetupAction::Look));
    let look = |enrolled| {
        setup(
            "alice",
            SetupState::Checking,
            &SetupEvent::Found {
                rgb: "/dev/video0".into(),
                ir: "none".into(),
                enrolled,
            },
        )
    };
    let asked = look(true);
    assert!(matches!(asked.action, SetupAction::Ask { default_yes: false, .. }));
    let kept = setup("alice", asked.state, &SetupEvent::Typed(None));
    assert_eq!(kept.state, SetupState::AskedArm);
    let wiped = setup("alice", asked.state, &SetupEvent::Typed(Some("y".into())));
    assert!(matches!(
        wiped.action,
        SetupAction::Send(Request::Enroll { reset: true, .. })
    ));
    let fresh = setup("alice", look(false).state, &SetupEvent::Typed(None));
    assert!(matches!(
        fresh.action,
        SetupAction::Send(Request::Enroll { reset: false, .. })
    ));
    let next = setup(
        "alice",
        fresh.state,
        &SetupEvent::Enrolled(SetupEnrollAnswer::Enrolled {
            profile: "P".into(),
            created: true,
            total: 5,
            ambient_lit: Some(1),
        }),
    );
    assert_eq!(next.console.lines.len(), 3);
    let arming = setup("alice", next.state, &SetupEvent::Typed(None));
    assert!(matches!(arming.action, SetupAction::Arm));
    let recovery = setup(
        "alice",
        arming.state,
        &SetupEvent::Armed(ArmEnd::Answered(SetupArm::Armed)),
    );
    let closing = setup("alice", recovery.state, &SetupEvent::Typed(Some("n".into())));
    assert_eq!(closing.state, SetupState::Closing { recovery: false });
    let end = setup("alice", closing.state, &SetupEvent::Reader(None));
    assert_eq!(end.state, SetupState::Over { exit: 0 });
}

#[test]
fn setup_stops_without_a_daemon_or_a_salt() {
    let down = setup("alice", SetupState::Start, &SetupEvent::Daemon { up: false });
    assert_eq!(down.state, SetupState::Over { exit: 1 });
    let salt = setup(
        "alice",
        SetupState::Arming,
        &SetupEvent::Armed(ArmEnd::NoSalt("x".into())),
    );
    assert_eq!(salt.state, SetupState::Over { exit: 1 });
    let none = setup(
        "alice",
        SetupState::Arming,
        &SetupEvent::Armed(ArmEnd::NoPassword),
    );
    assert_eq!(none.state, SetupState::AskedRecovery);
}

#[test]
fn help_lists_the_commands() {
    assert_eq!(help().exit, 0);
    assert!(HELP.starts_with("irlume - local face authentication\n"));
    assert!(HELP.contains("login <status|enable|disable|reconcile>"));
    assert_eq!(removed_notice().exit, 2);
}

#[test]
fn a_dangling_scan_never_deletes_a_profile() {
    let refused = profiles(
        Some("delete"),
        &argv(&["profiles", "delete", "--profile", "P", "--scan"]),
        &alice(),
        "legacy",
    );
    assert!(refused.is_err());
    let plan = profiles(
        Some("delete"),
        &argv(&["profiles", "delete", "--profile", "P"]),
        &alice(),
        "legacy",
    )
    .ok()
    .unwrap();
    assert!(matches!(plan.request, Request::DeleteProfile { profile, .. } if profile == "P"));
}

#[test]
fn an_enrollment_resets_only_on_request() {
    let plan = enroll(&argv(&["enroll", "--scans", "4"]), &alice()).ok().unwrap();
    assert!(matches!(
        plan.request,
        Request::Enroll { reset: false, scans: Some(4), .. }
    ));
    let plan = enroll(&argv(&["enroll", "--reset"]), &alice()).ok().unwrap();
    assert!(matches!(plan.request, Request::Enroll { reset: true, .. }));
    assert!(enroll(&argv(&["enroll", "--scans", "none"]), &alice()).is_err());
}

#[test]
fn only_a_fresh_token_is_rolled_back() {
    assert!(needs_rollback(&Err("denied".into()), true));
    assert!(!needs_rollback(&Err("denied".into()), false));
    assert!(!needs_rollback(&Ok(()), true));
    assert!(finish_token_arm("alice", &Ok(()), None).is_ok());
    let kept = finish_token_arm("alice", &Err("denied".into()), None).unwrap_err();
    assert!(kept.contains("left in place"));
    let erased =
        finish_token_arm("alice", &Err("denied".into()), Some(Cleanup::Erased)).unwrap_err();
    assert!(erased.contains("rolled back"));
}

#[test]
fn a_token_is_rekeyed_back_before_it_is_forgotten() {
    let mut run = Forget::begin("alice".into(), false);
    let said = run.inspected(&InfoAnswer::Info {
        armed: true,
        kind: Some(SecretKind::GnomeKeyringToken),
    });
    assert!(said.is_ok());
    assert_eq!(run.step, ForgetStep::Password);
    assert!(run.password_read(Ok("pw")).is_none());
    assert!(run.released(&ReleaseAnswer::Released).is_none());
    assert_eq!(run.step, ForgetStep::Rekey);
    run.rekeyed_back(&Ok(()));
    assert_eq!(run.step, ForgetStep::Erase);
    assert_eq!(run.erased(&EraseAnswer::Forgotten).exit, 0);

    let mut run = Forget::begin("alice".into(), false);
    assert!(run
        .inspected(&InfoAnswer::Info {
            armed: true,
            kind: Some(SecretKind::GnomeKeyringToken),
        })
        .is_ok());
    assert!(run.password_read(Err("no terminal".into())).is_some());
    assert_eq!(run.step, ForgetStep::End);

    assert_eq!(report_status("alice", &InfoAnswer::Failed("x".into())).exit, 1);
}

#[test]
fn a_secret_of_unknown_kind_ends_a_forget_with_one() {
    for answer in [
        InfoAnswer::Info { armed: true, kind: None },
        InfoAnswer::Failed("no daemon".into()),
        InfoAnswer::Unexpected("?".into()),
    ] {
        let mut run = Forget::begin("alice".into(), false);
        let ended = match run.inspected(&answer) {
            Ok(_) => panic!("what nobody could identify is not erased"),
            Err(o) => o,
        };
        assert_eq!(ended.exit, 1);
        assert_eq!(run.step, ForgetStep::End);
        match ended.console.lines.last() {
            Some(Say::Warn(s)) => assert!(s.contains("or pass --force")),
            _ => panic!("the refusal says how to go on"),
        }
        let mut forced = Forget::begin("alice".into(), true);
        assert!(forced.inspected(&answer).is_ok());
        assert_eq!(forced.step, ForgetStep::Erase);
    }
    let mut run = Forget::begin("alice".into(), false);
    let idle = run.inspected(&InfoAnswer::Info { armed: false, kind: None });
    assert!(matches!(idle, Ok(c) if c.lines.is_empty()));
    assert_eq!(run.step, ForgetStep::Erase);
}
