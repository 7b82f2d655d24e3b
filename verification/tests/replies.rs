use irlume_cli::args::{fingerprint_sub, keyring_sub, profiles_sub, recovery_sub};
use irlume_cli::console::{Outcome, Say};
use irlume_cli::daemon::{observes, report_ok_response, DaemonReach, TextAnswer};
use irlume_cli::enroll::{report_add_camera, report_enroll, EnrollAnswer};
use irlume_cli::events::{auth_test, refuse_session, session_lock_dir, SessionRefusal};
use irlume_cli::json::Json;
use irlume_cli::keyring::{arm_intro, report_seal, report_token_arm, SealAnswer};
use irlume_cli::listing::{report_profiles, CameraGroupSummary, GroupRow, ProfilesAnswer};
use irlume_cli::machine::{
    camera_census, camera_census_reply, camera_diagnostics, login_status, models_list,
    support_report, support_report_reply, Answered, Collected, OperationErrorCode, Reply,
    SUPPORT_WINDOW,
};
use irlume_cli::models::{
    model_places, models_list_reply, resolve_model, resolve_model_candidate, Probe, StageStatus,
};
use irlume_cli::profiles::{profiles_list_reply, ProfileSummary};
use irlume_cli::profiles_cmd::profiles_list;
use irlume_cli::protocol::{request_seconds, Request};
use irlume_cli::release::ppa_index_url;
use irlume_cli::rollback::{
    snapshot_failed, Rollback, RollbackProgress, Target,
};
use irlume_cli::transaction::{
    login_verify_reply, Drift, Observed, SidecarRecord, SurfaceRecord, Transaction,
    TransactionStatus,
};
use irlume_cli::update::announce_step;

fn argv(v: &[&str]) -> Vec<String> {
    v.iter().map(|s| s.to_string()).collect()
}

fn printed(o: &Outcome) -> Vec<String> {
    o.console
        .lines
        .iter()
        .map(|l| match l {
            Say::Out(s) => format!("out {s}"),
            Say::Warn(s) => format!("warn {s}"),
            Say::Part(s) => format!("part {s}"),
        })
        .collect()
}

fn code(r: &Reply) -> &'static str {
    match &r.document.error {
        Some(e) => e.code,
        None => panic!("the reply is no failure"),
    }
}

fn data(r: &Reply) -> &Json {
    match &r.document.data {
        Some(j) => j,
        None => panic!("the reply holds no data"),
    }
}

fn text(j: Option<&Json>) -> &str {
    match j {
        Some(Json::Str(s)) => s,
        _ => panic!("not a string"),
    }
}

fn profile(name: &str, scans: &[&str]) -> ProfileSummary {
    ProfileSummary {
        name: name.into(),
        scans: argv(scans),
        scans_by_recognizer: Vec::new(),
        live_recognizer: None,
        ir: None,
        ir_lines: Vec::new(),
        needs_ir_capture: false,
    }
}

#[test]
fn each_family_finds_its_subcommand_past_its_flags() {
    assert_eq!(
        profiles_sub(&argv(&["profiles", "--user", "list", "delete"])),
        Some("delete")
    );
    assert_eq!(keyring_sub(&argv(&["keyring", "--user", "arm", "forget"])), Some("forget"));
    assert_eq!(recovery_sub(&argv(&["recovery", "--user", "bob", "setup"])), Some("setup"));
    assert_eq!(
        fingerprint_sub(&argv(&["fingerprint", "--user", "bob", "add"])),
        Some("add")
    );
    assert_eq!(keyring_sub(&argv(&["keyring"])), None);
}

#[test]
fn only_a_running_daemon_is_asked_further() {
    assert!(observes(DaemonReach::Running));
    assert!(!observes(DaemonReach::Starting));
    assert!(!observes(DaemonReach::AccessDenied));
    assert!(!observes(DaemonReach::Down));
}

#[test]
fn an_acknowledgement_is_the_only_success() {
    let done = report_ok_response("ir-setup", TextAnswer::Acknowledged("written".into()));
    assert_eq!((printed(&done), done.exit), (argv(&["out [ir-setup] written"]), 0));
    let refused = report_ok_response("ir-setup", TextAnswer::Refused("no camera".into()));
    assert_eq!((printed(&refused), refused.exit), (argv(&["warn [ir-setup] no camera"]), 1));
    let odd = report_ok_response("ir-setup", TextAnswer::Unexpected("Pong".into()));
    assert_eq!(printed(&odd), argv(&["warn [ir-setup] unexpected response Pong"]));
    let silent = report_ok_response("ir-setup", TextAnswer::Failed("timed out".into()));
    assert_eq!((printed(&silent), silent.exit), (argv(&["warn [ir-setup] timed out"]), 1));
}

#[test]
fn an_enrollment_tells_a_new_profile_from_a_known_face() {
    let fresh = report_enroll(EnrollAnswer::Enrolled {
        profile: "me".into(),
        created: true,
        added: 5,
        total: 5,
        ambient_lit: Some(0),
    });
    assert_eq!(
        (printed(&fresh), fresh.exit),
        (argv(&["out [enroll] enrolled 'me' with 5 scans"]), 0)
    );
    let known = report_enroll(EnrollAnswer::Enrolled {
        profile: "me".into(),
        created: false,
        added: 2,
        total: 7,
        ambient_lit: Some(3),
    });
    assert_eq!(known.exit, 0);
    let lines = printed(&known);
    assert_eq!(lines.len(), 2);
    assert_eq!(
        lines[0],
        "out [enroll] 3 scan(s) were lit mainly by the room, not provably by the IR emitter; dark-room login is unverified. Check it with the lights off: irlume identify"
    );
    assert_eq!(
        lines[1],
        "out [enroll] this face is already enrolled as 'me'; added 2 scans to it (7 total). A face can only own one profile; to strengthen recognition use `irlume profiles add-scan --profile 'me'`."
    );
    let refused = report_enroll(EnrollAnswer::Refused("no face".into()));
    assert_eq!((printed(&refused), refused.exit), (argv(&["warn enroll failed: no face"]), 1));
    let failed = report_enroll(EnrollAnswer::Failed("no daemon".into()));
    assert_eq!((printed(&failed), failed.exit), (argv(&["warn enroll: no daemon"]), 1));
    let odd = report_enroll(EnrollAnswer::Unexpected("Pong".into()));
    assert_eq!(printed(&odd), argv(&["warn enroll: unexpected response Pong"]));
}

#[test]
fn an_added_camera_is_reported_with_how_to_manage_it() {
    let added = report_add_camera(TextAnswer::Acknowledged("group abc added".into()));
    assert_eq!(
        (printed(&added), added.exit),
        (
            argv(&[
                "out [add-camera] group abc added",
                "out [add-camera] manage groups with `irlume profiles` (listing shows every enrolled camera)",
            ]),
            0
        )
    );
    let refused = report_add_camera(TextAnswer::Refused("declined".into()));
    assert_eq!(
        (printed(&refused), refused.exit),
        (argv(&["warn add-camera failed: declined"]), 1)
    );
}

#[test]
fn a_session_refusal_says_whether_to_retry() {
    let busy = refuse_session(SessionRefusal::Busy, 1);
    assert_eq!((code(&busy), busy.exit), ("session-busy", 2));
    assert!(busy.document.error.as_ref().is_some_and(|e| e.retryable));
    let broken = refuse_session(SessionRefusal::Unavailable, 1);
    assert_eq!((code(&broken), broken.exit), ("operation-failed", 2));
    assert!(!broken.document.error.as_ref().is_some_and(|e| e.retryable));
    assert_eq!(session_lock_dir(&Some("/run/user/1000".into()), 7), "/run/user/1000");
    assert_eq!(session_lock_dir(&None, 1000), "/tmp/irlume-1000");
}

#[test]
fn auth_test_opens_on_its_own_arguments() {
    let asked = argv(&["auth", "test", "--contract", "1", "--events=jsonl", "--user", "bob"]);
    match auth_test(&asked) {
        Ok((contract, rest)) => {
            assert_eq!(contract, 1);
            assert_eq!(rest, argv(&["auth", "test", "--events=jsonl", "--user", "bob"]));
        }
        Err(_) => panic!("the arguments are valid"),
    }
    match auth_test(&argv(&["auth", "test"])) {
        Ok(_) => panic!("the events flag is missing"),
        Err(r) => assert_eq!((code(&r), r.exit), ("usage-error", 2)),
    }
}

#[test]
fn arming_ends_at_once_unless_a_token_came_back() {
    assert!(arm_intro("bob").starts_with(
        "[keyring] Arming face-driven keyring unlock for 'bob'.\nEnter this user's LOGIN password."
    ));
    match report_seal(&SealAnswer::Sealed) {
        Some(o) => {
            assert_eq!(o.exit, 0);
            assert_eq!(
                printed(&o),
                argv(&[
                    "out [keyring] \u{2705} armed. After a face login, your wallet will unlock automatically.",
                    "out [keyring] NOTE: if you change your login password, re-run `irlume keyring arm`.",
                ])
            );
        }
        None => panic!("a sealed password ends the command"),
    }
    assert!(report_seal(&SealAnswer::Token { minted: true }).is_none());
    match report_seal(&SealAnswer::Refused("no TPM".into())) {
        Some(o) => assert_eq!(
            (printed(&o), o.exit),
            (argv(&["warn [keyring] arm failed: no TPM"]), 1)
        ),
        None => panic!("a refusal ends the command"),
    }
    let armed = report_token_arm(&Ok(()));
    assert_eq!((printed(&armed).len(), armed.exit), (2, 0));
    let failed = report_token_arm(&Err("keyring re-key failed".into()));
    assert_eq!(
        (printed(&failed), failed.exit),
        (argv(&["warn [keyring] keyring re-key failed"]), 1)
    );
}

#[test]
fn a_listing_names_profiles_scans_and_cameras() {
    let o = report_profiles(
        ProfilesAnswer::Enrollment {
            profiles: vec![profile("me", &["front", "left"])],
            require_eyes_open: false,
            camera_groups: vec![CameraGroupSummary {
                id: "usb-1".into(),
                selected: false,
                connected: true,
                stale: false,
                profiles: vec![GroupRow {
                    profile: "me".into(),
                    scans: 3,
                    calibrated: true,
                    calibration_fittable: true,
                    capture_target_met: true,
                }],
            }],
            camera_store_error: None,
        },
        "bob",
        5,
    );
    assert_eq!(o.exit, 0);
    let all = printed(&o).join("\n");
    assert!(all.contains("me"), "{all}");
    assert!(all.contains("front"), "{all}");
    assert!(all.contains("usb-1"), "{all}");
    let added = report_profiles(
        ProfilesAnswer::Enrolled {
            added: 2,
            total: 6,
            added_scans: argv(&["a", "b"]),
            ambient_lit: None,
        },
        "bob",
        5,
    );
    assert_eq!(
        printed(&added),
        argv(&["out [profiles] added 2 scan(s) (6 for the loaded recognizer): a, b"])
    );
    let refused = report_profiles(ProfilesAnswer::Refused("no such profile".into()), "bob", 5);
    assert_eq!(
        (printed(&refused), refused.exit),
        (argv(&["warn [profiles] no such profile"]), 1)
    );
}

#[test]
fn camera_commands_take_no_further_arguments() {
    assert!(camera_census(&argv(&["camera", "census", "--json"])).is_ok());
    assert!(camera_census(&argv(&["camera", "census", "--json", "--contract", "1"])).is_ok());
    assert!(camera_census(&argv(&["camera", "census", "--json", "extra"])).is_err());
    assert!(camera_diagnostics(&argv(&["camera", "diagnostics", "--json"])).is_ok());
    match camera_diagnostics(&argv(&["camera", "diagnostics", "--json", "--contract", "9"])) {
        Ok(_) => panic!("no such contract"),
        Err(r) => assert_eq!((code(&r), r.exit), ("unsupported-contract", 2)),
    }
    assert!(login_status(&argv(&["login", "status", "--json"])).is_ok());
    assert!(login_status(&argv(&["login", "--json", "status"])).is_err());
    assert!(models_list(&argv(&["models", "list", "--json"])).is_ok());
    let r = camera_census_reply(&None, "[]", 1);
    assert!(matches!(data(&r).get("listing_error"), Some(Json::Null)));
    assert!(matches!(data(&r).get("entries"), Some(Json::Raw(s)) if s == "[]"));
    let r = camera_census_reply(&Some("EACCES".into()), "[]", 1);
    assert_eq!(text(data(&r).get("listing_error")), "EACCES");
}

#[test]
fn a_support_report_is_one_document() {
    match support_report(&argv(&["support-report", "--since", "5m", "--json"])) {
        Ok((contract, since)) => {
            assert_eq!((contract, since), (1, Some("5m".to_string())));
        }
        Err(_) => panic!("the arguments are valid"),
    }
    assert!(support_report(&argv(&["support-report", "--since", "5m"])).is_err());
    assert!(support_report(&argv(&["support-report", "--json", "--json"])).is_err());
    let whole = support_report_reply(Collected::Report(Json::raw("{\"a\":1}")), 1);
    assert_eq!(whole.exit, 0);
    assert!(matches!(data(&whole), Json::Raw(s) if s == "{\"a\":1}"));
    let none = support_report_reply(Collected::NotWritten, 1);
    assert_eq!((code(&none), none.exit), ("operation-failed", 1));
    let unread = support_report_reply(Collected::UnreadableSince, 1);
    assert_eq!((code(&unread), unread.exit), ("usage-error", 2));
    assert!(!unread.document.ok && unread.document.data.is_none());
    assert_eq!(SUPPORT_WINDOW, 600);
}

#[test]
fn the_first_present_model_is_the_candidate_even_unreadable() {
    let places = model_places("glintr100.onnx", Some("/opt/m.onnx".into()));
    let paths: Vec<&str> = places.iter().map(|p| p.path.as_str()).collect();
    assert_eq!(
        paths,
        vec![
            "/opt/m.onnx",
            "/usr/share/irlume/models/glintr100.onnx",
            "/usr/lib/irlume/models/glintr100.onnx",
            "models/glintr100.onnx",
        ]
    );
    assert_eq!(places[0].origin, "caller-env");
    assert_eq!(places[1].origin, "shipped");
    let probes = vec![Probe::NotFound, Probe::Unreadable, Probe::Readable, Probe::NotFound];
    match resolve_model_candidate(&places, &probes) {
        Some(c) => {
            assert_eq!(c.path, "/usr/share/irlume/models/glintr100.onnx");
            assert_eq!(c.origin, "shipped");
            assert!(!c.readable);
            assert!(resolve_model(Some(c)).is_none());
        }
        None => panic!("a file is there"),
    }
    let probes = vec![Probe::Readable, Probe::NotFound, Probe::NotFound, Probe::NotFound];
    let found = resolve_model_candidate(&places, &probes);
    assert_eq!(resolve_model(found), Some("/opt/m.onnx".to_string()));
    let probes = vec![Probe::NotFound, Probe::NotFound, Probe::NotFound, Probe::NotFound];
    assert!(resolve_model_candidate(&places, &probes).is_none());
}

#[test]
fn models_are_listed_under_their_command() {
    let r = models_list_reply(
        &vec![StageStatus {
            stage: "recognition",
            file: Some("glintr100.onnx"),
            resolved: None,
            required: true,
        }],
        1,
    );
    assert_eq!((r.document.command, r.exit), ("models.list", 0));
    match data(&r).get("stages") {
        Some(Json::Arr(a)) => {
            assert_eq!(a.items.len(), 2);
            assert_eq!(text(a.items[0].get("stage")), "recognition");
            assert_eq!(text(a.items[1].get("stage")), "pad");
        }
        _ => panic!("no stages"),
    }
}

#[test]
fn profiles_are_listed_or_the_daemons_refusal_is_passed_on() {
    match profiles_list(&argv(&["profiles", "list", "--json", "--user", "bob"])) {
        Ok((contract, rest)) => {
            assert_eq!(contract, 1);
            assert_eq!(rest, argv(&["profiles", "list", "--json", "--user", "bob"]));
        }
        Err(_) => panic!("the arguments are valid"),
    }
    assert!(profiles_list(&argv(&["profiles", "list"])).is_err());
    let r = profiles_list_reply(Answered::Payload(vec![profile("me", &["front"])]), true, 1);
    assert_eq!((r.document.command, r.exit), ("profiles.list", 0));
    assert!(matches!(data(&r).get("require_eyes_open"), Some(Json::Bool(false))));
    let busy = profiles_list_reply(
        Answered::Refused {
            code: OperationErrorCode::CameraBusy,
            retryable: true,
        },
        false,
        1,
    );
    assert_eq!((code(&busy), busy.exit), ("camera-busy", 1));
    let gone = profiles_list_reply(Answered::Unavailable, false, 1);
    assert_eq!(code(&gone), "daemon-unavailable");
    assert!(gone.document.error.as_ref().is_some_and(|e| e.retryable));
}

#[test]
fn requests_that_change_trust_wait_longer() {
    let user = "bob".to_string();
    assert_eq!(request_seconds(&Request::RecoverySetup { user: user.clone() }), 380);
    assert_eq!(
        request_seconds(&Request::DeleteProfile {
            user: user.clone(),
            profile: "me".into()
        }),
        380
    );
    assert_eq!(request_seconds(&Request::Authenticate { user }), 120);
    assert_eq!(request_seconds(&Request::Ping), 120);
}

#[test]
fn the_package_index_is_asked_for_by_series_and_architecture() {
    assert_eq!(
        ppa_index_url("noble", "x86_64"),
        "https://ppa.launchpadcontent.net/archledger/irlume/ubuntu/dists/noble/main/binary-amd64/Packages.gz"
    );
    assert!(ppa_index_url("noble", "aarch64").contains("/binary-arm64/"));
    let step = argv(&["apt", "update"]);
    assert_eq!(announce_step(true, &step), "  $ apt update");
    assert_eq!(announce_step(false, &step), "  $ sudo apt update");
}

fn surface() -> SurfaceRecord {
    SurfaceRecord {
        id: "sddm".into(),
        path: "/etc/pam.d/sddm".into(),
        change: "wire".into(),
        before: Some("auth".into()),
        after_sha256: "aa".into(),
        mode: Some(0o644),
        uid: Some(0),
        gid: Some(0),
        sidecar: Some(SidecarRecord {
            path: "/etc/pam.d/sddm.bak".into(),
            after_sha256: "bb".into(),
            before: None,
            mode: Some(0o600),
            uid: Some(0),
            gid: None,
        }),
    }
}

#[test]
fn a_backup_is_restored_with_the_metadata_it_has_in_full() {
    let failed = snapshot_failed("login.rollback", 1);
    assert_eq!((code(&failed), failed.exit), ("operation-failed", 1));
    assert!(failed.document.error.as_ref().is_some_and(|e| e.retryable));
    let (run, _) = Rollback::resume(
        "login.rollback",
        1,
        "id".into(),
        "enable".into(),
        false,
        None,
        vec![Target {
            surface: surface(),
            managed: true,
            sidecar_managed: true,
            sidecar_key: "sddm:sidecar".into(),
        }],
        RollbackProgress {
            started: Vec::new(),
            done: Vec::new(),
        },
    );
    let live = run.live_restore(0);
    assert_eq!(live.path, "/etc/pam.d/sddm");
    assert_eq!(live.before.as_deref(), Some("auth"));
    assert_eq!(live.metadata, Some((0o644, 0, 0)));
    match run.sidecar_restore(0) {
        Some(r) => {
            assert_eq!(r.path, "/etc/pam.d/sddm.bak");
            assert_eq!(r.before, None);
            assert_eq!(r.metadata, None);
        }
        None => panic!("the surface has a backup"),
    }
}

#[test]
fn verify_states_whether_a_rollback_would_be_accepted() {
    let record = Transaction {
        id: "0123".into(),
        schema_version: 1,
        status: TransactionStatus::Applied,
        action: "enable".into(),
        plan_id: "abcd".into(),
        engine_version: "0.1.0".into(),
        surfaces: vec![surface()],
    };
    let moved = [Observed {
        id: "sddm".into(),
        drift: Drift::ChangedSinceApply,
    }];
    let steady = [Observed {
        id: "sddm".into(),
        drift: Drift::AsApplied,
    }];
    let restored = RollbackProgress {
        started: argv(&["sddm"]),
        done: argv(&["sddm"]),
    };
    let r = login_verify_reply(&record, &moved, &steady, &restored, 1);
    assert_eq!(r.exit, 0);
    assert_eq!(text(data(&r).get("status")), "applied");
    assert!(matches!(data(&r).get("drifted"), Some(Json::Num(1))));
    assert!(matches!(data(&r).get("rollback_available"), Some(Json::Bool(true))));
    let r = login_verify_reply(&record, &moved, &moved, &restored, 1);
    assert!(matches!(data(&r).get("rollback_available"), Some(Json::Bool(false))));
}
