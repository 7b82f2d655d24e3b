use irlume_cli::args::Caller;
use irlume_cli::capture::CaptureModeReport;
use irlume_cli::console::Say;
use irlume_cli::doctor::{
    doctor, doctor_reply, doctor_requests, doctor_run, doctor_wants_check, report_groups,
    report_polkit_sandbox, DoctorFacts, EnrollmentFacts, FingerprintFacts, GroupHealth, PolkitFacts, RecoveryFacts,
    WiringFacts,
};
use irlume_cli::hardware::{
    report_stage, selected_stream_minimum_checks, stream_minimum_checks, tpm_device, CameraFacts,
    ModelFacts, PendingSummary, PlatformFacts, SealFacts, SecureBoot, Stream, StreamLook,
    StreamMinimum,
};
use irlume_cli::json::Json;
use irlume_cli::models::ModelCandidate;
use irlume_cli::protocol::Request;
use irlume_cli::release::InstallOrigin;
use irlume_cli::report::{Report, State};

fn minimum() -> StreamMinimum {
    StreamMinimum {
        width: 340,
        height: 340,
        fps: "15".into(),
    }
}

fn state(report: &Report, id: &str) -> State {
    let found: Vec<State> = report
        .checks
        .iter()
        .filter(|c| c.id == id)
        .map(|c| c.state)
        .collect();
    assert_eq!(found.len(), 1, "{id} must appear exactly once");
    found[0]
}

#[test]
fn doctor_check_flag_is_an_expact_match_not_a_prefix() {
    assert!(doctor_wants_check(&["--check".to_string()]));
    assert!(doctor_wants_check(&[
        "doctor".to_string(),
        "--check".to_string()
    ]));
    assert!(!doctor_wants_check(&[]));
    assert!(!doctor_wants_check(&["--checkout".to_string()]));
    assert!(!doctor_wants_check(&["--check=1".to_string()]));
}

#[test]
fn stream_minimum_checks_emit_both_ids_even_with_no_nodes() {
    let mut report = Report::new();
    stream_minimum_checks(
        &mut report,
        &StreamLook::NoNode,
        &minimum(),
        &StreamLook::NoNode,
        &minimum(),
    );
    for id in ["ir-stream-hello-minimum", "rgb-stream-hello-minimum"] {
        assert_eq!(
            report.checks.iter().filter(|c| c.id == id).count(),
            1,
            "{id} must appear exactly once"
        );
    }
}

#[test]
fn selected_stream_minimum_checks_emit_both_ids_when_selection_finds_no_pair() {
    let mut report = Report::new();
    selected_stream_minimum_checks(&mut report, None, &minimum(), &minimum());
    for id in ["ir-stream-hello-minimum", "rgb-stream-hello-minimum"] {
        assert_eq!(
            report.checks.iter().filter(|check| check.id == id).count(),
            1,
            "{id} must remain present when no camera pair is selected"
        );
    }
}

#[test]
fn a_stream_below_the_minimum_warns_and_an_unreadable_one_does_not() {
    let stream = |meets: Option<bool>, fps: Option<&str>| {
        StreamLook::Negotiated(Stream {
            width: 640,
            height: 360,
            fps: fps.map(|s| s.to_string()),
            fourcc: "GREY".into(),
            meets,
        })
    };
    let mut report = Report::new();
    selected_stream_minimum_checks(
        &mut report,
        Some((StreamLook::Unreadable("busy".into()), stream(Some(false), Some("14.90")))),
        &minimum(),
        &minimum(),
    );
    assert_eq!(state(&report, "ir-stream-hello-minimum"), State::Warn);
    assert_eq!(state(&report, "rgb-stream-hello-minimum"), State::Unknown);
    assert_eq!(report.checks[0].detail.as_deref(), Some("640x360@14.90fps GREY"));
    assert!(report.lines[0].contains("Windows Hello minimum 340x340@15fps"));

    let mut report = Report::new();
    selected_stream_minimum_checks(
        &mut report,
        Some((stream(Some(true), Some("30.00")), stream(None, None))),
        &minimum(),
        &minimum(),
    );
    assert_eq!(state(&report, "ir-stream-hello-minimum"), State::Info);
    assert_eq!(report.checks[0].detail.as_deref(), Some("640x360 GREY"));
    assert_eq!(state(&report, "rgb-stream-hello-minimum"), State::Pass);
}

fn facts() -> DoctorFacts {
    DoctorFacts {
        user: "alice".into(),
        platform: PlatformFacts {
            family: "fedora".into(),
            origin: InstallOrigin::Copr,
            tpm: Some("/dev/tpmrm0".into()),
            secure_boot: SecureBoot {
                present: true,
                enabled: true,
                setup_mode: false,
            },
            boot_mode: "uki".into(),
        },
        seals: SealFacts {
            setup_ledger: PendingSummary::Clear,
            stream_ledger: PendingSummary::Clear,
            capture: CaptureModeReport::Unmeasured,
            signed_policy: true,
            pcrlock: Some(0x1c20fed),
        },
        cameras: CameraFacts {
            infrared: vec![false, true],
            listing_error: None,
            other_nodes: false,
            census: vec!["/dev/video0 rgb".into()],
            support_note: "paired sensors".into(),
        },
        streams: None,
        ir_minimum: minimum(),
        rgb_minimum: minimum(),
        models: ModelFacts {
            loaded: true,
            detection: candidate(true),
            recognition: candidate(true),
            ort_path: String::new(),
            runtime: None,
            runtime_verdict: Ok("1.24.1".into()),
        },
        fingerprint: FingerprintFacts {
            names: Vec::new(),
            available: false,
            fprintd: false,
            bus_owner: None,
            stuck: false,
            shares_faillock: false,
            in_sudo: false,
            sshd: false,
        },
        recovery: Some(RecoveryFacts {
            encrypted: true,
            recovery_set: true,
            key_present: true,
            advice: "restore".into(),
        }),
        polkit: PolkitFacts {
            wired: Some(false),
            bitwarden_action: false,
            bitwarden_app: false,
            helper_unit: None,
            helper_socket_active: false,
        },
        secrets: Report::new(),
        enrollment: EnrollmentFacts {
            enrolled: true,
            ir_ratio_calibrated: true,
            groups: Vec::new(),
            store_error: None,
        },
        ir_pair: true,
        wiring: WiringFacts {
            active_login: true,
            any_login: true,
            display_manager: Some(("sddm".into(), true)),
            hides_instructions: false,
            authselect_active: true,
            pam_auth_update: false,
            watcher_active: true,
        },
        strays: Report::new(),
    }
}

fn candidate(readable: bool) -> Option<ModelCandidate> {
    Some(ModelCandidate {
        path: "/usr/share/irlume/models/m.onnx".into(),
        origin: "shipped",
        readable,
    })
}

const EVERY_CHECK: [&str; 29] = [
    "platform",
    "install-origin",
    "tpm",
    "secure-boot",
    "boot-mode",
    "emitter-undo-pending",
    "emitter-stream-pending",
    "capture-mode",
    "signed-pcr-policy",
    "pcrlock",
    "camera-nodes",
    "ir-stream-hello-minimum",
    "rgb-stream-hello-minimum",
    "models",
    "ort-dylib-path",
    "onnxruntime",
    "stage-detection-model",
    "stage-recognition-model",
    "fingerprint-reader",
    "templates",
    "recovery-passphrase",
    "credential-release-challenge",
    "polkit-app-prompts",
    "polkit-helper-sandbox",
    "camera-groups",
    "ir-calibration",
    "login-wiring",
    "display-manager",
    "pam-regeneration-guard",
];

#[test]
fn a_healthy_machine_reports_every_check_and_no_fault() {
    let report = doctor_run(facts());
    let ids: Vec<&str> = report.checks.iter().map(|c| c.id.as_str()).collect();
    assert_eq!(ids, EVERY_CHECK);
    assert_eq!(report.summary().check_exit_code(), 0);
    assert!(report.lines.iter().any(|l| l.contains("NV 0x1c20fed")));
    assert!(!report.lines.iter().any(|l| l.contains("summary")));
    let shown = doctor(&["doctor".to_string(), "--check".to_string()], &report);
    assert_eq!(shown.exit, 0);
    assert_eq!(shown.console.lines.len(), report.lines.len());
}

#[test]
fn a_broken_machine_reports_the_same_checks() {
    let mut f = facts();
    f.platform.tpm = None;
    f.platform.secure_boot.enabled = false;
    f.platform.secure_boot.setup_mode = true;
    f.seals.setup_ledger = PendingSummary::Pending(vec!["a".into(), "b".into()]);
    f.seals.stream_ledger = PendingSummary::Unreadable("root only".into());
    f.seals.signed_policy = false;
    f.seals.pcrlock = None;
    f.cameras.infrared = Vec::new();
    f.models.loaded = false;
    f.models.detection = None;
    f.models.recognition = candidate(false);
    f.models.runtime_verdict = Err("too old".into());
    f.recovery = None;
    f.polkit.wired = None;
    f.enrollment.ir_ratio_calibrated = false;
    f.wiring.active_login = false;
    f.wiring.any_login = false;
    f.wiring.display_manager = Some(("newdm".into(), false));
    let report = doctor_run(f);
    let ids: Vec<&str> = report.checks.iter().map(|c| c.id.as_str()).collect();
    assert_eq!(ids, EVERY_CHECK);
    for id in ["tpm", "camera-nodes", "models", "onnxruntime", "stage-detection-model"] {
        assert_eq!(state(&report, id), State::Fail, "{id}");
    }
    for id in ["secure-boot", "emitter-undo-pending", "ir-calibration", "login-wiring"] {
        assert_eq!(state(&report, id), State::Warn, "{id}");
    }
    for id in ["templates", "recovery-passphrase", "emitter-stream-pending", "polkit-app-prompts"] {
        assert_eq!(state(&report, id), State::Unknown, "{id}");
    }
    assert_eq!(report.summary().check_exit_code(), 2);
    let shown = doctor(&["doctor".to_string()], &report);
    assert_eq!(shown.exit, 0, "the verdict is an exit code only on request");
    match shown.console.lines.last() {
        Some(Say::Out(s)) => assert!(s.starts_with("[doctor] summary: ")),
        _ => panic!("a report with faults ends with a summary"),
    }
    assert_eq!(doctor(&["--check".to_string()], &report).exit, 2);
}

#[test]
fn a_warning_alone_is_a_verdict_of_one() {
    let mut f = facts();
    f.enrollment.ir_ratio_calibrated = false;
    let report = doctor_run(f);
    let summary = report.summary();
    assert_eq!((summary.warnings, summary.failures), (1, 0));
    assert_eq!(summary.check_exit_code(), 1);
}

#[test]
fn an_unreadable_required_model_is_not_a_pass() {
    let mut report = Report::new();
    report_stage(&mut report, "landmarks", "stage-landmarks-model", "l.onnx", false, &candidate(false));
    report_stage(&mut report, "detection", "stage-detection-model", "d.onnx", true, &candidate(false));
    report_stage(&mut report, "recognition", "stage-recognition-model", "r.onnx", false, &None);
    assert_eq!(state(&report, "stage-landmarks-model"), State::Warn);
    assert_eq!(state(&report, "stage-detection-model"), State::Fail);
    assert_eq!(state(&report, "stage-recognition-model"), State::Warn);
}

#[test]
fn only_an_active_helper_that_hides_run_warns() {
    let sandbox = |unit: Option<&str>, active: bool| {
        let mut report = Report::new();
        report_polkit_sandbox(&mut report, &unit.map(|s| s.to_string()), active);
        state(&report, "polkit-helper-sandbox")
    };
    assert_eq!(sandbox(None, true), State::Info);
    assert_eq!(sandbox(Some("[Service]\nProtectSystem=strict\n"), true), State::Pass);
    assert_eq!(
        sandbox(Some("[Service]\n  InaccessiblePaths=/run /home\n"), true),
        State::Warn
    );
    assert_eq!(
        sandbox(Some("[Service]\nInaccessiblePaths=/run\n"), false),
        State::Pass
    );
    assert_eq!(sandbox(Some("RootDirectory=/jail\n"), true), State::Warn);
    assert_eq!(sandbox(Some("RootDirectory=\n"), true), State::Pass);
    assert_eq!(sandbox(Some("TemporaryFileSystem=/tmp\n"), true), State::Pass);
}

#[test]
fn a_stale_or_missing_camera_group_warns() {
    let group = |id: &str, stale, connected| GroupHealth {
        id: id.into(),
        stale,
        connected,
    };
    let mut f = facts().enrollment;
    f.groups = vec![group("desk", false, true), group("lid", true, false)];
    let mut report = Report::new();
    report_groups(&mut report, &f);
    assert_eq!(state(&report, "camera-groups"), State::Warn);
    assert_eq!(report.lines[0], "[doctor] camera group desk is healthy");
    assert_eq!(
        report.lines[1],
        "[doctor] camera group lid: stale (primary changed; re-add the camera), disconnected"
    );
    f.groups = Vec::new();
    let mut report = Report::new();
    report_groups(&mut report, &f);
    assert_eq!(report.checks.len(), 1);
    assert_eq!(state(&report, "camera-groups"), State::Info);
    assert!(report.checks[0].detail.is_none());
    assert!(report.lines.is_empty());
    f.store_error = Some("truncated".into());
    let mut report = Report::new();
    report_groups(&mut report, &f);
    assert_eq!(report.checks.len(), 1);
    assert_eq!(state(&report, "camera-groups"), State::Warn);
    assert_eq!(report.lines, ["[doctor] camera groups unusable: truncated"]);
}

#[test]
fn a_pass_asks_the_daemon_of_the_account_it_is_about() {
    let caller = Caller {
        sudo_user: Some("bob".into()),
        user: Some("root".into()),
        root: true,
    };
    let argv = |list: &[&str]| list.iter().map(|s| s.to_string()).collect::<Vec<String>>();
    for (args, account) in [
        (argv(&["doctor", "--user", "alice"]), "alice"),
        (argv(&["doctor", "--check"]), "bob"),
    ] {
        let (who, requests) = match doctor_requests(&args, &caller) {
            Ok(found) => found,
            Err(_) => panic!("the arguments name an account"),
        };
        assert_eq!(who, account);
        assert_eq!(requests.len(), 2);
        assert!(matches!(&requests[0], Request::RecoveryStatus { user } if user == account));
        assert!(matches!(
            &requests[1],
            Request::ListProfiles { user, structured_errors: false } if user == account
        ));
    }
    let refused = match doctor_requests(&argv(&["doctor", "--user"]), &caller) {
        Ok(_) => panic!("nothing stands after the flag"),
        Err(o) => o,
    };
    assert_eq!(refused.exit, 2);
    assert_eq!(refused.console.lines.len(), 1);
    assert!(matches!(
        &refused.console.lines[0],
        Say::Warn(s) if s == "irlume: --user requires a username"
    ));
}

#[test]
fn a_program_reads_the_same_checks() {
    let report = doctor_run(facts());
    let reply = doctor_reply(&report, 1);
    let data = reply.document.data.unwrap();
    let checks = data.get("checks").unwrap();
    assert!(matches!(checks.at(0).unwrap().get("id"), Some(Json::Str(s)) if s == "platform"));
    assert!(matches!(checks.at(0).unwrap().get("state"), Some(Json::Str(s)) if s == "info"));
    assert!(matches!(checks.at(0).unwrap().get("detail"), Some(Json::Str(s)) if s == "fedora"));
    assert!(checks.at(2).unwrap().get("detail").is_none());
    assert!(checks.at(28).is_some());
    assert!(checks.at(29).is_none());
}

#[test]
fn the_managed_tpm_device_is_preferred() {
    assert_eq!(tpm_device(true, true), Some("/dev/tpmrm0"));
    assert_eq!(tpm_device(false, true), Some("/dev/tpm0"));
    assert_eq!(tpm_device(false, false), None);
}
