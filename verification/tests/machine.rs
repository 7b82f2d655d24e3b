use irlume_cli::contract::CONTRACT_DEFAULT;
use irlume_cli::daemon::{classify_reach, request_failed, DaemonReach, PingOutcome};
use irlume_cli::events::{
    auth_reason, auth_refusal, auth_test_begin, auth_test_end, classify_session, event_object,
    Event, EventStream, LockAttempt, SessionRefusal, Verdict,
};
use irlume_cli::json::{Json, JsonObj};
use irlume_cli::machine::{
    capability_list, document_object, error_code, error_message, failure, machine_error, relay,
    reply_object, require_root, success, version, Answered, OperationErrorCode, ENGINE_VERSION,
};
use irlume_cli::models::{
    models_list_data, ort_on_disk, recognizer_space_for, stages, ModelCandidate, StageStatus,
};
use irlume_cli::profiles::{profiles_data, usable_scans, ProfileSummary};
use irlume_cli::readiness::{
    login_status_reply, status_reply, HealthFacts, ManagerFact, MetadataAnswer, ReadinessFacts,
    SurfaceFact,
};

fn argv(v: &[&str]) -> Vec<String> {
    v.iter().map(|s| s.to_string()).collect()
}

fn text(j: &Json) -> &str {
    match j {
        Json::Str(s) => s,
        _ => panic!("not a string"),
    }
}

fn number(j: &Json) -> u128 {
    match j {
        Json::Num(n) => *n,
        _ => panic!("not a number"),
    }
}

fn truth(j: &Json) -> bool {
    match j {
        Json::Bool(b) => *b,
        _ => panic!("not a flag"),
    }
}

fn items(j: &Json) -> &Vec<Json> {
    match j {
        Json::Arr(a) => &a.items,
        _ => panic!("not an array"),
    }
}

fn profile(name: &str, scans: &[&str], counts: &[(&str, u64)], live: Option<&str>) -> ProfileSummary {
    ProfileSummary {
        name: name.into(),
        scans: argv(scans),
        scans_by_recognizer: counts.iter().map(|(k, v)| (k.to_string(), *v)).collect(),
        live_recognizer: live.map(|s| s.to_string()),
        ir: None,
        ir_lines: Vec::new(),
        needs_ir_capture: false,
    }
}

#[test]
fn ping_outcomes_classify_to_four_distinct_states() {
    assert_eq!(classify_reach(PingOutcome::Pong), DaemonReach::Running);
    assert_eq!(
        classify_reach(PingOutcome::Acknowledged),
        DaemonReach::Starting
    );
    assert_eq!(
        classify_reach(PingOutcome::PermissionDenied),
        DaemonReach::AccessDenied
    );
    assert_eq!(classify_reach(PingOutcome::Failed), DaemonReach::Down);
    assert_eq!(classify_reach(PingOutcome::OtherReply), DaemonReach::Down);
}

#[test]
fn a_failed_request_names_the_daemon_once() {
    assert_eq!(request_failed("timed out"), "timed out (is irlumed running?)");
    assert_eq!(
        request_failed("cannot reach irlumed: no socket"),
        "cannot reach irlumed: no socket"
    );
}

#[test]
fn deps_finds_onnxruntime_where_the_packages_put_it() {
    let packaged = ["/usr/lib/irlume/libonnxruntime.so"];
    for p in packaged {
        assert!(
            ort_on_disk(&packaged, |q: &str| q == p),
            "a package-installed runtime at {p} must count as present"
        );
    }
    assert!(
        ort_on_disk(&packaged, |p: &str| p == "/usr/lib64/libonnxruntime.so"),
        "a distro-installed runtime must still count"
    );
    assert!(
        !ort_on_disk(&packaged, |_: &str| false),
        "nothing on disk anywhere is still absent"
    );
}

#[test]
fn usable_scans_counts_only_the_loaded_recognizer() {
    let prof = |live: Option<&str>, counts: &[(&str, u64)], scans: usize| {
        let names: Vec<String> = (0..scans).map(|i| format!("scan{i}")).collect();
        let names: Vec<&str> = names.iter().map(|s| s.as_str()).collect();
        profile("P", &names, counts, live)
    };
    assert_eq!(
        usable_scans(&[prof(Some("embed:a"), &[("embed:a", 11)], 11)]),
        Some(11)
    );
    assert_eq!(
        usable_scans(&[prof(Some("embed:b"), &[("embed:a", 11)], 11)]),
        Some(0)
    );
    assert_eq!(
        usable_scans(&[
            prof(Some("embed:a"), &[("embed:a", 3)], 3),
            prof(Some("embed:a"), &[("embed:a", 4), ("embed:b", 9)], 13),
        ]),
        Some(7)
    );
    assert_eq!(usable_scans(&[prof(Some("embed:a"), &[], 11)]), None);
    assert_eq!(usable_scans(&[prof(None, &[("embed:a", 11)], 11)]), None);
    assert_eq!(
        usable_scans(&[
            prof(Some("embed:a"), &[("embed:a", 3)], 3),
            prof(None, &[], 5),
        ]),
        None
    );
}

#[test]
fn deadline_expired_maps_to_its_published_code() {
    assert_eq!(
        error_code(OperationErrorCode::DeadlineExpired),
        "deadline-expired"
    );
}

#[test]
fn every_published_error_code_carries_an_action_message() {
    let published = [
        "camera-busy",
        "not-authorized",
        "operation-failed",
        "deadline-expired",
        "usage-error",
        "protocol-error",
        "daemon-unavailable",
    ];
    for code in published {
        let msg = error_message(code);
        assert!(
            msg.is_some_and(|m| !m.is_empty() && m.ends_with('.')),
            "code {code} needs a non-empty action message ending with a period"
        );
    }
}

#[test]
fn unknown_codes_carry_no_message_rather_than_a_wrong_one() {
    assert!(error_message("some-future-code").is_none());
}

#[test]
fn profile_ir_machine_data_preserves_reported_counts_and_omits_unknown() {
    let absent = profiles_data(&[profile("P", &["s"], &[], None)], false);
    assert!(absent.get("profiles").unwrap().at(0).unwrap().get("ir").is_none());
    let mut p = profile("P", &["s"], &[], None);
    let summary =
        r#"{"compatible_scans":2,"unknown_scans":1,"calibration_withheld":true}"#.to_string();
    p.ir = Some(summary.clone());
    let data = profiles_data(&[p], false);
    match data.get("profiles").unwrap().at(0).unwrap().get("ir") {
        Some(Json::Raw(s)) => assert_eq!(*s, summary),
        _ => panic!("the daemon's own summary is published as it is"),
    }
}

#[test]
fn a_policy_refusal_is_not_reported_as_a_liveness_verdict() {
    assert_eq!(auth_refusal(true, true, false, false), None);
    assert_eq!(auth_refusal(false, false, false, true), Some("policy"));
    assert_eq!(auth_reason(false, false), "not-live");
    assert_eq!(auth_refusal(false, false, true, false), Some("declined"));
    assert_eq!(auth_refusal(false, true, false, false), Some("no-match"));
    assert_eq!(auth_refusal(false, false, false, false), Some("not-live"));
    assert_eq!(auth_refusal(false, false, true, true), Some("policy"));
}

#[test]
fn the_verdict_reason_is_derived_from_the_booleans_not_from_prose() {
    assert_eq!(auth_reason(true, true), "granted");
    assert_eq!(auth_reason(true, false), "granted");
    assert_eq!(auth_reason(false, false), "not-live");
    assert_eq!(auth_reason(false, true), "no-match");
}

#[test]
fn version_freezes_the_public_envelope_and_capabilities() {
    let mut limits = JsonObj::new();
    limits.put("max_profiles", Json::num(3));
    let mut data = JsonObj::new();
    data.put("capabilities", capability_list());
    data.put("limits", Json::obj(limits));
    let document = document_object(success("version", Json::obj(data), CONTRACT_DEFAULT));

    assert_eq!(number(document.get("contract_version").unwrap()), 1);
    assert_eq!(text(document.get("command").unwrap()), "version");
    assert!(truth(document.get("ok").unwrap()));
    let caps: Vec<&str> = items(document.get("data").unwrap().get("capabilities").unwrap())
        .iter()
        .map(text)
        .collect();
    assert_eq!(
        caps,
        [
            "version-json",
            "profiles-list-json",
            "status-json",
            "doctor-json",
            "login-status-json",
            "auth-test-events",
            "login-plan-json",
            "login-transactions",
            "models-list-json",
            "camera-diagnostics",
            "camera-census",
            "support-report-json"
        ]
    );
    assert!(document.get("error").is_none());
}

#[test]
fn version_answers_the_agreed_contract_and_refuses_others() {
    let ok = version(&argv(&["version", "--json"]), 3);
    assert_eq!(ok.exit, 0);
    let object = reply_object(ok);
    assert_eq!(text(object.get("engine_version").unwrap()), ENGINE_VERSION);
    let unsupported = version(&argv(&["version", "--contract", "2", "--json"]), 3);
    assert_eq!(unsupported.exit, 2);
    assert_eq!(unsupported.document.error.unwrap().code, "unsupported-contract");
    let usage = version(&argv(&["version", "--json", "--wat"]), 3);
    assert_eq!(usage.exit, 2);
    assert_eq!(usage.document.error.unwrap().code, "usage-error");
}

#[test]
fn an_old_daemons_missing_recognizer_counts_are_absent_not_empty() {
    let data = profiles_data(&[profile("BEN", &["s1", "s2"], &[], None)], false);
    let p = data.get("profiles").unwrap().at(0).unwrap();
    assert_eq!(items(p.get("scans").unwrap()).len(), 2);
    assert!(
        p.get("recognizers").is_none(),
        "unknown counts must be ABSENT, not an empty array"
    );

    let empty = profiles_data(&[profile("Fresh", &[], &[], None)], false);
    let p = empty.get("profiles").unwrap().at(0).unwrap();
    assert_eq!(items(p.get("recognizers").unwrap()).len(), 0);
}

#[test]
fn profiles_report_each_recognizer_and_mark_only_the_loaded_one_live() {
    let data = profiles_data(
        &[profile(
            "P",
            &["s1"],
            &[("embed:model-a", 7), ("embed:model-b", 3)],
            Some("embed:model-b"),
        )],
        false,
    );
    let recs = items(
        data.get("profiles")
            .unwrap()
            .at(0)
            .unwrap()
            .get("recognizers")
            .unwrap(),
    );
    assert_eq!(recs.len(), 2);
    let by_space = |space: &str| {
        recs.iter()
            .find(|r| text(r.get("space").unwrap()) == space)
            .unwrap_or_else(|| panic!("missing {space}"))
    };
    assert_eq!(number(by_space("embed:model-a").get("scans").unwrap()), 7);
    assert!(
        !truth(by_space("embed:model-a").get("live").unwrap()),
        "a recognizer that is not loaded must not read as live"
    );
    assert_eq!(number(by_space("embed:model-b").get("scans").unwrap()), 3);
    assert!(truth(by_space("embed:model-b").get("live").unwrap()));
    assert_eq!(
        recs.iter().filter(|r| truth(r.get("live").unwrap())).count(),
        1,
        "only the loaded recognizer is live"
    );

    let data = profiles_data(&[profile("P", &["s1"], &[], None)], false);
    assert!(data.get("profiles").unwrap().at(0).unwrap().get("recognizers").is_none());
}

#[test]
fn models_list_reports_the_shipped_stages() {
    let statuses: Vec<StageStatus> = stages()
        .iter()
        .map(|s| StageStatus {
            stage: s.stage,
            file: Some(s.file),
            resolved: None,
            required: s.required,
        })
        .collect();
    let data = models_list_data(&statuses);
    let list = items(data.get("stages").unwrap());
    let names: Vec<&str> = list.iter().map(|s| text(s.get("stage").unwrap())).collect();
    assert_eq!(names, ["detection", "recognition", "pad"]);
    for s in list {
        assert!(!truth(s.get("open").unwrap()), "no stage is open");
        assert!(s.get("third_party").is_none());
        let candidate = s.get("candidate").unwrap();
        assert!(
            candidate.get("file").is_some()
                || candidate.get("origin").map(text) == Some("built-in")
        );
    }
    assert!(truth(list[0].get("required").unwrap()));
    assert_eq!(
        text(list[2].get("candidate").unwrap().get("origin").unwrap()),
        "built-in"
    );
}

#[test]
fn a_found_model_is_published_with_its_path() {
    let statuses = vec![StageStatus {
        stage: "detection",
        file: Some("face_detection_yunet_2023mar.onnx"),
        resolved: Some(ModelCandidate {
            path: "/usr/share/irlume/models/face_detection_yunet_2023mar.onnx".into(),
            origin: "shipped",
            readable: false,
        }),
        required: true,
    }];
    let data = models_list_data(&statuses);
    let candidate = data.get("stages").unwrap().at(0).unwrap().get("candidate").unwrap();
    assert!(!truth(candidate.get("readable").unwrap()));
    assert_eq!(text(candidate.get("origin").unwrap()), "shipped");
}

fn nothing() -> Json {
    Json::obj(JsonObj::new())
}

#[test]
fn an_event_carries_the_whole_envelope_on_every_line() {
    let mut stream = EventStream::new("auth.test", 1, "session".into());
    let value = event_object(stream.progress("started", nothing()));
    for field in [
        "contract_version",
        "engine_version",
        "command",
        "operation_id",
        "session_id",
        "sequence",
        "event",
        "terminal",
    ] {
        assert!(value.get(field).is_some(), "event is missing {field}");
    }
    assert_eq!(number(value.get("contract_version").unwrap()), 1);
    assert_eq!(text(value.get("command").unwrap()), "auth.test");
}

#[test]
fn the_sequence_starts_at_zero_and_never_repeats() {
    let mut stream = EventStream::new("auth.test", 1, "session".into());
    assert_eq!(stream.sequence(), 0);
    let first = stream.progress("started", nothing());
    let second = stream.progress("capturing", nothing());
    assert_eq!((first.sequence, second.sequence), (0, 1));
    assert_eq!(stream.sequence(), 2);
}

#[test]
fn one_operation_id_ties_the_whole_stream_together() {
    let mut stream = EventStream::new("auth.test", 1, "session".into());
    let first = event_object(stream.progress("started", nothing()));
    stream.progress("capturing", nothing());
    let last = event_object(stream.finish("result", nothing()));
    assert_eq!(
        text(first.get("operation_id").unwrap()),
        text(last.get("operation_id").unwrap())
    );
    assert_eq!(
        text(first.get("session_id").unwrap()),
        text(last.get("session_id").unwrap())
    );
    assert_ne!(
        number(first.get("sequence").unwrap()),
        number(last.get("sequence").unwrap())
    );
    assert_eq!(number(last.get("sequence").unwrap()), 2);
}

#[test]
fn two_streams_do_not_share_an_operation_id() {
    let mut a = EventStream::new("auth.test", 1, "s".into());
    let mut b = EventStream::new("auth.test", 1, "s".into());
    let a = a.progress("started", nothing()).operation_id;
    let b = b.progress("started", nothing()).operation_id;
    assert_ne!(a, b);
    assert_eq!(a.len(), 32, "128 bits, hex encoded");
    assert_ne!(a, "0".repeat(32));
    assert!(a.chars().all(|c| c.is_ascii_digit() || ('a'..='f').contains(&c)));
}

#[test]
fn many_lines_count_without_gaps_and_only_the_last_is_terminal() {
    let names = ["one", "two", "three", "four", "five"];
    let mut stream = EventStream::new("auth.test", 2, "session".into());
    let mut lines: Vec<Event> = names.iter().map(|n| stream.progress(n, nothing())).collect();
    lines.push(stream.fail("timeout", true));
    assert_eq!(lines.len(), 6);
    for (k, line) in lines.iter().enumerate() {
        assert_eq!(line.sequence, k as u64);
        assert_eq!(line.terminal, k == 5);
        assert_eq!(line.event, if k == 5 { "error" } else { names[k] });
        assert_eq!(line.operation_id, lines[0].operation_id);
        assert_eq!(line.session_id, "session");
        assert_eq!((line.contract_version, line.command), (2, "auth.test"));
        assert_eq!(line.engine_version, ENGINE_VERSION);
        assert_eq!(line.error.is_some(), k == 5);
        assert_eq!(line.data.is_some(), k != 5);
    }
}

#[test]
fn a_test_ends_with_one_terminal_line() {
    let (stream, first, second) = auth_test_begin(1, "session".into());
    assert!(!first.terminal && !second.terminal);
    let (last, exit) = auth_test_end(
        stream,
        &Answered::Payload(Verdict {
            granted: true,
            live: true,
            declined_by_gesture: false,
            refused_by_policy: false,
        }),
    );
    assert!(last.terminal);
    assert_eq!(last.sequence, 2);
    assert_eq!(last.operation_id, first.operation_id);
    assert_eq!(exit, 0);

    let (stream, _, _) = auth_test_begin(1, "session".into());
    let (last, exit) = auth_test_end(stream, &Answered::Unavailable);
    assert!(last.terminal);
    assert_eq!(last.error.unwrap().code, "daemon-unavailable");
    assert_ne!(exit, 0);
}

#[test]
fn only_a_held_lock_is_worth_waiting_for() {
    assert!(classify_session(LockAttempt::Taken).is_none());
    assert!(matches!(
        classify_session(LockAttempt::WouldBlock),
        Some(SessionRefusal::Busy)
    ));
    assert!(classify_session(LockAttempt::CannotOpen).is_some());
    assert!(classify_session(LockAttempt::Failed).is_some());
}

#[test]
fn profile_listing_freezes_retired_contract_fields_from_an_old_daemon() {
    let data = profiles_data(&[profile("Face Profile 1", &["Scan 1"], &[], None)], true);
    let p = data.get("profiles").unwrap().at(0).unwrap();
    assert_eq!(text(p.get("display_name").unwrap()), "Face Profile 1");
    let scan = p.get("scans").unwrap().at(0).unwrap();
    assert_eq!(text(scan.get("display_name").unwrap()), "Scan 1");
    assert!(p.get("profile_id").is_none());
    assert!(scan.get("scan_id").is_none());
    assert!(!truth(data.get("require_eyes_open").unwrap()));
    assert!(!truth(data.get("require_challenge").unwrap()));
}

#[test]
fn errors_have_stable_codes_without_daemon_prose() {
    let document = document_object(failure(
        "profiles.list",
        "daemon-unavailable",
        true,
        CONTRACT_DEFAULT,
    ));
    assert!(!truth(document.get("ok").unwrap()));
    let error = document.get("error").unwrap();
    assert_eq!(text(error.get("code").unwrap()), "daemon-unavailable");
    assert!(truth(error.get("retryable").unwrap()));
    assert!(document.get("data").is_none());
    assert!(machine_error("some-future-code", false).message.is_none());
}

#[test]
fn every_way_a_daemon_fails_has_its_own_code() {
    let code = |a: Answered<Json>| relay("profiles.list", a, 1).document.error.unwrap().code;
    assert_eq!(
        code(Answered::Refused {
            code: OperationErrorCode::CameraBusy,
            retryable: true
        }),
        "camera-busy"
    );
    assert_eq!(
        code(Answered::Refused {
            code: OperationErrorCode::NotAuthorized,
            retryable: false
        }),
        "not-authorized"
    );
    assert_eq!(code(Answered::Prose), "operation-failed");
    assert_eq!(code(Answered::Unexpected), "protocol-error");
    assert_eq!(code(Answered::Unavailable), "daemon-unavailable");
    assert!(relay("profiles.list", Answered::Payload(Json::null()), 1).document.ok);
}

#[test]
fn writing_needs_root() {
    assert!(require_root("login.apply", 0, 1).is_none());
    let refused = require_root("login.apply", 1000, 1).unwrap();
    assert!(!refused.document.ok);
}

#[test]
fn forget_model_accepts_shipped_and_literal_spaces_only() {
    let legacy = "legacy-space";
    assert_eq!(recognizer_space_for("shipped", legacy).unwrap(), legacy);
    assert_eq!(
        recognizer_space_for(
            "embed:ABCDEF0123456789abcdef0123456789abcdef0123456789abcdef0123456789",
            legacy
        )
        .unwrap(),
        "embed:abcdef0123456789abcdef0123456789abcdef0123456789abcdef0123456789"
    );
    assert!(recognizer_space_for("buffalo", legacy).is_err());
    assert!(recognizer_space_for("embed:xyz", legacy).is_err());
}

fn readiness(reach: DaemonReach) -> ReadinessFacts {
    ReadinessFacts {
        reach,
        health: Some(HealthFacts {
            secure: true,
            rgb: Some(true),
            ir: Some(true),
        }),
        configured: Some((true, false)),
        keyring: MetadataAnswer::Info {
            armed: true,
            policy: None,
        },
        recovery: Some((true, false, true)),
        method: "FaceThenPassword".into(),
        face_disabled: false,
        enrollment: Some(vec![profile("P", &["a", "b"], &[], None)]),
        fingerprint: None,
    }
}

#[test]
fn readiness_is_observed_of_a_running_daemon() {
    let data = status_reply(&readiness(DaemonReach::Running), 1).document.data.unwrap();
    assert_eq!(text(data.get("daemon").unwrap()), "running");
    assert_eq!(text(data.get("auth_method").unwrap()), "facethenpassword");
    assert_eq!(number(data.get("enrollment").unwrap().get("scans").unwrap()), 2);
    assert_eq!(text(data.get("templates").unwrap()), "encrypted");
    assert!(truth(data.get("camera").unwrap().get("ir").unwrap()));
    assert!(!truth(data.get("fingerprint").unwrap()));
    assert!(!truth(data.get("fingerprint_known").unwrap()));
}

#[test]
fn a_daemon_that_is_not_ready_establishes_nothing() {
    for reach in [DaemonReach::Starting, DaemonReach::AccessDenied, DaemonReach::Down] {
        let data = status_reply(&readiness(reach), 1).document.data.unwrap();
        for part in ["enrollment", "keyring", "recovery", "camera"] {
            assert!(!truth(data.get(part).unwrap().get("known").unwrap()), "{part}");
        }
        assert_eq!(text(data.get("templates").unwrap()), "unknown");
        assert!(truth(data.get("camera").unwrap().get("rgb").unwrap()));
    }
}

#[test]
fn an_unwired_surface_has_no_mode() {
    let surface = |wired: bool, mode: Option<&str>| SurfaceFact {
        id: "sudo".into(),
        role: "elevation".into(),
        present: true,
        wired,
        mode: mode.map(|s| s.to_string()),
    };
    let manager = ManagerFact {
        name: None,
        recognized: false,
        services: Vec::new(),
    };
    let reply = login_status_reply(
        &manager,
        &vec![surface(true, Some("face-first")), surface(false, None)],
        None,
        1,
    );
    let data = reply.document.data.unwrap();
    let list = items(data.get("surfaces").unwrap());
    assert_eq!(text(list[0].get("mode").unwrap()), "face-first");
    assert!(list[1].get("mode").is_none());
    assert!(!truth(data.get("login_manager").unwrap().get("known").unwrap()));
    assert_eq!(text(data.get("selinux_module").unwrap()), "unknown");
}
