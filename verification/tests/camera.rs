use irlume_cli::camera::{
    camera_pair, camera_tune, caps_reading, devices_from_flags, drift_text, evidence_note, ir_setup,
    measurement_drift_report, read_camera_choice, reference_rounds, report_drift,
    set_cameras_refused, set_cameras_request, tune_plan, CameraEvidence, Caps, DriftFiles,
    DriftLine, MeasuredRole, MeasurementRecord, PairEvidence, RateEvidence, RateRational,
};
use irlume_cli::capture::{
    camera_mode, capture_mode_report_from_status, capture_mode_report_line, CaptureAnswer,
    CaptureMode, CaptureModeReport, CaptureStatus,
};
use irlume_cli::console::{Outcome, Say};
use irlume_cli::protocol::{CameraSelection, Request};
use irlume_cli::report::State;

fn argv(v: &[&str]) -> Vec<String> {
    v.iter().map(|s| s.to_string()).collect()
}

fn printed(lines: &[Say]) -> Vec<String> {
    lines
        .iter()
        .map(|l| match l {
            Say::Out(s) => s.clone(),
            Say::Warn(s) => s.clone(),
            Say::Part(s) => s.clone(),
        })
        .collect()
}

/// The request of a command line, with what its guard was read as.
fn request(args: &[String], guard: Option<CameraSelection>) -> Result<Request, &'static str> {
    set_cameras_request(read_camera_choice(args)?, guard)
}

#[test]
fn set_cameras_preserves_legacy_request_and_carries_guard_without_fallback() {
    let plain = argv(&["set-cameras", "/dev/video40", "/dev/video42"]);
    assert!(
        matches!(request(&plain, None), Ok(Request::SetCameras { rgb, ir })
        if rgb == "/dev/video40" && ir == "/dev/video42")
    );
    let guard = CameraSelection {
        supervisor_id: "11111111111111111111111111111111".into(),
        instance_id: "22222222222222222222222222222222".into(),
        generation: 7,
        endpoint_paths: argv(&["/dev/video40", "/dev/video42"]),
    };
    let mut guarded = plain;
    guarded.extend(["--expected-camera".to_string(), "{..}".to_string()]);
    let sent = request(&guarded, Some(guard)).unwrap();
    assert!(
        matches!(sent, Request::SetCamerasIfCurrent { ref rgb, ref ir, ref expected }
        if rgb == "/dev/video40" && ir == "/dev/video42" && expected.generation == 7)
    );
    assert!(!matches!(sent, Request::SetCameras { .. }));
}

#[test]
fn set_cameras_refuses_missing_malformed_or_unknown_guard_arguments() {
    for args in [
        argv(&["set-cameras"]),
        argv(&["set-cameras", "/dev/video40", "/dev/video42", "--expected-camera"]),
        argv(&["set-cameras", "/dev/video40", "/dev/video42", "--expected-camera", "{}"]),
        argv(&["set-cameras", "/dev/video40", "/dev/video42", "--unknown", "{}"]),
        argv(&["set-cameras", "/dev/video40", "/dev/video42", "unexpected"]),
    ] {
        assert!(request(&args, None).is_err());
    }
    assert_eq!(set_cameras_refused("both camera paths are required").exit, 2);
}

#[test]
fn devices_from_flags_honors_either_flag_alone() {
    let sel = || Some(("/dev/sel-rgb".to_string(), "/dev/sel-ir".to_string()));
    assert_eq!(
        devices_from_flags(None, None, || unreachable!("no probe without flags")),
        None
    );
    assert_eq!(
        devices_from_flags(Some("/dev/r"), Some("/dev/i"), || unreachable!()),
        Some(("/dev/r".into(), "/dev/i".into()))
    );
    assert_eq!(
        devices_from_flags(None, Some("/dev/video6"), sel),
        Some(("/dev/sel-rgb".into(), "/dev/video6".into()))
    );
    assert_eq!(
        devices_from_flags(Some("/dev/video4"), None, sel),
        Some(("/dev/video4".into(), "/dev/sel-ir".into()))
    );
    assert_eq!(devices_from_flags(Some("/dev/video4"), None, || None), None);
}

#[test]
fn capture_mode_report_names_the_mode_and_never_warns() {
    for (obs, want) in [
        (
            CaptureModeReport::Measured(CaptureMode::Sequential, None),
            "sequential",
        ),
        (
            CaptureModeReport::Measured(CaptureMode::Concurrent, None),
            "concurrent",
        ),
    ] {
        let (state, line) = capture_mode_report_line(&obs);
        assert!(
            matches!(state, State::Info),
            "a measured mode is a fact, not a fault"
        );
        assert!(line.contains(want), "the line names the mode ({want})");
        assert!(line.contains("measured"), "and that it was measured");
    }

    let (state, line) = capture_mode_report_line(&CaptureModeReport::Unmeasured);
    assert!(matches!(state, State::Info));
    assert!(line.contains("default"), "an unmeasured pair is on the default");
    assert!(
        line.contains("camera-tune"),
        "and is pointed at the command that measures it"
    );

    let (state, line) = capture_mode_report_line(&CaptureModeReport::NoIrPair);
    assert!(matches!(state, State::Info));
    assert!(line.contains("RGB-only"), "{line}");
    assert!(line.contains("does not apply"), "{line}");
    assert!(!line.contains("camera-tune"), "{line}");

    let (state, line) =
        capture_mode_report_line(&CaptureModeReport::Inconclusive("dim_scene".into()));
    assert!(matches!(state, State::Info));
    assert!(line.contains("inconclusive"), "{line}");
    assert!(line.contains("dim_scene"), "{line}");

    let (state, line) =
        capture_mode_report_line(&CaptureModeReport::Unreadable("permission denied".into()));
    assert!(
        matches!(state, State::Unknown),
        "could-not-read must not be reported as an observation: {line}"
    );
    assert!(line.contains("safe sequential"), "{line}");

    for (seq, want) in [(true, "sequential"), (false, "concurrent")] {
        let (state, line) = capture_mode_report_line(&CaptureModeReport::Overridden(seq));
        assert!(matches!(state, State::Info));
        assert!(line.starts_with(want), "{line}");
        assert!(line.contains("IRLUME_SEQUENTIAL_CAPTURE"), "{line}");
        assert!(line.contains("daemon environment"), "{line}");
    }

    let (_, seq_line) =
        capture_mode_report_line(&CaptureModeReport::Measured(CaptureMode::Sequential, None));
    assert!(!seq_line.contains("700ms"), "{seq_line}");
    assert!(seq_line.contains("1.3s"), "{seq_line}");

    let (state, line) = capture_mode_report_line(&CaptureModeReport::RuntimeDegraded(
        "concurrent_capture_failure".into(),
    ));
    assert!(matches!(state, State::Info));
    assert!(line.contains("daemon generation"), "{line}");
    assert!(line.contains("both streams"), "{line}");
    assert!(line.contains("camera-tune"), "{line}");
}

#[test]
fn daemon_capture_mode_states_map_without_collapsing_no_ir_or_inconclusive() {
    assert!(matches!(
        capture_mode_report_from_status(
            "sequential",
            "no-ir-pair",
            "no_ir_pair",
            Some("no IR".into()),
            None,
        ),
        CaptureModeReport::NoIrPair
    ));
    assert!(matches!(
        capture_mode_report_from_status(
            "sequential",
            "default",
            "inconclusive",
            Some("dim_scene".into()),
            None,
        ),
        CaptureModeReport::Inconclusive(reason) if reason == "dim_scene"
    ));
    assert!(matches!(
        capture_mode_report_from_status(
            "sequential",
            "default",
            "unqualified_no_authority",
            Some("no authority".into()),
            None,
        ),
        CaptureModeReport::Unmeasured
    ));
}

#[test]
fn the_environment_then_live_health_then_measurement_decide_the_mode() {
    assert!(matches!(
        capture_mode_report_from_status(
            "concurrent",
            "IRLUME_SEQUENTIAL_CAPTURE",
            "measured_sequential",
            None,
            None
        ),
        CaptureModeReport::Overridden(false)
    ));
    assert!(matches!(
        capture_mode_report_from_status(
            "sequential",
            "runtime-health",
            "qualified_concurrent",
            None,
            None
        ),
        CaptureModeReport::RuntimeDegraded(why) if why == "unspecified"
    ));
    assert!(matches!(
        capture_mode_report_from_status("concurrent", "store", "qualified_concurrent", None, None),
        CaptureModeReport::Measured(CaptureMode::Concurrent, None)
    ));
    assert!(matches!(
        capture_mode_report_from_status("wat", "store", "qualified_concurrent", None, None),
        CaptureModeReport::Unreadable(why) if why == "invalid daemon response"
    ));
    assert!(matches!(
        capture_mode_report_from_status("sequential", "store", "unreadable", None, None),
        CaptureModeReport::Unreadable(why) if why == "unreadable"
    ));
}

fn evidence(deltas: u32, span_us: u64) -> RateEvidence {
    RateEvidence {
        rate_p50: RateRational { deltas, span_us },
        max_inter_frame_gap_us: Some(72_000),
        rounds_completed: 2,
    }
}

fn record(method: &str, rates: Vec<(MeasuredRole, RateEvidence)>) -> MeasurementRecord {
    MeasurementRecord {
        method: method.into(),
        rates,
        accepted: true,
    }
}

fn drift_lines(reference: &[MeasurementRecord], fresh: &[MeasurementRecord]) -> Vec<String> {
    measurement_drift_report(reference, fresh)
        .iter()
        .map(|l| drift_text(l, "15.9", "13.8"))
        .collect()
}

#[test]
fn drift_report_names_direction_gaps_and_missing_arms() {
    let reference = vec![record(
        "sequential",
        vec![
            (MeasuredRole::Rgb, evidence(11, 690_000)),
            (MeasuredRole::Ir, evidence(15, 504_000)),
        ],
    )];
    let fresh = vec![record(
        "sequential",
        vec![
            (MeasuredRole::Rgb, evidence(11, 800_000)),
            (MeasuredRole::Ir, evidence(15, 504_000)),
        ],
    )];
    let lines = drift_lines(&reference, &fresh);
    assert!(lines.iter().any(|l| l.contains("Rgb") && l.contains("slower")));
    assert!(lines.iter().any(|l| l.contains("Ir") && l.contains("same")));
    assert_eq!(
        lines[0],
        "sequential Rgb: p50 15.9 -> 13.8 fps (slower); max gap 72000 -> 72000 us; rounds 2 -> 2; accepted true -> true"
    );
    let fresh_empty: Vec<MeasurementRecord> = Vec::new();
    let lines = drift_lines(&reference, &fresh_empty);
    assert!(lines.iter().any(|l| l.contains("no fresh sequential arm ran")));
}

#[test]
fn drift_names_missing_streams_and_new_arms() {
    let reference = vec![record("sequential", vec![(MeasuredRole::Ir, evidence(15, 504_000))])];
    let fresh = vec![record("sequential", Vec::new()), record("concurrent", Vec::new())];
    assert_eq!(
        drift_lines(&reference, &fresh),
        vec![
            "sequential Ir: no fresh rounds; cannot compare",
            "concurrent: fresh arm with no reference counterpart"
        ]
    );
    let report = measurement_drift_report(&fresh, &reference);
    assert!(matches!(&report[0], DriftLine::NoFreshArm { arm } if arm == "concurrent"));
}

#[test]
fn a_comparison_repeats_the_references_rounds() {
    let mut e = evidence(1, 1);
    e.rounds_completed = 0;
    let records = vec![
        record("sequential", Vec::new()),
        record("concurrent", vec![(MeasuredRole::Rgb, e)]),
    ];
    assert_eq!(reference_rounds(&records), Some(1));
    assert_eq!(reference_rounds(&[]), None);
}

#[test]
fn camera_tune_refuses_what_it_cannot_read() {
    for bad in [
        vec!["camera-tune", "--rounds"],
        vec!["camera-tune", "--rounds", "0"],
        vec!["camera-tune", "--rounds", "many"],
        vec!["camera-tune", "--verify-record"],
        vec!["camera-tune", "--verify-record", "  "],
        vec!["camera-tune", "--emit-record="],
    ] {
        match camera_tune(&argv(&bad)) {
            Err(o) => assert_eq!(o.exit, 2, "{bad:?}"),
            Ok(_) => panic!("{bad:?} must be refused"),
        }
    }
    let t = match camera_tune(&argv(&["camera-tune", "--rounds", "3", "--emit-record", "e.json"])) {
        Ok(t) => t,
        Err(_) => panic!("well formed"),
    };
    assert!(matches!(
        tune_plan(&t, None, &None).request,
        Request::TuneCaptureMode { rounds: Some(3), emit_record_path: Some(p) } if p == "e.json"
    ));
    assert!(matches!(
        tune_plan(&t, Some(7), &Some("fresh.json".into())).request,
        Request::TuneCaptureMode { rounds: Some(7), emit_record_path: Some(p) } if p == "fresh.json"
    ));
    assert!(printed(&evidence_note(&t).lines)[0].contains("MEASUREMENT EVIDENCE"));
}

#[test]
fn a_comparison_prints_every_line_or_why_it_could_not() {
    let read = report_drift(
        "ref.json",
        &DriftFiles::Read {
            lines: argv(&["one", "two"]),
        },
    );
    assert_eq!(
        printed(&read.lines),
        vec![
            "[camera-tune] drift vs ref.json:",
            "[camera-tune]   one",
            "[camera-tune]   two"
        ]
    );
    for f in [
        DriftFiles::NoReference { error: "gone".into() },
        DriftFiles::NoFresh { path: "f".into(), error: "gone".into() },
        DriftFiles::Unparsed { error: "gone".into() },
    ] {
        let lines = printed(&report_drift("ref.json", &f).lines);
        assert_eq!(lines.len(), 1);
        assert!(lines[0].contains("gone"));
    }
}

#[test]
fn a_dry_run_of_the_emitter_setup_warns_of_nothing() {
    let dry = ir_setup(&argv(&["ir-setup", "--dry-run"]));
    assert!(dry.console.lines.is_empty());
    assert!(matches!(dry.request, Request::SetupIrEmitter { dry_run: true }));
    let wet = ir_setup(&argv(&["ir-setup"]));
    assert_eq!(wet.console.lines.len(), 1);
    assert!(matches!(wet.request, Request::SetupIrEmitter { dry_run: false }));
}

#[test]
fn missing_cameras_are_never_guessed() {
    let none = Caps {
        ir_pair: false,
        rgb: false,
    };
    let unclear = caps_reading(&CameraEvidence::Unclear {
        configured: Some(none),
    });
    assert!(!unclear.established);
    assert!(!caps_reading(&CameraEvidence::Unclear { configured: None }).established);
    assert!(caps_reading(&CameraEvidence::Probed(none)).established);
    let secure = caps_reading(&CameraEvidence::Daemon {
        tier: "secure".into(),
        has_rgb: false,
    });
    assert!(secure.established && secure.caps.ir_pair && secure.caps.rgb);
}

#[test]
fn unknown_nodes_are_not_called_missing() {
    assert_eq!(
        camera_pair(&PairEvidence::Unclear { configured: None }),
        ("unknown".to_string(), "unknown".to_string())
    );
    assert_eq!(
        camera_pair(&PairEvidence::Probed(None)),
        ("none".to_string(), "none".to_string())
    );
    assert_eq!(
        camera_pair(&PairEvidence::Daemon {
            rgb: Some("/dev/video0".into()),
            ir: None
        }),
        ("/dev/video0".to_string(), "none".to_string())
    );
}

#[test]
fn camera_mode_prints_what_is_known() {
    let status = CaptureStatus {
        mode: "sequential".into(),
        source: "default".into(),
        rgb: "/dev/video0".into(),
        ir: None,
        runtime_context: None,
        qualification_state: "inconclusive".into(),
        qualification_reason: Some("dim_scene".into()),
        qualification_context: None,
        runtime_degradation: None,
    };
    let shown: Outcome = camera_mode(&CaptureAnswer::Status(status));
    assert_eq!(shown.exit, 0);
    assert_eq!(
        printed(&shown.console.lines),
        vec![
            "camera pair: rgb=/dev/video0 ir=unavailable",
            "capture mode: sequential (daemon source: default)",
            "qualification: inconclusive",
            "qualification reason: dim_scene"
        ]
    );
    assert_eq!(camera_mode(&CaptureAnswer::Refused("no".into())).exit, 1);
    assert_eq!(camera_mode(&CaptureAnswer::Unexpected("x".into())).exit, 1);
}
