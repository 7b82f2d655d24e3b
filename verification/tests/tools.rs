use irlume_cli::bench::{
    accepted, first_persons, first_within, group_persons, person_of, split_pairs, Histogram,
};
use irlume_cli::calibration::{
    format_ir_glint, next_sample, sample_record, session_record, FaceShot, IrCues, Sample, Session,
};
use irlume_cli::devtools::{
    calcapture_args, capture_args, enrolldev_args, eval_args, genuine_args, irbench_args,
    liveness_args, normprobe_args, report_enrolldev, report_verify, selftest_align,
    selftest_liveness, AlignResult, EnrolldevResult, SelftestAnswer, VerifyResult,
};
use irlume_cli::image::{blur_chip, brightness, is_image};
use irlume_cli::json::Json;

fn argv(v: &[&str]) -> Vec<String> {
    v.iter().map(|s| s.to_string()).collect()
}

#[test]
fn blur_chip_keeps_uniform_images_and_spreads_a_point() {
    let n = 112usize;
    let uniform = vec![7u8; n * n * 3];
    assert_eq!(blur_chip(&uniform), uniform);

    let mut chip = vec![0u8; n * n * 3];
    chip[(5 * n + 5) * 3] = 90;
    let out = blur_chip(&chip);
    assert_eq!(out[(5 * n + 5) * 3], 10, "interior: 90 / 9 neighbours");
    assert_eq!(out[(4 * n + 4) * 3], 10, "diagonal neighbour sees it too");

    let mut chip = vec![0u8; n * n * 3];
    chip[0] = 80;
    assert_eq!(blur_chip(&chip)[0], 20, "corner: 80 / 4 neighbours");
}

#[test]
fn colors_do_not_bleed_into_each_other() {
    let n = 112usize;
    let mut chip = vec![0u8; n * n * 3 + 2];
    chip[(5 * n + 5) * 3 + 1] = 90;
    chip[n * n * 3] = 9;
    let out = blur_chip(&chip);
    assert_eq!(out[(5 * n + 5) * 3], 0);
    assert_eq!(out[(5 * n + 5) * 3 + 1], 10);
    assert_eq!(out[n * n * 3], 9, "what follows the chip stays");
}

#[test]
fn brightness_finds_both_ends_and_the_sum() {
    assert_eq!(brightness(&[3, 250, 7]), (3, 250, 260));
    assert_eq!(brightness(&[]), (255, 0, 0));
}

#[test]
fn images_are_told_by_their_extension() {
    for name in ["jpg", "PNG", "bmp", "jpeg"] {
        assert!(is_image(Some(name)), "{name}");
    }
    assert!(!is_image(Some("txt")));
    assert!(!is_image(None));
}

#[test]
fn the_glint_trace_field_separates_absent_railed_and_measured() {
    assert_eq!(format_ir_glint(false, None), "n/a");
    assert_eq!(format_ir_glint(true, None), "railed");
    assert_eq!(format_ir_glint(true, Some("126.0")), "126.0");
    assert_ne!(format_ir_glint(false, None), format_ir_glint(true, None));
    for s in [
        format_ir_glint(false, None),
        format_ir_glint(true, None),
        format_ir_glint(true, Some("126.0")),
    ] {
        assert!(!s.is_empty(), "the trace field must not render empty");
        assert!(!format!("{s:>6}").trim().is_empty());
    }
}

#[test]
fn persons_are_named_by_either_convention() {
    assert_eq!(person_of("AJ_Cook_0001", true), "AJ_Cook");
    assert_eq!(person_of("AJ_Cook", true), "AJ_Cook");
    assert_eq!(person_of("AJ_Cook_", true), "AJ_Cook_");
    assert_eq!(person_of("0042-a-1", false), "0042");
    assert_eq!(person_of("0042", false), "0042");
}

#[test]
fn images_are_grouped_by_person_in_order() {
    let persons = argv(&["bo", "al", "bo", "b", "al"]);
    let g = group_persons(&persons);
    assert_eq!(g.names, argv(&["al", "b", "bo"]));
    assert_eq!(g.members, vec![vec![1, 4], vec![3], vec![0, 2]]);
    let g = first_persons(g, 2);
    assert_eq!(g.names, argv(&["al", "b"]));
    assert_eq!(g.members.len(), 2);
}

#[test]
fn every_pair_is_of_one_person_or_of_two() {
    let p = split_pairs(&vec![0, 1, 0, 1]);
    assert_eq!(p.genuine, vec![(0, 2), (1, 3)]);
    assert_eq!(p.impostor, vec![(0, 1), (0, 3), (1, 2), (2, 3)]);
}

#[test]
fn a_histogram_counts_from_the_top_and_finds_percentiles() {
    let mut h = Histogram::new(5);
    for bin in [0, 1, 1, 3] {
        h.count(bin);
    }
    assert_eq!(h.total(), 4);
    assert_eq!(h.from_bin(0), 4);
    assert_eq!(h.from_bin(1), 3);
    assert_eq!(h.from_bin(4), 0);
    assert_eq!(h.reaching(3), Some(1));
    assert_eq!(h.reaching(4), Some(3));
    assert_eq!(h.reaching(5), None);
    assert_eq!(h.reaching(0), Some(0));
    assert_eq!(h.top(), Some(3));
    assert_eq!(Histogram::new(3).top(), None);
}

#[test]
fn a_higher_threshold_accepts_fewer() {
    let scores = vec![5, 1, 9];
    assert_eq!(accepted(&scores, 0), 3);
    assert_eq!(accepted(&scores, 5), 2);
    assert_eq!(accepted(&scores, 10), 0);
}

#[test]
fn the_first_strict_threshold_is_found() {
    let scores = vec![10, 20, 30, 40];
    assert_eq!(first_within(&scores, &vec![5, 25, 35, 45], 4), Some(2));
    assert_eq!(first_within(&scores, &vec![5, 25, 35, 45], 5), Some(3));
    assert_eq!(first_within(&scores, &vec![5, 25, 35, 45], 0), Some(0));
    assert_eq!(first_within(&scores, &vec![5, 25], 4), None);
    let mut h = Histogram::new(4);
    for bin in [0, 0, 1, 3] {
        h.count(bin);
    }
    assert_eq!(h.first_within(&vec![0, 1, 2, 4], 4), Some(2));
    assert_eq!(h.first_within(&vec![0, 1, 2, 4], 5), Some(3));
    assert_eq!(h.first_within(&vec![0, 1], 4), None);
}

fn shot() -> FaceShot {
    FaceShot {
        score: "0.9".into(),
        cosine: "null".into(),
        brightness: "100.0".into(),
        sharpness: "1.0".into(),
        contrast: "2.0".into(),
        bbox: "[0.0,0.0,1.0,1.0]".into(),
        landmarks: "[]".into(),
        iod_px: "60.0".into(),
        embedding: "[]".into(),
    }
}

fn sample(ir: Option<(FaceShot, IrCues)>) -> Sample {
    Sample {
        idx: 0,
        tag: "dim".into(),
        elapsed_ms: "1.5".into(),
        rgb_sat_pct: "0.0".into(),
        ir_sat_pct: "0.0".into(),
        rgb_res: (640, 480),
        ir_res: (640, 360),
        ts_unix: "1.0".into(),
        ir_ambient: "3.0".into(),
        ir_strobe_gap: "40.0".into(),
        rgb: None,
        ir,
    }
}

#[test]
fn a_null_glint_means_a_peak_at_the_ceiling() {
    let railed = sample_record(&sample(Some((
        shot(),
        IrCues {
            center_edge_ratio: "1.2".into(),
            glint: None,
        },
    ))));
    assert!(matches!(railed.get("ir_glint"), Some(Json::Null)));
    assert!(matches!(railed.get("ir_present"), Some(Json::Bool(true))));
    assert!(railed.get("rgb_cos").is_none());
    let absent = sample_record(&sample(None));
    assert!(absent.get("ir_glint").is_none());
    assert!(matches!(absent.get("ir_present"), Some(Json::Bool(false))));
    assert!(matches!(
        absent.get("ir_res").unwrap().at(1),
        Some(Json::Num(360))
    ));
}

#[test]
fn a_session_tags_each_model_by_its_digest() {
    let s = Session {
        user: "alice".into(),
        tag: "bright".into(),
        n: 40,
        host: "h".into(),
        rgb_camera: "r".into(),
        ir_camera: "i".into(),
        det: Some(b"abc".to_vec()),
        model: None,
        adapter: None,
        ts_unix: "1.0".into(),
    };
    let r = session_record(&s);
    assert!(
        matches!(r.get("det_sha256"), Some(Json::Str(d)) if d == "ba7816bf8f01"),
        "the first digits of the SHA-256 of abc"
    );
    assert!(matches!(r.get("model_sha256"), Some(Json::Null)));
}

#[test]
fn tools_refuse_to_start_without_their_models() {
    let none = argv(&["tool"]);
    assert_eq!(capture_args(&none).err().unwrap().exit, 2);
    assert_eq!(genuine_args(&none).err().unwrap().exit, 2);
    assert_eq!(liveness_args(&none, "r", "i").err().unwrap().exit, 2);
    assert_eq!(calcapture_args(&none).err().unwrap().exit, 2);
    assert_eq!(eval_args(&none).err().unwrap().exit, 2);
    assert_eq!(enrolldev_args(&none, 5).err().unwrap().exit, 2);
    assert_eq!(irbench_args(&none).err().unwrap().exit, 2);
    assert_eq!(normprobe_args(&none).err().unwrap().exit, 2);
}

#[test]
fn missing_and_unreadable_counts_fall_back() {
    let models = ["tool", "--det", "d", "--model", "m"];
    let with = |more: &[&str]| argv(&[&models[..], more].concat());
    let a = calcapture_args(&with(&["--out", "o", "--n", "x"])).ok().unwrap();
    assert_eq!((a.n, a.tag.as_str(), a.ir.as_str()), (40, "untagged", "/dev/video2"));
    let a = calcapture_args(&with(&["--out", "o", "--n", "7"])).ok().unwrap();
    assert_eq!(a.n, 7);
    let a = enrolldev_args(&with(&["--scans", "9"]), 5).ok().unwrap();
    assert_eq!(a.scans, 9);
    let a = genuine_args(&with(&["--image", "x.png"])).ok().unwrap();
    assert!(a.image.is_none());
    let a = normprobe_args(&argv(&["normprobe", "--dir", "d"])).ok().unwrap();
    assert_eq!((a.max, a.models.model.as_str()), (40, "models/glintr100.onnx"));
    let a = liveness_args(&argv(&["liveness", "--det", "d", "--ir", "x"]), "r", "i").ok().unwrap();
    assert_eq!((a.rgb.as_str(), a.ir.as_str()), ("r", "x"));
}

#[test]
fn strangers_and_grouping_contradict_each_other() {
    let base = ["irbench", "--dir", "d", "--det", "y", "--model", "m"];
    let with = |more: &[&str]| argv(&[&base[..], more].concat());
    let a = irbench_args(&with(&["--impostor-only"])).ok().unwrap();
    assert!(a.impostor_only && !a.lfw);
    assert_eq!((a.max_persons, a.max_images), (80, 20_000));
    assert_eq!(
        irbench_args(&with(&["--impostor-only", "--lfw"])).err().unwrap().exit,
        2
    );
}

#[test]
fn tools_report_how_they_ended() {
    let decided = |granted| VerifyResult::Decided {
        live: true,
        granted,
        score: "0.712".into(),
        reason: "match".into(),
    };
    assert_eq!(report_verify(&decided(true)).exit, 0);
    assert_eq!(report_verify(&decided(false)).exit, 1);
    assert_eq!(report_verify(&VerifyResult::Failed("x".into())).exit, 1);
    let new = report_enrolldev(&EnrolldevResult::New {
        name: "P".into(),
        scans: 5,
        ambient_lit: 2,
    });
    assert_eq!(new.console.lines.len(), 2);
    let merged = report_enrolldev(&EnrolldevResult::Merged {
        name: "P".into(),
        added: 1,
        total: 6,
        ambient_lit: 0,
    });
    assert_eq!(merged.console.lines.len(), 1);
    assert_eq!(report_enrolldev(&EnrolldevResult::Failed("x".into())).exit, 1);
    let passed = |passed| SelftestAnswer::Result {
        passed,
        detail: "d".into(),
    };
    assert_eq!(selftest_liveness(&passed(true)).exit, 0);
    assert_eq!(selftest_liveness(&passed(false)).exit, 1);
    assert_eq!(selftest_liveness(&SelftestAnswer::Refused("x".into())).exit, 1);
    assert_eq!(selftest_liveness(&SelftestAnswer::Unexpected("x".into())).exit, 1);
    let ran = |passed| AlignResult::Ran {
        passed,
        detail: "d".into(),
    };
    assert_eq!(selftest_align(&ran(true)).exit, 0);
    assert_eq!(selftest_align(&ran(false)).exit, 1);
    assert_eq!(
        selftest_align(&AlignResult::NoModel { error: "x".into() }).exit,
        1
    );
}

#[test]
fn a_capture_takes_each_sample_once_and_then_stops() {
    for n in [0usize, 1, 2, 25] {
        let mut taken = Vec::new();
        while let Some(idx) = next_sample(n, taken.len()) {
            taken.push(idx);
        }
        assert_eq!(taken, (0..n).collect::<Vec<usize>>());
    }
    assert_eq!(next_sample(3, 2), Some(2));
    assert_eq!(next_sample(3, 3), None);
    assert_eq!(next_sample(3, 7), None);
}
