use irlume_cli::apply::{Apply, ApplyStep};
use irlume_cli::ids::{id_of, random_id};
use irlume_cli::json::Json;
use irlume_cli::machine::ENGINE_VERSION;
use irlume_cli::plan::{login_plan, login_plan_reply, plan_id, PlannedChange, PlannedSurface};
use irlume_cli::rollback::{rollback_restore, Action, Rollback, RollbackProgress, Target};
use irlume_cli::transaction::{
    load_failure, login_rollback, login_verify, rollback_blockers, rollback_gate, verify_surfaces,
    AppliedSurface, Drift, LoadFailure, Observed, SurfaceRecord, TransactionStatus,
};

fn argv(v: &[&str]) -> Vec<String> {
    v.iter().map(|s| s.to_string()).collect()
}

fn text(j: &Json) -> &str {
    match j {
        Json::Str(s) => s,
        _ => panic!("not a string"),
    }
}

fn surface(change: PlannedChange, state: &str) -> Vec<PlannedSurface> {
    vec![PlannedSurface {
        id: "plasmalogin",
        role: "login-screen",
        change,
        state: state.to_string(),
    }]
}

#[test]
fn a_plan_id_changes_when_the_file_changes_but_the_outcome_does_not() {
    let with_state = |state: &str| surface(PlannedChange::Wire, state);
    let before = plan_id("enable", &with_state("aaaa"));
    let after = plan_id("enable", &with_state("bbbb"));
    assert_ne!(
        before, after,
        "the same outcome over different file content must not share a plan id"
    );
    assert_eq!(before, plan_id("enable", &with_state("aaaa")));
    assert_ne!(
        plan_id("enable", &with_state("unreadable")),
        plan_id("enable", &with_state("absent"))
    );
}

#[test]
fn a_plan_id_covers_the_action_and_the_outcomes() {
    let base = plan_id("enable", &surface(PlannedChange::Wire, "same-state"));
    assert_eq!(
        base,
        plan_id("enable", &surface(PlannedChange::Wire, "same-state"))
    );
    assert_ne!(
        base,
        plan_id("disable", &surface(PlannedChange::Wire, "same-state"))
    );
    assert_ne!(
        base,
        plan_id("enable", &surface(PlannedChange::AlreadyCorrect, "same-state"))
    );
    assert_eq!(base.len(), 32);
}

#[test]
fn a_change_that_writes_is_named_as_one() {
    for change in [
        PlannedChange::MaterializeOverride,
        PlannedChange::Wire,
        PlannedChange::RemoveOverride,
        PlannedChange::RestoreBackup,
        PlannedChange::StripInPlace,
    ] {
        assert!(change.writes(), "{change:?} writes to disk");
    }
    for change in [
        PlannedChange::AlreadyCorrect,
        PlannedChange::NotInstalled,
        PlannedChange::NoAnchor,
        PlannedChange::NotWired,
    ] {
        assert!(!change.writes(), "{change:?} does not write");
    }
}

#[test]
fn every_planned_change_has_a_distinct_stable_id() {
    let all = [
        PlannedChange::MaterializeOverride,
        PlannedChange::Wire,
        PlannedChange::RemoveOverride,
        PlannedChange::RestoreBackup,
        PlannedChange::StripInPlace,
        PlannedChange::AlreadyCorrect,
        PlannedChange::NotInstalled,
        PlannedChange::NoAnchor,
        PlannedChange::NotWired,
    ];
    let ids: std::collections::BTreeSet<&str> = all.iter().map(|c| c.id()).collect();
    assert_eq!(ids.len(), all.len(), "two outcomes share a published id");
    for id in ids {
        assert!(!id.is_empty() && id.chars().all(|c| c.is_ascii_lowercase() || c == '-'));
    }
}

#[test]
fn a_plan_says_whether_it_needs_root() {
    let (contract, action) =
        match login_plan(&argv(&["login", "plan", "--action", "enable", "--json"])) {
            Ok(p) => p,
            Err(_) => panic!("the request is well formed"),
        };
    assert_eq!((contract, action), (1, "enable"));
    let reply = login_plan_reply("enable", &surface(PlannedChange::Wire, "x"), 1);
    let data = reply.document.data.unwrap();
    assert!(matches!(data.get("requires_root"), Some(Json::Bool(true))));
    assert_eq!(
        text(data.get("plan_id").unwrap()),
        plan_id("enable", &surface(PlannedChange::Wire, "x"))
    );
    let reply = login_plan_reply("enable", &surface(PlannedChange::AlreadyCorrect, "x"), 1);
    assert!(matches!(
        reply.document.data.unwrap().get("requires_root"),
        Some(Json::Bool(false))
    ));
}

fn observed(v: &[(&str, Drift)]) -> Vec<Observed> {
    v.iter()
        .map(|(id, drift)| Observed {
            id: id.to_string(),
            drift: *drift,
        })
        .collect()
}

#[test]
fn verify_reports_each_surface_and_counts_the_drift() {
    let seen = observed(&[("kde", Drift::AsApplied), ("sudo", Drift::ChangedSinceApply)]);
    let (surfaces, drifted) = verify_surfaces(&seen);
    assert_eq!(text(surfaces.at(0).unwrap().get("surface").unwrap()), "kde");
    assert_eq!(text(surfaces.at(0).unwrap().get("state").unwrap()), "as-applied");
    assert_eq!(
        text(surfaces.at(1).unwrap().get("state").unwrap()),
        "changed-since-apply"
    );
    assert!(surfaces.at(2).is_none());
    assert_eq!(drifted, 1);

    let blockers = rollback_blockers(&seen);
    assert_eq!(blockers.changed, vec!["sudo"]);
    assert!(blockers.unreadable.is_empty());
}

#[test]
fn a_rollback_is_allowed_only_when_nothing_drifted() {
    assert!(
        !rollback_blockers(&observed(&[("kde", Drift::AsApplied)])).any(),
        "clean stack rolls back"
    );

    let blockers = rollback_blockers(&observed(&[("kde", Drift::ChangedSinceApply)]));
    assert_eq!(blockers.changed, vec!["kde"]);
    assert!(
        blockers.unreadable.is_empty(),
        "an edit is not a read fault"
    );

    let blockers = rollback_blockers(&observed(&[("kde", Drift::Unreadable)]));
    assert!(blockers.any(), "unreadable still stops the rollback");
    assert_eq!(blockers.unreadable, vec!["kde"]);
    assert!(blockers.changed.is_empty(), "unreadable is not drift");
}

#[test]
fn a_record_that_cannot_be_loaded_says_why() {
    let code = |why| load_failure("login.verify", why, 1).document.error.unwrap().code;
    let all = [
        code(LoadFailure::NotFound),
        code(LoadFailure::NotAuthorized),
        code(LoadFailure::Unreadable),
        code(LoadFailure::TooNew),
    ];
    let distinct: std::collections::BTreeSet<&str> = all.iter().copied().collect();
    assert_eq!(distinct.len(), 4, "no reason is folded into another");
}

#[test]
fn an_unconfirmed_record_is_rolled_back_only_on_request() {
    let clean = observed(&[("kde", Drift::AsApplied)]);
    assert!(matches!(
        rollback_gate(TransactionStatus::Applied, false, &clean, 1),
        Ok(false)
    ));
    assert!(rollback_gate(TransactionStatus::Prepared, false, &clean, 1).is_err());
    assert!(matches!(
        rollback_gate(TransactionStatus::Prepared, true, &clean, 1),
        Ok(true)
    ));
    assert!(rollback_gate(TransactionStatus::Unknown, false, &clean, 1).is_err());
    assert!(matches!(
        rollback_gate(TransactionStatus::Unknown, true, &clean, 1),
        Ok(true)
    ));
    let changed = observed(&[("kde", Drift::ChangedSinceApply)]);
    assert!(rollback_gate(TransactionStatus::Applied, false, &changed, 1).is_err());
}

#[test]
fn transaction_requests_are_opened_by_their_words() {
    let id = "0123456789abcdef0123456789abcdef";
    match login_verify(&argv(&["login", "verify", "--transaction-id", id, "--json"])) {
        Ok((contract, got)) => {
            assert_eq!(contract, 1);
            assert_eq!(got, id);
        }
        Err(_) => panic!("the request is well formed"),
    }
    match login_rollback(&argv(&[
        "login",
        "rollback",
        "--transaction-id",
        id,
        "--apply",
        "--json",
    ])) {
        Ok(r) => assert!(r.will_apply),
        Err(_) => panic!("the request is well formed"),
    }
    assert!(login_rollback(&argv(&["login", "rollback", "--json"])).is_err());
}

fn target(id: &str) -> Target {
    Target {
        surface: SurfaceRecord {
            id: id.into(),
            path: format!("/etc/pam.d/{id}"),
            change: "wire".into(),
            before: Some("before\n".into()),
            after_sha256: "0".repeat(64),
            mode: None,
            uid: None,
            gid: None,
            sidecar: None,
        },
        managed: true,
        sidecar_managed: false,
        sidecar_key: format!("{id}#backup"),
    }
}

/// Runs a rollback whose steps all succeed, but for the write of `fails`.
fn run(progress: RollbackProgress, fails: Option<&str>) -> (Vec<String>, u8, bool) {
    let ids = ["kde", "sudo"];
    let (mut rollback, mut action) = Rollback::resume(
        "login.rollback",
        1,
        "0123456789abcdef0123456789abcdef".into(),
        "enable".into(),
        false,
        None,
        ids.iter().map(|i| target(i)).collect(),
        progress,
    );
    let mut trace = Vec::new();
    loop {
        let ok = match &action {
            Action::Check(i) => {
                trace.push(format!("check {}", ids[*i]));
                true
            }
            Action::Note => {
                trace.push("note".to_string());
                true
            }
            Action::RestoreLive(i) => {
                trace.push(format!("write {}", ids[*i]));
                assert_eq!(rollback.live_restore(*i).path, format!("/etc/pam.d/{}", ids[*i]));
                fails != Some(ids[*i])
            }
            Action::RestoreSidecar(i) => {
                trace.push(format!("backup {}", ids[*i]));
                true
            }
            Action::Clear => {
                trace.push("clear".to_string());
                true
            }
            Action::Publish(reply) => return (trace, reply.exit, reply.document.ok),
        };
        action = rollback.advance(ok);
    }
}

#[test]
fn a_rollback_announces_each_write_and_clears_its_note_at_the_end() {
    let nothing = RollbackProgress {
        started: Vec::new(),
        done: Vec::new(),
    };
    let (trace, exit, ok) = run(nothing, None);
    assert!(ok);
    assert_eq!(exit, 0);
    let write = |id: &str| trace.iter().position(|t| *t == format!("write {id}")).unwrap();
    assert!(write("kde") < write("sudo"));
    for at in [write("kde"), write("sudo")] {
        assert_eq!(trace[at - 1], "note", "a write is announced first");
    }
    assert_eq!(trace.last().unwrap(), "clear");
    assert!(trace.iter().any(|t| t == "check kde"));
}

#[test]
fn a_resumed_rollback_does_not_write_again_what_is_back() {
    let progress = RollbackProgress {
        started: vec!["kde".into()],
        done: vec!["kde".into()],
    };
    let (trace, _, ok) = run(progress, None);
    assert!(ok);
    assert!(!trace.iter().any(|t| t == "write kde"));
    assert!(trace.iter().any(|t| t == "write sudo"));
}

#[test]
fn a_rollback_that_cannot_write_keeps_its_note() {
    let nothing = RollbackProgress {
        started: Vec::new(),
        done: Vec::new(),
    };
    let (trace, exit, ok) = run(nothing, Some("sudo"));
    assert!(!ok);
    assert_ne!(exit, 0);
    assert!(!trace.iter().any(|t| t == "clear"));
}

#[test]
fn a_preview_writes_nothing_and_a_foreign_path_is_refused() {
    let targets = vec![target("kde")];
    let preview = rollback_restore("login.rollback", "id", "enable", &targets, false, 1, false);
    assert!(preview.unwrap().document.ok);
    assert!(rollback_restore("login.rollback", "id", "enable", &targets, true, 1, false).is_none());
    let mut foreign = target("kde");
    foreign.managed = false;
    let refused =
        rollback_restore("login.rollback", "id", "enable", &vec![foreign], true, 1, false).unwrap();
    assert!(!refused.document.ok);
}

fn applied(error: Option<&str>) -> Vec<AppliedSurface> {
    vec![AppliedSurface {
        id: "plasmalogin",
        role: "login-screen",
        path: "/etc/pam.d/plasmalogin".into(),
        change: PlannedChange::Wire,
        before: Some("before\n".into()),
        before_metadata: Some((0o644, 0, 0)),
        after_sha256: "f".repeat(64),
        sidecar_existed: false,
        sidecar_before: None,
        sidecar_metadata: None,
        sidecar_after_sha256: String::new(),
        error: error.map(|s| s.to_string()),
    }]
}

fn apply_with(plan: &str) -> Apply {
    match Apply::begin(&argv(&[
        "login", "apply", "--action", "enable", "--plan-id", plan, "--json",
    ])) {
        Ok(a) => a,
        Err(_) => panic!("the request is well formed"),
    }
}

#[test]
fn an_apply_writes_only_the_plan_it_was_given() {
    let now = || surface(PlannedChange::Wire, "aaaa");
    let id = plan_id("enable", &now());
    let mut run = apply_with(&id);
    assert!(run.locked(0, true).is_none());
    assert!(run.replanned(now()).is_none());
    run.prepared(&applied(None), ".irlume-backup", 2);
    assert_eq!(run.step, ApplyStep::StorePrepared);
    let first = run.record.as_ref().unwrap();
    let record = first.id.clone();
    assert_eq!(first.engine_version, ENGINE_VERSION);
    assert_eq!(first.schema_version, 2);
    assert!(is_lower_hex(&record));
    assert!(run.marker(None, true, true).is_none(), "nothing is written yet");
    assert!(run.stored(true).is_none());
    run.written(applied(None), ".irlume-backup");
    let last = run.record.as_ref().unwrap();
    assert_eq!(last.id, record);
    assert_eq!(last.engine_version, ENGINE_VERSION);
    assert_eq!(last.schema_version, 2);
    assert!(run.marker(None, true, true).is_none(), "nothing is confirmed yet");
    let reply = run.confirmed(true).unwrap();
    assert!(reply.document.ok);
    assert_eq!(reply.exit, 0);
    let marker = run.marker(None, true, true).unwrap();
    assert!(marker.lock && marker.face_lock_intent && !marker.sudo && !marker.polkit);
}

fn is_lower_hex(id: &str) -> bool {
    id.len() == 32 && id.chars().all(|c| c.is_ascii_digit() || ('a'..='f').contains(&c))
}

#[test]
fn an_identifier_is_thirty_two_lower_case_digits() {
    for state in ["aaaa", "bbbb", "absent", ""] {
        assert!(is_lower_hex(&plan_id("enable", &surface(PlannedChange::Wire, state))));
    }
    assert!(is_lower_hex(&plan_id("disable", &[])));
    assert!(is_lower_hex(&random_id()));
    assert_eq!(
        id_of(&[0, 1, 15, 16, 160, 171, 205, 239, 255, 9, 10, 99, 127, 128, 200, 254]),
        "00010f10a0abcdefff090a637f80c8fe"
    );
}

#[test]
fn an_unstored_confirmation_leaves_the_marker_alone() {
    let now = || surface(PlannedChange::Wire, "aaaa");
    let mut run = apply_with(&plan_id("enable", &now()));
    assert!(run.locked(0, true).is_none());
    assert!(run.replanned(now()).is_none());
    run.prepared(&applied(None), ".irlume-backup", 2);
    assert!(run.stored(true).is_none());
    run.written(applied(None), ".irlume-backup");
    assert!(run.confirmed(false).is_some());
    assert!(run.marker(None, true, true).is_none());

    let mut run = apply_with(&plan_id("enable", &now()));
    assert!(run.locked(0, true).is_none());
    assert!(run.replanned(now()).is_none());
    run.prepared(&applied(None), ".irlume-backup", 2);
    assert!(run.stored(true).is_none());
    run.written(applied(Some("denied")), ".irlume-backup");
    assert!(run.confirmed(true).is_some());
    assert!(run.marker(None, true, true).is_none(), "a surface failed");
}

#[test]
fn a_stale_plan_and_an_unstored_record_stop_an_apply() {
    let mut run = apply_with(&"0".repeat(32));
    assert!(run.locked(0, true).is_none());
    let refused = run.replanned(surface(PlannedChange::Wire, "aaaa")).unwrap();
    assert_eq!(refused.document.error.unwrap().code, "plan-stale");

    let mut run = apply_with(&"0".repeat(32));
    assert!(run.locked(1000, true).is_some(), "writing needs root");

    let now = || surface(PlannedChange::Wire, "aaaa");
    let mut run = apply_with(&plan_id("enable", &now()));
    run.locked(0, true);
    run.replanned(now());
    run.prepared(&applied(None), ".irlume-backup", 2);
    assert!(run.stored(false).is_some());
    assert_eq!(run.step, ApplyStep::End);
}
