use irlume_cli::args::{
    flag, flag_present, named_user, scans_flag, subcommand_after_valued, toggle_value, user_arg,
    user_note, Caller,
};
use irlume_cli::contract::{
    negotiate, without_contract, Contract, CONTRACT_DEFAULT, CONTRACT_MAX, CONTRACT_MIN,
};
use irlume_cli::flags::{
    valid_auth_test_args, valid_login_apply_args, valid_login_plan_args, valid_profiles_list_args,
    valid_status_args, valid_transaction_args,
};
use irlume_cli::quote::shell_single_quote;
use irlume_cli::route::{refuse_dev, refuse_unknown, route, Command, Route};

fn argv(v: &[&str]) -> Vec<String> {
    v.iter().map(|s| s.to_string()).collect()
}

fn caller(user: Option<&str>, sudo_user: Option<&str>, root: bool) -> Caller {
    Caller {
        sudo_user: sudo_user.map(|s| s.to_string()),
        user: user.map(|s| s.to_string()),
        root,
    }
}

#[test]
fn flag_returns_the_value_following_the_name() {
    let a = argv(&["--user", "alice", "--scans", "5"]);
    assert_eq!(flag(&a, "--user"), Some("alice"));
    assert_eq!(flag(&a, "--scans"), Some("5"));
    assert_eq!(flag(&a, "--name"), None);
}

#[test]
fn flag_with_the_name_in_last_position_has_no_value() {
    let a = argv(&["enroll", "--reset"]);
    assert_eq!(flag(&a, "--reset"), None);
}

#[test]
fn a_value_flag_with_no_value_is_a_usage_error_not_the_default() {
    assert!(matches!(scans_flag(&argv(&["enroll"]), "enroll"), Ok(None)));
    assert!(matches!(
        scans_flag(&argv(&["enroll", "--scans", "7"]), "enroll"),
        Ok(Some(7))
    ));
    assert!(matches!(
        scans_flag(&argv(&["enroll", "--scans=7"]), "enroll"),
        Ok(Some(7))
    ));
    assert!(scans_flag(&argv(&["enroll", "--scans"]), "enroll").is_err());
    assert!(scans_flag(&argv(&["enroll", "--scans="]), "enroll").is_err());
    assert!(scans_flag(&argv(&["enroll", "--scans", "abc"]), "enroll").is_err());
    assert!(scans_flag(&argv(&["enroll", "--scans", "0"]), "enroll").is_err());
}

#[test]
fn flag_reads_the_equals_spelling_and_only_for_an_exact_name() {
    assert_eq!(flag(&argv(&["--user=alice"]), "--user"), Some("alice"));
    assert_eq!(flag(&argv(&["--user", "alice"]), "--user"), Some("alice"));
    assert_eq!(flag(&argv(&["--user=a=b"]), "--user"), Some("a=b"));
    assert_eq!(flag(&argv(&["--user="]), "--user"), Some(""));
    assert_eq!(flag(&argv(&["--username=alice"]), "--user"), None);
    assert_eq!(flag(&argv(&["--users=alice"]), "--user"), None);
    assert_eq!(
        flag(&argv(&["--user=first", "--user", "second"]), "--user"),
        Some("first")
    );

    assert!(flag_present(&argv(&["--user=alice"]), "--user"));
    assert!(flag_present(&argv(&["--user="]), "--user"));
    assert!(flag_present(&argv(&["--user"]), "--user"));
    assert!(!flag_present(&argv(&["--username=alice"]), "--user"));
    assert!(!flag_present(&argv(&["list"]), "--user"));
}

#[test]
fn flag_takes_the_first_occurrence() {
    let a = argv(&["--user", "a", "--user", "b"]);
    assert_eq!(flag(&a, "--user"), Some("a"));
}

#[test]
fn subcommand_after_valued_scans_past_flags_and_their_values() {
    let profiles = &["--user", "--profile", "--scans", "--name", "--scan"];
    let args = argv(&["profiles", "--user", "list", "add-scan"]);
    assert_eq!(subcommand_after_valued(&args, profiles), Some("add-scan"));
    let args = argv(&["profiles", "--user=tester", "list"]);
    assert_eq!(subcommand_after_valued(&args, profiles), Some("list"));
    let args = argv(&["profiles", "list"]);
    assert_eq!(subcommand_after_valued(&args, profiles), Some("list"));
    let args = argv(&["profiles", "--user", "tester"]);
    assert_eq!(subcommand_after_valued(&args, profiles), None);
    let args = argv(&["profiles", "--verbose", "list"]);
    assert_eq!(subcommand_after_valued(&args, profiles), Some("list"));
    let args = argv(&["keyring", "--user", "tester", "status"]);
    assert_eq!(subcommand_after_valued(&args, &["--user"]), Some("status"));
}

#[test]
fn a_toggle_reads_its_value_positionally_not_from_anywhere_in_argv() {
    assert_eq!(
        toggle_value(&argv(&["eyes-open", "on"]), "eyes-open"),
        Some(true)
    );
    assert_eq!(
        toggle_value(
            &argv(&["eyes-open", "off", "--user", "someone"]),
            "eyes-open"
        ),
        Some(false)
    );
    assert_eq!(
        toggle_value(&argv(&["eyes-open", "--user", "on"]), "eyes-open"),
        None,
        "a --user VALUE must never be read as the setting"
    );
    assert_eq!(
        toggle_value(&argv(&["eyes-open", "--user", "off"]), "eyes-open"),
        None
    );
    assert_eq!(
        toggle_value(&argv(&["eyes-open", "on", "off"]), "eyes-open"),
        None
    );
    assert_eq!(
        toggle_value(&argv(&["eyes-open", "off", "on"]), "eyes-open"),
        None
    );
    assert_eq!(toggle_value(&argv(&["eyes-open"]), "eyes-open"), None);
    assert_eq!(
        toggle_value(&argv(&["eyes-open", "yes"]), "eyes-open"),
        None
    );
}

#[test]
fn user_arg_prefers_the_explicit_flag() {
    let who = caller(Some("envuser"), None, false);
    assert_eq!(
        user_arg(&argv(&["--user", "carol"]), &who).as_deref(),
        Some("carol")
    );
}

#[test]
fn user_arg_falls_back_to_env_user_when_flag_is_empty_or_absent() {
    let who = caller(Some("envuser"), Some("someoneelse"), false);
    assert_eq!(
        user_arg(&argv(&["--user", ""]), &who).as_deref(),
        Some("envuser")
    );
    assert_eq!(user_arg(&[], &who).as_deref(), Some("envuser"));
}

#[test]
fn under_root_the_invoking_user_is_meant() {
    let who = caller(Some("root"), Some("alice"), true);
    assert_eq!(user_arg(&argv(&["status"]), &who).as_deref(), Some("alice"));
}

#[test]
fn only_a_typed_name_is_looked_up() {
    assert_eq!(named_user(&argv(&["status", "--user", "ghost"])), Some("ghost"));
    assert_eq!(named_user(&argv(&["status", "--user="])), None);
    assert_eq!(named_user(&argv(&["status"])), None);
    assert_eq!(
        user_note("ghost"),
        "irlume: note: user 'ghost' not found on system"
    );
}

#[test]
fn shell_single_quote_keeps_a_hostile_profile_name_in_one_argument() {
    let name = "Face'; touch /tmp/irlume-command-injection; #";
    assert_eq!(
        shell_single_quote(name),
        "'Face'\"'\"'; touch /tmp/irlume-command-injection; #'"
    );
    assert_eq!(shell_single_quote("Face Profile 1"), "'Face Profile 1'");
    assert_eq!(shell_single_quote(""), "''");
}

#[test]
fn an_absent_contract_flag_always_means_the_first_contract() {
    assert_eq!(CONTRACT_DEFAULT, 1);
    assert_eq!(CONTRACT_DEFAULT, CONTRACT_MIN);
    match negotiate(&argv(&["version", "--json"])) {
        Contract::Agreed(v) => assert_eq!(v, CONTRACT_DEFAULT),
        _ => panic!("an absent flag must agree, not refuse"),
    }
}

#[test]
fn a_supported_contract_is_agreed_and_an_unsupported_one_is_refused() {
    for v in CONTRACT_MIN..=CONTRACT_MAX {
        match negotiate(&argv(&["version", "--contract", &v.to_string(), "--json"])) {
            Contract::Agreed(got) => assert_eq!(got, v),
            _ => panic!("contract {v} is in range and must be agreed"),
        }
    }
    assert!(matches!(
        negotiate(&argv(&["version", "--contract", "2", "--json"])),
        Contract::Unsupported
    ));
    assert!(matches!(
        negotiate(&argv(&["version", "--contract", "0", "--json"])),
        Contract::Unsupported
    ));
}

#[test]
fn a_malformed_contract_flag_is_refused_rather_than_guessed() {
    for bad in [
        vec!["version", "--contract"],
        vec!["version", "--contract", "one", "--json"],
        vec!["version", "--contract", "-1", "--json"],
        vec!["version", "--contract", "1", "--contract", "1", "--json"],
    ] {
        assert!(
            matches!(negotiate(&argv(&bad)), Contract::Malformed),
            "{bad:?} must be refused"
        );
    }
}

#[test]
fn stripping_the_flag_leaves_the_command_its_own_arguments() {
    assert_eq!(
        without_contract(&argv(&["profiles", "list", "--contract", "1", "--json"])),
        argv(&["profiles", "list", "--json"])
    );
    assert_eq!(
        without_contract(&argv(&["profiles", "list", "--json"])),
        argv(&["profiles", "list", "--json"])
    );
}

#[test]
fn login_apply_requires_an_action_and_a_plan_id() {
    let id = "0123456789abcdef0123456789abcdef";
    let good = argv(&[
        "login", "apply", "--action", "enable", "--plan-id", id, "--json",
    ]);
    assert_eq!(
        valid_login_apply_args(&good),
        Some(("enable", "0123456789abcdef0123456789abcdef".to_string()))
    );
    for bad in [
        vec!["login", "apply", "--action", "enable", "--json"],
        vec!["login", "apply", "--plan-id", id, "--json"],
        vec![
            "login", "apply", "--action", "enable", "--plan-id", "../etc", "--json",
        ],
        vec![
            "login", "apply", "--action", "enable", "--plan-id", "short", "--json",
        ],
        vec![
            "login", "apply", "--action", "wat", "--plan-id", id, "--json",
        ],
        vec!["login", "apply", "--action", "enable", "--plan-id", id],
        vec![
            "login", "apply", "--action", "enable", "--action", "disable", "--plan-id", id,
            "--json",
        ],
        vec![
            "login", "apply", "--action", "enable", "--plan-id", id, "--json", "--wat",
        ],
        vec![
            "login", "plan", "--action", "enable", "--plan-id", id, "--json",
        ],
    ] {
        assert_eq!(valid_login_apply_args(&argv(&bad)), None, "{bad:?}");
    }
}

#[test]
fn a_transaction_id_shaped_like_a_path_is_refused() {
    let id = "0123456789abcdef0123456789abcdef";
    assert_eq!(
        valid_transaction_args(
            &argv(&["login", "verify", "--transaction-id", id, "--json"]),
            "verify",
            false
        ),
        Some(id.to_string())
    );
    assert_eq!(
        valid_transaction_args(
            &argv(&["login", "rollback", "--transaction-id", id, "--apply", "--json"]),
            "rollback",
            true
        ),
        Some(id.to_string())
    );
    assert_eq!(
        valid_transaction_args(
            &argv(&["login", "verify", "--transaction-id", id, "--apply", "--json"]),
            "verify",
            false
        ),
        None,
        "verify writes nothing, so --apply is meaningless there"
    );
    for bad in [
        vec!["login", "verify", "--transaction-id", "../../etc/passwd", "--json"],
        vec!["login", "verify", "--transaction-id", "../../etc/shadow", "--json"],
        vec!["login", "verify", "--json"],
        vec!["login", "verify", "--transaction-id", id],
        vec![
            "login", "verify", "--transaction-id", id, "--transaction-id", id, "--json",
        ],
        vec!["login", "apply", "--transaction-id", id, "--json"],
    ] {
        assert_eq!(
            valid_transaction_args(&argv(&bad), "verify", false),
            None,
            "{bad:?}"
        );
    }
}

#[test]
fn the_writing_flags_only_add_to_the_accepted_requests() {
    let id = "0123456789abcdef0123456789abcdef";
    let read = |v: &[&str], writing| valid_transaction_args(&argv(v), "rollback", writing);
    let plain = ["login", "rollback", "--json", "--transaction-id", id];
    assert_eq!(read(&plain, false), Some(id.to_string()));
    assert_eq!(read(&plain, true), Some(id.to_string()));
    for flag in ["--apply", "--accept-unconfirmed"] {
        let writing = ["login", "rollback", flag, "--json", "--transaction-id", id];
        assert_eq!(read(&writing, true), Some(id.to_string()));
        assert_eq!(read(&writing, false), None);
    }
    for bad in [
        vec!["login", "rollback", "--json", "--json", "--transaction-id", id],
        vec!["login", "rollback", "--json", id, "--transaction-id"],
        vec!["login", "rollback", "--transaction-id", "--json", id],
        vec!["login", "rollback", "--transaction-id", "--transaction-id", "--json"],
    ] {
        assert_eq!(read(&bad, true), None, "{bad:?}");
        assert_eq!(read(&bad, false), None, "{bad:?}");
    }
}

#[test]
fn login_plan_requires_both_json_and_a_known_action() {
    assert_eq!(
        valid_login_plan_args(&argv(&["login", "plan", "--action", "enable", "--json"])),
        Some("enable")
    );
    assert_eq!(
        valid_login_plan_args(&argv(&["login", "plan", "--json", "--action", "disable"])),
        Some("disable")
    );
    assert_eq!(
        valid_login_plan_args(&argv(&["login", "plan", "--json"])),
        None
    );
    assert_eq!(
        valid_login_plan_args(&argv(&["login", "plan", "--action", "enable"])),
        None
    );
    for bad in [
        vec!["login", "plan", "--action", "wat", "--json"],
        vec!["login", "plan", "--action", "--json"],
        vec!["login", "plan", "--action", "enable", "--json", "--json"],
        vec![
            "login", "plan", "--action", "enable", "--action", "disable", "--json",
        ],
        vec!["login", "plan", "--action", "enable", "--json", "--wat"],
    ] {
        assert_eq!(valid_login_plan_args(&argv(&bad)), None, "{bad:?}");
    }
}

#[test]
fn auth_test_requires_the_events_flag() {
    assert!(!valid_auth_test_args(&["auth".into(), "test".into()]));
    assert!(valid_auth_test_args(&[
        "auth".into(),
        "test".into(),
        "--events=jsonl".into()
    ]));
}

#[test]
fn auth_test_refuses_preview_rather_than_ignoring_it() {
    for flag in ["--preview=ir-jpeg", "--preview", "--preview=anything"] {
        assert!(
            !valid_auth_test_args(&[
                "auth".into(),
                "test".into(),
                "--events=jsonl".into(),
                flag.into()
            ]),
            "{flag} must be refused"
        );
    }
}

#[test]
fn auth_test_rejects_repeats_and_unknown_flags() {
    let cases: [&[&str]; 4] = [
        &["auth", "test", "--events=jsonl", "--events=jsonl"],
        &["auth", "test", "--events=jsonl", "--user"],
        &["auth", "test", "--events=jsonl", "--user", "-bad"],
        &["auth", "test", "--events=jsonl", "--wat"],
    ];
    for case in cases {
        assert!(!valid_auth_test_args(&argv(case)), "{case:?} must be refused");
    }
    assert!(valid_auth_test_args(&argv(&[
        "auth",
        "test",
        "--events=jsonl",
        "--user",
        "someone"
    ])));
}

#[test]
fn profiles_list_rejects_unknown_missing_and_duplicate_flags() {
    assert!(valid_profiles_list_args(&argv(&["profiles", "list", "--json"])));
    assert!(valid_profiles_list_args(&argv(&[
        "profiles", "list", "--user", "alice", "--json"
    ])));
    assert!(!valid_profiles_list_args(&argv(&["profiles", "list"])));
    assert!(!valid_profiles_list_args(&argv(&[
        "profiles",
        "list",
        "--json",
        "--verbose"
    ])));
    assert!(!valid_profiles_list_args(&argv(&[
        "profiles", "list", "--json", "--json"
    ])));
    assert!(!valid_profiles_list_args(&argv(&[
        "profiles", "list", "--json", "--user"
    ])));
}

#[test]
fn status_takes_json_and_an_account_and_nothing_else() {
    assert!(valid_status_args(&argv(&["status", "--json"])));
    assert!(valid_status_args(&argv(&["status", "--user", "alice", "--json"])));
    assert!(!valid_status_args(&argv(&["status"])));
    assert!(!valid_status_args(&argv(&["status", "--json", "--wat"])));
}

#[test]
fn help_anywhere_runs_nothing() {
    for args in [
        vec!["enroll", "--help"],
        vec!["uninstall", "-h"],
        vec!["keyring", "arm", "--help"],
        vec![],
        vec!["help"],
    ] {
        assert_eq!(route(&argv(&args), false), Route::Help, "{args:?}");
    }
}

#[test]
fn developer_tools_are_gated_but_the_daemons_selftest_is_not() {
    assert_eq!(route(&argv(&["calcapture"]), false), Route::DevOnly);
    assert_eq!(route(&argv(&["calcapture", "--help"]), false), Route::DevOnly);
    assert_eq!(
        route(&argv(&["calcapture"]), true),
        Route::Run(Command::Calcapture)
    );
    assert_eq!(
        route(&argv(&["selftest", "liveness"]), false),
        Route::Run(Command::SelftestLiveness)
    );
    assert_eq!(route(&argv(&["selftest", "align"]), false), Route::DevOnly);
    assert_eq!(refuse_dev("eval").exit, 2);
}

#[test]
fn machine_commands_are_found_wherever_their_words_stand() {
    assert_eq!(
        route(&argv(&["profiles", "--contract", "9", "list", "--json"]), false),
        Route::Run(Command::MachineProfilesList)
    );
    assert_eq!(
        route(&argv(&["profiles", "list"]), false),
        Route::Run(Command::Profiles)
    );
    assert_eq!(
        route(&argv(&["login", "--json", "plan"]), false),
        Route::Run(Command::MachineLoginPlan)
    );
    assert_eq!(
        route(&argv(&["login", "enable"]), false),
        Route::Run(Command::Login)
    );
    assert_eq!(
        route(&argv(&["auth", "test"]), false),
        Route::Run(Command::MachineAuthTest)
    );
    assert_eq!(route(&argv(&["auth"]), false), Route::Unknown);
    assert_eq!(
        route(&argv(&["-V"]), false),
        Route::Run(Command::Version)
    );
    assert_eq!(route(&argv(&["wat"]), false), Route::Unknown);
    assert_eq!(refuse_unknown("wat").exit, 2);
}
