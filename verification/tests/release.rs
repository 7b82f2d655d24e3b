use irlume_cli::machine::ENGINE_VERSION;
use irlume_cli::release::{
    arch_names, index_lists_irlume, install_origin, installed_version, is_copr_repo, ppa_serves,
    ubuntu_codename, DistroFamily, IndexFetch, InstallOrigin, OriginProbes, VersionProbes,
};
use irlume_cli::update::{
    check_only, latest_release, needs_archive, pkg_steps, update, Archive, Channel, LatestRelease,
    PkgRun, StepResult,
};
use irlume_cli::version::{version_base, version_gt};

fn argv(v: &[&str]) -> Vec<String> {
    v.iter().map(|s| s.to_string()).collect()
}

#[test]
fn copr_from_repo_matches_only_our_project() {
    assert!(is_copr_repo(
        "copr:copr.fedorainfracloud.org:archledger:irlume"
    ));
    assert!(!is_copr_repo(
        "copr:copr.fedorainfracloud.org:archledger:linhello"
    ));
    assert!(!is_copr_repo("fedora"));
    assert!(!is_copr_repo("@commandline"));
    assert!(!is_copr_repo(""));
    assert!(!is_copr_repo("6ecc2dfaa0dc41e5ad51e007707a786b"));
}

#[test]
fn ubuntu_codename_from_os_release() {
    let ubuntu = "ID=ubuntu\nVERSION_CODENAME=resolute\nUBUNTU_CODENAME=resolute\n";
    assert_eq!(ubuntu_codename(ubuntu).as_deref(), Some("resolute"));
    let mint =
        "ID=linuxmint\nID_LIKE=\"ubuntu debian\"\nVERSION_CODENAME=xia\nUBUNTU_CODENAME=noble\n";
    assert_eq!(ubuntu_codename(mint).as_deref(), Some("noble"));
    let debian = "ID=debian\nVERSION_CODENAME=trixie\n";
    assert_eq!(ubuntu_codename(debian), None);
}

#[test]
fn ubuntu_codename_falls_back_to_version_codename() {
    let os = "ID=ubuntu\nVERSION_CODENAME=resolute\n";
    assert_eq!(ubuntu_codename(os).as_deref(), Some("resolute"));
}

#[test]
fn gz_lists_irlume_needs_an_actual_package_entry() {
    assert!(index_lists_irlume(
        "Package: irlume\nVersion: 0.2.1\nArchitecture: amd64\n"
    ));
    assert!(!index_lists_irlume(""), "an empty index is not served");
    assert!(!index_lists_irlume("Package: linhello\nVersion: 1.0\n"));
    assert!(!index_lists_irlume("Package: irlume-selinux\n"));
    // An index that cannot be unpacked tells nothing.
    assert_eq!(
        ppa_serves(&IndexFetch::Exit {
            code: 0,
            unpacked: None
        }),
        None
    );
}

#[test]
fn version_base_strips_release_suffixes() {
    assert_eq!(version_base("0.10.0"), "0.10.0");
    assert_eq!(version_base("0.10.0-1.fc44"), "0.10.0");
    assert_eq!(version_base("0.10.0-0ppa1~resolute1"), "0.10.0");
    assert_eq!(version_base("0.7.0-2"), "0.7.0");
    assert_eq!(version_base("0.10.0+g1"), "0.10.0");
}

#[test]
fn version_gt_compares_numeric_fields_and_ignores_distro_suffixes() {
    assert!(version_gt("0.3.0", "0.2.9"));
    assert!(version_gt("0.10.0", "0.9.9"), "numeric, not lexicographic");
    assert!(version_gt("1.0", "0.9.9.9"));
    assert!(version_gt("0.2.1", "0.2"), "missing fields count as 0");
    assert!(!version_gt("0.2", "0.2.0"));
    assert!(!version_gt("0.2.1", "0.2.1"));
    assert!(!version_gt("0.2.1", "0.2.1-0ppa1~resolute1"));
    assert!(version_gt("0.2.2", "0.2.1-0ppa1~resolute1"));
    assert!(!version_gt("0.1.3", "0.1.3-1"));
    assert!(version_gt("0.1.4", "0.1.3-1"));
    assert!(!version_gt("1.0.0-rc1", "1.0.0"));
    assert!(!version_gt("1.0.0", "1.0.0-rc1"));
}

#[test]
fn a_package_suffix_changes_no_comparison() {
    assert!(!version_gt("0.1.3-1", "0.1.3"), "a suffix is no further field");
    assert!(!version_gt("0.1.3", "0.1.3-1"));
    assert!(!version_gt("0.1.3-2", "0.1.3-1"));
    assert!(!version_gt("0.1.3+git9", "0.1.3"));
    assert!(version_gt("0.1.3.1", "0.1.3-1"));
    assert!(version_gt("0.1.4-1", "0.1.3-9"));
}

#[test]
fn update_probes_query_the_package_manager_and_the_ppa_index() {
    let probes = || VersionProbes {
        rpm: Some("9.9.9".into()),
        dpkg: None,
        pacman: None,
    };
    assert_eq!(installed_version(&InstallOrigin::Copr, &probes()), "9.9.9");
    assert_ne!(ENGINE_VERSION, "9.9.9");
    assert_eq!(
        installed_version(&InstallOrigin::LocalRpm(String::new()), &probes()),
        "9.9.9"
    );
    assert_eq!(
        installed_version(&InstallOrigin::Source, &probes()),
        ENGINE_VERSION
    );
    assert_eq!(
        ppa_serves(&IndexFetch::Exit {
            code: 0,
            unpacked: Some("Package: irlume\nVersion: 9.9.9\n".into())
        }),
        Some(true)
    );
    assert_eq!(
        ppa_serves(&IndexFetch::Exit {
            code: 0,
            unpacked: Some(String::new())
        }),
        Some(false)
    );
    assert_eq!(
        ppa_serves(&IndexFetch::Exit {
            code: 22,
            unpacked: None
        }),
        Some(false)
    );
    assert_eq!(ppa_serves(&IndexFetch::NoAnswer), None);
}

#[test]
fn a_pacman_version_is_its_second_word() {
    let probes = VersionProbes {
        rpm: None,
        dpkg: None,
        pacman: Some("irlume 0.1.3-1".into()),
    };
    assert_eq!(installed_version(&InstallOrigin::ArchPkg, &probes), "0.1.3-1");
}

#[test]
fn arch_names_map_x86_64_to_the_per_ecosystem_spellings() {
    assert_eq!(arch_names("x86_64"), ("amd64", "x86_64", "amd64"));
}

#[test]
fn release_feed_parsing_keeps_only_package_assets() {
    let body = r#"{"tag_name": "v9.9.9", "name": "irlume 9.9.9", "assets": [{"name": "irlume_9.9.9_amd64.deb"}, {"name": "irlume-9.9.9-1.fc44.x86_64.rpm"}, {"name": "irlume-9.9.9-1-x86_64.pkg.tar.zst"}, {"name": "SHA256SUMS"}]}"#;
    let rel = latest_release(&Some(body.to_string()));
    assert_eq!(rel.tag.as_deref(), Some("v9.9.9"));
    assert_eq!(
        rel.assets,
        vec![
            "irlume_9.9.9_amd64.deb".to_string(),
            "irlume-9.9.9-1.fc44.x86_64.rpm".to_string(),
            "irlume-9.9.9-1-x86_64.pkg.tar.zst".to_string(),
        ],
        "the release title and SHA256SUMS are not package assets"
    );
    let rel = latest_release(&None);
    assert_eq!(rel.tag, None);
    assert!(rel.assets.is_empty());
}

fn newer(o: &InstallOrigin, only: bool) -> (String, Channel) {
    let release = LatestRelease {
        tag: Some("v9.9.9".into()),
        assets: Vec::new(),
    };
    let archive = Archive {
        codename: None,
        served: None,
    };
    let plan = update(o, "0.1.0", &release, &archive, "x86_64", only);
    (plan.lines.join("\n"), plan.run)
}

#[test]
fn pacman_update_path_points_at_the_aur_not_the_retired_asset() {
    let (src, run) = newer(&InstallOrigin::ArchPkg, false);
    let aur_clone = format!("{}{}", "aur.archlinux.org/", "irlume.git");
    assert!(
        src.contains(&aur_clone),
        "the AUR clone URL must be offered"
    );
    let aur_helper = format!("{} {}", "yay", "-Syu irlume");
    assert!(
        src.contains(&aur_helper),
        "the AUR helper route must be offered"
    );
    let retired_asset = format!("irlume-{}-1-{}", "9.9.9", "x86_64");
    assert!(
        !src.contains(&retired_asset),
        "the retired .pkg.tar.zst release asset must not be referenced"
    );
    let pacman_u = format!("{} {}", "pacman", "-U");
    assert!(
        !src.contains(&pacman_u),
        "no pacman local-file install of a downloaded asset"
    );
    assert!(matches!(run, Channel::Manual));
}

#[test]
fn an_update_keeps_to_its_own_channel() {
    assert!(matches!(newer(&InstallOrigin::Copr, false).1, Channel::Dnf));
    assert!(matches!(newer(&InstallOrigin::Ppa, false).1, Channel::Apt));
    assert!(matches!(newer(&InstallOrigin::Copr, true).1, Channel::Manual));
    assert!(check_only(&argv(&["update", "-n"])));
    assert!(!check_only(&argv(&["update"])));
}

#[test]
fn the_owner_of_an_install_decides_its_origin() {
    let probes = |family, rpm_owned, repo: Option<&str>| OriginProbes {
        family,
        rpm_owned,
        dnf_repo: repo.map(|s| s.to_string()),
        dpkg_status: None,
        apt_policy: None,
        pacman_owned: false,
    };
    assert!(matches!(
        install_origin(&probes(
            DistroFamily::Fedora,
            true,
            Some("copr:copr.fedorainfracloud.org:archledger:irlume")
        )),
        InstallOrigin::Copr
    ));
    assert!(matches!(
        install_origin(&probes(DistroFamily::Fedora, false, None)),
        InstallOrigin::Source
    ));
    assert_eq!(
        InstallOrigin::LocalRpm("fedora".into()).describe(),
        "RPM from repo `fedora` (not the Copr)"
    );
    assert_eq!(
        InstallOrigin::LocalRpm("6ecc2dfaa0dc41e5ad51e007707a786b".into()).describe(),
        "local RPM (not from the Copr)"
    );
}

#[test]
fn a_package_run_stops_at_the_first_failure() {
    let (mut run, done) = PkgRun::begin(pkg_steps(Channel::Apt), false);
    assert!(done.is_none());
    assert_eq!(run.command().unwrap(), argv(&["sudo", "apt", "update"]));
    assert!(run.ended(&StepResult::Succeeded).is_none());
    assert_eq!(
        run.command().unwrap(),
        argv(&["sudo", "apt", "install", "--only-upgrade", "irlume"])
    );
    let end = run.ended(&StepResult::Exited("exit status: 100".into())).unwrap();
    assert_eq!(end.exit, 1);
    assert!(run.command().is_none());

    let (mut run, _) = PkgRun::begin(pkg_steps(Channel::Dnf), true);
    assert_eq!(
        run.command().unwrap(),
        argv(&["dnf", "upgrade", "--refresh", "irlume"])
    );
    assert_eq!(run.ended(&StepResult::Succeeded).unwrap().exit, 0);
    assert!(run.command().is_none());

    let (mut run, _) = PkgRun::begin(pkg_steps(Channel::Dnf), true);
    let end = run.ended(&StepResult::NotRun("no such file".into())).unwrap();
    assert_eq!(end.exit, 1);
}

#[test]
fn the_archive_speaks_only_to_a_local_debian_package() {
    let lines = |origin: &InstallOrigin, served| {
        let archive = Archive { codename: Some("noble".into()), served };
        let release = LatestRelease { tag: Some("v9.9.9".into()), assets: Vec::new() };
        update(origin, "0.1.0", &release, &archive, "x86_64", true).lines
    };
    for origin in [
        InstallOrigin::Copr,
        InstallOrigin::LocalRpm(String::new()),
        InstallOrigin::Ppa,
        InstallOrigin::ArchPkg,
        InstallOrigin::Source,
    ] {
        assert!(!needs_archive(&origin));
        assert_eq!(lines(&origin, Some(true)), lines(&origin, None));
    }
    assert!(needs_archive(&InstallOrigin::LocalDeb));
    assert_ne!(
        lines(&InstallOrigin::LocalDeb, Some(true)),
        lines(&InstallOrigin::LocalDeb, Some(false))
    );
}
