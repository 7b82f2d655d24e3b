//! `irlume update`: what the release feed offers and what to do about it.

use vstd::prelude::*;

use crate::args::has_arg;
use crate::console::{fail_with, failed, said, say_out, Outcome, OutcomeV};
use crate::machine::ENGINE_VERSION;
use crate::release::{arch_names, arch_spellings, origin_text, InstallOrigin};
use crate::text::{
    cat2, cat3, cat4, cat5, chars_of, ends_with, find, find_char, first_pos, index_of_char, join,
    joined, no_lines, occurs, opt_text, owned, push_line, push_lines, string_of, strip_start, texts,
    trim_start_char,
};
use crate::version::{base_len, newer, version_base, version_gt};

verus! {

/// The text between the first two quotes of `s`, and what follows it from the
/// second quote on.
pub open spec fn quoted(s: Seq<char>) -> Option<(Seq<char>, Seq<char>)> {
    let a = index_of_char(s, '"');
    if !(0 <= a < s.len()) {
        None
    } else {
        let t = s.skip(a + 1);
        let b = index_of_char(t, '"');
        if !(0 <= b < t.len()) {
            None
        } else {
            Some((t.take(b), t.skip(b)))
        }
    }
}

fn read_quoted(s: &str) -> (r: Option<(String, String)>)
    ensures
        match r {
            Some((v, rest)) => quoted(s@) == Some((v@, rest@)) && rest@.len() < s@.len(),
            None => quoted(s@) is None,
        },
{
    let v = chars_of(s);
    let n: usize = v.len();
    let a: usize = find_char(&v, '"', 0);
    proof {
        assert(s@.skip(0) =~= s@);
    }
    if a == n {
        return None;
    }
    let b: usize = find_char(&v, '"', a + 1);
    proof {
        assert(v@.skip((a + 1) as int) == s@.skip(a + 1));
    }
    if b == n {
        return None;
    }
    let value = string_of(&v, a + 1, b);
    let rest = string_of(&v, b, n);
    proof {
        let t = s@.skip(a + 1);
        let k = b - (a + 1);
        assert(t.take(k) =~= s@.subrange(a + 1, b as int));
        assert(t.skip(k) =~= s@.subrange(b as int, n as int));
    }
    Some((value, rest))
}

/// The tag that the release feed names first.
pub open spec fn release_tag(body: Seq<char>) -> Option<Seq<char>> {
    match first_pos(body, "\"tag_name\""@) {
        Some(i) => {
            let after = body.skip(i + "\"tag_name\""@.len());
            let colon = index_of_char(after, ':');
            if 0 <= colon < after.len() {
                match quoted(after.skip(colon)) {
                    Some((tag, _)) => Some(tag),
                    None => None,
                }
            } else {
                None
            }
        },
        None => None,
    }
}

/// Reads the release tag out of the feed.
pub fn parse_release_tag(body: &str) -> (r: Option<String>)
    ensures
        opt_text(r) == release_tag(body@),
{
    let key = "\"tag_name\"";
    match find(body, key) {
        None => None,
        Some(i) => {
            let v = chars_of(body);
            let n: usize = v.len();
            let start: usize = i + key.unicode_len();
            let colon: usize = find_char(&v, ':', start);
            if colon == n {
                return None;
            }
            let rest = string_of(&v, colon, n);
            proof {
                let after = body@.skip(start as int);
                assert(after.skip(colon - start) =~= rest@);
            }
            match read_quoted(rest.as_str()) {
                Some((tag, _)) => Some(tag),
                None => None,
            }
        },
    }
}

/// A file name that ends like a package.
pub open spec fn is_package(name: Seq<char>) -> bool {
    ".deb"@.is_suffix_of(name) || ".rpm"@.is_suffix_of(name) || ".pkg.tar.zst"@.is_suffix_of(name)
}

/// The package files that the feed names, in order. A release's title is a name
/// too, but no package.
pub open spec fn package_assets(body: Seq<char>) -> Seq<Seq<char>>
    decreases body.len(),
    via assets_decrease
{
    match first_pos(body, "\"name\":"@) {
        Some(i) => match quoted(body.skip(i + "\"name\":"@.len())) {
            Some((name, rest)) => (if is_package(name) {
                seq![name]
            } else {
                Seq::empty()
            }) + package_assets(rest),
            None => Seq::empty(),
        },
        None => Seq::empty(),
    }
}

proof fn lemma_first_pos_bound(s: Seq<char>, pat: Seq<char>)
    ensures
        first_pos(s, pat) matches Some(k) ==> 0 <= k && k + pat.len() <= s.len(),
    decreases s.len(),
{
    if !crate::text::occurs_at(s, pat, 0) && s.len() > 0 {
        lemma_first_pos_bound(s.skip(1), pat);
    }
}

#[via_fn]
proof fn assets_decrease(body: Seq<char>) {
    lemma_first_pos_bound(body, "\"name\":"@);
    reveal_strlit("\"name\":");
}

/// Reads the package file names out of the feed.
pub fn parse_package_assets(body: &str) -> (r: Vec<String>)
    ensures
        texts(r@) == package_assets(body@),
{
    let mut names = no_lines();
    let mut rest = owned(body);
    let key = "\"name\":";
    proof {
        assert(texts(names@) + package_assets(body@) =~= package_assets(body@));
    }
    loop
        invariant_except_break
            package_assets(body@) == texts(names@) + package_assets(rest@),
        invariant
            key@ == "\"name\":"@,
        ensures
            texts(names@) == package_assets(body@),
        decreases rest@.len(),
    {
        match find(rest.as_str(), key) {
            None => {
                proof {
                    assert(texts(names@) + Seq::<Seq<char>>::empty() =~= texts(names@));
                }
                break;
            },
            Some(i) => {
                let v = chars_of(rest.as_str());
                let n: usize = v.len();
                let start: usize = i + key.unicode_len();
                let tail = string_of(&v, start, n);
                proof {
                    assert(tail@ =~= rest@.skip(start as int));
                }
                match read_quoted(tail.as_str()) {
                    None => {
                        proof {
                            assert(texts(names@) + Seq::<Seq<char>>::empty() =~= texts(names@));
                        }
                        break;
                    },
                    Some((name, more)) => {
                        let ghost before = texts(names@);
                        let package = ends_with(name.as_str(), ".deb") || ends_with(
                            name.as_str(),
                            ".rpm",
                        ) || ends_with(name.as_str(), ".pkg.tar.zst");
                        let ghost n = name@;
                        if package {
                            push_line(&mut names, name);
                            proof {
                                assert(before + (seq![n] + package_assets(more@)) =~= texts(names@)
                                    + package_assets(more@));
                            }
                        } else {
                            proof {
                                assert(before + (Seq::<Seq<char>>::empty() + package_assets(more@))
                                    =~= texts(names@) + package_assets(more@));
                            }
                        }
                        rest = more;
                    },
                }
            },
        }
    }
    names
}

/// The latest release: its tag, and the names of its package files. Both are
/// missing where the feed could not be read.
pub struct LatestRelease {
    pub tag: Option<String>,
    pub assets: Vec<String>,
}

/// Reads the feed, where it was fetched.
pub fn latest_release(feed: &Option<String>) -> (r: LatestRelease)
    ensures
        match *feed {
            Some(body) => opt_text(r.tag) == release_tag(body@) && texts(r.assets@)
                == package_assets(body@),
            None => r.tag is None && r.assets@.len() == 0,
        },
{
    match feed {
        Some(body) => LatestRelease {
            tag: parse_release_tag(body.as_str()),
            assets: parse_package_assets(body.as_str()),
        },
        None => LatestRelease { tag: None, assets: Vec::new() },
    }
}

pub open spec fn nothing() -> Seq<Seq<char>> {
    Seq::empty()
}

/// How to install a package file of the release, if the release has one for this
/// architecture. A feed that named no files at all is no evidence that it has
/// none.
pub open spec fn asset_lines(
    assets: Seq<Seq<char>>,
    ver: Seq<char>,
    asset: Seq<char>,
    install: Seq<char>,
    arch: Seq<char>,
) -> Seq<Seq<char>> {
    if assets.len() == 0 || assets.contains(asset) {
        nothing().push(
            "    curl -fLO https://github.com/archledger/irlume/releases/download/v"@ + ver + "/"@
                + asset,
        ).push("    "@ + install + " ./"@ + asset)
    } else {
        nothing().push(
            "  No prebuilt package for this architecture ("@ + arch + ") on release v"@ + ver
                + "."@,
        ).push(
            "  Build from source, or watch https://github.com/archledger/irlume/releases"@,
        )
    }
}

pub fn release_asset_steps(
    assets: &Vec<String>,
    ver: &str,
    asset: &str,
    install_cmd: &str,
    arch: &str,
) -> (r: Vec<String>)
    ensures
        texts(r@) == asset_lines(texts(assets@), ver@, asset@, install_cmd@, arch@),
{
    let mut out = no_lines();
    if assets.len() == 0 || has_arg(assets.as_slice(), asset) {
        push_line(
            &mut out,
            cat4(
                "    curl -fLO https://github.com/archledger/irlume/releases/download/v",
                ver,
                "/",
                asset,
            ),
        );
        push_line(&mut out, cat4("    ", install_cmd, " ./", asset));
    } else {
        push_line(
            &mut out,
            cat5(
                "  No prebuilt package for this architecture (",
                arch,
                ") on release v",
                ver,
                ".",
            ),
        );
        push_line(
            &mut out,
            owned("  Build from source, or watch https://github.com/archledger/irlume/releases"),
        );
    }
    out
}

/// A download of a package file is named exactly where that file is among the
/// release's files, or the feed named none; only a release that has files, and not
/// this one, has no prebuilt package. The download and the installation are of the
/// file that was asked for.
pub proof fn only_a_file_of_the_release_is_downloaded(
    assets: Seq<Seq<char>>,
    ver: Seq<char>,
    asset: Seq<char>,
    install: Seq<char>,
    arch: Seq<char>,
)
    ensures
        ({
            let lines = asset_lines(assets, ver, asset, install, arch);
            let there = assets.len() == 0 || exists|i: int|
                0 <= i < assets.len() && #[trigger] assets[i] == asset;
            let download = "    curl -fLO https://github.com/archledger/irlume/releases/download/v"@
                + ver + "/"@ + asset;
            &&& lines.len() == 2
            &&& there ==> lines[0] == download && lines[1] == "    "@ + install + " ./"@ + asset
            &&& !there ==> lines[0] == "  No prebuilt package for this architecture ("@ + arch
                + ") on release v"@ + ver + "."@
            &&& lines[0] == download <==> there
        }),
{
    let lines = asset_lines(assets, ver, asset, install, arch);
    if assets.contains(asset) {
        let i = choose|i: int| 0 <= i < assets.len() && assets[i] == asset;
        assert(assets[i] == asset);
    }
    let a = "    curl -fLO https://github.com/archledger/irlume/releases/download/v"@;
    let b = "  No prebuilt package for this architecture ("@;
    reveal_strlit("    curl -fLO https://github.com/archledger/irlume/releases/download/v");
    reveal_strlit("  No prebuilt package for this architecture (");
    assert((a + ver + "/"@ + asset)[2] == ' ');
    assert((b + arch + ") on release v"@ + ver + "."@)[2] == 'N');
}

/// What is known about the archive for this system: its series, if it is one
/// that can use the PPA, and whether the PPA serves it.
pub struct Archive {
    pub codename: Option<String>,
    pub served: Option<bool>,
}

/// Where installs that came as a file are pointed, so that future updates arrive
/// with the system's own.
pub open spec fn channel_lines(o: InstallOrigin, a: Archive) -> Seq<Seq<char>> {
    match o {
        InstallOrigin::LocalRpm(_) => nothing().push(
            "  Recommended: enable the Copr repository for updates via dnf:"@,
        ).push("    sudo dnf copr enable archledger/irlume"@).push(
            "    sudo dnf install irlume"@,
        ),
        InstallOrigin::LocalDeb => match a.codename {
            None => nothing(),
            Some(codename) => match a.served {
                Some(true) => nothing().push(
                    "  Recommended: enable the PPA repository for updates via apt:"@,
                ).push("    sudo add-apt-repository ppa:archledger/irlume"@).push(
                    "    sudo apt install irlume"@,
                ),
                Some(false) => nothing().push(
                    "  The PPA carries only the current Ubuntu LTS; for `"@ + codename@
                        + "` update via release .deb."@,
                ),
                None => nothing().push(
                    "  If the PPA serves this Ubuntu series, enable it for automatic updates:"@,
                ).push(
                    "    sudo add-apt-repository ppa:archledger/irlume && sudo apt install irlume"@,
                ),
            },
        },
        _ => nothing(),
    }
}

/// Whether the archive has to be looked at: only a package that came as a file
/// on a Debian family is pointed to it.
pub fn needs_archive(o: &InstallOrigin) -> (r: bool)
    ensures
        r == (*o is LocalDeb),
{
    match o {
        InstallOrigin::LocalDeb => true,
        _ => false,
    }
}

pub fn recommend_channel(o: &InstallOrigin, a: &Archive) -> (r: Vec<String>)
    ensures
        texts(r@) == channel_lines(*o, *a),
{
    let mut out = no_lines();
    match o {
        InstallOrigin::LocalRpm(_) => {
            push_line(
                &mut out,
                owned("  Recommended: enable the Copr repository for updates via dnf:"),
            );
            push_line(&mut out, owned("    sudo dnf copr enable archledger/irlume"));
            push_line(&mut out, owned("    sudo dnf install irlume"));
        },
        InstallOrigin::LocalDeb => {
            match &a.codename {
                None => {},
                Some(codename) => {
                    match a.served {
                        Some(serves) => {
                            if serves {
                                push_line(
                                    &mut out,
                                    owned(
                                        "  Recommended: enable the PPA repository for updates via apt:",
                                    ),
                                );
                                push_line(
                                    &mut out,
                                    owned("    sudo add-apt-repository ppa:archledger/irlume"),
                                );
                                push_line(&mut out, owned("    sudo apt install irlume"));
                            } else {
                                push_line(
                                    &mut out,
                                    cat3(
                                        "  The PPA carries only the current Ubuntu LTS; for `",
                                        codename.as_str(),
                                        "` update via release .deb.",
                                    ),
                                );
                            }
                        },
                        None => {
                            push_line(
                                &mut out,
                                owned(
                                    "  If the PPA serves this Ubuntu series, enable it for automatic updates:",
                                ),
                            );
                            push_line(
                                &mut out,
                                owned(
                                    "    sudo add-apt-repository ppa:archledger/irlume && sudo apt install irlume",
                                ),
                            );
                        },
                    }
                },
            }
        },
        _ => {},
    }
    out
}

/// The package-manager steps that update an install through its own channel.
#[derive(Clone, Copy, Debug, PartialEq, Eq, Structural)]
pub enum Channel {
    /// Nothing is run.
    Manual,
    Dnf,
    Apt,
}

/// What `irlume update` prints, and what it then runs.
pub struct UpdatePlan {
    pub lines: Vec<String>,
    pub run: Channel,
}

/// What is always printed first. A running binary that differs from its package
/// is pointed out.
pub open spec fn head_lines(o: InstallOrigin, current: Seq<char>) -> Seq<Seq<char>> {
    let head = nothing().push("[update] installed: "@ + current).push(
        "[update] install method: "@ + origin_text(o),
    );
    if current.take(base_len(current)) != ENGINE_VERSION@ {
        head.push(
            "[update] note: running binary is "@ + ENGINE_VERSION@ + ", packaged version is "@
                + current,
        )
    } else {
        head
    }
}

/// Whether the feed offers something newer than what is installed.
pub open spec fn offers_newer(tag: Option<Seq<char>>, current: Seq<char>) -> bool {
    tag is Some && newer(strip_start(tag->0, 'v'), current)
}

pub open spec fn feed_line(tag: Option<Seq<char>>, current: Seq<char>) -> Seq<char> {
    match tag {
        Some(t) => if offers_newer(tag, current) {
            "[update] available: "@ + t + " (newer release available)"@
        } else {
            "[update] up to date (version "@ + t + ")"@
        },
        None => "[update] unable to reach release feed. Update channel for this installation:"@,
    }
}

/// What is printed when there is nothing newer.
pub open spec fn idle_lines(o: InstallOrigin, a: Archive) -> Seq<Seq<char>> {
    (match o {
        InstallOrigin::Copr => nothing().push(
            "  updates come from the Copr: sudo dnf upgrade --refresh irlume"@,
        ),
        InstallOrigin::Ppa => nothing().push(
            "  updates come with the system: sudo apt update && sudo apt upgrade"@,
        ),
        _ => nothing(),
    }) + channel_lines(o, a)
}

/// What is printed when there is something newer: how to get it through the
/// channel the install came from.
pub open spec fn newer_lines(
    o: InstallOrigin,
    tag: Seq<char>,
    assets: Seq<Seq<char>>,
    a: Archive,
    arch: Seq<char>,
    check_only: bool,
) -> Seq<Seq<char>> {
    let ver = strip_start(tag, 'v');
    match o {
        InstallOrigin::Copr => nothing().push(
            if check_only {
                "  would run: sudo dnf upgrade --refresh irlume"@
            } else {
                "[update] updating from the Copr (the channel this was installed from):"@
            },
        ),
        InstallOrigin::Ppa => nothing().push(
            if check_only {
                "  would run: sudo apt update && sudo apt install --only-upgrade irlume"@
            } else {
                "[update] updating from the PPA (the channel this was installed from):"@
            },
        ),
        InstallOrigin::LocalRpm(_) => channel_lines(o, a),
        InstallOrigin::LocalDeb => nothing().push(
            "  Update the way it was installed (the new .deb from the release page):"@,
        ) + asset_lines(
            assets,
            ver,
            "irlume_"@ + ver + "_"@ + arch_spellings(arch).0 + ".deb"@,
            "sudo apt install"@,
            arch,
        ) + channel_lines(o, a),
        InstallOrigin::ArchPkg => nothing().push(
            "  Update from the AUR (builds the signed release tag):"@,
        ).push("    yay -Syu irlume        # or: paru -Syu irlume"@).push(
            "  Without an AUR helper:"@,
        ).push(
            "    git clone https://aur.archlinux.org/irlume.git && cd irlume && makepkg -si"@,
        ).push("  (local/source builds: makepkg -si  in packaging/arch/)"@),
        InstallOrigin::Source => nothing().push(
            "  Source install. Update the checkout at the tag:"@,
        ).push("    git -C <clone> fetch --tags && git checkout "@ + tag).push(
            "    bash scripts/fetch-models.sh && cargo build --release && sudo bash scripts/install-host.sh --ort <libonnxruntime.so>"@,
        ),
    }
}

/// What is run: only an install from a repository, only through that repository,
/// and only where something newer is offered and a check was not all that was
/// asked for.
pub open spec fn run_channel(o: InstallOrigin, is_newer: bool, check_only: bool) -> Channel {
    if !is_newer || check_only {
        Channel::Manual
    } else {
        match o {
            InstallOrigin::Copr => Channel::Dnf,
            InstallOrigin::Ppa => Channel::Apt,
            _ => Channel::Manual,
        }
    }
}

/// All that `irlume update` prints before it runs anything.
pub open spec fn update_lines(
    o: InstallOrigin,
    current: Seq<char>,
    tag: Option<Seq<char>>,
    assets: Seq<Seq<char>>,
    a: Archive,
    arch: Seq<char>,
    check_only: bool,
) -> Seq<Seq<char>> {
    let head = head_lines(o, current).push(feed_line(tag, current));
    if !offers_newer(tag, current) {
        head + idle_lines(o, a)
    } else if run_channel(o, true, check_only) != Channel::Manual {
        head + newer_lines(o, tag->0, assets, a, arch, check_only)
    } else {
        (head + newer_lines(o, tag->0, assets, a, arch, check_only)).push(
            "  Release notes: https://github.com/archledger/irlume/releases"@,
        )
    }
}

/// Where the archive need not be looked at, what it holds changes no line.
pub proof fn an_archive_not_looked_at_changes_nothing(
    o: InstallOrigin,
    current: Seq<char>,
    tag: Option<Seq<char>>,
    assets: Seq<Seq<char>>,
    a: Archive,
    b: Archive,
    arch: Seq<char>,
    check_only: bool,
)
    requires
        !(o is LocalDeb),
    ensures
        update_lines(o, current, tag, assets, a, arch, check_only) == update_lines(
            o,
            current,
            tag,
            assets,
            b,
            arch,
            check_only,
        ),
{
}

/// A local Debian package is updated with the file of its own architecture and of
/// the release's version, right after the line that says so: the file that is
/// downloaded is the one that is installed, and it is one of the release's where
/// the feed named any.
pub proof fn a_local_package_is_updated_with_its_own_file(
    tag: Seq<char>,
    assets: Seq<Seq<char>>,
    a: Archive,
    arch: Seq<char>,
    check_only: bool,
)
    ensures
        ({
            let lines = newer_lines(
                InstallOrigin::LocalDeb,
                tag,
                assets,
                a,
                arch,
                check_only,
            );
            let ver = strip_start(tag, 'v');
            let deb = if arch == "x86_64"@ {
                "amd64"@
            } else if arch == "aarch64"@ {
                "arm64"@
            } else if arch == "arm"@ {
                "armhf"@
            } else {
                arch
            };
            let file = "irlume_"@ + ver + "_"@ + deb + ".deb"@;
            let there = assets.len() == 0 || exists|i: int|
                0 <= i < assets.len() && #[trigger] assets[i] == file;
            &&& lines.len() >= 3
            &&& lines[1]
                == "    curl -fLO https://github.com/archledger/irlume/releases/download/v"@ + ver
                + "/"@ + file <==> there
            &&& there ==> lines[2] == "    "@ + "sudo apt install"@ + " ./"@ + file
        }),
{
    let ver = strip_start(tag, 'v');
    let file = "irlume_"@ + ver + "_"@ + arch_spellings(arch).0 + ".deb"@;
    reveal_strlit("x86_64");
    reveal_strlit("aarch64");
    reveal_strlit("arm");
    assert("x86_64"@.len() == 6 && "aarch64"@.len() == 7 && "arm"@.len() == 3);
    only_a_file_of_the_release_is_downloaded(assets, ver, file, "sudo apt install"@, arch);
    let lines = newer_lines(InstallOrigin::LocalDeb, tag, assets, a, arch, check_only);
    let middle = asset_lines(assets, ver, file, "sudo apt install"@, arch);
    assert(lines[1] == middle[0]);
    assert(lines[2] == middle[1]);
}

/// What the first lines of an update always say: the installed version, how it was
/// installed, and then, where the running binary is of another upstream version,
/// that it is.
pub proof fn an_update_first_says_what_is_installed(o: InstallOrigin, current: Seq<char>)
    ensures
        head_lines(o, current)[0] == "[update] installed: "@ + current,
        head_lines(o, current)[1] == "[update] install method: "@ + origin_text(o),
        head_lines(o, current).len() == 3 <==> crate::version::upstream(current) != ENGINE_VERSION@,
        head_lines(o, current).len() == 2 <==> crate::version::upstream(current) == ENGINE_VERSION@,
{
}

/// Something newer is offered exactly where the feed names a tag and the version
/// behind its `v` is the newer one; an unreachable feed offers nothing.
pub proof fn only_a_newer_tag_is_offered(tag: Seq<char>, current: Seq<char>)
    ensures
        !offers_newer(None, current),
        offers_newer(Some(tag), current) <==> newer(strip_start(tag, 'v'), current),
{
}

/// A version's own tag offers nothing, and the tag of a version with a larger
/// number at the first place where they differ does.
pub proof fn the_tag_of_a_newer_version_is_offered(a: Seq<nat>, b: Seq<nat>, i: int)
    requires
        a.len() == b.len(),
        crate::version::holdable(a),
        crate::version::holdable(b),
        0 <= i < a.len(),
        forall|j: int| 0 <= j < i ==> #[trigger] a[j] == b[j],
        a[i] > b[i],
    ensures
        offers_newer(Some(seq!['v'] + crate::version::dotted(a)), crate::version::dotted(b)),
        !offers_newer(Some(seq!['v'] + crate::version::dotted(b)), crate::version::dotted(a)),
        !offers_newer(Some(seq!['v'] + crate::version::dotted(a)), crate::version::dotted(a)),
{
    crate::version::the_first_larger_number_decides(a, b, i);
    lemma_tag(a);
    lemma_tag(b);
    crate::version::newer_is_asymmetric(crate::version::dotted(a), crate::version::dotted(a));
}

proof fn lemma_tag(a: Seq<nat>)
    requires
        a.len() > 0,
        crate::version::holdable(a),
    ensures
        strip_start(seq!['v'] + crate::version::dotted(a), 'v') == crate::version::dotted(a),
{
    let d = crate::version::dotted(a);
    crate::version::a_written_version_reads_back(a);
    let t = seq!['v'] + d;
    assert(t.skip(1) =~= d);
    if d.len() > 0 {
        assert(crate::text::is_digit(d[0]) || d[0] == '.');
    }
    assert(strip_start(d, 'v') == d);
}

/// After what is installed the feed's answer is told: that a newer release is there
/// exactly where one is offered, that this is the latest where none is, or that the
/// feed could not be reached.
pub proof fn the_feeds_answer_is_told(
    o: InstallOrigin,
    current: Seq<char>,
    tag: Option<Seq<char>>,
    assets: Seq<Seq<char>>,
    a: Archive,
    arch: Seq<char>,
    check_only: bool,
)
    ensures
        ({
            let lines = update_lines(o, current, tag, assets, a, arch, check_only);
            let n = head_lines(o, current).len() as int;
            &&& lines.len() > n
            &&& lines.take(n) == head_lines(o, current)
            &&& tag is None ==> lines[n]
                == "[update] unable to reach release feed. Update channel for this installation:"@
            &&& tag matches Some(t) ==> (if newer(strip_start(t, 'v'), current) {
                lines[n] == "[update] available: "@ + t + " (newer release available)"@
            } else {
                lines[n] == "[update] up to date (version "@ + t + ")"@
            })
            &&& (o is Copr || o is Ppa) ==> lines.len() == n + 2 || (check_only && lines.len() == n
                + 3)
        }),
{
    let lines = update_lines(o, current, tag, assets, a, arch, check_only);
    assert(lines.take(head_lines(o, current).len() as int) =~= head_lines(o, current));
}

/// Whether only a report was asked for.
pub fn check_only(args: &[String]) -> (r: bool)
    ensures
        r == (texts(args@).contains("--check"@) || texts(args@).contains("-n"@)),
{
    has_arg(args, "--check") || has_arg(args, "-n")
}

fn newer_steps(
    o: &InstallOrigin,
    tag: &str,
    assets: &Vec<String>,
    a: &Archive,
    arch: &str,
    check_only: bool,
) -> (r: Vec<String>)
    ensures
        texts(r@) == newer_lines(*o, tag@, texts(assets@), *a, arch@, check_only),
{
    let mut out = no_lines();
    match o {
        InstallOrigin::Copr => {
            if check_only {
                push_line(&mut out, owned("  would run: sudo dnf upgrade --refresh irlume"));
            } else {
                push_line(
                    &mut out,
                    owned("[update] updating from the Copr (the channel this was installed from):"),
                );
            }
        },
        InstallOrigin::Ppa => {
            if check_only {
                push_line(
                    &mut out,
                    owned("  would run: sudo apt update && sudo apt install --only-upgrade irlume"),
                );
            } else {
                push_line(
                    &mut out,
                    owned("[update] updating from the PPA (the channel this was installed from):"),
                );
            }
        },
        InstallOrigin::LocalRpm(_) => {
            return recommend_channel(o, a);
        },
        InstallOrigin::LocalDeb => {
            let ver = trim_start_char(tag, 'v');
            let (deb_arch, _, _) = arch_names(arch);
            let asset = cat5("irlume_", ver, "_", deb_arch, ".deb");
            push_line(
                &mut out,
                owned("  Update the way it was installed (the new .deb from the release page):"),
            );
            push_lines(
                &mut out,
                release_asset_steps(assets, ver, asset.as_str(), "sudo apt install", arch),
            );
            push_lines(&mut out, recommend_channel(o, a));
        },
        InstallOrigin::ArchPkg => {
            push_line(&mut out, owned("  Update from the AUR (builds the signed release tag):"));
            push_line(&mut out, owned("    yay -Syu irlume        # or: paru -Syu irlume"));
            push_line(&mut out, owned("  Without an AUR helper:"));
            push_line(
                &mut out,
                owned(
                    "    git clone https://aur.archlinux.org/irlume.git && cd irlume && makepkg -si",
                ),
            );
            push_line(&mut out, owned("  (local/source builds: makepkg -si  in packaging/arch/)"));
        },
        InstallOrigin::Source => {
            push_line(&mut out, owned("  Source install. Update the checkout at the tag:"));
            push_line(&mut out, cat2("    git -C <clone> fetch --tags && git checkout ", tag));
            push_line(
                &mut out,
                owned(
                    "    bash scripts/fetch-models.sh && cargo build --release && sudo bash scripts/install-host.sh --ort <libonnxruntime.so>",
                ),
            );
        },
    }
    out
}

fn channel_to_run(o: &InstallOrigin, is_newer: bool, check_only: bool) -> (r: Channel)
    ensures
        r == run_channel(*o, is_newer, check_only),
{
    if !is_newer || check_only {
        return Channel::Manual;
    }
    match o {
        InstallOrigin::Copr => Channel::Dnf,
        InstallOrigin::Ppa => Channel::Apt,
        _ => Channel::Manual,
    }
}

/// Decides an update from where the install came from, what is installed, and
/// what the feed offers.
pub fn update(
    o: &InstallOrigin,
    current: &str,
    release: &LatestRelease,
    a: &Archive,
    arch: &str,
    check_only: bool,
) -> (r: UpdatePlan)
    ensures
        texts(r.lines@) == update_lines(
            *o,
            current@,
            opt_text(release.tag),
            texts(release.assets@),
            *a,
            arch@,
            check_only,
        ),
        r.run == run_channel(*o, offers_newer(opt_text(release.tag), current@), check_only),
{
    let mut out = no_lines();
    push_line(&mut out, cat2("[update] installed: ", current));
    let how = o.describe();
    push_line(&mut out, cat2("[update] install method: ", how.as_str()));
    if !crate::text::same(version_base(current), ENGINE_VERSION) {
        push_line(
            &mut out,
            cat4(
                "[update] note: running binary is ",
                ENGINE_VERSION,
                ", packaged version is ",
                current,
            ),
        );
    }
    let is_newer = match &release.tag {
        Some(tag) => {
            if version_gt(trim_start_char(tag.as_str(), 'v'), current) {
                push_line(
                    &mut out,
                    cat3("[update] available: ", tag.as_str(), " (newer release available)"),
                );
                true
            } else {
                push_line(&mut out, cat3("[update] up to date (version ", tag.as_str(), ")"));
                false
            }
        },
        None => {
            push_line(
                &mut out,
                owned("[update] unable to reach release feed. Update channel for this installation:"),
            );
            false
        },
    };
    let ghost head = texts(out@);
    let run = channel_to_run(o, is_newer, check_only);
    if !is_newer {
        let mut idle = no_lines();
        match o {
            InstallOrigin::Copr => {
                push_line(
                    &mut idle,
                    owned("  updates come from the Copr: sudo dnf upgrade --refresh irlume"),
                );
            },
            InstallOrigin::Ppa => {
                push_line(
                    &mut idle,
                    owned("  updates come with the system: sudo apt update && sudo apt upgrade"),
                );
            },
            _ => {},
        }
        push_lines(&mut idle, recommend_channel(o, a));
        push_lines(&mut out, idle);
        return UpdatePlan { lines: out, run };
    }
    match &release.tag {
        Some(tag) => {
            push_lines(
                &mut out,
                newer_steps(o, tag.as_str(), &release.assets, a, arch, check_only),
            );
        },
        None => {},
    }
    match run {
        Channel::Manual => {
            push_line(
                &mut out,
                owned("  Release notes: https://github.com/archledger/irlume/releases"),
            );
        },
        _ => {},
    }
    UpdatePlan { lines: out, run }
}

/// An update never crosses channels: what is run belongs to the repository the
/// install came from, and nothing is run for a check or without something newer.
pub proof fn an_update_keeps_to_its_channel(o: InstallOrigin, is_newer: bool, check_only: bool)
    ensures
        run_channel(o, is_newer, check_only) == Channel::Dnf ==> o is Copr && is_newer
            && !check_only,
        run_channel(o, is_newer, check_only) == Channel::Apt ==> o is Ppa && is_newer && !check_only,
        !(o is Copr) && !(o is Ppa) ==> run_channel(o, is_newer, check_only) == Channel::Manual,
{
}

/// The commands of a channel, in order.
pub open spec fn channel_commands(c: Channel) -> Seq<Seq<Seq<char>>> {
    match c {
        Channel::Manual => Seq::empty(),
        Channel::Dnf => seq![seq!["dnf"@, "upgrade"@, "--refresh"@, "irlume"@]],
        Channel::Apt => seq![
            seq!["apt"@, "update"@],
            seq!["apt"@, "install"@, "--only-upgrade"@, "irlume"@],
        ],
    }
}

pub open spec fn command_texts(v: Seq<Vec<String>>) -> Seq<Seq<Seq<char>>> {
    v.map_values(|c: Vec<String>| texts(c@))
}

fn command4(a: &str, b: &str, c: &str, d: &str) -> (r: Vec<String>)
    ensures
        texts(r@) == seq![a@, b@, c@, d@],
{
    let mut v = no_lines();
    push_line(&mut v, owned(a));
    push_line(&mut v, owned(b));
    push_line(&mut v, owned(c));
    push_line(&mut v, owned(d));
    proof {
        assert(texts(v@) =~= seq![a@, b@, c@, d@]);
    }
    v
}

/// The commands that a channel runs.
pub fn pkg_steps(c: Channel) -> (r: Vec<Vec<String>>)
    ensures
        command_texts(r@) == channel_commands(c),
{
    let mut v: Vec<Vec<String>> = Vec::new();
    match c {
        Channel::Manual => {},
        Channel::Dnf => {
            v.push(command4("dnf", "upgrade", "--refresh", "irlume"));
        },
        Channel::Apt => {
            let mut first = no_lines();
            push_line(&mut first, owned("apt"));
            push_line(&mut first, owned("update"));
            proof {
                assert(texts(first@) =~= seq!["apt"@, "update"@]);
            }
            v.push(first);
            v.push(command4("apt", "install", "--only-upgrade", "irlume"));
        },
    }
    proof {
        assert(command_texts(v@) =~= channel_commands(c));
    }
    v
}

/// How one command ended.
pub enum StepResult {
    Succeeded,
    /// It exited otherwise, as its status prints.
    Exited(String),
    /// It did not start, and why.
    NotRun(String),
}

/// The line that announces a command. Without root it goes through sudo.
pub open spec fn step_announcement(root: bool, step: Seq<Seq<char>>) -> Seq<char> {
    "  $ "@ + (if root {
        ""@
    } else {
        "sudo "@
    }) + joined(step, " "@)
}

pub fn announce_step(root: bool, step: &Vec<String>) -> (r: String)
    ensures
        r@ == step_announcement(root, texts(step@)),
{
    let display = join(step, " ");
    let prefix = if root {
        ""
    } else {
        "sudo "
    };
    cat3("  $ ", prefix, display.as_str())
}

/// What a command's end means for the run: a failure stops it, with exit code 1.
pub open spec fn step_failure(step: Seq<Seq<char>>, result: StepResult) -> Option<OutcomeV> {
    match result {
        StepResult::Succeeded => None,
        StepResult::Exited(s) => Some(
            failed(
                "[update] `"@ + joined(step, " "@) + "` exited with "@ + s@ + "; stopping."@,
                1,
            ),
        ),
        StepResult::NotRun(e) => Some(
            failed("[update] couldn't run `"@ + joined(step, " "@) + "`: "@ + e@, 1),
        ),
    }
}

pub fn check_step(step: &Vec<String>, result: &StepResult) -> (r: Option<Outcome>)
    ensures
        crate::keyring::opt_outcome(r) == step_failure(texts(step@), *result),
{
    let display = join(step, " ");
    match result {
        StepResult::Succeeded => None,
        StepResult::Exited(s) => Some(
            fail_with(
                cat5(
                    "[update] `",
                    display.as_str(),
                    "` exited with ",
                    s.as_str(),
                    "; stopping.",
                ),
                1,
            ),
        ),
        StepResult::NotRun(e) => Some(
            fail_with(
                cat4("[update] couldn't run `", display.as_str(), "`: ", e.as_str()),
                1,
            ),
        ),
    }
}

/// A run of a channel's commands, one after the other, until one fails.
pub struct PkgRun {
    steps: Vec<Vec<String>>,
    root: bool,
    next: usize,
    over: bool,
}

pub struct PkgRunV {
    pub steps: Seq<Seq<Seq<char>>>,
    pub root: bool,
    /// How many commands have succeeded.
    pub next: nat,
    pub over: bool,
}

impl View for PkgRun {
    type V = PkgRunV;

    closed spec fn view(&self) -> PkgRunV {
        PkgRunV {
            steps: command_texts(self.steps@),
            root: self.root,
            next: self.next as nat,
            over: self.over,
        }
    }
}

impl PkgRunV {
    /// The command that runs next: through sudo without root.
    pub open spec fn command(self) -> Option<Seq<Seq<char>>> {
        if self.over || self.next >= self.steps.len() {
            None
        } else if self.root {
            Some(self.steps[self.next as int])
        } else {
            Some(Seq::empty().push("sudo"@) + self.steps[self.next as int])
        }
    }

    /// The run after a command ended so.
    pub open spec fn after(self, result: StepResult) -> PkgRunV {
        if result is Succeeded {
            PkgRunV { next: self.next + 1, over: self.next + 1 == self.steps.len(), ..self }
        } else {
            PkgRunV { over: true, ..self }
        }
    }
}

impl PkgRun {
    pub open spec fn wf(self) -> bool {
        self@.next <= self@.steps.len() && (!self@.over ==> self@.next < self@.steps.len())
    }

    /// Begins a run. Without commands it is done at once.
    pub fn begin(steps: Vec<Vec<String>>, root: bool) -> (r: (PkgRun, Option<Outcome>))
        ensures
            r.0.wf(),
            r.0@ == (PkgRunV {
                steps: command_texts(steps@),
                root,
                next: 0,
                over: steps@.len() == 0,
            }),
            crate::keyring::opt_outcome(r.1) == (if steps@.len() == 0 {
                Some(said("[update] done."@))
            } else {
                None
            }),
    {
        if steps.len() == 0 {
            return (
                PkgRun { steps, root, next: 0, over: true },
                Some(say_out(owned("[update] done."))),
            );
        }
        (PkgRun { steps, root, next: 0, over: false }, None)
    }

    /// The words of the next command, or `None` where the run is over.
    pub fn command(&self) -> (r: Option<Vec<String>>)
        requires
            self.wf(),
        ensures
            match r {
                Some(v) => self@.command() == Some(texts(v@)),
                None => self@.command() is None,
            },
    {
        if self.over {
            return None;
        }
        let step = &self.steps[self.next];
        let mut v: Vec<String> = Vec::new();
        if !self.root {
            v.push(owned("sudo"));
        }
        let ghost head = texts(v@);
        let mut i: usize = 0;
        proof {
            assert(head + texts(step@).take(0) =~= head);
        }
        while i < step.len()
            invariant
                i <= step@.len(),
                texts(v@) == head + texts(step@).take(i as int),
            decreases step@.len() - i,
        {
            let ghost was = texts(v@);
            v.push(owned(step[i].as_str()));
            proof {
                assert(texts(step@)[i as int] == step@[i as int]@);
                assert(texts(v@) =~= was.push(texts(step@)[i as int]));
                assert(texts(v@) =~= head + texts(step@).take(i + 1));
            }
            i = i + 1;
        }
        proof {
            assert(texts(step@).take(step@.len() as int) =~= texts(step@));
            assert(command_texts(self.steps@)[self.next as int] == texts(step@));
            if self.root {
                assert(texts(v@) =~= texts(step@));
            } else {
                assert(head =~= Seq::<Seq<char>>::empty().push("sudo"@));
            }
        }
        Some(v)
    }

    /// Takes the end of the command that ran. The outcome is there once the run
    /// is over.
    pub fn ended(&mut self, result: &StepResult) -> (r: Option<Outcome>)
        requires
            old(self).wf(),
            !old(self)@.over,
        ensures
            crate::keyring::opt_outcome(r) == run_ending(old(self)@, *result),
            final(self).wf(),
            final(self)@ == old(self)@.after(*result),
            crate::keyring::opt_outcome(r) == (if !(*result is Succeeded) {
                step_failure(old(self)@.steps[old(self)@.next as int], *result)
            } else if old(self)@.next + 1 == old(self)@.steps.len() {
                Some(said("[update] done."@))
            } else {
                None
            }),
    {
        proof {
            assert(command_texts(self.steps@)[self.next as int] == texts(
                self.steps@[self.next as int]@,
            ));
        }
        let n: usize = self.steps.len();
        match check_step(&self.steps[self.next], result) {
            Some(o) => {
                self.over = true;
                Some(o)
            },
            None => {
                self.next = self.next + 1;
                if self.next == n {
                    self.over = true;
                    Some(say_out(owned("[update] done.")))
                } else {
                    None
                }
            },
        }
    }
}

/// After a command that failed nothing more runs; the run says that it is done
/// only once every command succeeded.
pub proof fn an_update_stops_at_the_first_failure(run: PkgRunV, result: StepResult)
    requires
        !run.over,
        run.next < run.steps.len(),
    ensures
        !(result is Succeeded) ==> run.after(result).command() is None,
        result is Succeeded && run.next + 1 < run.steps.len() ==> run.after(result).command()
            is Some,
{
}

/// The tag of a feed is the text between the quotes behind the colon of its first
/// `tag_name`, whatever stands before it and after it.
pub proof fn the_tag_is_what_the_feed_names(
    before: Seq<char>,
    gap: Seq<char>,
    space: Seq<char>,
    tag: Seq<char>,
    after: Seq<char>,
)
    requires
        first_pos(
            before + "\"tag_name\""@ + gap + seq![':'] + space + seq!['"'] + tag + seq!['"']
                + after,
            "\"tag_name\""@,
        ) == Some(before.len() as int),
        !gap.contains(':'),
        !space.contains('"'),
        !tag.contains('"'),
    ensures
        release_tag(
            before + "\"tag_name\""@ + gap + seq![':'] + space + seq!['"'] + tag + seq!['"']
                + after,
        ) == Some(tag),
{
    let key = "\"tag_name\""@;
    let body = before + key + gap + seq![':'] + space + seq!['"'] + tag + seq!['"'] + after;
    let rest = body.skip(before.len() as int + key.len() as int);
    let behind = space + seq!['"'] + tag + seq!['"'] + after;
    assert(rest =~= gap + seq![':'] + behind);
    lemma_found(gap, ':', behind);
    let from = rest.skip(gap.len() as int);
    assert(from =~= (seq![':'] + space) + seq!['"'] + (tag + seq!['"'] + after));
    assert(!(seq![':'] + space).contains('"')) by {
        assert forall|i: int| 0 <= i < (seq![':'] + space).len() implies (seq![':'] + space)[i]
            != '"' by {
            if i > 0 {
                assert((seq![':'] + space)[i] == space[i - 1]);
                assert(space.contains(space[i - 1]));
            }
        }
    }
    lemma_quoted(seq![':'] + space, tag, after);
}

proof fn lemma_found(a: Seq<char>, c: char, b: Seq<char>)
    requires
        !a.contains(c),
    ensures
        index_of_char(a + seq![c] + b, c) == a.len(),
{
    let s = a + seq![c] + b;
    assert forall|j: int| 0 <= j < a.len() implies s[j] != c by {
        assert(s[j] == a[j]);
        assert(a.contains(a[j]));
    }
    crate::text::lemma_index_of_char(s, c, a.len() as int);
}

proof fn lemma_quoted(lead: Seq<char>, inside: Seq<char>, after: Seq<char>)
    requires
        !lead.contains('"'),
        !inside.contains('"'),
    ensures
        quoted(lead + seq!['"'] + (inside + seq!['"'] + after)) == Some(
            (inside, seq!['"'] + after),
        ),
{
    let t = inside + seq!['"'] + after;
    let s = lead + seq!['"'] + t;
    lemma_found(lead, '"', t);
    lemma_found(inside, '"', after);
    assert(s.skip(lead.len() as int + 1) =~= t);
    assert(t.take(inside.len() as int) =~= inside);
    assert(t.skip(inside.len() as int) =~= seq!['"'] + after);
}

/// Of the names in a feed exactly those that end like a package are its files, each
/// in its turn: what is named first comes first, and then the files of the rest.
pub proof fn a_named_package_is_a_file_of_the_release(
    body: Seq<char>,
    before: Seq<char>,
    lead: Seq<char>,
    name: Seq<char>,
    after: Seq<char>,
)
    requires
        body == before + "\"name\":"@ + (lead + seq!['"'] + (name + seq!['"'] + after)),
        first_pos(body, "\"name\":"@) == Some(before.len() as int),
        !lead.contains('"'),
        !name.contains('"'),
    ensures
        (".deb"@.is_suffix_of(name) || ".rpm"@.is_suffix_of(name) || ".pkg.tar.zst"@.is_suffix_of(
            name,
        )) ==> package_assets(body) == seq![name] + package_assets(seq!['"'] + after),
        !(".deb"@.is_suffix_of(name) || ".rpm"@.is_suffix_of(name) || ".pkg.tar.zst"@.is_suffix_of(
            name,
        )) ==> package_assets(body) == package_assets(seq!['"'] + after),
{
    let key = "\"name\":"@;
    let tail = lead + seq!['"'] + (name + seq!['"'] + after);
    assert(body.skip(before.len() as int + key.len() as int) =~= tail);
    lemma_quoted(lead, name, after);
    assert(Seq::<Seq<char>>::empty() + package_assets(seq!['"'] + after) =~= package_assets(
        seq!['"'] + after,
    ));
}

/// A feed that names nothing offers no files.
pub proof fn a_feed_without_names_has_no_files(body: Seq<char>)
    ensures
        !occurs(body, "\"name\":"@) ==> package_assets(body) == Seq::<Seq<char>>::empty(),
        !occurs(body, "\"tag_name\""@) ==> release_tag(body) is None,
{
    crate::text::the_first_position_is_the_first(body, "\"name\":"@);
    crate::text::the_first_position_is_the_first(body, "\"tag_name\""@);
}

/// The commands of a channel are those of its own package manager, and each is
/// about this package or the index.
pub proof fn a_channel_runs_its_own_package_manager(c: Channel)
    ensures
        channel_commands(c).len() == 0 <==> c == Channel::Manual,
        c == Channel::Dnf ==> channel_commands(c).len() == 1 && channel_commands(c)[0].first()
            == "dnf"@ && channel_commands(c)[0].last() == "irlume"@,
        c == Channel::Apt ==> channel_commands(c).len() == 2 && channel_commands(c)[0] == seq![
            "apt"@,
            "update"@,
        ] && channel_commands(c)[1].first() == "apt"@ && channel_commands(c)[1].contains(
            "--only-upgrade"@,
        ) && channel_commands(c)[1].last() == "irlume"@,
{
    if c == Channel::Apt {
        assert(channel_commands(c)[1][2] == "--only-upgrade"@);
    }
}

/// A command runs as it is for root and through sudo otherwise, and none runs once
/// the run is over.
pub proof fn a_command_runs_through_sudo_unless_root(run: PkgRunV)
    ensures
        run.over || run.next >= run.steps.len() <==> run.command() is None,
        !run.over && run.next < run.steps.len() && run.root ==> run.command() == Some(
            run.steps[run.next as int],
        ),
        !run.over && run.next < run.steps.len() && !run.root ==> run.command()->0.len()
            == run.steps[run.next as int].len() + 1 && run.command()->0[0] == "sudo"@
            && run.command()->0.skip(1) == run.steps[run.next as int],
{
    if !run.over && run.next < run.steps.len() && !run.root {
        assert(run.command()->0.skip(1) =~= run.steps[run.next as int]);
    }
}

/// A step is announced with the command that runs, through sudo exactly without
/// root.
pub proof fn a_step_is_announced_as_it_runs(step: Seq<Seq<char>>)
    ensures
        step_announcement(true, step) == "  $ "@ + joined(step, " "@),
        step_announcement(false, step) == "  $ sudo "@ + joined(step, " "@),
{
    reveal_strlit("");
    reveal_strlit("  $ ");
    reveal_strlit("sudo ");
    reveal_strlit("  $ sudo ");
    assert(step_announcement(true, step) =~= "  $ "@ + joined(step, " "@));
    assert(step_announcement(false, step) =~= "  $ sudo "@ + joined(step, " "@));
}

/// A step that did not succeed stops the update, and only such a one does.
pub proof fn only_a_failed_step_stops_the_update(step: Seq<Seq<char>>, result: StepResult)
    ensures
        step_failure(step, result) is None <==> result is Succeeded,
        step_failure(step, result) matches Some(o) ==> o.exit == 1 && o.says.len() == 1 && o.says[0]
            is Warn,
{
}

/// How a run of commands ends with a step, if it does.
pub open spec fn run_ending(run: PkgRunV, result: StepResult) -> Option<OutcomeV> {
    if !(result is Succeeded) {
        step_failure(run.steps[run.next as int], result)
    } else if run.next + 1 == run.steps.len() {
        Some(said("[update] done."@))
    } else {
        None
    }
}

/// An update is done exactly where its last step succeeded, and goes on exactly where
/// a step succeeded that was not the last.
pub proof fn an_update_is_done_after_its_last_step(run: PkgRunV, result: StepResult)
    requires
        run.next < run.steps.len(),
    ensures
        run_ending(run, result) matches Some(o) ==> (o.exit == 0 <==> result is Succeeded && run.next
            + 1 == run.steps.len()) && (o.exit == 1 <==> !(result is Succeeded)),
        run_ending(run, result) is None <==> result is Succeeded && run.next + 1 < run.steps.len(),
{
}

/// A quoted text is what stands between the first two quotes; with fewer there is
/// none.
pub proof fn a_quoted_text_stands_between_two_quotes(
    lead: Seq<char>,
    inside: Seq<char>,
    rest: Seq<char>,
)
    requires
        !lead.contains('"'),
        !inside.contains('"'),
    ensures
        quoted(lead.push('"') + inside.push('"') + rest) == Some((inside, seq!['"'] + rest)),
        quoted(lead) is None,
        quoted(lead.push('"') + inside) is None,
{
    assert forall|k: int| 0 <= k < lead.len() implies lead[k] != '"' by {
        assert(lead.contains(lead[k]));
    }
    assert forall|k: int| 0 <= k < inside.len() implies inside[k] != '"' by {
        assert(inside.contains(inside[k]));
    }
    let n = lead.len() as int;
    crate::text::lemma_index_of_char(lead, '"', n);
    let s = lead.push('"') + inside.push('"') + rest;
    crate::text::lemma_index_of_char(s, '"', n);
    let t = s.skip(n + 1);
    assert(t =~= inside.push('"') + rest);
    crate::text::lemma_index_of_char(t, '"', inside.len() as int);
    assert(t.take(inside.len() as int) =~= inside);
    assert(t.skip(inside.len() as int) =~= seq!['"'] + rest);
    let u = lead.push('"') + inside;
    crate::text::lemma_index_of_char(u, '"', n);
    assert(u.skip(n + 1) =~= inside);
    crate::text::lemma_index_of_char(inside, '"', inside.len() as int);
}

/// An update says what is installed and what the feed answered, and then exactly
/// where something newer is offered how to get it, and else what there is to know
/// without it. Release notes are pointed to exactly where nothing runs by itself.
pub proof fn only_something_newer_is_explained(
    o: InstallOrigin,
    current: Seq<char>,
    tag: Option<Seq<char>>,
    assets: Seq<Seq<char>>,
    a: Archive,
    arch: Seq<char>,
    check_only: bool,
)
    ensures
        ({
            let lines = update_lines(o, current, tag, assets, a, arch, check_only);
            let n = head_lines(o, current).len() as int + 1;
            let newer_tag = tag is Some && newer(strip_start(tag->0, 'v'), current);
            &&& lines.len() >= n
            &&& lines.take(n) == head_lines(o, current).push(feed_line(tag, current))
            &&& !newer_tag ==> lines.skip(n) == idle_lines(o, a)
            &&& newer_tag && run_channel(o, true, check_only) != Channel::Manual ==> lines.skip(n)
                == newer_lines(o, tag->0, assets, a, arch, check_only)
            &&& newer_tag && run_channel(o, true, check_only) == Channel::Manual ==> lines.len()
                == n + newer_lines(o, tag->0, assets, a, arch, check_only).len() + 1
                && lines.skip(n).drop_last() == newer_lines(
                o,
                tag->0,
                assets,
                a,
                arch,
                check_only,
            )
        }),
{
    let lines = update_lines(o, current, tag, assets, a, arch, check_only);
    let head = head_lines(o, current).push(feed_line(tag, current));
    let n = head.len() as int;
    assert(lines.take(n) =~= head);
    if tag is Some && newer(strip_start(tag->0, 'v'), current) {
        let more = newer_lines(o, tag->0, assets, a, arch, check_only);
        if run_channel(o, true, check_only) != Channel::Manual {
            assert(lines.skip(n) =~= more);
        } else {
            assert(lines.skip(n).drop_last() =~= more);
        }
    } else {
        assert(lines.skip(n) =~= idle_lines(o, a));
    }
}

/// A check says what would run, and an update that it runs, each for the channel
/// that the package came from.
pub proof fn a_check_only_says_what_would_run(
    tag: Seq<char>,
    assets: Seq<Seq<char>>,
    a: Archive,
    arch: Seq<char>,
    check_only: bool,
)
    ensures
        newer_lines(InstallOrigin::Copr, tag, assets, a, arch, check_only).len() == 1,
        newer_lines(InstallOrigin::Ppa, tag, assets, a, arch, check_only).len() == 1,
        "  would run: sudo dnf "@.is_prefix_of(
            newer_lines(InstallOrigin::Copr, tag, assets, a, arch, check_only)[0],
        ) <==> check_only,
        "  would run: sudo apt "@.is_prefix_of(
            newer_lines(InstallOrigin::Ppa, tag, assets, a, arch, check_only)[0],
        ) <==> check_only,
{
    let c = newer_lines(InstallOrigin::Copr, tag, assets, a, arch, check_only)[0];
    let p = newer_lines(InstallOrigin::Ppa, tag, assets, a, arch, check_only)[0];
    let d = "  would run: sudo dnf "@;
    let q = "  would run: sudo apt "@;
    reveal_strlit("  would run: sudo dnf ");
    reveal_strlit("  would run: sudo apt ");
    reveal_strlit("  would run: sudo dnf upgrade --refresh irlume");
    reveal_strlit("  would run: sudo apt update && sudo apt install --only-upgrade irlume");
    reveal_strlit("[update] updating from the Copr (the channel this was installed from):");
    reveal_strlit("[update] updating from the PPA (the channel this was installed from):");
    assert(d[0] == ' ' && q[0] == ' ');
    if check_only {
        assert(c.subrange(0, d.len() as int) =~= d);
        assert(p.subrange(0, q.len() as int) =~= q);
    } else {
        if d.is_prefix_of(c) {
            assert(c.subrange(0, d.len() as int)[0] == ' ');
        }
        if q.is_prefix_of(p) {
            assert(p.subrange(0, q.len() as int)[0] == ' ');
        }
    }
}

} // verus!
