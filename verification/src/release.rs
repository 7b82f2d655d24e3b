//! Where an install came from, what the release feed offers, and how to update
//! through the channel it came from.

use vstd::prelude::*;
use vstd::utf8::encode_utf8;

use crate::args::has_arg;
use crate::machine::ENGINE_VERSION;
use crate::text::{
    after_prefix, cat3, cat5, contains, ends_with, lines, lines_of, lower, lowercase, nth_word,
    occurs, opt_text, owned, same, starts_with, strip_end, strip_prefix, strip_start, texts, trim,
    trim_end_char, trim_start_char, trimmed, words,
};

verus! {

broadcast use vstd::string::group_string_axioms;

/// How an install got onto the system; decides the update channel.
pub enum InstallOrigin {
    /// The Fedora Copr.
    Copr,
    /// An RPM that is not from the Copr, with the repository dnf names, which may
    /// be empty or a history hash.
    LocalRpm(String),
    /// The Launchpad PPA.
    Ppa,
    /// A Debian package that no PPA stands behind.
    LocalDeb,
    /// A pacman package.
    ArchPkg,
    /// No package manager owns it.
    Source,
}

pub open spec fn origin_text(o: InstallOrigin) -> Seq<char> {
    match o {
        InstallOrigin::Copr => "Fedora Copr (archledger/irlume)"@,
        InstallOrigin::LocalRpm(repo) => if repo@.len() == 0 || encode_utf8(repo@).len() == 32 {
            "local RPM (not from the Copr)"@
        } else {
            "RPM from repo `"@ + repo@ + "` (not the Copr)"@
        },
        InstallOrigin::Ppa => "Launchpad PPA (ppa:archledger/irlume)"@,
        InstallOrigin::LocalDeb => "local .deb (GitHub release asset)"@,
        InstallOrigin::ArchPkg => "pacman package (AUR / makepkg)"@,
        InstallOrigin::Source => "source / dev install (no package manager owns it)"@,
    }
}

impl InstallOrigin {
    pub fn describe(&self) -> (r: String)
        ensures
            r@ == origin_text(*self),
    {
        match self {
            InstallOrigin::Copr => owned("Fedora Copr (archledger/irlume)"),
            InstallOrigin::LocalRpm(repo) => {
                let bytes = repo.as_str().as_bytes();
                if repo.as_str().is_empty() || bytes.len() == 32 {
                    owned("local RPM (not from the Copr)")
                } else {
                    cat3("RPM from repo `", repo.as_str(), "` (not the Copr)")
                }
            },
            InstallOrigin::Ppa => owned("Launchpad PPA (ppa:archledger/irlume)"),
            InstallOrigin::LocalDeb => owned("local .deb (GitHub release asset)"),
            InstallOrigin::ArchPkg => owned("pacman package (AUR / makepkg)"),
            InstallOrigin::Source => owned("source / dev install (no package manager owns it)"),
        }
    }
}

/// The repository that dnf names for an install from this project's Copr.
pub open spec fn copr_repo(repo: Seq<char>) -> bool {
    "copr:"@.is_prefix_of(repo) && ":archledger:irlume"@.is_suffix_of(repo)
}

pub fn is_copr_repo(repo: &str) -> (r: bool)
    ensures
        r == copr_repo(repo@),
{
    starts_with(repo, "copr:") && ends_with(repo, ":archledger:irlume")
}

/// A family of distributions.
#[derive(Clone, Copy, Debug, PartialEq, Eq, Structural)]
pub enum DistroFamily {
    Fedora,
    Debian,
    Arch,
    Other,
}

/// What the package managers of this system say: whether one owns the install,
/// and what they print about it. A tool that failed printed nothing.
pub struct OriginProbes {
    pub family: DistroFamily,
    pub rpm_owned: bool,
    pub dnf_repo: Option<String>,
    pub dpkg_status: Option<String>,
    pub apt_policy: Option<String>,
    pub pacman_owned: bool,
}

pub open spec fn or_empty(o: Option<String>) -> Seq<char> {
    match o {
        Some(s) => s@,
        None => Seq::empty(),
    }
}

/// What the probes establish.
pub open spec fn origin_is(p: OriginProbes, o: InstallOrigin) -> bool {
    match p.family {
        DistroFamily::Fedora => if !p.rpm_owned {
            o is Source
        } else if copr_repo(trimmed(or_empty(p.dnf_repo))) {
            o is Copr
        } else {
            o matches InstallOrigin::LocalRpm(repo) && repo@ == trimmed(or_empty(p.dnf_repo))
        },
        DistroFamily::Debian => if !occurs(or_empty(p.dpkg_status), "ok installed"@) {
            o is Source
        } else if occurs(
            or_empty(p.apt_policy),
            "ppa.launchpadcontent.net/archledger/irlume"@,
        ) {
            o is Ppa
        } else {
            o is LocalDeb
        },
        DistroFamily::Arch => if p.pacman_owned {
            o is ArchPkg
        } else {
            o is Source
        },
        DistroFamily::Other => o is Source,
    }
}

fn or_none<'a>(o: &'a Option<String>) -> (r: &'a str)
    ensures
        r@ == or_empty(*o),
{
    match o {
        Some(s) => s.as_str(),
        None => {
            proof {
                reveal_strlit("");
                assert(""@ =~= Seq::<char>::empty());
            }
            ""
        },
    }
}

/// Decides the install origin from what the package managers say.
pub fn install_origin(p: &OriginProbes) -> (r: InstallOrigin)
    ensures
        origin_is(*p, r),
{
    match p.family {
        DistroFamily::Fedora => {
            if !p.rpm_owned {
                return InstallOrigin::Source;
            }
            let repo = trim(or_none(&p.dnf_repo));
            if is_copr_repo(repo) {
                InstallOrigin::Copr
            } else {
                InstallOrigin::LocalRpm(owned(repo))
            }
        },
        DistroFamily::Debian => {
            if !contains(or_none(&p.dpkg_status), "ok installed") {
                return InstallOrigin::Source;
            }
            if contains(or_none(&p.apt_policy), "ppa.launchpadcontent.net/archledger/irlume") {
                InstallOrigin::Ppa
            } else {
                InstallOrigin::LocalDeb
            }
        },
        DistroFamily::Arch => {
            if p.pacman_owned {
                InstallOrigin::ArchPkg
            } else {
                InstallOrigin::Source
            }
        },
        DistroFamily::Other => InstallOrigin::Source,
    }
}

/// What follows `key` on the first line that begins with it, or nothing.
pub open spec fn field_after(lines: Seq<Seq<char>>, key: Seq<char>) -> Seq<char>
    decreases lines.len(),
{
    if lines.len() == 0 {
        Seq::empty()
    } else {
        match after_prefix(lines[0], key) {
            Some(v) => v,
            None => field_after(lines.skip(1), key),
        }
    }
}

/// The value of a field of an os-release file: without the space and the quotes
/// around it, in lower case.
pub open spec fn os_field(os_release: Seq<char>, key: Seq<char>) -> Seq<char> {
    let raw = trimmed(field_after(lines_of(os_release), key));
    lower(strip_end(strip_start(raw, '"'), '"'))
}

fn read_os_field(os_release: &str, key: &str) -> (r: String)
    ensures
        r@ == os_field(os_release@, key@),
{
    let ls = lines(os_release);
    let ghost all = lines_of(os_release@);
    let mut i: usize = 0;
    proof {
        assert(all.skip(0) =~= all);
    }
    while i < ls.len()
        invariant
            i <= ls@.len(),
            all == texts(ls@),
            all == lines_of(os_release@),
            field_after(all, key@) == field_after(all.skip(i as int), key@),
        decreases ls@.len() - i,
    {
        proof {
            assert(all.skip(i as int)[0] == ls@[i as int]@);
            assert(all.skip(i as int).skip(1) =~= all.skip(i + 1));
        }
        match strip_prefix(ls[i].as_str(), key) {
            Some(v) => {
                return lowercase(trim_end_char(trim_start_char(trim(v), '"'), '"'));
            },
            None => {},
        }
        i = i + 1;
    }
    proof {
        assert(all.skip(i as int) =~= Seq::<Seq<char>>::empty());
        reveal_strlit("");
        assert(""@ =~= Seq::<char>::empty());
    }
    lowercase(trim_end_char(trim_start_char(trim(""), '"'), '"'))
}

/// The codename that the lower-case fields of an os-release file give for an
/// Ubuntu or a system like it.
pub open spec fn codename_of(
    id: Seq<char>,
    id_like: Seq<char>,
    ubuntu_codename: Seq<char>,
    version_codename: Seq<char>,
) -> Option<Seq<char>> {
    let code = if ubuntu_codename.len() == 0 {
        version_codename
    } else {
        ubuntu_codename
    };
    if (id == "ubuntu"@ || occurs(id_like, "ubuntu"@)) && code.len() > 0 {
        Some(code)
    } else {
        None
    }
}

/// Picks the codename from the four lower-case fields.
pub fn pick_codename(
    id: &str,
    id_like: &str,
    ubuntu_codename: String,
    version_codename: String,
) -> (r: Option<String>)
    ensures
        opt_text(r) == codename_of(id@, id_like@, ubuntu_codename@, version_codename@),
{
    if !same(id, "ubuntu") && !contains(id_like, "ubuntu") {
        return None;
    }
    let code = if ubuntu_codename.as_str().is_empty() {
        version_codename
    } else {
        ubuntu_codename
    };
    if code.as_str().is_empty() {
        None
    } else {
        Some(code)
    }
}

/// The series codename of an Ubuntu or a system that can use its archives.
pub fn ubuntu_codename(os_release: &str) -> (r: Option<String>)
    ensures
        opt_text(r) == codename_of(
            os_field(os_release@, "ID="@),
            os_field(os_release@, "ID_LIKE="@),
            os_field(os_release@, "UBUNTU_CODENAME="@),
            os_field(os_release@, "VERSION_CODENAME="@),
        ),
{
    let id = read_os_field(os_release, "ID=");
    let like = read_os_field(os_release, "ID_LIKE=");
    let ubuntu = read_os_field(os_release, "UBUNTU_CODENAME=");
    let version = read_os_field(os_release, "VERSION_CODENAME=");
    pick_codename(id.as_str(), like.as_str(), ubuntu, version)
}

/// The names of an architecture: in Debian packages, in pacman packages, and in
/// the PPA's index. An unusual one keeps its own name.
pub open spec fn arch_spellings(arch: Seq<char>) -> (Seq<char>, Seq<char>, Seq<char>) {
    if arch == "x86_64"@ {
        ("amd64"@, "x86_64"@, "amd64"@)
    } else if arch == "aarch64"@ {
        ("arm64"@, "aarch64"@, "arm64"@)
    } else if arch == "arm"@ {
        ("armhf"@, "armv7h"@, "armhf"@)
    } else {
        (arch, arch, arch)
    }
}

pub fn arch_names<'a>(arch: &'a str) -> (r: (&'a str, &'a str, &'a str))
    ensures
        (r.0@, r.1@, r.2@) == arch_spellings(arch@),
{
    if same(arch, "x86_64") {
        ("amd64", "x86_64", "amd64")
    } else if same(arch, "aarch64") {
        ("arm64", "aarch64", "arm64")
    } else if same(arch, "arm") {
        ("armhf", "armv7h", "armhf")
    } else {
        (arch, arch, arch)
    }
}

/// Where the PPA's package index for a series is published.
pub fn ppa_index_url(codename: &str, arch: &str) -> (r: String)
    ensures
        r@ == "https://ppa.launchpadcontent.net/archledger/irlume/ubuntu/dists/"@ + codename@
            + "/main/binary-"@ + arch_spellings(arch@).2 + "/Packages.gz"@,
{
    let (_, _, ppa_arch) = arch_names(arch);
    cat5(
        "https://ppa.launchpadcontent.net/archledger/irlume/ubuntu/dists/",
        codename,
        "/main/binary-",
        ppa_arch,
        "/Packages.gz",
    )
}

/// Whether a package index, unpacked, lists the package: an entry of its own,
/// not a name that begins like it.
pub fn index_lists_irlume(index: &str) -> (r: bool)
    ensures
        r == lines_of(index@).contains("Package: irlume"@),
{
    let ls = lines(index);
    has_arg(ls.as_slice(), "Package: irlume")
}

/// How the index was fetched and unpacked.
pub enum IndexFetch {
    /// The fetching tool's exit code, and the unpacked index where fetching and
    /// unpacking both worked.
    Exit { code: i32, unpacked: Option<String> },
    /// The tool did not run to an exit code.
    NoAnswer,
}

/// Whether the PPA serves a series. An HTTP error means it does not; a failure
/// to reach it, or an index that cannot be unpacked, means nothing is known.
pub open spec fn served(f: IndexFetch) -> Option<bool> {
    match f {
        IndexFetch::Exit { code: 0, unpacked: Some(index) } => Some(
            lines_of(index@).contains("Package: irlume"@),
        ),
        IndexFetch::Exit { code: 22, .. } => Some(false),
        _ => None,
    }
}

pub fn ppa_serves(f: &IndexFetch) -> (r: Option<bool>)
    ensures
        r == served(*f),
{
    match f {
        IndexFetch::Exit { code, unpacked } => {
            if *code == 0 {
                match unpacked {
                    Some(index) => Some(index_lists_irlume(index.as_str())),
                    None => None,
                }
            } else if *code == 22 {
                Some(false)
            } else {
                None
            }
        },
        IndexFetch::NoAnswer => None,
    }
}

/// Not reaching the archive is never read as not being served by it.
pub proof fn an_unreachable_archive_is_unknown(f: IndexFetch)
    requires
        f is NoAnswer || (f matches IndexFetch::Exit { code, .. } && code != 0 && code != 22),
    ensures
        served(f) is None,
{
}

/// What the owning package manager printed about the installed version.
pub struct VersionProbes {
    pub rpm: Option<String>,
    pub dpkg: Option<String>,
    pub pacman: Option<String>,
}

/// The installed version: what the owner of the install says, else the running
/// binary's own.
pub open spec fn version_installed(o: InstallOrigin, p: VersionProbes) -> Seq<char> {
    let said: Option<Seq<char>> = match o {
        InstallOrigin::Copr => opt_text(p.rpm),
        InstallOrigin::LocalRpm(_) => opt_text(p.rpm),
        InstallOrigin::Ppa => opt_text(p.dpkg),
        InstallOrigin::LocalDeb => opt_text(p.dpkg),
        InstallOrigin::ArchPkg => match p.pacman {
            Some(s) => nth_word(s@, 1),
            None => None,
        },
        InstallOrigin::Source => None,
    };
    match said {
        Some(s) if trimmed(s).len() > 0 => trimmed(s),
        _ => ENGINE_VERSION@,
    }
}

fn version_or_own(said: Option<&str>) -> (r: String)
    ensures
        r@ == (match crate::text::opt_slice(said) {
            Some(s) if trimmed(s).len() > 0 => trimmed(s),
            _ => ENGINE_VERSION@,
        }),
{
    match said {
        Some(s) => {
            let t = trim(s);
            if t.is_empty() {
                owned(ENGINE_VERSION)
            } else {
                owned(t)
            }
        },
        None => owned(ENGINE_VERSION),
    }
}

fn borrowed<'a>(o: &'a Option<String>) -> (r: Option<&'a str>)
    ensures
        crate::text::opt_slice(r) == opt_text(*o),
{
    match o {
        Some(s) => Some(s.as_str()),
        None => None,
    }
}

pub fn installed_version(o: &InstallOrigin, p: &VersionProbes) -> (r: String)
    ensures
        r@ == version_installed(*o, *p),
{
    match o {
        InstallOrigin::Copr => version_or_own(borrowed(&p.rpm)),
        InstallOrigin::LocalRpm(_) => version_or_own(borrowed(&p.rpm)),
        InstallOrigin::Ppa => version_or_own(borrowed(&p.dpkg)),
        InstallOrigin::LocalDeb => version_or_own(borrowed(&p.dpkg)),
        InstallOrigin::ArchPkg => {
            match &p.pacman {
                Some(s) => {
                    let ws = words(s.as_str());
                    if ws.len() > 1 {
                        proof {
                            assert(texts(ws@)[1] == ws@[1]@);
                        }
                        version_or_own(Some(ws[1].as_str()))
                    } else {
                        version_or_own(None)
                    }
                },
                None => version_or_own(None),
            }
        },
        InstallOrigin::Source => version_or_own(None),
    }
}

/// An install that no package manager of its family owns is a source install. One
/// that is owned is of the project's own repository exactly where the manager says
/// so, and else a local package.
pub proof fn an_install_belongs_to_who_owns_it(p: OriginProbes, o: InstallOrigin)
    requires
        origin_is(p, o),
    ensures
        o is Source <==> match p.family {
            DistroFamily::Fedora => !p.rpm_owned,
            DistroFamily::Debian => p.dpkg_status is None || !occurs(
                p.dpkg_status->0@,
                "ok installed"@,
            ),
            DistroFamily::Arch => !p.pacman_owned,
            DistroFamily::Other => true,
        },
        o is Copr || o is LocalRpm ==> p.family is Fedora && p.rpm_owned,
        o is Copr ==> p.dnf_repo is Some && "copr:"@.is_prefix_of(trimmed(p.dnf_repo->0@))
            && ":archledger:irlume"@.is_suffix_of(trimmed(p.dnf_repo->0@)),
        p.family is Fedora && p.rpm_owned && p.dnf_repo is Some && "copr:"@.is_prefix_of(
            trimmed(p.dnf_repo->0@),
        ) && ":archledger:irlume"@.is_suffix_of(trimmed(p.dnf_repo->0@)) ==> o is Copr,
        o is Ppa || o is LocalDeb ==> p.family is Debian,
        o is Ppa ==> p.apt_policy is Some && occurs(
            p.apt_policy->0@,
            "ppa.launchpadcontent.net/archledger/irlume"@,
        ),
        o is LocalDeb ==> p.apt_policy is None || !occurs(
            p.apt_policy->0@,
            "ppa.launchpadcontent.net/archledger/irlume"@,
        ),
        o is ArchPkg <==> p.family is Arch && p.pacman_owned,
        o matches InstallOrigin::LocalRpm(repo) ==> (p.dnf_repo matches Some(said) ==> repo@
            == trimmed(said@)),
{
    reveal_strlit("ok installed");
    reveal_strlit("copr:");
    reveal_strlit("ppa.launchpadcontent.net/archledger/irlume");
    assert("ok installed"@.len() == 12);
    assert("copr:"@.len() == 5);
    assert("ppa.launchpadcontent.net/archledger/irlume"@.len() > 0);
    crate::text::trimming_takes_whitespace_alone(Seq::<char>::empty());
}

/// A series is served exactly where its index was fetched and unpacked and lists
/// the package, and is known not to be exactly where the index is missing or does
/// not list it.
pub proof fn a_series_is_served_where_its_index_lists_the_package(f: IndexFetch)
    ensures
        served(f) == Some(true) <==> (f matches IndexFetch::Exit { code, unpacked } && code == 0
            && unpacked is Some && exists|i: int|
            0 <= i < lines_of(unpacked->0@).len() && #[trigger] lines_of(unpacked->0@)[i]
                == "Package: irlume"@),
        f matches IndexFetch::Exit { code, .. } && code == 22 ==> served(f) == Some(false),
        f matches IndexFetch::Exit { code, .. } && code != 0 && code != 22 ==> served(f) is None,
        f is NoAnswer ==> served(f) is None,
{
    match f {
        IndexFetch::Exit { code: 0, unpacked: Some(index) } => {
            let lines = lines_of(index@);
            if lines.contains("Package: irlume"@) {
                let i = choose|i: int| 0 <= i < lines.len() && lines[i] == "Package: irlume"@;
                assert(lines[i] == "Package: irlume"@);
            }
        },
        _ => {},
    }
}

/// The installed version is what the owning manager says, without the whitespace
/// around it; what another manager says never counts, and where the owner says
/// nothing the binary's own version does.
pub proof fn only_the_owner_says_which_version_is_installed(
    o: InstallOrigin,
    p: VersionProbes,
    q: VersionProbes,
)
    ensures
        o is Source ==> version_installed(o, p) == ENGINE_VERSION@,
        (o is Copr || o is LocalRpm) && opt_text(p.rpm) == opt_text(q.rpm) ==> version_installed(
            o,
            p,
        ) == version_installed(o, q),
        (o is Ppa || o is LocalDeb) && opt_text(p.dpkg) == opt_text(q.dpkg) ==> version_installed(
            o,
            p,
        ) == version_installed(o, q),
        (o is Copr || o is LocalRpm) && p.rpm is Some && trimmed(p.rpm->0@).len() > 0
            ==> version_installed(o, p) == trimmed(p.rpm->0@),
        (o is Ppa || o is LocalDeb) && p.dpkg is Some && trimmed(p.dpkg->0@).len() > 0
            ==> version_installed(o, p) == trimmed(p.dpkg->0@),
        (o is Copr || o is LocalRpm) && (p.rpm is None || trimmed(p.rpm->0@).len() == 0)
            ==> version_installed(o, p) == ENGINE_VERSION@,
        (o is Ppa || o is LocalDeb) && (p.dpkg is None || trimmed(p.dpkg->0@).len() == 0)
            ==> version_installed(o, p) == ENGINE_VERSION@,
        o is ArchPkg && (p.pacman is None || nth_word(p.pacman->0@, 1) is None)
            ==> version_installed(o, p) == ENGINE_VERSION@,
        o is ArchPkg && p.pacman is Some && nth_word(p.pacman->0@, 1) is Some && trimmed(
            nth_word(p.pacman->0@, 1)->0,
        ).len() > 0 ==> version_installed(o, p) == trimmed(nth_word(p.pacman->0@, 1)->0),
{
}

/// A codename is given exactly for Ubuntu and what is like it, and Ubuntu's own
/// comes before the version's.
pub proof fn only_an_ubuntu_has_a_codename(
    id: Seq<char>,
    id_like: Seq<char>,
    ubuntu_codename: Seq<char>,
    version_codename: Seq<char>,
)
    ensures
        ({
            let c = codename_of(id, id_like, ubuntu_codename, version_codename);
            &&& c is Some <==> (id == "ubuntu"@ || occurs(id_like, "ubuntu"@)) && (
            ubuntu_codename.len() > 0 || version_codename.len() > 0)
            &&& c is Some && ubuntu_codename.len() > 0 ==> c->0 == ubuntu_codename
            &&& c is Some && ubuntu_codename.len() == 0 ==> c->0 == version_codename
        }),
{
}

/// An architecture keeps its own name but for the three that packages spell
/// otherwise.
pub proof fn packages_spell_three_architectures_otherwise(arch: Seq<char>)
    ensures
        arch_spellings("x86_64"@) == ("amd64"@, "x86_64"@, "amd64"@),
        arch_spellings("aarch64"@) == ("arm64"@, "aarch64"@, "arm64"@),
        arch_spellings("arm"@) == ("armhf"@, "armv7h"@, "armhf"@),
        arch != "x86_64"@ && arch != "aarch64"@ && arch != "arm"@ ==> arch_spellings(arch) == (
            arch,
            arch,
            arch,
        ),
{
    reveal_strlit("x86_64");
    reveal_strlit("aarch64");
    reveal_strlit("arm");
    assert("x86_64"@.len() == 6 && "aarch64"@.len() == 7 && "arm"@.len() == 3);
}

/// A field is what follows its key on the first line that begins with it, and empty
/// where no line does.
pub proof fn a_field_follows_its_key(
    line: Seq<char>,
    rest: Seq<Seq<char>>,
    key: Seq<char>,
    v: Seq<char>,
)
    ensures
        field_after(seq![key + v] + rest, key) == v,
        !key.is_prefix_of(line) ==> field_after(seq![line] + rest, key) == field_after(rest, key),
        field_after(Seq::empty(), key) == Seq::<char>::empty(),
{
    let a = seq![key + v] + rest;
    let b = seq![line] + rest;
    assert(a[0] == key + v);
    assert((key + v).subrange(0, key.len() as int) =~= key);
    assert((key + v).skip(key.len() as int) =~= v);
    assert(b[0] == line);
    assert(b.skip(1) =~= rest);
}

} // verus!
