//! Commands that look after an install: dependencies, seals, policies.

use vstd::prelude::*;

use crate::console::{fail_with, failed, said, say_out, Console, Outcome, OutcomeV, SayV};
use crate::hardware::{DETECTION_FILE, RECOGNITION_FILE};
use crate::protocol::{opt_request, Request, RequestV};
use crate::status::{NO, OK, WARN};
use crate::text::{
    cat2, cat3, cat4, cat5, cat6, contains, dec, decimal, hex_number, hexadecimal, join, joined,
    lines, lines_of, occurs, opt_slice, opt_text, owned, pad, padded, same, texts, trim, trimmed,
};

verus! {

// ---- deps ----

/// What was found of the runtime dependencies.
pub struct DepFacts {
    /// The daemon has loaded its models, so the runtime and the models are there.
    pub loaded: bool,
    /// ORT_DYLIB_PATH names a file that is there.
    pub ort_env: bool,
    pub ort_on_disk: bool,
    pub recognition: bool,
    pub detection: bool,
    pub tpm: bool,
    pub video: bool,
}

pub open spec fn dep_line(label: Seq<char>, present: bool, hint: Seq<char>) -> SayV {
    SayV::Out(
        "  "@ + padded(label, 14) + ": "@ + (if present {
            OK@
        } else {
            NO@ + " "@ + hint
        }),
    )
}

pub open spec fn runtime_present(f: DepFacts) -> bool {
    f.loaded || f.ort_env || f.ort_on_disk
}

pub open spec fn deps_met(f: DepFacts) -> bool {
    runtime_present(f) && (f.loaded || f.recognition) && (f.loaded || f.detection) && f.tpm
        && f.video
}

pub open spec fn deps_outcome(f: DepFacts) -> OutcomeV {
    let model_hint = "install the irlume package (or run from the repo)"@;
    OutcomeV {
        says: Seq::<SayV>::empty().push(
            dep_line(
                "onnxruntime"@,
                runtime_present(f),
                "install onnxruntime or set ORT_DYLIB_PATH"@,
            ),
        ).push(dep_line(RECOGNITION_FILE@, f.loaded || f.recognition, model_hint)).push(
            dep_line(DETECTION_FILE@, f.loaded || f.detection, model_hint),
        ).push(dep_line("TPM"@, f.tpm, "no /dev/tpmrm0 (sealing unavailable)"@)).push(
            dep_line("camera (v4l)"@, f.video, "no /dev/video* nodes"@),
        ).push(
            SayV::Out(
                "deps: "@ + (if deps_met(f) {
                    "all present "@ + OK@
                } else {
                    "missing dependencies "@ + WARN@
                }),
            ),
        ),
        exit: if deps_met(f) {
            0
        } else {
            1
        },
    }
}

fn say_dep(c: &mut Console, label: &str, present: bool, hint: &str)
    ensures
        final(c)@ == old(c)@.push(dep_line(label@, present, hint@)),
{
    let padded = pad(label, 14);
    let state = if present {
        owned(OK)
    } else {
        cat3(NO, " ", hint)
    };
    c.out(cat4("  ", padded.as_str(), ": ", state.as_str()));
}

/// What `deps` prints, and whether everything is there.
pub fn deps(f: &DepFacts) -> (r: Outcome)
    ensures
        r@ == deps_outcome(*f),
{
    let mut c = Console::new();
    let runtime = f.loaded || f.ort_env || f.ort_on_disk;
    let recognition = f.loaded || f.recognition;
    let detection = f.loaded || f.detection;
    let met = runtime && recognition && detection && f.tpm && f.video;
    say_dep(&mut c, "onnxruntime", runtime, "install onnxruntime or set ORT_DYLIB_PATH");
    say_dep(
        &mut c,
        RECOGNITION_FILE,
        recognition,
        "install the irlume package (or run from the repo)",
    );
    say_dep(
        &mut c,
        DETECTION_FILE,
        detection,
        "install the irlume package (or run from the repo)",
    );
    say_dep(&mut c, "TPM", f.tpm, "no /dev/tpmrm0 (sealing unavailable)");
    say_dep(&mut c, "camera (v4l)", f.video, "no /dev/video* nodes");
    let verdict = if met {
        cat2("all present ", OK)
    } else {
        cat2("missing dependencies ", WARN)
    };
    c.out(cat2("deps: ", verdict.as_str()));
    Outcome {
        console: c,
        exit: if met {
            0
        } else {
            1
        },
    }
}

// ---- diag ----

/// What replaying the recorded measurements of a seal showed.
pub enum Replay {
    Clean,
    Drifted(Vec<u32>),
    Failed(String),
}

/// What reading a sealed envelope brought.
pub enum SealFile {
    /// Not there, or not for this user to read: the daemon may know more.
    Hidden,
    Unreadable { kind: String },
    Corrupt,
    Read {
        path: String,
        policy: String,
        pcrs: Vec<u32>,
        /// `None` where the envelope holds no snapshot to replay.
        replay: Option<Replay>,
    },
}

pub open spec fn number_texts(v: Seq<u32>) -> Seq<Seq<char>> {
    v.map_values(|n: u32| decimal(n as nat))
}

/// A list of numbers, in square brackets.
pub open spec fn number_list(v: Seq<u32>) -> Seq<char> {
    "["@ + joined(number_texts(v), ", "@) + "]"@
}

fn show_numbers(v: &Vec<u32>) -> (r: String)
    ensures
        r@ == number_list(v@),
{
    let mut parts: Vec<String> = Vec::new();
    let ghost want = number_texts(v@);
    let mut i: usize = 0;
    proof {
        assert(texts(parts@) =~= want.take(0));
    }
    while i < v.len()
        invariant
            i <= v@.len(),
            want == number_texts(v@),
            texts(parts@) == want.take(i as int),
        decreases v@.len() - i,
    {
        let ghost before = texts(parts@);
        parts.push(dec(v[i] as u64));
        proof {
            assert(texts(parts@) =~= before.push(want[i as int]));
            assert(texts(parts@) =~= want.take(i + 1));
        }
        i = i + 1;
    }
    proof {
        assert(want.take(want.len() as int) =~= want);
    }
    let list = join(&parts, ", ");
    cat3("[", list.as_str(), "]")
}

/// What is said of one seal: nothing of a hidden one.
pub open spec fn seal_says(
    label: Seq<char>,
    f: SealFile,
    healthy: Seq<char>,
    drift_fix: Seq<char>,
    corrupt_fix: Seq<char>,
) -> Seq<SayV> {
    let none = Seq::<SayV>::empty();
    match f {
        SealFile::Hidden => none,
        SealFile::Unreadable { kind } => none.push(
            SayV::Out(
                "  "@ + padded(label, 14) + ": UNREADABLE "@ + NO@ + " (I/O error "@ + kind@
                    + "; seal health is unknown)"@,
            ),
        ),
        SealFile::Corrupt => none.push(
            SayV::Out(
                "  "@ + padded(label, 14) + ": CORRUPT "@ + NO@
                    + " (envelope JSON is malformed; "@ + corrupt_fix + ")"@,
            ),
        ),
        SealFile::Read { path, policy, pcrs, replay } => none.push(
            SayV::Out("  "@ + padded(label, 14) + ": "@ + path@ + " "@ + OK@),
        ).push(
            SayV::Out("    policy      : "@ + policy@ + ", bound PCRs "@ + number_list(pcrs@)),
        ).push(
            SayV::Out(
                match replay {
                    None => "    PCR drift   : unknown "@ + WARN@
                        + " (envelope has no recorded PCR snapshot; unseal was not tested)"@,
                    Some(Replay::Clean) => "    PCR drift   : none "@ + OK@ + " ("@ + healthy
                        + ")"@,
                    Some(Replay::Drifted(v)) => "    PCR drift   : DRIFTED at "@ + number_list(v@)
                        + " "@ + WARN@ + "; unseal will FAIL; "@ + drift_fix,
                    Some(Replay::Failed(e)) => "    PCR drift   : could not replay PCRs ("@ + e@
                        + "); need TPM access (tss group / root)"@,
                },
            ),
        ),
    }
}

/// Prints one seal. Returns whether there was anything to say.
pub fn print_seal_diagnostics(
    c: &mut Console,
    label: &str,
    f: &SealFile,
    healthy: &str,
    drift_fix: &str,
    corrupt_fix: &str,
) -> (r: bool)
    ensures
        final(c)@ == old(c)@ + seal_says(label@, *f, healthy@, drift_fix@, corrupt_fix@),
        r == !(f is Hidden),
{
    let ghost before = c@;
    let label_text = pad(label, 14);
    let told = match f {
        SealFile::Hidden => false,
        SealFile::Unreadable { kind } => {
            let head = cat3("  ", label_text.as_str(), ": UNREADABLE ");
            c.out(
                cat5(
                    head.as_str(),
                    NO,
                    " (I/O error ",
                    kind.as_str(),
                    "; seal health is unknown)",
                ),
            );
            true
        },
        SealFile::Corrupt => {
            c.out(
                cat6(
                    "  ",
                    label_text.as_str(),
                    ": CORRUPT ",
                    NO,
                    " (envelope JSON is malformed; ",
                    cat2(corrupt_fix, ")").as_str(),
                ),
            );
            proof {
                assert("  "@ + padded(label@, 14) + ": CORRUPT "@ + NO@
                    + " (envelope JSON is malformed; "@ + (corrupt_fix@ + ")"@) =~= "  "@ + padded(
                    label@,
                    14,
                ) + ": CORRUPT "@ + NO@ + " (envelope JSON is malformed; "@ + corrupt_fix@ + ")"@);
            }
            true
        },
        SealFile::Read { path, policy, pcrs, replay } => {
            c.out(cat6("  ", label_text.as_str(), ": ", path.as_str(), " ", OK));
            let bound = show_numbers(pcrs);
            c.out(cat4("    policy      : ", policy.as_str(), ", bound PCRs ", bound.as_str()));
            let line = match replay {
                None => cat3(
                    "    PCR drift   : unknown ",
                    WARN,
                    " (envelope has no recorded PCR snapshot; unseal was not tested)",
                ),
                Some(Replay::Clean) => cat5("    PCR drift   : none ", OK, " (", healthy, ")"),
                Some(Replay::Drifted(v)) => {
                    let at = show_numbers(v);
                    cat6(
                        "    PCR drift   : DRIFTED at ",
                        at.as_str(),
                        " ",
                        WARN,
                        "; unseal will FAIL; ",
                        drift_fix,
                    )
                },
                Some(Replay::Failed(e)) => cat3(
                    "    PCR drift   : could not replay PCRs (",
                    e.as_str(),
                    "); need TPM access (tss group / root)",
                ),
            };
            c.out(line);
            true
        },
    };
    proof {
        assert(c@ =~= before + seal_says(label@, *f, healthy@, drift_fix@, corrupt_fix@));
    }
    told
}

/// What the daemon says of the sealed credential.
pub enum KeyringSeal {
    Armed,
    NotArmed,
    Unexpected,
    Unreachable,
}

/// What the daemon says of the template key.
pub enum TemplateSeal {
    Status { encrypted: bool, key_present: bool, recovery_set: bool },
    Unexpected,
    Unreachable,
}

/// Everything that `diag` shows.
pub struct DiagFacts {
    pub user: String,
    pub tpm: Option<String>,
    pub boot_mode: String,
    pub secure_boot: crate::hardware::SecureBoot,
    pub signed_policy: bool,
    pub pcrlock: Option<u64>,
    pub keyring_file: SealFile,
    pub keyring: KeyringSeal,
    pub template_file: SealFile,
    pub template: TemplateSeal,
}

pub open spec fn secure_boot_line(b: crate::hardware::SecureBoot) -> Seq<char> {
    if b.enabled {
        "  secure boot   : enabled "@ + OK@
    } else if b.setup_mode {
        "  secure boot   : SETUP MODE "@ + WARN@
    } else if b.present {
        "  secure boot   : disabled "@ + WARN@
    } else {
        "  secure boot   : not a UEFI boot"@
    }
}

pub open spec fn keyring_seal_line(s: KeyringSeal) -> Seq<char> {
    match s {
        KeyringSeal::Armed =>
            "  keyring seal  : armed, but not readable here; run `sudo irlume diag` for PCR-drift detail"@,
        KeyringSeal::NotArmed => "  keyring seal  : not armed (run `irlume keyring arm`)"@,
        KeyringSeal::Unexpected =>
            "  keyring seal  : unknown (daemon returned an unexpected response)"@,
        KeyringSeal::Unreachable => "  keyring seal  : unknown (daemon unreachable)"@,
    }
}

pub open spec fn template_seal_line(s: TemplateSeal) -> Seq<char> {
    match s {
        TemplateSeal::Status { encrypted, key_present, recovery_set } => if !encrypted {
            "  template seal : not present (templates are plaintext at rest)"@
        } else if !key_present && recovery_set {
            "  template seal : MISSING "@ + WARN@
                + " (recoverable: run `irlume recovery restore`)"@
        } else if !key_present {
            "  template seal : MISSING "@ + NO@
                + " (encrypted templates cannot be opened; re-enroll)"@
        } else {
            "  template seal : sealed, but not readable here; recovery passphrase "@ + (
            if recovery_set {
                "set"@
            } else {
                "NOT SET"@
            }) + "; run `sudo irlume diag` for PCR-drift detail"@
        },
        TemplateSeal::Unexpected =>
            "  template seal : unknown (daemon returned an unexpected response)"@,
        TemplateSeal::Unreachable => "  template seal : unknown (daemon unreachable)"@,
    }
}

pub open spec fn keyring_seal_says(f: SealFile) -> Seq<SayV> {
    seal_says(
        "keyring seal"@,
        f,
        "the keyring credential can unseal"@,
        "run `irlume keyring arm` or log in with the typed password to recover and re-bind it"@,
        "preserve the file and do not force-forget it"@,
    )
}

pub open spec fn template_seal_says(f: SealFile) -> Seq<SayV> {
    seal_says(
        "template seal"@,
        f,
        "the face-template key can unseal"@,
        "run `irlume recovery restore`; without a recovery passphrase, re-enroll"@,
        "preserve the file; run `irlume recovery restore` if a recovery passphrase was set, otherwise re-enroll"@,
    )
}

/// What `diag` says. The two seals protect different things and are told apart.
pub open spec fn diag_says(f: DiagFacts) -> Seq<SayV> {
    let head = Seq::<SayV>::empty().push(SayV::Out("irlume diag for '"@ + f.user@ + "'"@)).push(
        SayV::Out(
            match f.tpm {
                Some(d) => "  TPM           : "@ + d@ + " "@ + OK@,
                None => "  TPM           : none "@ + NO@,
            },
        ),
    ).push(SayV::Out("  boot mode     : "@ + f.boot_mode@)).push(
        SayV::Out(secure_boot_line(f.secure_boot)),
    ).push(
        SayV::Out(
            if f.signed_policy {
                "  signed policy : PCR-11 signature present (Tier 1: kernel updates won't need re-seal)"@
            } else {
                "  signed policy : none (no Tier 1 on this boot chain)"@
            },
        ),
    ).push(
        SayV::Out(
            match f.pcrlock {
                Some(nv) => "  pcrlock       : provisioned, NV 0x"@ + hexadecimal(nv as nat)
                    + " (Tier 2 candidate: an arm uses it only if it unseals on this boot, else falls back to literal PCR 7)"@,
                None =>
                    "  pcrlock       : not provisioned (optional; `systemd-pcrlock make-policy` enables Tier 2, else seals use literal PCR 7)"@,
            },
        ),
    );
    let a = head + keyring_seal_says(f.keyring_file);
    let b = if f.keyring_file is Hidden {
        a.push(SayV::Out(keyring_seal_line(f.keyring)))
    } else {
        a
    };
    let c = b + template_seal_says(f.template_file);
    if f.template_file is Hidden {
        c.push(SayV::Out(template_seal_line(f.template)))
    } else {
        c
    }
}

fn show_secure_boot(b: crate::hardware::SecureBoot) -> (r: String)
    ensures
        r@ == secure_boot_line(b),
{
    if b.enabled {
        cat2("  secure boot   : enabled ", OK)
    } else if b.setup_mode {
        cat2("  secure boot   : SETUP MODE ", WARN)
    } else if b.present {
        cat2("  secure boot   : disabled ", WARN)
    } else {
        owned("  secure boot   : not a UEFI boot")
    }
}

fn show_template_seal(s: &TemplateSeal) -> (r: String)
    ensures
        r@ == template_seal_line(*s),
{
    match s {
        TemplateSeal::Status { encrypted, key_present, recovery_set } => {
            if !*encrypted {
                owned("  template seal : not present (templates are plaintext at rest)")
            } else if !*key_present && *recovery_set {
                cat3(
                    "  template seal : MISSING ",
                    WARN,
                    " (recoverable: run `irlume recovery restore`)",
                )
            } else if !*key_present {
                cat3(
                    "  template seal : MISSING ",
                    NO,
                    " (encrypted templates cannot be opened; re-enroll)",
                )
            } else {
                cat3(
                    "  template seal : sealed, but not readable here; recovery passphrase ",
                    if *recovery_set {
                        "set"
                    } else {
                        "NOT SET"
                    },
                    "; run `sudo irlume diag` for PCR-drift detail",
                )
            }
        },
        TemplateSeal::Unexpected => owned(
            "  template seal : unknown (daemon returned an unexpected response)",
        ),
        TemplateSeal::Unreachable => owned("  template seal : unknown (daemon unreachable)"),
    }
}

/// What `diag` prints.
pub fn diag(f: &DiagFacts) -> (r: Outcome)
    ensures
        r@ == (OutcomeV { says: diag_says(*f), exit: 0 }),
{
    let mut c = Console::new();
    c.out(cat3("irlume diag for '", f.user.as_str(), "'"));
    match &f.tpm {
        Some(d) => {
            c.out(cat4("  TPM           : ", d.as_str(), " ", OK));
        },
        None => {
            c.out(cat2("  TPM           : none ", NO));
        },
    }
    c.out(cat2("  boot mode     : ", f.boot_mode.as_str()));
    c.out(show_secure_boot(f.secure_boot));
    c.out(
        owned(
            if f.signed_policy {
                "  signed policy : PCR-11 signature present (Tier 1: kernel updates won't need re-seal)"
            } else {
                "  signed policy : none (no Tier 1 on this boot chain)"
            },
        ),
    );
    match f.pcrlock {
        Some(nv) => {
            let nv = hex_number(nv);
            c.out(
                cat3(
                    "  pcrlock       : provisioned, NV 0x",
                    nv.as_str(),
                    " (Tier 2 candidate: an arm uses it only if it unseals on this boot, else falls back to literal PCR 7)",
                ),
            );
        },
        None => {
            c.out(
                owned(
                    "  pcrlock       : not provisioned (optional; `systemd-pcrlock make-policy` enables Tier 2, else seals use literal PCR 7)",
                ),
            );
        },
    }
    let told = print_seal_diagnostics(
        &mut c,
        "keyring seal",
        &f.keyring_file,
        "the keyring credential can unseal",
        "run `irlume keyring arm` or log in with the typed password to recover and re-bind it",
        "preserve the file and do not force-forget it",
    );
    if !told {
        let line = match f.keyring {
            KeyringSeal::Armed =>
                "  keyring seal  : armed, but not readable here; run `sudo irlume diag` for PCR-drift detail",
            KeyringSeal::NotArmed => "  keyring seal  : not armed (run `irlume keyring arm`)",
            KeyringSeal::Unexpected =>
                "  keyring seal  : unknown (daemon returned an unexpected response)",
            KeyringSeal::Unreachable => "  keyring seal  : unknown (daemon unreachable)",
        };
        c.out(owned(line));
    }
    let told = print_seal_diagnostics(
        &mut c,
        "template seal",
        &f.template_file,
        "the face-template key can unseal",
        "run `irlume recovery restore`; without a recovery passphrase, re-enroll",
        "preserve the file; run `irlume recovery restore` if a recovery passphrase was set, otherwise re-enroll",
    );
    if !told {
        c.out(show_template_seal(&f.template));
    }
    Outcome { console: c, exit: 0 }
}

/// What `diag` asks the daemon: of each seal only where its file is hidden.
pub fn diag_requests(user: &str, keyring_file: &SealFile, template_file: &SealFile) -> (r: (
    Option<Request>,
    Option<Request>,
))
    ensures
        (opt_request(r.0), opt_request(r.1)) == diag_asks(user@, *keyring_file, *template_file),
        opt_request(r.0) == (if keyring_file is Hidden {
            Some(RequestV::HasSealedPassword { user: user@ })
        } else {
            None
        }),
        opt_request(r.1) == (if template_file is Hidden {
            Some(RequestV::RecoveryStatus { user: user@ })
        } else {
            None
        }),
{
    let keyring = match keyring_file {
        SealFile::Hidden => Some(Request::HasSealedPassword { user: owned(user) }),
        _ => None,
    };
    let template = match template_file {
        SealFile::Hidden => Some(Request::RecoveryStatus { user: owned(user) }),
        _ => None,
    };
    (keyring, template)
}

/// What the daemon would say of a seal changes nothing where its file speaks.
pub proof fn an_unasked_question_changes_nothing(f: DiagFacts, g: DiagFacts)
    requires
        g == (DiagFacts { keyring: g.keyring, template: g.template, ..f }),
        f.keyring_file is Hidden ==> f.keyring == g.keyring,
        f.template_file is Hidden ==> f.template == g.template,
    ensures
        diag_says(f) == diag_says(g),
{
}

/// Each seal is always told of: its file speaks, or the daemon does.
pub proof fn each_seal_is_always_told(f: DiagFacts)
    ensures
        !(f.keyring_file is Hidden) ==> keyring_seal_says(f.keyring_file).len() > 0,
        !(f.template_file is Hidden) ==> template_seal_says(f.template_file).len() > 0,
        diag_says(f).len() >= 8,
{
}

// ---- selinux ----

/// What `selinux` was asked to do.
#[derive(Clone, Copy, Debug, PartialEq, Eq, Structural)]
pub enum SelinuxCommand {
    Status,
    Load,
}

pub open spec fn selinux_asked(sub: Option<Seq<char>>, present: bool) -> Result<
    SelinuxCommand,
    OutcomeV,
> {
    if sub is None || sub == Some("status"@) {
        if present {
            Ok(SelinuxCommand::Status)
        } else {
            Err(said("[selinux] SELinux is not present on this system; nothing to manage."@))
        }
    } else if sub == Some("load"@) {
        if present {
            Ok(SelinuxCommand::Load)
        } else {
            Err(
                failed(
                    "[selinux] SELinux is not present on this system; there is no policy to load."@,
                    1,
                ),
            )
        }
    } else {
        Err(
            failed(
                "[selinux] unknown subcommand '"@ + sub->0 + "' (use: status | load)"@,
                2,
            ),
        )
    }
}

pub open spec fn selinux_view(r: Result<SelinuxCommand, Outcome>) -> Result<
    SelinuxCommand,
    OutcomeV,
> {
    match r {
        Ok(c) => Ok(c),
        Err(o) => Err(o@),
    }
}

/// Whether this system plausibly runs SELinux.
pub fn selinux_present(mounted: bool, tooling: bool) -> (r: bool)
    ensures
        r == (mounted || tooling),
{
    mounted || tooling
}

/// Reads the subcommand of `selinux`. Where there is no SELinux, there is nothing
/// to manage.
pub fn selinux(sub: Option<&str>, present: bool) -> (r: Result<SelinuxCommand, Outcome>)
    ensures
        selinux_view(r) == selinux_asked(opt_slice(sub), present),
{
    match sub {
        None => {
            if present {
                Ok(SelinuxCommand::Status)
            } else {
                Err(
                    say_out(
                        owned(
                            "[selinux] SELinux is not present on this system; nothing to manage.",
                        ),
                    ),
                )
            }
        },
        Some(word) => {
            if same(word, "status") {
                if present {
                    Ok(SelinuxCommand::Status)
                } else {
                    Err(
                        say_out(
                            owned(
                                "[selinux] SELinux is not present on this system; nothing to manage.",
                            ),
                        ),
                    )
                }
            } else if same(word, "load") {
                if present {
                    Ok(SelinuxCommand::Load)
                } else {
                    Err(
                        fail_with(
                            owned(
                                "[selinux] SELinux is not present on this system; there is no policy to load.",
                            ),
                            1,
                        ),
                    )
                }
            } else {
                Err(
                    fail_with(
                        cat3("[selinux] unknown subcommand '", word, "' (use: status | load)"),
                        2,
                    ),
                )
            }
        },
    }
}

/// A listed module of that name.
pub open spec fn lists_module(lines: Seq<Seq<char>>, name: Seq<char>) -> bool {
    exists|i: int| 0 <= i < lines.len() && trimmed(#[trigger] lines[i]) == name
}

fn module_listed(text: &str, name: &str) -> (r: bool)
    ensures
        r == lists_module(lines_of(text@), name@),
{
    let v = lines(text);
    let mut i: usize = 0;
    while i < v.len()
        invariant
            i <= v@.len(),
            texts(v@) == lines_of(text@),
            forall|k: int| 0 <= k < i ==> trimmed(#[trigger] lines_of(text@)[k]) != name@,
        decreases v@.len() - i,
    {
        proof {
            assert(texts(v@)[i as int] == v@[i as int]@);
        }
        if same(trim(v[i].as_str()), name) {
            return true;
        }
        i = i + 1;
    }
    proof {
        assert(texts(v@).len() == v@.len());
    }
    false
}

/// What listing the policy modules brought.
pub struct ModuleList {
    pub success: bool,
    pub text: String,
}

/// The state of the policy module. An empty list is not an unloaded module: only
/// root may list them. The socket's label is a sign that anyone can read.
pub open spec fn module_state(list: Option<ModuleList>, label: Seq<char>) -> Seq<char> {
    let listed = list matches Some(l) && l.success && l.text@.len() > 0;
    let in_list = list matches Some(l) && lists_module(lines_of(l.text@), "irlume"@);
    if in_list || occurs(label, "irlume_runtime_t"@) {
        "loaded "@ + OK@
    } else if !listed {
        "unknown "@ + WARN@ + " (run `sudo irlume selinux status`; semodule needs root)"@
    } else {
        "not loaded "@ + WARN@ + " (run `sudo irlume selinux load`)"@
    }
}

/// What `selinux status` says. A label without a colon is no label; one with it is
/// shown as it was read, with the line break it came with or none.
pub open spec fn selinux_status_says(list: Option<ModuleList>, label: Seq<char>) -> Seq<SayV> {
    let head = Seq::<SayV>::empty().push(
        SayV::Out("[selinux] module 'irlume': "@ + module_state(list, label)),
    );
    if occurs(label, ":"@) {
        head.push(SayV::Part("[selinux] socket label: "@ + label))
    } else {
        head
    }
}

/// What `selinux status` prints.
pub fn selinux_status(list: &Option<ModuleList>, label: &str) -> (r: Outcome)
    ensures
        r@ == (OutcomeV { says: selinux_status_says(*list, label@), exit: 0 }),
{
    let (listed, in_list) = match list {
        Some(l) => (
            l.success && !l.text.as_str().is_empty(),
            module_listed(l.text.as_str(), "irlume"),
        ),
        None => (false, false),
    };
    let state = if in_list || contains(label, "irlume_runtime_t") {
        cat2("loaded ", OK)
    } else if !listed {
        cat3("unknown ", WARN, " (run `sudo irlume selinux status`; semodule needs root)")
    } else {
        cat3("not loaded ", WARN, " (run `sudo irlume selinux load`)")
    };
    let mut c = Console::new();
    c.out(cat2("[selinux] module 'irlume': ", state.as_str()));
    if contains(label, ":") {
        c.part(cat2("[selinux] socket label: ", label));
    }
    Outcome { console: c, exit: 0 }
}

/// The first place that is there.
pub open spec fn first_there(places: Seq<Seq<char>>, there: Seq<bool>) -> Option<Seq<char>>
    decreases places.len(),
{
    if places.len() == 0 || there.len() == 0 {
        None
    } else if there[0] {
        Some(places[0])
    } else {
        first_there(places.skip(1), there.skip(1))
    }
}

/// The policy file to load: the one that was named, and no other then; else the
/// first packaged one that is there.
pub open spec fn policy_file(
    named: Option<(Seq<char>, bool)>,
    places: Seq<Seq<char>>,
    there: Seq<bool>,
) -> Option<Seq<char>> {
    match named {
        Some((path, true)) => Some(path),
        Some((_, false)) => None,
        None => first_there(places, there),
    }
}

/// Picks the policy file. `named` is the override with whether it is there.
pub fn pick_policy(named: Option<(String, bool)>, places: &Vec<String>, there: &Vec<bool>) -> (r:
    Option<String>)
    ensures
        opt_text(r) == policy_file(
            match named {
                Some((p, b)) => Some((p@, b)),
                None => None,
            },
            texts(places@),
            there@,
        ),
{
    match named {
        Some((path, there_now)) => {
            if there_now {
                Some(path)
            } else {
                None
            }
        },
        None => {
            let ghost all = texts(places@);
            let mut i: usize = 0;
            proof {
                assert(all.skip(0) =~= all);
                assert(there@.skip(0) =~= there@);
            }
            while i < places.len() && i < there.len()
                invariant
                    i <= places@.len(),
                    i <= there@.len(),
                    all == texts(places@),
                    named is None,
                    first_there(all, there@) == first_there(all.skip(i as int), there@.skip(i as int)),
                decreases places@.len() - i,
            {
                proof {
                    assert(all.skip(i as int)[0] == places@[i as int]@);
                    assert(there@.skip(i as int)[0] == there@[i as int]);
                    assert(all.skip(i as int).skip(1) =~= all.skip(i + 1));
                    assert(there@.skip(i as int).skip(1) =~= there@.skip(i + 1));
                }
                if there[i] {
                    return Some(owned(places[i].as_str()));
                }
                i = i + 1;
            }
            None
        },
    }
}

pub const NO_POLICY: &'static str = "[selinux] irlume.pp not found; build it: make -f /usr/share/selinux/devel/Makefile -C packaging/selinux irlume.pp";

/// How loading the module ended.
pub enum LoadResult {
    /// It was loaded; the socket was then relabelled or not.
    Loaded { relabel: Result<(), String> },
    Exited(String),
    NotRun(String),
}

pub open spec fn load_outcome(l: LoadResult) -> OutcomeV {
    match l {
        LoadResult::Loaded { relabel: Ok(_) } => said(
            "[selinux] loaded "@ + OK@ + "; irlumed restarted and the socket relabeled"@,
        ),
        LoadResult::Loaded { relabel: Err(e) } => failed(
            "[selinux] module loaded, but the socket relabel FAILED: "@ + e@
                + "; the greeter stays blocked until it succeeds"@,
            1,
        ),
        LoadResult::Exited(s) => failed("[selinux] semodule exited "@ + s@, 1),
        LoadResult::NotRun(e) => failed("[selinux] could not run semodule: "@ + e@, 1),
    }
}

/// What `selinux load` prints: a loaded module with a stale label is a failure.
pub fn report_load(l: &LoadResult) -> (r: Outcome)
    ensures
        r@ == load_outcome(*l),
{
    match l {
        LoadResult::Loaded { relabel } => {
            match relabel {
                Ok(_) => say_out(
                    cat3(
                        "[selinux] loaded ",
                        OK,
                        "; irlumed restarted and the socket relabeled",
                    ),
                ),
                Err(e) => fail_with(
                    cat3(
                        "[selinux] module loaded, but the socket relabel FAILED: ",
                        e.as_str(),
                        "; the greeter stays blocked until it succeeds",
                    ),
                    1,
                ),
            }
        },
        LoadResult::Exited(s) => fail_with(cat2("[selinux] semodule exited ", s.as_str()), 1),
        LoadResult::NotRun(e) => fail_with(
            cat2("[selinux] could not run semodule: ", e.as_str()),
            1,
        ),
    }
}

// ---- biopolicy ----

/// What `biopolicy` was asked to do.
#[derive(Clone, Copy, Debug, PartialEq, Eq, Structural)]
pub enum BiopolicyCommand {
    Status,
    Change { on: bool },
}

pub open spec fn biopolicy_asked(sub: Option<Seq<char>>, root: bool, overridden: bool) -> Result<
    BiopolicyCommand,
    OutcomeV,
> {
    if sub is None || sub == Some("status"@) {
        Ok(BiopolicyCommand::Status)
    } else if sub == Some("on"@) || sub == Some("off"@) {
        if !root {
            Err(failed("[biopolicy] needs root: sudo irlume biopolicy "@ + sub->0, 1))
        } else if overridden {
            Err(
                failed(
                    "[biopolicy] remove the environment override before changing the saved setting"@,
                    1,
                ),
            )
        } else {
            Ok(BiopolicyCommand::Change { on: sub == Some("on"@) })
        }
    } else {
        Err(
            failed(
                "[biopolicy] usage: irlume biopolicy <on|off|status> (got '"@ + sub->0 + "')"@,
                2,
            ),
        )
    }
}

pub open spec fn biopolicy_view(r: Result<BiopolicyCommand, Outcome>) -> Result<
    BiopolicyCommand,
    OutcomeV,
> {
    match r {
        Ok(c) => Ok(c),
        Err(o) => Err(o@),
    }
}

/// Reads the subcommand of `biopolicy`. A setting that the environment overrides
/// is not changed.
pub fn biopolicy(sub: Option<&str>, root: bool, overridden: bool) -> (r: Result<
    BiopolicyCommand,
    Outcome,
>)
    ensures
        biopolicy_view(r) == biopolicy_asked(opt_slice(sub), root, overridden),
{
    let word = match sub {
        None => {
            return Ok(BiopolicyCommand::Status);
        },
        Some(word) => word,
    };
    if same(word, "status") {
        return Ok(BiopolicyCommand::Status);
    }
    let on = same(word, "on");
    if on || same(word, "off") {
        if !root {
            return Err(fail_with(cat2("[biopolicy] needs root: sudo irlume biopolicy ", word), 1));
        }
        if overridden {
            return Err(
                fail_with(
                    owned(
                        "[biopolicy] remove the environment override before changing the saved setting",
                    ),
                    1,
                ),
            );
        }
        return Ok(BiopolicyCommand::Change { on });
    }
    Err(
        fail_with(
            cat3("[biopolicy] usage: irlume biopolicy <on|off|status> (got '", word, "')"),
            2,
        ),
    )
}

pub open spec fn gate_word(enforced: Option<bool>) -> Seq<char> {
    match enforced {
        Some(true) => "ENFORCING"@,
        Some(false) => "off (default)"@,
        None => "unknown: settings unavailable"@,
    }
}

/// What `biopolicy status` prints.
pub fn report_biopolicy(enforced: Option<bool>, source: &str, overridden: bool) -> (r: Outcome)
    ensures
        r@ == ({
            let head = Seq::<SayV>::empty().push(
                SayV::Out(
                    "[biopolicy] operation-class gate: "@ + gate_word(enforced) + " ("@ + source@
                        + ")"@,
                ),
            );
            OutcomeV {
                says: if overridden {
                    head.push(
                        SayV::Out(
                            "Observed policy includes an environment override; the saved setting may differ."@,
                        ),
                    )
                } else {
                    head
                },
                exit: 0,
            }
        }),
{
    let word = match enforced {
        Some(true) => "ENFORCING",
        Some(false) => "off (default)",
        None => "unknown: settings unavailable",
    };
    let mut c = Console::new();
    c.out(cat5("[biopolicy] operation-class gate: ", word, " (", source, ")"));
    if overridden {
        c.out(
            owned(
                "Observed policy includes an environment override; the saved setting may differ.",
            ),
        );
    }
    Outcome { console: c, exit: 0 }
}

/// The value that the setting is given.
pub fn biopolicy_value(on: bool) -> (r: &'static str)
    ensures
        r@ == policy_value(on),
        r@ == (if on {
            "1"@
        } else {
            "0"@
        }),
{
    if on {
        "1"
    } else {
        "0"
    }
}

/// What changing the setting prints.
pub fn report_biopolicy_set(on: bool, result: &Result<(), String>) -> (r: Outcome)
    ensures
        r@.exit == done_exit(result is Ok),
        r@ == match *result {
            Ok(_) => said(
                "[biopolicy] operation-class gate "@ + (if on {
                    "ENABLED"@
                } else {
                    "disabled"@
                })
                    + " (takes effect on the next face auth; the password is always available)."@,
            ),
            Err(e) => failed("[biopolicy] could not update settings.conf: "@ + e@, 1),
        },
{
    match result {
        Ok(_) => say_out(
            cat3(
                "[biopolicy] operation-class gate ",
                if on {
                    "ENABLED"
                } else {
                    "disabled"
                },
                " (takes effect on the next face auth; the password is always available).",
            ),
        ),
        Err(e) => fail_with(
            cat2("[biopolicy] could not update settings.conf: ", e.as_str()),
            1,
        ),
    }
}

// ---- reseal ----

/// Whether a credential is re-bound here: only one that is armed, and never a
/// keyring token, which re-binds itself at the next password login.
pub open spec fn reseal_asked(user: Seq<char>, sealed: Option<bool>, token: bool) -> Result<
    Seq<char>,
    OutcomeV,
> {
    match sealed {
        None => Err(failed("[reseal] daemon unreachable"@, 1)),
        Some(false) => Err(
            failed(
                "[reseal] '"@ + user
                    + "' has no sealed secret; nothing to re-bind. Run `irlume keyring arm` to set one up."@,
                2,
            ),
        ),
        Some(true) => if token {
            Err(
                said(
                    "[reseal] '"@ + user
                        + "' is armed with a GNOME keyring token; it re-binds itself on your next password login. To rebuild it from scratch, run `irlume keyring forget` then `irlume keyring arm`."@,
                ),
            )
        } else {
            Ok("[reseal] Re-binding '"@ + user + "'s sealed secret to the current TPM/PCR state."@)
        },
    }
}

pub open spec fn reseal_view(r: Result<String, Outcome>) -> Result<Seq<char>, OutcomeV> {
    match r {
        Ok(s) => Ok(s@),
        Err(o) => Err(o@),
    }
}

/// Decides whether to re-bind, from what the daemon said of the credential.
/// Returns the line that announces it.
pub fn reseal(user: &str, sealed: Option<bool>, token: bool) -> (r: Result<String, Outcome>)
    ensures
        reseal_view(r) == reseal_asked(user@, sealed, token),
{
    match sealed {
        None => Err(fail_with(owned("[reseal] daemon unreachable"), 1)),
        Some(armed) => {
            if !armed {
                return Err(
                    fail_with(
                        cat3(
                            "[reseal] '",
                            user,
                            "' has no sealed secret; nothing to re-bind. Run `irlume keyring arm` to set one up.",
                        ),
                        2,
                    ),
                );
            }
            if token {
                return Err(
                    say_out(
                        cat3(
                            "[reseal] '",
                            user,
                            "' is armed with a GNOME keyring token; it re-binds itself on your next password login. To rebuild it from scratch, run `irlume keyring forget` then `irlume keyring arm`.",
                        ),
                    ),
                );
            }
            Ok(
                cat3(
                    "[reseal] Re-binding '",
                    user,
                    "'s sealed secret to the current TPM/PCR state.",
                ),
            )
        },
    }
}

/// A keyring token is never re-bound by hand, and nothing is armed that was not.
pub proof fn resealing_never_arms_anew(user: Seq<char>, sealed: Option<bool>, token: bool)
    ensures
        reseal_asked(user, sealed, token) is Ok <==> sealed == Some(true) && !token,
{
}

/// How the re-binding ended.
pub enum ResealAnswer {
    Sealed,
    Unexpected(String),
    Failed(String),
}

/// What the re-binding prints.
pub fn report_reseal(a: &ResealAnswer) -> (r: Outcome)
    ensures
        r@.exit == done_exit(a is Sealed),
        r@ == match *a {
            ResealAnswer::Sealed => said(
                "[reseal] re-bound to current PCRs "@ + OK@
                    + "; face unlock will release it again."@,
            ),
            ResealAnswer::Unexpected(other) => failed(
                "[reseal] unexpected response: "@ + other@,
                1,
            ),
            ResealAnswer::Failed(e) => failed("[reseal] failed: "@ + e@, 1),
        },
{
    match a {
        ResealAnswer::Sealed => say_out(
            cat3("[reseal] re-bound to current PCRs ", OK, "; face unlock will release it again."),
        ),
        ResealAnswer::Unexpected(other) => fail_with(
            cat2("[reseal] unexpected response: ", other.as_str()),
            1,
        ),
        ResealAnswer::Failed(e) => fail_with(cat2("[reseal] failed: ", e.as_str()), 1),
    }
}

/// Why a typed login password is not taken. `again` is what was typed to confirm
/// it, where there was a terminal to ask.
pub open spec fn login_password_refusal(typed: Seq<char>, again: Option<Seq<char>>) -> Option<
    Seq<char>,
> {
    if again matches Some(a) && a != typed {
        Some("passwords do not match; aborted (nothing changed)."@)
    } else if typed.len() == 0 {
        Some("empty password; aborted."@)
    } else {
        None
    }
}

pub fn prompt_login_password(typed: &str, again: Option<&str>) -> (r: Option<&'static str>)
    ensures
        opt_slice(r) == login_password_refusal(typed@, opt_slice(again)),
{
    match again {
        Some(a) => {
            if !same(a, typed) {
                return Some("passwords do not match; aborted (nothing changed).");
            }
        },
        None => {},
    }
    if typed.is_empty() {
        Some("empty password; aborted.")
    } else {
        None
    }
}

/// Whether a line shows a dependency as there or as missing.
pub open spec fn shows(line: SayV, label: Seq<char>, present: bool) -> bool {
    exists|hint: Seq<char>| line == #[trigger] dep_line(label, present, hint)
}

/// The dependencies are met exactly where a runtime, both models, a TPM and a camera
/// are there; a daemon that has loaded its models shows the first three. Each of the
/// five has a line of its own that says whether it is there.
pub proof fn each_dependency_is_shown_as_it_is(f: DepFacts)
    ensures
        deps_outcome(f).exit == 0 <==> (f.loaded || f.ort_env || f.ort_on_disk) && (f.loaded
            || f.recognition) && (f.loaded || f.detection) && f.tpm && f.video,
        deps_outcome(f).exit == 0 || deps_outcome(f).exit == 1,
        deps_outcome(f).says.len() == 6,
        shows(deps_outcome(f).says[0], "onnxruntime"@, f.loaded || f.ort_env || f.ort_on_disk),
        shows(deps_outcome(f).says[1], RECOGNITION_FILE@, f.loaded || f.recognition),
        shows(deps_outcome(f).says[2], DETECTION_FILE@, f.loaded || f.detection),
        shows(deps_outcome(f).says[3], "TPM"@, f.tpm),
        shows(deps_outcome(f).says[4], "camera (v4l)"@, f.video),
{
}

/// A dependency that is there and one that is not never look alike.
pub proof fn a_missing_dependency_shows(label: Seq<char>, a: Seq<char>, b: Seq<char>)
    ensures
        dep_line(label, true, a) != dep_line(label, false, b),
        dep_line(label, true, a) == dep_line(label, true, b),
{
    reveal_strlit("\u{2705}");
    reveal_strlit("\u{2717}");
    let head = "  "@ + padded(label, 14) + ": "@;
    let yes = dep_line(label, true, a)->Out_0;
    let no = dep_line(label, false, b)->Out_0;
    let n = head.len() as int;
    assert(OK@.len() == 1 && NO@.len() == 1 && OK@[0] != NO@[0]);
    assert(yes[n] == OK@[0]);
    assert(no[n] == NO@[0]);
}

/// A seal's drift is told as it was found: drifted exactly where the replay drifted,
/// none exactly where it came out clean.
pub proof fn drift_is_told_as_it_was_found(
    label: Seq<char>,
    path: String,
    policy: String,
    pcrs: Vec<u32>,
    replay: Option<Replay>,
    healthy: Seq<char>,
    drift_fix: Seq<char>,
    corrupt_fix: Seq<char>,
)
    ensures
        ({
            let s = seal_says(
                label,
                SealFile::Read { path, policy, pcrs, replay },
                healthy,
                drift_fix,
                corrupt_fix,
            );
            &&& s.len() == 3
            &&& s[2] is Out
            &&& "    PCR drift   : DRIFTED at "@.is_prefix_of(s[2]->Out_0) <==> replay is Some
                && replay->0 is Drifted
            &&& "    PCR drift   : none "@.is_prefix_of(s[2]->Out_0) <==> replay is Some
                && replay->0 is Clean
            &&& "    PCR drift   : unknown "@.is_prefix_of(s[2]->Out_0) <==> replay is None
        }),
        seal_says(label, SealFile::Hidden, healthy, drift_fix, corrupt_fix).len() == 0,
        seal_says(label, SealFile::Corrupt, healthy, drift_fix, corrupt_fix).len() == 1,
{
    let t = seal_says(
        label,
        SealFile::Read { path, policy, pcrs, replay },
        healthy,
        drift_fix,
        corrupt_fix,
    )[2]->Out_0;
    let d = "    PCR drift   : DRIFTED at "@;
    let n = "    PCR drift   : none "@;
    let u = "    PCR drift   : unknown "@;
    let c = "    PCR drift   : could not replay PCRs ("@;
    reveal_strlit("    PCR drift   : DRIFTED at ");
    reveal_strlit("    PCR drift   : none ");
    reveal_strlit("    PCR drift   : unknown ");
    reveal_strlit("    PCR drift   : could not replay PCRs (");
    assert(d[18] == 'D' && n[18] == 'n' && u[18] == 'u' && c[18] == 'c');
    let q = match replay {
        None => u,
        Some(Replay::Clean) => n,
        Some(Replay::Drifted(_)) => d,
        Some(Replay::Failed(_)) => c,
    };
    assert(t.subrange(0, q.len() as int) =~= q);
    if q != d {
        crate::text::a_text_opens_one_way(d, q, t, 18);
    }
    if q != n {
        crate::text::a_text_opens_one_way(n, q, t, 18);
    }
    if q != u {
        crate::text::a_text_opens_one_way(u, q, t, 18);
    }
}

/// Secure Boot is called enabled exactly where it is on; setup mode is named where
/// it is not, and disabled where firmware has it and neither holds.
pub proof fn secure_boot_is_called_what_it_is(b: crate::hardware::SecureBoot)
    ensures
        "  secure boot   : enabled "@.is_prefix_of(secure_boot_line(b)) <==> b.enabled,
        "  secure boot   : SETUP MODE "@.is_prefix_of(secure_boot_line(b)) <==> !b.enabled
            && b.setup_mode,
        "  secure boot   : disabled "@.is_prefix_of(secure_boot_line(b)) <==> !b.enabled
            && !b.setup_mode && b.present,
{
    let t = secure_boot_line(b);
    let e = "  secure boot   : enabled "@;
    let s = "  secure boot   : SETUP MODE "@;
    let d = "  secure boot   : disabled "@;
    let n = "  secure boot   : not a UEFI boot"@;
    reveal_strlit("  secure boot   : enabled ");
    reveal_strlit("  secure boot   : SETUP MODE ");
    reveal_strlit("  secure boot   : disabled ");
    reveal_strlit("  secure boot   : not a UEFI boot");
    assert(e[18] == 'e' && s[18] == 'S' && d[18] == 'd' && n[18] == 'n');
    let q = if b.enabled {
        e
    } else if b.setup_mode {
        s
    } else if b.present {
        d
    } else {
        n
    };
    assert(t.subrange(0, q.len() as int) =~= q);
    if q != e {
        crate::text::a_text_opens_one_way(e, q, t, 18);
    }
    if q != s {
        crate::text::a_text_opens_one_way(s, q, t, 18);
    }
    if q != d {
        crate::text::a_text_opens_one_way(d, q, t, 18);
    }
}

/// The daemon's word on a hidden credential is told: armed exactly where it says so,
/// not armed exactly where it says that.
pub proof fn a_hidden_credential_is_told_of(s: KeyringSeal)
    ensures
        "  keyring seal  : armed"@.is_prefix_of(keyring_seal_line(s)) <==> s is Armed,
        "  keyring seal  : not armed"@.is_prefix_of(keyring_seal_line(s)) <==> s is NotArmed,
{
    let t = keyring_seal_line(s);
    let a = "  keyring seal  : armed"@;
    let n = "  keyring seal  : not armed"@;
    reveal_strlit("  keyring seal  : armed");
    reveal_strlit("  keyring seal  : not armed");
    reveal_strlit(
        "  keyring seal  : armed, but not readable here; run `sudo irlume diag` for PCR-drift detail",
    );
    reveal_strlit("  keyring seal  : not armed (run `irlume keyring arm`)");
    reveal_strlit("  keyring seal  : unknown (daemon returned an unexpected response)");
    reveal_strlit("  keyring seal  : unknown (daemon unreachable)");
    assert(a[18] == 'a' && n[18] == 'n');
    if s is Armed {
        assert(t.subrange(0, a.len() as int) =~= a);
    }
    if s is NotArmed {
        assert(t.subrange(0, n.len() as int) =~= n);
    }
    if a.is_prefix_of(t) {
        assert(t.subrange(0, a.len() as int)[18] == 'a');
    }
    if n.is_prefix_of(t) {
        assert(t.subrange(0, n.len() as int)[18] == 'n');
    }
}

/// The daemon's word on a hidden template key is told: not present exactly where
/// templates are not encrypted, missing exactly where they are and the key is not
/// there, sealed exactly where it is.
pub proof fn a_hidden_template_key_is_told_of(s: TemplateSeal)
    ensures
        "  template seal : not present"@.is_prefix_of(template_seal_line(s)) <==> (
        s matches TemplateSeal::Status { encrypted, .. } && !encrypted),
        "  template seal : MISSING "@.is_prefix_of(template_seal_line(s)) <==> (
        s matches TemplateSeal::Status { encrypted, key_present, .. } && encrypted && !key_present),
        "  template seal : sealed,"@.is_prefix_of(template_seal_line(s)) <==> (
        s matches TemplateSeal::Status { encrypted, key_present, .. } && encrypted && key_present),
        ("  template seal : MISSING "@ + WARN@).is_prefix_of(template_seal_line(s)) <==> (
        s matches TemplateSeal::Status { encrypted, key_present, recovery_set } && encrypted
            && !key_present && recovery_set),
{
    let t = template_seal_line(s);
    let n = "  template seal : not present"@;
    let m = "  template seal : MISSING "@;
    let d = "  template seal : sealed,"@;
    reveal_strlit("  template seal : not present");
    reveal_strlit("  template seal : MISSING ");
    reveal_strlit("  template seal : sealed,");
    reveal_strlit("  template seal : not present (templates are plaintext at rest)");
    reveal_strlit("  template seal : sealed, but not readable here; recovery passphrase ");
    reveal_strlit("  template seal : unknown (daemon returned an unexpected response)");
    reveal_strlit("  template seal : unknown (daemon unreachable)");
    reveal_strlit("\u{26a0}");
    reveal_strlit("\u{2717}");
    assert(WARN@.len() == 1 && NO@.len() == 1 && WARN@[0] != NO@[0]);
    assert(n[18] == 'n' && m[18] == 'M' && d[18] == 's');
    let w = m + WARN@;
    let x = m + NO@;
    assert(m.len() == 26);
    match s {
        TemplateSeal::Status { encrypted, key_present, recovery_set } => {
            if !encrypted {
                assert(t.subrange(0, n.len() as int) =~= n);
            } else if !key_present {
                assert(t.subrange(0, m.len() as int) =~= m);
                if recovery_set {
                    assert(t.subrange(0, w.len() as int) =~= w);
                } else {
                    assert(t.subrange(0, x.len() as int) =~= x);
                    crate::text::a_text_opens_one_way(w, x, t, 26);
                }
            } else {
                assert(t.subrange(0, d.len() as int) =~= d);
            }
        },
        _ => {},
    }
    if n.is_prefix_of(t) {
        assert(t.subrange(0, n.len() as int)[18] == 'n');
    }
    if m.is_prefix_of(t) {
        assert(t.subrange(0, m.len() as int)[18] == 'M');
    }
    if d.is_prefix_of(t) {
        assert(t.subrange(0, d.len() as int)[18] == 's');
    }
    if w.is_prefix_of(t) {
        assert(t.subrange(0, w.len() as int)[18] == w[18]);
    }
}

/// What the system has of policy decides: without it there is nothing to load and
/// nothing amiss in asking; a word that is neither is a usage error.
pub proof fn each_policy_command_has_its_word(sub: Option<Seq<char>>, present: bool)
    ensures
        selinux_asked(sub, present) == Ok::<SelinuxCommand, OutcomeV>(SelinuxCommand::Status)
            <==> present && (sub is None || sub == Some("status"@)),
        selinux_asked(sub, present) == Ok::<SelinuxCommand, OutcomeV>(SelinuxCommand::Load)
            <==> present && sub == Some("load"@),
        selinux_asked(sub, present) matches Err(o) ==> (o.exit == 0 <==> sub is None || sub == Some(
            "status"@,
        )) && (o.exit == 1 <==> sub == Some("load"@)) && (o.exit == 2 <==> sub is Some && sub
            != Some("status"@) && sub != Some("load"@)),
{
    reveal_strlit("status");
    reveal_strlit("load");
    assert("status"@.len() == 6 && "load"@.len() == 4);
}

/// The policy module is called loaded exactly where the list names it or the
/// socket's label shows it, not loaded exactly where a list that could be read and is
/// not empty does not and the label does not either, and else unknown.
pub proof fn the_policy_module_is_called_what_it_is(list: Option<ModuleList>, label: Seq<char>)
    ensures
        ({
            let named = list is Some && exists|i: int|
                0 <= i < lines_of(list->0.text@).len() && trimmed(
                    #[trigger] lines_of(list->0.text@)[i],
                ) == "irlume"@;
            let shown = occurs(label, "irlume_runtime_t"@);
            let read = list is Some && list->0.success && list->0.text@.len() > 0;
            let s = module_state(list, label);
            &&& "loaded "@.is_prefix_of(s) <==> named || shown
            &&& "not loaded "@.is_prefix_of(s) <==> !named && !shown && read
            &&& "unknown "@.is_prefix_of(s) <==> !named && !shown && !read
        }),
{
    let s = module_state(list, label);
    let l = "loaded "@;
    let n = "not loaded "@;
    let u = "unknown "@;
    reveal_strlit("loaded ");
    reveal_strlit("not loaded ");
    reveal_strlit("unknown ");
    assert(l[0] == 'l' && n[0] == 'n' && u[0] == 'u');
    let listed = list matches Some(m) && m.success && m.text@.len() > 0;
    let in_list = list matches Some(m) && lists_module(lines_of(m.text@), "irlume"@);
    let q = if in_list || occurs(label, "irlume_runtime_t"@) {
        l
    } else if !listed {
        u
    } else {
        n
    };
    assert(s.subrange(0, q.len() as int) =~= q);
    if q != l {
        crate::text::a_text_opens_one_way(l, q, s, 0);
    }
    if q != n {
        crate::text::a_text_opens_one_way(n, q, s, 0);
    }
    if q != u {
        crate::text::a_text_opens_one_way(u, q, s, 0);
    }
}

/// The socket's label is shown exactly where there is a colon in it.
pub proof fn only_a_label_is_shown(list: Option<ModuleList>, label: Seq<char>)
    ensures
        selinux_status_says(list, label).len() == 2 <==> label.contains(':'),
        selinux_status_says(list, label).len() == 1 <==> !label.contains(':'),
{
    reveal_strlit(":");
    assert(":"@.len() == 1 && ":"@[0] == ':');
    if label.contains(':') {
        let i = choose|i: int| 0 <= i < label.len() && label[i] == ':';
        assert(label.subrange(i, i + 1) =~= ":"@);
        assert(crate::text::occurs_at(label, ":"@, i));
    }
    if occurs(label, ":"@) {
        let i = choose|i: int| 0 <= i && crate::text::occurs_at(label, ":"@, i);
        assert(label.subrange(i, i + 1)[0] == ':');
        assert(label[i] == ':');
    }
}

/// The policy that is loaded is the named file where it is there, and none where it
/// is not; without a name it is the first packaged place that is there.
pub proof fn the_named_policy_comes_before_all(
    path: Seq<char>,
    found: bool,
    places: Seq<Seq<char>>,
    there: Seq<bool>,
)
    requires
        places.len() == there.len(),
    ensures
        policy_file(Some((path, found)), places, there) == (if found {
            Some(path)
        } else {
            None::<Seq<char>>
        }),
        policy_file(None, places, there) is None <==> forall|i: int|
            0 <= i < there.len() ==> !#[trigger] there[i],
        policy_file(None, places, there) matches Some(p) ==> exists|i: int|
            0 <= i < there.len() && #[trigger] there[i] && places[i] == p && forall|j: int|
                0 <= j < i ==> !#[trigger] there[j],
    decreases places.len(),
{
    if places.len() > 0 {
        let (ps, ts) = (places.skip(1), there.skip(1));
        the_named_policy_comes_before_all(path, found, ps, ts);
        assert forall|i: int| 0 <= i < ts.len() implies #[trigger] ts[i] == there[i + 1] by {}
        if !there[0] {
            if first_there(ps, ts) is Some {
                let p = first_there(ps, ts)->0;
                let i = choose|i: int|
                    0 <= i < ts.len() && #[trigger] ts[i] && ps[i] == p && forall|j: int|
                        0 <= j < i ==> !#[trigger] ts[j];
                assert(there[i + 1] && places[i + 1] == p);
                assert forall|j: int| 0 <= j < i + 1 implies !#[trigger] there[j] by {
                    if j > 0 {
                        assert(ts[j - 1] == there[j]);
                    }
                }
            } else {
                assert forall|i: int| 0 <= i < there.len() implies !#[trigger] there[i] by {
                    if i > 0 {
                        assert(ts[i - 1] == there[i]);
                    }
                }
            }
        }
    }
}

/// Loading succeeded exactly where the module was loaded and the socket relabelled.
pub proof fn only_a_relabelled_socket_is_a_success(l: LoadResult)
    ensures
        load_outcome(l).exit == 0 <==> (l matches LoadResult::Loaded { relabel } && relabel is Ok),
        load_outcome(l).exit == 0 || load_outcome(l).exit == 1,
{
}

/// The operation-class policy is changed only by root, only without an override, and to what was asked
/// for; asking for its state is always in order.
pub proof fn only_root_changes_the_policy(sub: Option<Seq<char>>, root: bool, overridden: bool)
    ensures
        ({
            let r = biopolicy_asked(sub, root, overridden);
            &&& r == Ok::<BiopolicyCommand, OutcomeV>(BiopolicyCommand::Status) <==> sub is None
                || sub == Some("status"@)
            &&& r == Ok::<BiopolicyCommand, OutcomeV>(BiopolicyCommand::Change { on: true })
                <==> sub == Some("on"@) && root && !overridden
            &&& r == Ok::<BiopolicyCommand, OutcomeV>(BiopolicyCommand::Change { on: false })
                <==> sub == Some("off"@) && root && !overridden
            &&& r matches Err(o) ==> (o.exit == 1 <==> sub == Some("on"@) || sub == Some("off"@))
                && (o.exit == 2 <==> sub != Some("on"@) && sub != Some("off"@))
        }),
{
    reveal_strlit("status");
    reveal_strlit("on");
    reveal_strlit("off");
    assert("status"@.len() == 6 && "on"@.len() == 2 && "off"@.len() == 3);
}

/// The policy is called enforcing exactly where it is, and off exactly where it is not.
pub proof fn the_policy_is_called_what_it_is(enforced: Option<bool>)
    ensures
        gate_word(enforced) == "ENFORCING"@ <==> enforced == Some(true),
        gate_word(enforced) == "off (default)"@ <==> enforced == Some(false),
{
    reveal_strlit("ENFORCING");
    reveal_strlit("off (default)");
    reveal_strlit("unknown: settings unavailable");
    assert("ENFORCING"@.len() == 9 && "off (default)"@.len() == 13);
    assert("unknown: settings unavailable"@.len() == 29);
}

/// What is not re-bound ends otherwise: a daemon that cannot be reached fails,
/// nothing to re-bind is a usage error, and a token is in order as it is.
pub proof fn each_refused_reseal_has_its_code(user: Seq<char>, sealed: Option<bool>, token: bool)
    ensures
        reseal_asked(user, sealed, token) matches Err(o) ==> (o.exit == 1 <==> sealed is None) && (
        o.exit == 2 <==> sealed == Some(false)) && (o.exit == 0 <==> sealed == Some(true) && token),
{
}

/// A typed password is taken exactly where it is not empty and, if it was typed
/// again, the same.
pub proof fn only_a_password_typed_twice_alike_is_taken(
    typed: Seq<char>,
    again: Option<Seq<char>>,
)
    ensures
        login_password_refusal(typed, again) is None <==> typed.len() > 0 && (again is None || again
            == Some(typed)),
{
}

/// The value that the policy's setting is given.
pub open spec fn policy_value(on: bool) -> Seq<char> {
    if on {
        "1"@
    } else {
        "0"@
    }
}

/// The exit code of something that was done or not.
pub open spec fn done_exit(done: bool) -> u8 {
    if done {
        0
    } else {
        1
    }
}

/// The policy is turned on by a one and off by a zero, and only what was done is a
/// success.
pub proof fn a_one_turns_the_policy_on(on: bool, done: bool)
    ensures
        policy_value(on) == "1"@ <==> on,
        policy_value(on) == "0"@ <==> !on,
        done_exit(done) == 0 <==> done,
        done_exit(done) == 1 <==> !done,
{
    reveal_strlit("1");
    reveal_strlit("0");
    assert("1"@[0] == '1' && "0"@[0] == '0');
}

/// What `diag` asks the daemon.
pub open spec fn diag_asks(user: Seq<char>, keyring: SealFile, template: SealFile) -> (
    Option<RequestV>,
    Option<RequestV>,
) {
    (
        if keyring is Hidden {
            Some(RequestV::HasSealedPassword { user })
        } else {
            None
        },
        if template is Hidden {
            Some(RequestV::RecoveryStatus { user })
        } else {
            None
        },
    )
}

/// The daemon is asked of a seal exactly where its file is hidden, and about the
/// account that the report is of.
pub proof fn only_a_hidden_seal_is_asked_about(
    user: Seq<char>,
    keyring: SealFile,
    template: SealFile,
)
    ensures
        diag_asks(user, keyring, template).0 is Some <==> keyring is Hidden,
        diag_asks(user, keyring, template).1 is Some <==> template is Hidden,
        diag_asks(user, keyring, template).0 matches Some(q) ==> q == (
        RequestV::HasSealedPassword { user }),
        diag_asks(user, keyring, template).1 matches Some(q) ==> q == (
        RequestV::RecoveryStatus { user }),
{
}

} // verus!
