//! `irlume keyring`: arming, inspecting and forgetting the sealed secret that
//! lets a face login open a wallet.
//!
//! A keyring token is the only secret its keyring opens with, so forgetting one
//! re-keys the keyring back before the token is erased.

use vstd::prelude::*;

use crate::args::{has_arg, subject, user_arg, Caller};
use crate::console::{fail_with, failed, said, say_out, Console, Outcome, OutcomeV, SayV};
use crate::text::{cat2, cat3, cat5, opt_slice, opt_text, owned, same, texts};

verus! {

pub const KEYRING_USAGE: &'static str = "usage: irlume keyring <arm|status|forget> [--user U]\n\n\
                 \x20 arm      seal a secret so a login opens your wallet; what is\n\
                 \x20          sealed depends on the wallet you run\n\
                 \x20 status   whether a secret is armed, and which kind\n\
                 \x20 forget   erase it. A GNOME keyring token is re-keyed back to\n\
                 \x20          your password first, which needs that password;\n\
                 \x20          --force skips the re-key and leaves such a keyring\n\
                 \x20          unreachable";

/// What kind of secret is sealed.
#[derive(Clone, Copy, Debug, PartialEq, Eq, Structural)]
pub enum SecretKind {
    LoginPassword,
    KdeWalletKey,
    GnomeKeyringToken,
}

/// The subcommands of `irlume keyring`.
#[derive(Clone, Copy, Debug, PartialEq, Eq, Structural)]
pub enum KeyringCommand {
    Arm,
    Status,
    Forget { force: bool },
}

/// Reads the subcommand and the account, or the usage.
pub open spec fn keyring_command(
    sub: Option<Seq<char>>,
    args: Seq<Seq<char>>,
    sudo_user: Option<Seq<char>>,
    user: Option<Seq<char>>,
    root: bool,
) -> Result<(KeyringCommand, Seq<char>), OutcomeV> {
    match subject(args, sudo_user, user, root) {
        None => Err(failed("irlume: --user requires a username"@, 2)),
        Some(who) => if sub == Some("arm"@) {
            Ok((KeyringCommand::Arm, who))
        } else if sub == Some("status"@) {
            Ok((KeyringCommand::Status, who))
        } else if sub == Some("forget"@) {
            Ok((KeyringCommand::Forget { force: args.contains("--force"@) }, who))
        } else {
            Err(failed(KEYRING_USAGE@, 2))
        },
    }
}

pub open spec fn command_view(r: Result<(KeyringCommand, String), Outcome>) -> Result<
    (KeyringCommand, Seq<char>),
    OutcomeV,
> {
    match r {
        Ok((c, who)) => Ok((c, who@)),
        Err(o) => Err(o@),
    }
}

pub fn keyring(sub: Option<&str>, args: &[String], caller: &Caller) -> (r: Result<
    (KeyringCommand, String),
    Outcome,
>)
    ensures
        command_view(r) == keyring_command(
            opt_slice(sub),
            texts(args@),
            opt_text(caller.sudo_user),
            opt_text(caller.user),
            caller.root,
        ),
{
    let user = match user_arg(args, caller) {
        Some(user) => user,
        None => {
            return Err(fail_with(owned("irlume: --user requires a username"), 2));
        },
    };
    match sub {
        Some(s) => {
            if same(s, "arm") {
                Ok((KeyringCommand::Arm, user))
            } else if same(s, "status") {
                Ok((KeyringCommand::Status, user))
            } else if same(s, "forget") {
                Ok((KeyringCommand::Forget { force: has_arg(args, "--force") }, user))
            } else {
                Err(fail_with(owned(KEYRING_USAGE), 2))
            }
        },
        None => Err(fail_with(owned(KEYRING_USAGE), 2)),
    }
}

// ---- arm ----

/// What arming says first.
pub fn arm_intro(user: &str) -> (r: String)
    ensures
        r@ == "[keyring] Arming face-driven keyring unlock for '"@ + user@
            + "'.\nEnter this user's LOGIN password. Depending on the wallet you run, what gets sealed is the password itself, the key your KDE wallet is already opened with, or a fresh random token this re-keys your GNOME keyring to. Nothing is stored in plaintext either way."@,
{
    cat3(
        "[keyring] Arming face-driven keyring unlock for '",
        user,
        "'.\nEnter this user's LOGIN password. Depending on the wallet you run, what gets sealed is the password itself, the key your KDE wallet is already opened with, or a fresh random token this re-keys your GNOME keyring to. Nothing is stored in plaintext either way.",
    )
}

/// A line under the command's tag.
pub open spec fn tagged(message: Seq<char>) -> Seq<char> {
    "[keyring] "@ + message
}

/// Ends the command with a message of another component.
pub fn keyring_failed(message: &str) -> (r: Outcome)
    ensures
        r@ == failed(tagged(message@), 1),
{
    fail_with(cat2("[keyring] ", message), 1)
}

/// Ends the command because arming failed.
pub fn arm_failed(message: &str) -> (r: Outcome)
    ensures
        r@ == failed("[keyring] arm failed: "@ + message@, 1),
{
    fail_with(cat2("[keyring] arm failed: ", message), 1)
}

/// Why a typed password is not sealed: the confirmation differs, or it is empty.
/// There is no confirmation where the password is piped in.
pub open spec fn password_refusal(first: Seq<char>, confirm: Option<Seq<char>>) -> Option<
    OutcomeV,
> {
    if confirm is Some && confirm->0 != first {
        Some(failed("[keyring] passwords do not match; aborted (nothing sealed)."@, 2))
    } else if first.len() == 0 {
        Some(failed("[keyring] empty password; aborted"@, 2))
    } else {
        None
    }
}

pub open spec fn opt_outcome(o: Option<Outcome>) -> Option<OutcomeV> {
    match o {
        Some(o) => Some(o@),
        None => None,
    }
}

pub fn refuse_password(first: &str, confirm: Option<&str>) -> (r: Option<Outcome>)
    ensures
        opt_outcome(r) == password_refusal(first@, opt_slice(confirm)),
{
    match confirm {
        Some(c) => {
            if !same(c, first) {
                return Some(
                    fail_with(
                        owned("[keyring] passwords do not match; aborted (nothing sealed)."),
                        2,
                    ),
                );
            }
        },
        None => {},
    }
    if first.is_empty() {
        Some(fail_with(owned("[keyring] empty password; aborted"), 2))
    } else {
        None
    }
}

/// What the daemon answered to the request to seal.
pub enum SealAnswer {
    Sealed,
    /// A token was sealed; the login keyring is still to be re-keyed to it.
    /// `minted` says whether the token is fresh.
    Token { minted: bool },
    Refused(String),
    Unexpected(String),
    Failed(String),
}

pub open spec fn armed_outcome() -> OutcomeV {
    OutcomeV {
        says: Seq::<SayV>::empty().push(
            SayV::Out(
                "[keyring] \u{2705} armed. After a face login, your wallet will unlock automatically."@,
            ),
        ).push(
            SayV::Out(
                "[keyring] NOTE: if you change your login password, re-run `irlume keyring arm`."@,
            ),
        ),
        exit: 0,
    }
}

/// The end of arming, or `None` where a token is still to be put in place.
pub open spec fn seal_outcome(a: SealAnswer) -> Option<OutcomeV> {
    match a {
        SealAnswer::Sealed => Some(armed_outcome()),
        SealAnswer::Token { .. } => None,
        SealAnswer::Refused(e) => Some(failed("[keyring] arm failed: "@ + e@, 1)),
        SealAnswer::Unexpected(d) => Some(failed("[keyring] unexpected response: "@ + d@, 1)),
        SealAnswer::Failed(e) => Some(failed("[keyring] arm failed: "@ + e@, 1)),
    }
}

fn unexpected(d: &str) -> (r: Outcome)
    ensures
        r@ == failed("[keyring] unexpected response: "@ + d@, 1),
{
    fail_with(cat2("[keyring] unexpected response: ", d), 1)
}

pub fn report_seal(a: &SealAnswer) -> (r: Option<Outcome>)
    ensures
        opt_outcome(r) == seal_outcome(*a),
{
    match a {
        SealAnswer::Sealed => {
            let mut console = Console::new();
            console.out(
                owned(
                    "[keyring] \u{2705} armed. After a face login, your wallet will unlock automatically.",
                ),
            );
            console.out(
                owned(
                    "[keyring] NOTE: if you change your login password, re-run `irlume keyring arm`.",
                ),
            );
            Some(Outcome { console, exit: 0 })
        },
        SealAnswer::Token { .. } => None,
        SealAnswer::Refused(e) => Some(arm_failed(e.as_str())),
        SealAnswer::Unexpected(d) => Some(unexpected(d.as_str())),
        SealAnswer::Failed(e) => Some(arm_failed(e.as_str())),
    }
}

/// Whether the keyring is keyed to the token: what the check of the token says,
/// whatever the re-key said, for on a second arm the keyring may hold the token
/// already. Where both fail, the re-key's reason is the one to report.
pub open spec fn keyed_result(
    rekey: Result<(), Seq<char>>,
    verify: Result<(), Seq<char>>,
) -> Result<(), Seq<char>> {
    match verify {
        Ok(_) => Ok(()),
        Err(v) => match rekey {
            Ok(_) => Err(v),
            Err(r) => Err(r),
        },
    }
}

pub open spec fn unit_view(r: Result<(), String>) -> Result<(), Seq<char>> {
    match r {
        Ok(_) => Ok(()),
        Err(e) => Err(e@),
    }
}

/// How putting a token in place ended.
pub fn keyed(rekey: Result<(), String>, verify: Result<(), String>) -> (r: Result<(), String>)
    ensures
        unit_view(r) == keyed_result(unit_view(rekey), unit_view(verify)),
{
    match verify {
        Ok(_) => Ok(()),
        Err(v) => {
            match rekey {
                Ok(_) => Err(v),
                Err(e) => Err(e),
            }
        },
    }
}

/// Whether the sealed token is erased again: only a fresh one that did not come
/// to key the keyring. A token that was there before may be what the keyring
/// opens with.
pub open spec fn token_rollback(keyed: Result<(), Seq<char>>, minted: bool) -> bool {
    keyed is Err && minted
}

pub fn needs_rollback(keyed: &Result<(), String>, minted: bool) -> (r: bool)
    ensures
        r == token_rollback(unit_view(*keyed), minted),
{
    keyed.is_err() && minted
}

/// A token that may be live is never erased on the way out of a failed arm.
pub proof fn a_live_token_is_never_rolled_back(
    rekey: Result<(), Seq<char>>,
    verify: Result<(), Seq<char>>,
    minted: bool,
)
    ensures
        token_rollback(keyed_result(rekey, verify), minted) ==> minted && verify is Err,
        verify is Ok ==> keyed_result(rekey, verify) is Ok,
{
}

/// How erasing an unused token ended: erased, or the answer that came instead.
pub enum Cleanup {
    Erased,
    Kept(String),
}

/// Why a token arm failed, and what became of the token.
pub open spec fn token_arm_error(user: Seq<char>, e: Seq<char>, cleanup: Option<Cleanup>) -> Seq<
    char,
> {
    match cleanup {
        Some(c) => "keyring re-key failed: "@ + e + ". "@ + (match c {
            Cleanup::Erased => "rolled back: the sealed token was erased; nothing changed"@,
            Cleanup::Kept(d) => "WARNING: could not erase the unused token envelope ("@ + d@
                + "); run `irlume keyring forget` to clean up. The keyring itself is unchanged"@,
        }) + ". Run the arm as '"@ + user + "' inside their own graphical session."@,
        None => "keyring re-key failed: "@ + e
            + ". The envelope was left in place (it holds the keyring's live token); retry as '"@
            + user + "' inside their own graphical session."@,
    }
}

/// The end of a token arm. `cleanup` is how erasing the token ended, where it was
/// to be erased.
pub fn finish_token_arm(user: &str, keyed: &Result<(), String>, cleanup: Option<Cleanup>) -> (r:
    Result<(), String>)
    ensures
        unit_view(r) == (match unit_view(*keyed) {
            Ok(_) => Ok::<(), Seq<char>>(()),
            Err(e) => Err(token_arm_error(user@, e, cleanup)),
        }),
{
    match keyed {
        Ok(_) => Ok(()),
        Err(e) => {
            match cleanup {
                Some(c) => {
                    let what = match c {
                        Cleanup::Erased => owned(
                            "rolled back: the sealed token was erased; nothing changed",
                        ),
                        Cleanup::Kept(d) => cat3(
                            "WARNING: could not erase the unused token envelope (",
                            d.as_str(),
                            "); run `irlume keyring forget` to clean up. The keyring itself is unchanged",
                        ),
                    };
                    let head = cat3("keyring re-key failed: ", e.as_str(), ". ");
                    Err(
                        cat5(
                            head.as_str(),
                            what.as_str(),
                            ". Run the arm as '",
                            user,
                            "' inside their own graphical session.",
                        ),
                    )
                },
                None => Err(
                    cat5(
                        "keyring re-key failed: ",
                        e.as_str(),
                        ". The envelope was left in place (it holds the keyring's live token); retry as '",
                        user,
                        "' inside their own graphical session.",
                    ),
                ),
            }
        },
    }
}

pub open spec fn token_armed_outcome() -> OutcomeV {
    OutcomeV {
        says: Seq::<SayV>::empty().push(
            SayV::Out(
                "[keyring] \u{2705} armed with a keyring token. Your login keyring is now keyed to a random secret that irlume releases on every login (face, fingerprint, or typed password)."@,
            ),
        ).push(
            SayV::Out(
                "[keyring] Your password alone no longer opens the keyring directly; `irlume keyring forget` re-keys it back."@,
            ),
        ),
        exit: 0,
    }
}

/// Reports the end of a token arm.
pub fn report_token_arm(result: &Result<(), String>) -> (r: Outcome)
    ensures
        r@ == (match unit_view(*result) {
            Ok(_) => token_armed_outcome(),
            Err(e) => failed(tagged(e), 1),
        }),
{
    match result {
        Ok(_) => {
            let mut console = Console::new();
            console.out(
                owned(
                    "[keyring] \u{2705} armed with a keyring token. Your login keyring is now keyed to a random secret that irlume releases on every login (face, fingerprint, or typed password).",
                ),
            );
            console.out(
                owned(
                    "[keyring] Your password alone no longer opens the keyring directly; `irlume keyring forget` re-keys it back.",
                ),
            );
            Outcome { console, exit: 0 }
        },
        Err(e) => keyring_failed(e.as_str()),
    }
}

// ---- status ----

/// What the daemon answered about the sealed secret.
pub enum InfoAnswer {
    /// Armed or not, and with what; an older daemon does not say.
    Info { armed: bool, kind: Option<SecretKind> },
    /// Only whether something is armed.
    HasPassword(bool),
    Refused(String),
    Unexpected(String),
    Failed(String),
}

/// What is printed of the secret that is armed.
pub open spec fn armed_lines(user: Seq<char>, kind: Option<SecretKind>) -> Seq<SayV> {
    let head = "[keyring] '"@ + user;
    match kind {
        Some(SecretKind::LoginPassword) => Seq::<SayV>::empty().push(
            SayV::Out(
                head
                    + "': ARMED \u{2705} (login password). A face or fingerprint login releases it so your wallet unlocks."@,
            ),
        ),
        Some(SecretKind::KdeWalletKey) => Seq::<SayV>::empty().push(
            SayV::Out(
                head
                    + "': ARMED \u{2705} (KDE wallet key). The sealed secret is the key ksecretd opens the wallet with, not your password; a typed password still opens it too."@,
            ),
        ),
        Some(SecretKind::GnomeKeyringToken) => Seq::<SayV>::empty().push(
            SayV::Out(
                head
                    + "': ARMED \u{2705} (GNOME keyring token). Your login keyring is keyed to a random secret irlume releases on every login."@,
            ),
        ).push(
            SayV::Out(
                "[keyring] Your password alone no longer opens that keyring; `irlume keyring forget` re-keys it back."@,
            ),
        ),
        None => Seq::<SayV>::empty().push(
            SayV::Out(head + "': ARMED \u{2705} (this irlumed does not report what kind)"@),
        ),
    }
}

pub open spec fn status_report(user: Seq<char>, a: InfoAnswer) -> OutcomeV {
    match a {
        InfoAnswer::Info { armed: true, kind } => OutcomeV { says: armed_lines(user, kind), exit: 0 },
        InfoAnswer::Info { armed: false, .. } => said(
            "[keyring] '"@ + user + "': keyring unlock is not armed"@,
        ),
        InfoAnswer::HasPassword(true) => said(
            "[keyring] '"@ + user + "': keyring unlock is ARMED \u{2705}"@,
        ),
        InfoAnswer::HasPassword(false) => said(
            "[keyring] '"@ + user + "': keyring unlock is not armed"@,
        ),
        InfoAnswer::Refused(e) => failed("[keyring] status failed: "@ + e@, 1),
        InfoAnswer::Unexpected(d) => failed("[keyring] unexpected response: "@ + d@, 1),
        InfoAnswer::Failed(e) => failed("[keyring] status failed: "@ + e@, 1),
    }
}

fn armed_console(user: &str, kind: Option<SecretKind>) -> (c: Console)
    ensures
        c@ == armed_lines(user@, kind),
{
    let mut console = Console::new();
    match kind {
        Some(SecretKind::LoginPassword) => {
            console.out(
                cat3(
                    "[keyring] '",
                    user,
                    "': ARMED \u{2705} (login password). A face or fingerprint login releases it so your wallet unlocks.",
                ),
            );
        },
        Some(SecretKind::KdeWalletKey) => {
            console.out(
                cat3(
                    "[keyring] '",
                    user,
                    "': ARMED \u{2705} (KDE wallet key). The sealed secret is the key ksecretd opens the wallet with, not your password; a typed password still opens it too.",
                ),
            );
        },
        Some(SecretKind::GnomeKeyringToken) => {
            console.out(
                cat3(
                    "[keyring] '",
                    user,
                    "': ARMED \u{2705} (GNOME keyring token). Your login keyring is keyed to a random secret irlume releases on every login.",
                ),
            );
            console.out(
                owned(
                    "[keyring] Your password alone no longer opens that keyring; `irlume keyring forget` re-keys it back.",
                ),
            );
        },
        None => {
            console.out(
                cat3(
                    "[keyring] '",
                    user,
                    "': ARMED \u{2705} (this irlumed does not report what kind)",
                ),
            );
        },
    }
    console
}

/// Reports what is armed.
pub fn report_status(user: &str, a: &InfoAnswer) -> (r: Outcome)
    ensures
        r@ == status_report(user@, *a),
{
    match a {
        InfoAnswer::Info { armed, kind } => {
            if *armed {
                Outcome { console: armed_console(user, *kind), exit: 0 }
            } else {
                say_out(cat3("[keyring] '", user, "': keyring unlock is not armed"))
            }
        },
        InfoAnswer::HasPassword(armed) => {
            if *armed {
                say_out(cat3("[keyring] '", user, "': keyring unlock is ARMED \u{2705}"))
            } else {
                say_out(cat3("[keyring] '", user, "': keyring unlock is not armed"))
            }
        },
        InfoAnswer::Refused(e) => fail_with(cat2("[keyring] status failed: ", e.as_str()), 1),
        InfoAnswer::Unexpected(d) => unexpected(d.as_str()),
        InfoAnswer::Failed(e) => fail_with(cat2("[keyring] status failed: ", e.as_str()), 1),
    }
}

// ---- forget ----

/// What an inspection found before anything is erased.
#[derive(Clone, Copy, Debug, PartialEq, Eq, Structural)]
pub enum Found {
    NotArmed,
    /// A keyring token: the keyring opens with nothing else.
    Token,
    /// A secret that also opens elsewhere.
    OtherSecret,
    /// Armed with something nobody could identify, or nothing known at all.
    Unknown,
}

pub open spec fn found_of(a: InfoAnswer) -> Found {
    match a {
        InfoAnswer::Info { armed: false, .. } => Found::NotArmed,
        InfoAnswer::Info { armed: true, kind: Some(SecretKind::GnomeKeyringToken) } => Found::Token,
        InfoAnswer::Info { armed: true, kind: Some(_) } => Found::OtherSecret,
        InfoAnswer::Info { armed: true, kind: None } => Found::Unknown,
        _ => Found::Unknown,
    }
}

/// What a failed inspection says.
pub open spec fn inspection_says(a: InfoAnswer) -> Seq<SayV> {
    match a {
        InfoAnswer::Info { .. } => Seq::empty(),
        InfoAnswer::Refused(e) => Seq::<SayV>::empty().push(
            SayV::Warn("[keyring] forget failed: "@ + e@ + " (sealed secret inspection)"@),
        ),
        InfoAnswer::Failed(e) => Seq::<SayV>::empty().push(
            SayV::Warn("[keyring] forget failed: "@ + e@ + " (sealed secret inspection)"@),
        ),
        _ => Seq::<SayV>::empty().push(
            SayV::Warn("[keyring] unexpected response while inspecting the sealed secret"@),
        ),
    }
}

pub open spec fn unknown_says(user: Seq<char>) -> Seq<SayV> {
    Seq::<SayV>::empty().push(
        SayV::Warn(
            "[keyring] cannot tell what '"@ + user
                + "' has armed, so refusing to erase it: if it is a GNOME keyring token, deleting it leaves the login keyring encrypted under a secret nothing can reproduce."@,
        ),
    ).push(
        SayV::Warn(
            "[keyring] Update irlumed (an older one does not report the kind), or pass --force if you are certain the keyring no longer matters."@,
        ),
    )
}

/// What the run waits for.
#[derive(Clone, Copy, Debug, PartialEq, Eq, Structural)]
pub enum ForgetStep {
    /// What is armed.
    Inspect,
    /// The login password.
    Password,
    /// The token, against the password.
    Release,
    /// The keyring re-keyed from the token to the password, and the password
    /// checked.
    Rekey,
    /// The sealed secret erased.
    Erase,
    /// Over.
    End,
}

/// A `keyring forget` in progress.
pub struct Forget {
    pub user: String,
    pub force: bool,
    pub found: Option<Found>,
    pub rekeyed: bool,
    pub step: ForgetStep,
}

/// Where an inspection leads.
pub open spec fn after_inspection(found: Found, force: bool) -> ForgetStep {
    match found {
        Found::Unknown => if force {
            ForgetStep::Erase
        } else {
            ForgetStep::End
        },
        Found::Token => if force {
            ForgetStep::Erase
        } else {
            ForgetStep::Password
        },
        _ => ForgetStep::Erase,
    }
}

/// What an inspection says before the next step.
pub open spec fn after_inspection_says(user: Seq<char>, a: InfoAnswer, force: bool) -> Seq<SayV> {
    inspection_says(a) + (match found_of(a) {
        Found::Unknown => if force {
            Seq::empty()
        } else {
            unknown_says(user)
        },
        Found::Token => if force {
            Seq::<SayV>::empty().push(
                SayV::Warn(
                    "[keyring] WARNING: --force on a token arm deletes the only copy of the keyring token. If the login keyring still exists and is keyed to it, its contents become unreachable."@,
                ),
            )
        } else {
            Seq::<SayV>::empty().push(
                SayV::Out(
                    "[keyring] '"@ + user
                        + "' is armed with a keyring token; re-keying the login keyring back to your password first."@,
                ),
            )
        },
        _ => Seq::empty(),
    })
}

/// How the daemon answered the request to release the token.
pub enum ReleaseAnswer {
    Released,
    Refused(String),
    Unexpected(String),
}

/// How the daemon answered the request to erase.
pub enum EraseAnswer {
    Forgotten,
    Refused(String),
    Unexpected(String),
    Failed(String),
}

pub open spec fn erase_report(user: Seq<char>, a: EraseAnswer) -> OutcomeV {
    match a {
        EraseAnswer::Forgotten => said(
            "[keyring] '"@ + user + "': sealed secret erased; keyring unlock disarmed."@,
        ),
        EraseAnswer::Refused(e) => failed("[keyring] forget failed: "@ + e@, 1),
        EraseAnswer::Unexpected(d) => failed("[keyring] unexpected response: "@ + d@, 1),
        EraseAnswer::Failed(e) => failed("[keyring] forget failed: "@ + e@, 1),
    }
}

impl Forget {
    /// The erasure is reached only where it is safe or was forced: a token has
    /// been re-keyed away, and what nobody could identify needs the force.
    pub open spec fn wf(self) -> bool {
        &&& self.step == ForgetStep::Erase ==> (match self.found {
            Some(Found::Token) => self.force || self.rekeyed,
            Some(Found::Unknown) => self.force,
            Some(_) => true,
            None => false,
        })
        &&& self.step == ForgetStep::Password || self.step == ForgetStep::Release || self.step
            == ForgetStep::Rekey ==> self.found == Some(Found::Token) && !self.force
    }

    pub open spec fn same_request(self, other: Forget) -> bool {
        self.user == other.user && self.force == other.force
    }

    pub fn begin(user: String, force: bool) -> (r: Forget)
        ensures
            r.wf(),
            r.user == user,
            r.force == force,
            r.step == ForgetStep::Inspect,
            !r.rekeyed,
    {
        Forget { user, force, found: None, rekeyed: false, step: ForgetStep::Inspect }
    }

    /// What the inspection brought: what to say before the next step, or how the
    /// run ends, which is with 1.
    pub fn inspected(&mut self, a: &InfoAnswer) -> (r: Result<Console, Outcome>)
        requires
            old(self).wf(),
            old(self).step == ForgetStep::Inspect,
        ensures
            final(self).wf(),
            final(self).same_request(*old(self)),
            final(self).rekeyed == old(self).rekeyed,
            final(self).found == Some(found_of(*a)),
            final(self).step == after_inspection(found_of(*a), old(self).force),
            match r {
                Ok(c) => final(self).step != ForgetStep::End && c@ == after_inspection_says(
                    old(self).user@,
                    *a,
                    old(self).force,
                ),
                Err(o) => final(self).step == ForgetStep::End && o@ == (OutcomeV {
                    says: after_inspection_says(old(self).user@, *a, old(self).force),
                    exit: 1,
                }),
            },
    {
        let mut console = Console::new();
        let found = match a {
            InfoAnswer::Info { armed, kind } => {
                if !*armed {
                    Found::NotArmed
                } else {
                    match kind {
                        Some(SecretKind::GnomeKeyringToken) => Found::Token,
                        Some(_) => Found::OtherSecret,
                        None => Found::Unknown,
                    }
                }
            },
            InfoAnswer::Refused(e) => {
                console.warn(
                    cat3("[keyring] forget failed: ", e.as_str(), " (sealed secret inspection)"),
                );
                Found::Unknown
            },
            InfoAnswer::Failed(e) => {
                console.warn(
                    cat3("[keyring] forget failed: ", e.as_str(), " (sealed secret inspection)"),
                );
                Found::Unknown
            },
            InfoAnswer::HasPassword(_) => {
                console.warn(
                    owned("[keyring] unexpected response while inspecting the sealed secret"),
                );
                Found::Unknown
            },
            InfoAnswer::Unexpected(_) => {
                console.warn(
                    owned("[keyring] unexpected response while inspecting the sealed secret"),
                );
                Found::Unknown
            },
        };
        proof {
            assert(found == found_of(*a));
            assert(console@ =~= inspection_says(*a));
        }
        let ghost first = console@;
        self.found = Some(found);
        match found {
            Found::Unknown => {
                if self.force {
                    self.step = ForgetStep::Erase;
                } else {
                    console.warn(
                        cat3(
                            "[keyring] cannot tell what '",
                            self.user.as_str(),
                            "' has armed, so refusing to erase it: if it is a GNOME keyring token, deleting it leaves the login keyring encrypted under a secret nothing can reproduce.",
                        ),
                    );
                    console.warn(
                        owned(
                            "[keyring] Update irlumed (an older one does not report the kind), or pass --force if you are certain the keyring no longer matters.",
                        ),
                    );
                    self.step = ForgetStep::End;
                }
            },
            Found::Token => {
                if self.force {
                    console.warn(
                        owned(
                            "[keyring] WARNING: --force on a token arm deletes the only copy of the keyring token. If the login keyring still exists and is keyed to it, its contents become unreachable.",
                        ),
                    );
                    self.step = ForgetStep::Erase;
                } else {
                    console.out(
                        cat3(
                            "[keyring] '",
                            self.user.as_str(),
                            "' is armed with a keyring token; re-keying the login keyring back to your password first.",
                        ),
                    );
                    self.step = ForgetStep::Password;
                }
            },
            Found::NotArmed => {
                self.step = ForgetStep::Erase;
            },
            Found::OtherSecret => {
                self.step = ForgetStep::Erase;
            },
        }
        proof {
            assert(console@ =~= after_inspection_says(old(self).user@, *a, old(self).force));
        }
        match self.step {
            ForgetStep::End => Err(Outcome { console, exit: 1 }),
            _ => Ok(console),
        }
    }

    /// The password as it was read. An empty one, or none, ends the run with
    /// nothing changed.
    pub fn password_read(&mut self, password: Result<&str, String>) -> (r: Option<Outcome>)
        requires
            old(self).wf(),
            old(self).step == ForgetStep::Password,
        ensures
            final(self).wf(),
            final(self).same_request(*old(self)),
            final(self).found == old(self).found,
            final(self).rekeyed == old(self).rekeyed,
            opt_exit(opt_outcome(r)) == read_exit(
                match password {
                    Ok(p) => Some(p@),
                    Err(_) => None,
                },
            ),
            opt_outcome(r) == (match password {
                Ok(p) => if p@.len() > 0 {
                    None
                } else {
                    Some(failed("[keyring] empty password; aborted (nothing changed)."@, 2))
                },
                Err(e) => Some(failed(tagged(e@), 1)),
            }),
            final(self).step == (if r is Some {
                ForgetStep::End
            } else {
                ForgetStep::Release
            }),
    {
        match password {
            Ok(p) => {
                if p.is_empty() {
                    self.step = ForgetStep::End;
                    Some(
                        fail_with(
                            owned("[keyring] empty password; aborted (nothing changed)."),
                            2,
                        ),
                    )
                } else {
                    self.step = ForgetStep::Release;
                    None
                }
            },
            Err(e) => {
                self.step = ForgetStep::End;
                Some(keyring_failed(e.as_str()))
            },
        }
    }

    /// Whether the daemon released the token.
    pub fn released(&mut self, a: &ReleaseAnswer) -> (r: Option<Outcome>)
        requires
            old(self).wf(),
            old(self).step == ForgetStep::Release,
        ensures
            final(self).wf(),
            final(self).same_request(*old(self)),
            final(self).found == old(self).found,
            final(self).rekeyed == old(self).rekeyed,
            opt_exit(opt_outcome(r)) == release_exit(*a),
            opt_outcome(r) == (match *a {
                ReleaseAnswer::Released => None,
                ReleaseAnswer::Refused(e) => Some(failed(tagged(e@), 1)),
                ReleaseAnswer::Unexpected(d) => Some(
                    failed("[keyring] unexpected response: "@ + d@, 1),
                ),
            }),
            final(self).step == (if r is Some {
                ForgetStep::End
            } else {
                ForgetStep::Rekey
            }),
    {
        match a {
            ReleaseAnswer::Released => {
                self.step = ForgetStep::Rekey;
                None
            },
            ReleaseAnswer::Refused(e) => {
                self.step = ForgetStep::End;
                Some(keyring_failed(e.as_str()))
            },
            ReleaseAnswer::Unexpected(d) => {
                self.step = ForgetStep::End;
                Some(unexpected(d.as_str()))
            },
        }
    }

    /// Whether the keyring was re-keyed back and opens with the password. If
    /// not, the token stays where it is.
    pub fn rekeyed_back(&mut self, result: &Result<(), String>) -> (r: Outcome)
        requires
            old(self).wf(),
            old(self).step == ForgetStep::Rekey,
        ensures
            final(self).wf(),
            final(self).same_request(*old(self)),
            final(self).found == old(self).found,
            final(self).rekeyed == (old(self).rekeyed || result is Ok),
            (final(self).step, r@.exit) == after_rekey(result is Ok),
            r@ == (match *result {
                Ok(_) => said("[keyring] login keyring re-keyed back to your password."@),
                Err(e) => failed(
                    "[keyring] could not re-key the keyring back ("@ + e@
                        + "); the sealed token is UNTOUCHED so nothing is lost. Fix the session (run as '"@
                        + old(self).user@
                        + "' with gnome-keyring running) and retry, or `--force` to delete the envelope anyway."@,
                    1,
                ),
            }),
            final(self).step == (if result is Ok {
                ForgetStep::Erase
            } else {
                ForgetStep::End
            }),
    {
        match result {
            Ok(_) => {
                self.rekeyed = true;
                self.step = ForgetStep::Erase;
                say_out(owned("[keyring] login keyring re-keyed back to your password."))
            },
            Err(e) => {
                self.step = ForgetStep::End;
                fail_with(
                    cat5(
                        "[keyring] could not re-key the keyring back (",
                        e.as_str(),
                        "); the sealed token is UNTOUCHED so nothing is lost. Fix the session (run as '",
                        self.user.as_str(),
                        "' with gnome-keyring running) and retry, or `--force` to delete the envelope anyway.",
                    ),
                    1,
                )
            },
        }
    }

    /// How the erasure ended.
    pub fn erased(&mut self, a: &EraseAnswer) -> (r: Outcome)
        requires
            old(self).wf(),
            old(self).step == ForgetStep::Erase,
        ensures
            final(self).wf(),
            final(self).same_request(*old(self)),
            final(self).found == old(self).found,
            final(self).rekeyed == old(self).rekeyed,
            final(self).step == ForgetStep::End,
            r@ == erase_report(old(self).user@, *a),
    {
        self.step = ForgetStep::End;
        match a {
            EraseAnswer::Forgotten => say_out(
                cat3(
                    "[keyring] '",
                    self.user.as_str(),
                    "': sealed secret erased; keyring unlock disarmed.",
                ),
            ),
            EraseAnswer::Refused(e) => fail_with(
                cat2("[keyring] forget failed: ", e.as_str()),
                1,
            ),
            EraseAnswer::Unexpected(d) => unexpected(d.as_str()),
            EraseAnswer::Failed(e) => fail_with(cat2("[keyring] forget failed: ", e.as_str()), 1),
        }
    }
}

/// Without the force, a run ends at the inspection exactly where nobody could tell
/// what is armed, and says so; with it, no inspection ends a run.
pub proof fn only_an_unknown_secret_ends_a_run_at_the_inspection(
    user: Seq<char>,
    a: InfoAnswer,
    force: bool,
)
    ensures
        after_inspection(found_of(a), force) == ForgetStep::End <==> found_of(a) == Found::Unknown
            && !force,
        after_inspection(found_of(a), force) == ForgetStep::End ==> after_inspection_says(
            user,
            a,
            force,
        ) == inspection_says(a) + unknown_says(user),
{
}

/// Without the force, a token is erased only after the keyring was re-keyed back
/// and opens with the password, and what nobody could identify is not erased.
pub proof fn forgetting_never_strands_a_keyring(f: Forget)
    requires
        f.wf(),
        f.step == ForgetStep::Erase,
        !f.force,
    ensures
        f.found == Some(Found::Token) ==> f.rekeyed,
        f.found != Some(Found::Unknown),
        f.found is Some,
{
}

/// Each keyring command runs under its own word about the account it names; a
/// secret is erased by force only where the force is written, and any other word is
/// a usage error.
pub proof fn each_keyring_command_has_its_word(
    sub: Option<Seq<char>>,
    args: Seq<Seq<char>>,
    sudo_user: Option<Seq<char>>,
    user: Option<Seq<char>>,
    root: bool,
)
    ensures
        ({
            let r = keyring_command(sub, args, sudo_user, user, root);
            let who = subject(args, sudo_user, user, root);
            &&& r is Ok <==> who is Some && (sub == Some("arm"@) || sub == Some("status"@) || sub
                == Some("forget"@))
            &&& r matches Ok((c, account)) ==> account == who->0 && (c == KeyringCommand::Arm <==> sub
                == Some("arm"@)) && (c == KeyringCommand::Status <==> sub == Some("status"@)) && (
            c == KeyringCommand::Forget { force: true } <==> sub == Some("forget"@)
                && args.contains("--force"@)) && (c == KeyringCommand::Forget { force: false }
                <==> sub == Some("forget"@) && !args.contains("--force"@))
            &&& r matches Err(o) ==> o.exit == 2
        }),
{
    reveal_strlit("arm");
    reveal_strlit("status");
    reveal_strlit("forget");
    assert("arm"@.len() == 3);
    assert("status"@.len() == 6 && "status"@[0] == 's');
    assert("forget"@.len() == 6 && "forget"@[0] == 'f');
}

/// A password is sealed exactly where it is not empty and its confirmation, where
/// there is one, is the same.
pub proof fn only_a_confirmed_password_is_sealed(first: Seq<char>, confirm: Option<Seq<char>>)
    ensures
        password_refusal(first, confirm) is None <==> first.len() > 0 && (confirm is None
            || confirm == Some(first)),
        password_refusal(first, confirm) matches Some(o) ==> o.exit == 2 && o.says.len() == 1,
{
}

/// Arming succeeds exactly where the secret was sealed; a token leaves the keyring
/// still to be re-keyed, and every other answer is a failure.
pub proof fn only_a_sealed_secret_is_armed(a: SealAnswer)
    ensures
        seal_outcome(a) is None <==> a is Token,
        seal_outcome(a) matches Some(o) ==> (o.exit == 0 <==> a is Sealed) && (o.exit == 1 <==> !(
        a is Sealed)),
{
}

/// The keyring is keyed to the token exactly where the token was found to open it,
/// whatever the re-key said; where it does not, the re-key's own failure is the one
/// that is told.
pub proof fn only_a_checked_token_counts(
    rekey: Result<(), Seq<char>>,
    verify: Result<(), Seq<char>>,
)
    ensures
        keyed_result(rekey, verify) is Ok <==> verify is Ok,
        verify is Err && rekey is Err ==> keyed_result(rekey, verify)->Err_0 == rekey->Err_0,
        verify is Err && rekey is Ok ==> keyed_result(rekey, verify)->Err_0 == verify->Err_0,
        token_rollback(keyed_result(rekey, verify), true) <==> verify is Err,
        !token_rollback(keyed_result(rekey, verify), false),
{
}

/// What the daemon says is armed is shown as armed, and what it says is not is not;
/// an answer that says neither is a failure.
pub proof fn armed_is_shown_only_where_it_is(user: Seq<char>, kind: Option<SecretKind>)
    ensures
        status_report(user, InfoAnswer::Info { armed: true, kind }).exit == 0,
        status_report(user, InfoAnswer::Info { armed: false, kind }) == said(
            "[keyring] '"@ + user + "': keyring unlock is not armed"@,
        ),
        status_report(user, InfoAnswer::HasPassword(false)) == said(
            "[keyring] '"@ + user + "': keyring unlock is not armed"@,
        ),
        status_report(user, InfoAnswer::HasPassword(true)).exit == 0,
        status_report(user, InfoAnswer::Info { armed: true, kind }).says[0] != SayV::Out(
            "[keyring] '"@ + user + "': keyring unlock is not armed"@,
        ),
        status_report(user, InfoAnswer::HasPassword(true)).says[0] != SayV::Out(
            "[keyring] '"@ + user + "': keyring unlock is not armed"@,
        ),
        forall|a: InfoAnswer|
            #![trigger status_report(user, a)]
            !(a is Info) && !(a is HasPassword) ==> status_report(user, a).exit == 1,
{
    let head = "[keyring] '"@ + user;
    let no = "[keyring] '"@ + user + "': keyring unlock is not armed"@;
    reveal_strlit("': keyring unlock is not armed");
    reveal_strlit("': keyring unlock is ARMED \u{2705}");
    reveal_strlit(
        "': ARMED \u{2705} (login password). A face or fingerprint login releases it so your wallet unlocks.",
    );
    reveal_strlit(
        "': ARMED \u{2705} (KDE wallet key). The sealed secret is the key ksecretd opens the wallet with, not your password; a typed password still opens it too.",
    );
    reveal_strlit(
        "': ARMED \u{2705} (GNOME keyring token). Your login keyring is keyed to a random secret irlume releases on every login.",
    );
    reveal_strlit("': ARMED \u{2705} (this irlumed does not report what kind)");
    let n = head.len() as int;
    assert(no[n + 3] == 'k');
    assert(no[n + 21] == 'n');
    let yes = "[keyring] '"@ + user + "': keyring unlock is ARMED \u{2705}"@;
    assert(yes[n + 21] == 'A');
    let said_armed = armed_lines(user, kind)[0];
    assert(said_armed is Out && said_armed->Out_0[n + 3] == 'A');
}

/// What was found is what the daemon said: nothing is armed, a token is, another
/// secret is, or nobody could tell.
pub proof fn a_secret_is_found_as_the_daemon_names_it(a: InfoAnswer)
    ensures
        found_of(a) == Found::NotArmed <==> (a matches InfoAnswer::Info { armed, .. } && !armed),
        found_of(a) == Found::Token <==> (a matches InfoAnswer::Info { armed, kind } && armed && kind
            == Some(SecretKind::GnomeKeyringToken)),
        found_of(a) == Found::OtherSecret <==> (a matches InfoAnswer::Info { armed, kind } && armed
            && (kind == Some(SecretKind::LoginPassword) || kind == Some(SecretKind::KdeWalletKey))),
{
}

/// A token is erased at once only by force; without it the password is asked for
/// first. What is not armed, or opens elsewhere too, is erased at once.
pub proof fn a_token_needs_the_password_or_the_force(found: Found, force: bool)
    ensures
        after_inspection(found, force) == ForgetStep::Password <==> found == Found::Token && !force,
        after_inspection(found, force) == ForgetStep::Erase <==> force || found == Found::NotArmed
            || found == Found::OtherSecret,
{
}

/// A secret is forgotten exactly where the daemon says that it erased it.
pub proof fn only_an_erased_secret_is_forgotten(user: Seq<char>, a: EraseAnswer)
    ensures
        erase_report(user, a).exit == 0 <==> a is Forgotten,
        erase_report(user, a).exit == 1 <==> !(a is Forgotten),
        erase_report(user, a).says.len() == 1,
        erase_report(user, a).says[0] is Out <==> a is Forgotten,
{
}

/// The exit code of an outcome, where there is one.
pub open spec fn opt_exit(o: Option<OutcomeV>) -> Option<u8> {
    match o {
        Some(o) => Some(o.exit),
        None => None,
    }
}

/// How reading the password ends a run, if it does; `None` for a password that could
/// not be read.
pub open spec fn read_exit(password: Option<Seq<char>>) -> Option<u8> {
    match password {
        Some(p) => if p.len() > 0 {
            None
        } else {
            Some(2)
        },
        None => Some(1),
    }
}

/// How the daemon's answer on the token ends a run, if it does.
pub open spec fn release_exit(a: ReleaseAnswer) -> Option<u8> {
    match a {
        ReleaseAnswer::Released => None,
        _ => Some(1),
    }
}

/// Where a run goes on after the keyring was to be re-keyed, and the exit code.
pub open spec fn after_rekey(done: bool) -> (ForgetStep, u8) {
    if done {
        (ForgetStep::Erase, 0)
    } else {
        (ForgetStep::End, 1)
    }
}

/// A token is forgotten only past its password, its release and the keyring's own
/// password: each that fails ends the run, and only a keyring that was re-keyed
/// leads to the erasure.
pub proof fn each_failure_ends_a_disarming(
    password: Option<Seq<char>>,
    a: ReleaseAnswer,
    done: bool,
)
    ensures
        read_exit(password) is None <==> password is Some && password->0.len() > 0,
        read_exit(password) == Some(2u8) <==> password is Some && password->0.len() == 0,
        read_exit(password) == Some(1u8) <==> password is None,
        release_exit(a) is None <==> a is Released,
        release_exit(a) matches Some(e) ==> e == 1,
        after_rekey(done).0 == ForgetStep::Erase <==> done,
        after_rekey(done).0 == ForgetStep::End <==> !done,
        after_rekey(done).1 == 0 <==> done,
{
}

/// A token that was armed is told of as a success, on two lines.
pub proof fn an_armed_token_is_a_success()
    ensures
        token_armed_outcome().exit == 0,
        token_armed_outcome().says.len() == 2,
        token_armed_outcome().says[0] is Out,
        token_armed_outcome().says[1] is Out,
{
}

/// A run stays about the account, and the force, that it began with.
pub proof fn a_disarming_stays_about_its_account(a: Forget, b: Forget)
    requires
        a.same_request(b),
    ensures
        a.user == b.user,
        a.force == b.force,
{
}

/// An armed secret is told of as a success; a token that is forced away is warned of,
/// and one that nobody could name is refused on stderr.
pub proof fn a_forced_token_is_warned_of(user: Seq<char>, a: InfoAnswer)
    ensures
        armed_outcome().exit == 0,
        found_of(a) == Found::Token ==> after_inspection_says(user, a, true).len() == 1
            && after_inspection_says(user, a, true)[0] is Warn,
        found_of(a) == Found::Token ==> after_inspection_says(user, a, false).len() == 1
            && after_inspection_says(user, a, false)[0] is Out,
        found_of(a) == Found::NotArmed || found_of(a) == Found::OtherSecret
            ==> after_inspection_says(user, a, true).len() == 0 && after_inspection_says(
            user,
            a,
            false,
        ).len() == 0,
        found_of(a) == Found::Unknown ==> after_inspection_says(user, a, false).len()
            == after_inspection_says(user, a, true).len() + 2,
{
}

/// A keyring that could not be re-keyed ends the run as a failure.
pub proof fn a_keyring_left_on_its_token_is_a_failure(done: bool)
    ensures
        after_rekey(done).1 == 1 <==> !done,
{
}

} // verus!
