//! The versioned machine contract: the document every command answers with, the
//! published error codes, and the front door that refuses a bad contract or a
//! bad invocation before anything else happens.

use vstd::prelude::*;

use crate::args::slices;
use crate::contract::{negotiate, negotiated, stripped, without_contract, Contract, CONTRACT_DEFAULT, CONTRACT_MAX, CONTRACT_MIN};
use crate::flags::{exactly, support_report_since, valid_support_report_args};
use crate::json::{merged, no_fields, text_or_null, Json, JsonArr, JsonObj, JsonV};
use crate::text::{opt_slice, opt_text, same, texts};

verus! {

/// The version of this engine.
pub const ENGINE_VERSION: &'static str = "0.1.0";

pub const CAMERA_BUSY_MESSAGE: &'static str = "Camera busy. Close any app using the camera, then retry.";

pub const NOT_AUTHORIZED_MESSAGE: &'static str = "Not authorized. Run as the account owner or as root.";

pub const OPERATION_FAILED_MESSAGE: &'static str = "Operation failed. Run irlume doctor for a health check.";

pub const DEADLINE_EXPIRED_MESSAGE: &'static str = "Authentication window expired. Use your password; do not retry face.";

pub const USAGE_ERROR_MESSAGE: &'static str = "Usage error. Run the command with --help.";

pub const PROTOCOL_ERROR_MESSAGE: &'static str = "The daemon sent an unexpected response; it may be older than this CLI. Run irlume doctor.";

pub const DAEMON_UNAVAILABLE_MESSAGE: &'static str = "irlumed is not running; start it with: sudo systemctl enable --now irlumed.";

/// The action line of each error code that has one.
pub open spec fn action_line(code: Seq<char>) -> Option<Seq<char>> {
    if code == "camera-busy"@ {
        Some(CAMERA_BUSY_MESSAGE@)
    } else if code == "not-authorized"@ {
        Some(NOT_AUTHORIZED_MESSAGE@)
    } else if code == "operation-failed"@ {
        Some(OPERATION_FAILED_MESSAGE@)
    } else if code == "deadline-expired"@ {
        Some(DEADLINE_EXPIRED_MESSAGE@)
    } else if code == "usage-error"@ {
        Some(USAGE_ERROR_MESSAGE@)
    } else if code == "protocol-error"@ {
        Some(PROTOCOL_ERROR_MESSAGE@)
    } else if code == "daemon-unavailable"@ {
        Some(DAEMON_UNAVAILABLE_MESSAGE@)
    } else {
        None
    }
}

/// What to tell a user about an error code. A code this build does not know
/// carries no line rather than a wrong one.
pub fn error_message(code: &str) -> (r: Option<&'static str>)
    ensures
        opt_slice(r) == action_line(code@),
{
    if same(code, "camera-busy") {
        Some(CAMERA_BUSY_MESSAGE)
    } else if same(code, "not-authorized") {
        Some(NOT_AUTHORIZED_MESSAGE)
    } else if same(code, "operation-failed") {
        Some(OPERATION_FAILED_MESSAGE)
    } else if same(code, "deadline-expired") {
        Some(DEADLINE_EXPIRED_MESSAGE)
    } else if same(code, "usage-error") {
        Some(USAGE_ERROR_MESSAGE)
    } else if same(code, "protocol-error") {
        Some(PROTOCOL_ERROR_MESSAGE)
    } else if same(code, "daemon-unavailable") {
        Some(DAEMON_UNAVAILABLE_MESSAGE)
    } else {
        None
    }
}

/// How the daemon classifies a failed operation.
#[derive(Clone, Copy, Debug, PartialEq, Eq, Structural)]
pub enum OperationErrorCode {
    CameraBusy,
    NotAuthorized,
    DeadlineExpired,
    OperationFailed,
    Unknown,
}

/// The published code of a daemon failure.
pub open spec fn published_code(code: OperationErrorCode) -> Seq<char> {
    match code {
        OperationErrorCode::CameraBusy => "camera-busy"@,
        OperationErrorCode::NotAuthorized => "not-authorized"@,
        OperationErrorCode::DeadlineExpired => "deadline-expired"@,
        OperationErrorCode::OperationFailed => "operation-failed"@,
        OperationErrorCode::Unknown => "operation-failed"@,
    }
}

/// Maps a daemon failure to a published code. A code from a newer daemon
/// degrades to the generic failure.
pub fn error_code(code: OperationErrorCode) -> (r: &'static str)
    ensures
        r@ == published_code(code),
{
    match code {
        OperationErrorCode::CameraBusy => "camera-busy",
        OperationErrorCode::NotAuthorized => "not-authorized",
        OperationErrorCode::DeadlineExpired => "deadline-expired",
        OperationErrorCode::OperationFailed => "operation-failed",
        OperationErrorCode::Unknown => "operation-failed",
    }
}

/// Every failure the daemon can report carries an action line.
pub proof fn every_daemon_failure_has_an_action_line(code: OperationErrorCode)
    ensures
        action_line(published_code(code)) is Some,
{
}

/// A published failure.
pub struct MachineError {
    pub code: &'static str,
    pub retryable: bool,
    pub message: Option<&'static str>,
}

pub struct ErrorV {
    pub code: Seq<char>,
    pub retryable: bool,
    pub message: Option<Seq<char>>,
}

impl View for MachineError {
    type V = ErrorV;

    open spec fn view(&self) -> ErrorV {
        ErrorV { code: self.code@, retryable: self.retryable, message: opt_slice(self.message) }
    }
}

/// The failure with that code, and its action line if it has one.
pub open spec fn error_of(code: Seq<char>, retryable: bool) -> ErrorV {
    ErrorV { code, retryable, message: action_line(code) }
}

pub fn machine_error(code: &'static str, retryable: bool) -> (r: MachineError)
    ensures
        r@ == error_of(code@, retryable),
{
    MachineError { code, retryable, message: error_message(code) }
}

/// One answer of a machine command.
pub struct Document {
    pub contract_version: u32,
    pub engine_version: &'static str,
    pub command: &'static str,
    pub ok: bool,
    pub data: Option<Json>,
    pub error: Option<MachineError>,
}

pub struct DocumentV {
    pub contract_version: u32,
    pub engine_version: Seq<char>,
    pub command: Seq<char>,
    pub ok: bool,
    pub data: Option<JsonV>,
    pub error: Option<ErrorV>,
}

pub open spec fn opt_json(o: Option<Json>) -> Option<JsonV> {
    match o {
        Some(j) => Some(j@),
        None => None,
    }
}

pub open spec fn opt_error(o: Option<MachineError>) -> Option<ErrorV> {
    match o {
        Some(e) => Some(e@),
        None => None,
    }
}

impl View for Document {
    type V = DocumentV;

    open spec fn view(&self) -> DocumentV {
        DocumentV {
            contract_version: self.contract_version,
            engine_version: self.engine_version@,
            command: self.command@,
            ok: self.ok,
            data: opt_json(self.data),
            error: opt_error(self.error),
        }
    }
}

/// A successful document carries data and no error.
pub open spec fn success_doc(command: Seq<char>, data: JsonV, contract: u32) -> DocumentV {
    DocumentV {
        contract_version: contract,
        engine_version: ENGINE_VERSION@,
        command,
        ok: true,
        data: Some(data),
        error: None,
    }
}

/// A failure document carries an error and no data.
pub open spec fn failure_doc(
    command: Seq<char>,
    code: Seq<char>,
    retryable: bool,
    contract: u32,
) -> DocumentV {
    DocumentV {
        contract_version: contract,
        engine_version: ENGINE_VERSION@,
        command,
        ok: false,
        data: None,
        error: Some(error_of(code, retryable)),
    }
}

pub fn success(command: &'static str, data: Json, contract: u32) -> (r: Document)
    ensures
        r@ == success_doc(command@, data@, contract),
{
    Document {
        contract_version: contract,
        engine_version: ENGINE_VERSION,
        command,
        ok: true,
        data: Some(data),
        error: None,
    }
}

pub fn failure(command: &'static str, code: &'static str, retryable: bool, contract: u32) -> (r:
    Document)
    ensures
        r@ == failure_doc(command@, code@, retryable, contract),
{
    Document {
        contract_version: contract,
        engine_version: ENGINE_VERSION,
        command,
        ok: false,
        data: None,
        error: Some(machine_error(code, retryable)),
    }
}

/// A failure as JSON: the message field is absent where there is none.
pub open spec fn error_json(e: ErrorV) -> JsonV {
    let head = no_fields().push(("code"@, JsonV::Str(e.code))).push(
        ("retryable"@, JsonV::Bool(e.retryable)),
    );
    JsonV::Obj(
        match e.message {
            Some(m) => head.push(("message"@, JsonV::Str(m))),
            None => head,
        },
    )
}

/// The fields of a document, in the order they are written.
pub open spec fn document_fields(d: DocumentV) -> Seq<(Seq<char>, JsonV)> {
    let head = no_fields().push(("contract_version"@, JsonV::Num(d.contract_version as nat))).push(
        ("engine_version"@, JsonV::Str(d.engine_version)),
    ).push(("command"@, JsonV::Str(d.command))).push(("ok"@, JsonV::Bool(d.ok)));
    let with_data = match d.data {
        Some(j) => head.push(("data"@, j)),
        None => head,
    };
    match d.error {
        Some(e) => with_data.push(("error"@, error_json(e))),
        None => with_data,
    }
}

pub fn error_object(e: &MachineError) -> (r: Json)
    ensures
        r@ == error_json(e@),
{
    let mut o = JsonObj::new();
    o.put("code", Json::text(e.code));
    o.put("retryable", Json::flag(e.retryable));
    match e.message {
        Some(m) => {
            o.put("message", Json::text(m));
        },
        None => {},
    }
    Json::obj(o)
}

/// A document as a JSON object.
pub fn document_object(d: Document) -> (r: JsonObj)
    ensures
        r@ == document_fields(d@),
{
    let mut o = JsonObj::new();
    o.put("contract_version", Json::num(d.contract_version as u64));
    o.put("engine_version", Json::text(d.engine_version));
    o.put("command", Json::text(d.command));
    o.put("ok", Json::flag(d.ok));
    match d.data {
        Some(j) => {
            o.put("data", j);
        },
        None => {},
    }
    match &d.error {
        Some(e) => {
            o.put("error", error_object(e));
        },
        None => {},
    }
    o
}

/// What a machine command emits: one document, extra top-level fields where a
/// failure still carries something the caller needs, and the exit code.
pub struct Reply {
    pub document: Document,
    pub extra: JsonObj,
    pub exit: u8,
}

pub struct ReplyV {
    pub document: DocumentV,
    pub extra: Seq<(Seq<char>, JsonV)>,
    pub exit: u8,
}

impl View for Reply {
    type V = ReplyV;

    open spec fn view(&self) -> ReplyV {
        ReplyV { document: self.document@, extra: self.extra@, exit: self.exit }
    }
}

pub open spec fn answered(command: Seq<char>, data: JsonV, contract: u32) -> ReplyV {
    ReplyV { document: success_doc(command, data, contract), extra: Seq::empty(), exit: 0 }
}

pub open spec fn refused(
    command: Seq<char>,
    code: Seq<char>,
    retryable: bool,
    contract: u32,
    exit: u8,
) -> ReplyV {
    ReplyV {
        document: failure_doc(command, code, retryable, contract),
        extra: Seq::empty(),
        exit,
    }
}

/// A failure with extra top-level fields, exit code 1.
pub open spec fn failed_with(
    command: Seq<char>,
    code: Seq<char>,
    retryable: bool,
    contract: u32,
    extra: Seq<(Seq<char>, JsonV)>,
) -> ReplyV {
    ReplyV { document: failure_doc(command, code, retryable, contract), extra, exit: 1 }
}

/// A bad invocation: exit code 2.
pub open spec fn usage_error(command: Seq<char>, contract: u32) -> ReplyV {
    refused(command, "usage-error"@, false, contract, 2)
}

pub fn answer(command: &'static str, data: Json, contract: u32) -> (r: Reply)
    ensures
        r@ == answered(command@, data@, contract),
{
    Reply { document: success(command, data, contract), extra: JsonObj::new(), exit: 0 }
}

pub fn refuse(command: &'static str, code: &'static str, retryable: bool, contract: u32, exit: u8)
    -> (r: Reply)
    ensures
        r@ == refused(command@, code@, retryable, contract, exit),
{
    Reply { document: failure(command, code, retryable, contract), extra: JsonObj::new(), exit }
}

pub fn fail_with_extra(
    command: &'static str,
    code: &'static str,
    retryable: bool,
    contract: u32,
    extra: JsonObj,
) -> (r: Reply)
    ensures
        r@ == failed_with(command@, code@, retryable, contract, extra@),
{
    Reply { document: failure(command, code, retryable, contract), extra, exit: 1 }
}

pub fn refuse_usage(command: &'static str, contract: u32) -> (r: Reply)
    ensures
        r@ == usage_error(command@, contract),
{
    refuse(command, "usage-error", false, contract, 2)
}

/// The refusal of a contract that cannot be agreed.
pub open spec fn contract_refusal(command: Seq<char>, args: Seq<Seq<char>>) -> Option<ReplyV> {
    match negotiated(args) {
        Contract::Agreed(_) => None,
        Contract::Malformed => Some(usage_error(command, CONTRACT_DEFAULT)),
        Contract::Unsupported => Some(
            refused(command, "unsupported-contract"@, false, CONTRACT_DEFAULT, 2),
        ),
    }
}

/// Agrees on a contract, or refuses before anything else happens.
pub fn open_contract(command: &'static str, args: &[String]) -> (r: Result<u32, Reply>)
    ensures
        match r {
            Ok(v) => negotiated(texts(args@)) == Contract::Agreed(v),
            Err(reply) => contract_refusal(command@, texts(args@)) == Some(reply@),
        },
{
    match negotiate(args) {
        Contract::Agreed(v) => Ok(v),
        Contract::Malformed => Err(refuse_usage(command, CONTRACT_DEFAULT)),
        Contract::Unsupported => Err(
            refuse(command, "unsupported-contract", false, CONTRACT_DEFAULT, 2),
        ),
    }
}

/// How a command that takes exactly `words` is opened: the contract first, then
/// the words.
pub open spec fn opened(command: Seq<char>, args: Seq<Seq<char>>, words: Seq<Seq<char>>) -> Result<
    u32,
    ReplyV,
> {
    match negotiated(args) {
        Contract::Agreed(v) => if stripped(args) == words {
            Ok(v)
        } else {
            Err(usage_error(command, v))
        },
        _ => Err(contract_refusal(command, args)->0),
    }
}

pub open spec fn opened_view(r: Result<u32, Reply>) -> Result<u32, ReplyV> {
    match r {
        Ok(v) => Ok(v),
        Err(reply) => Err(reply@),
    }
}

fn open_exact(command: &'static str, args: &[String], words: &[&str]) -> (r: Result<u32, Reply>)
    ensures
        opened_view(r) == opened(command@, texts(args@), slices(words@)),
{
    match open_contract(command, args) {
        Err(reply) => Err(reply),
        Ok(v) => {
            let rest = without_contract(args);
            if exactly(rest.as_slice(), words) {
                Ok(v)
            } else {
                Err(refuse_usage(command, v))
            }
        },
    }
}

/// How a command with a validator of its own is opened.
pub open spec fn opened_if(command: Seq<char>, args: Seq<Seq<char>>, valid: bool) -> Result<
    u32,
    ReplyV,
> {
    match negotiated(args) {
        Contract::Agreed(v) => if valid {
            Ok(v)
        } else {
            Err(usage_error(command, v))
        },
        _ => Err(contract_refusal(command, args)->0),
    }
}

/// A contract that is not agreed is refused with exit code 2 whatever the rest
/// of the arguments say, so nothing runs under a contract nobody agreed to.
pub proof fn no_command_runs_without_an_agreed_contract(
    command: Seq<char>,
    args: Seq<Seq<char>>,
    words: Seq<Seq<char>>,
    valid: bool,
)
    requires
        !(negotiated(args) is Agreed),
    ensures
        opened(command, args, words) is Err,
        opened(command, args, words)->Err_0.exit == 2,
        !opened(command, args, words)->Err_0.document.ok,
        opened_if(command, args, valid) is Err,
        opened_if(command, args, valid)->Err_0.exit == 2,
{
}

/// The capabilities this engine publishes.
pub open spec fn capabilities() -> Seq<Seq<char>> {
    seq![
        "version-json"@,
        "profiles-list-json"@,
        "status-json"@,
        "doctor-json"@,
        "login-status-json"@,
        "auth-test-events"@,
        "login-plan-json"@,
        "login-transactions"@,
        "models-list-json"@,
        "camera-diagnostics"@,
        "camera-census"@,
        "support-report-json"@,
    ]
}

pub open spec fn string_values(v: Seq<Seq<char>>) -> Seq<JsonV> {
    v.map_values(|s: Seq<char>| JsonV::Str(s))
}

/// The published capabilities as a JSON array.
pub fn capability_list() -> (r: Json)
    ensures
        r@ == JsonV::Arr(string_values(capabilities())),
{
    let mut a = JsonArr::new();
    a.put(Json::text("version-json"));
    a.put(Json::text("profiles-list-json"));
    a.put(Json::text("status-json"));
    a.put(Json::text("doctor-json"));
    a.put(Json::text("login-status-json"));
    a.put(Json::text("auth-test-events"));
    a.put(Json::text("login-plan-json"));
    a.put(Json::text("login-transactions"));
    a.put(Json::text("models-list-json"));
    a.put(Json::text("camera-diagnostics"));
    a.put(Json::text("camera-census"));
    a.put(Json::text("support-report-json"));
    proof {
        assert(a@ =~= string_values(capabilities()));
    }
    Json::arr(a)
}

/// What `version --json` answers.
pub open spec fn version_data(max_profiles: nat) -> JsonV {
    let range = no_fields().push(("min"@, JsonV::Num(CONTRACT_MIN as nat))).push(
        ("max"@, JsonV::Num(CONTRACT_MAX as nat)),
    );
    let limits = no_fields().push(("max_profiles"@, JsonV::Num(max_profiles)));
    JsonV::Obj(
        no_fields().push(("capabilities"@, JsonV::Arr(string_values(capabilities())))).push(
            ("contract_versions"@, JsonV::Obj(range)),
        ).push(("limits"@, JsonV::Obj(limits))),
    )
}

pub open spec fn version_reply(args: Seq<Seq<char>>, max_profiles: nat) -> ReplyV {
    match opened("version"@, args, seq!["version"@, "--json"@]) {
        Ok(v) => answered("version"@, version_data(max_profiles), v),
        Err(reply) => reply,
    }
}

/// `irlume version --json`: the contracts, capabilities and limits of this
/// engine. `max_profiles` is the store's limit.
pub fn version(args: &[String], max_profiles: u64) -> (r: Reply)
    ensures
        r@ == version_reply(texts(args@), max_profiles as nat),
{
    let words = ["version", "--json"];
    proof {
        assert(slices(words@) =~= seq!["version"@, "--json"@]);
    }
    match open_exact("version", args, &words) {
        Err(reply) => reply,
        Ok(v) => {
            let mut range = JsonObj::new();
            range.put("min", Json::num(CONTRACT_MIN as u64));
            range.put("max", Json::num(CONTRACT_MAX as u64));
            let mut limits = JsonObj::new();
            limits.put("max_profiles", Json::num(max_profiles));
            let mut o = JsonObj::new();
            o.put("capabilities", capability_list());
            o.put("contract_versions", Json::obj(range));
            o.put("limits", Json::obj(limits));
            answer("version", Json::obj(o), v)
        },
    }
}

/// Opens `doctor --json`.
pub fn doctor(args: &[String]) -> (r: Result<u32, Reply>)
    ensures
        opened_view(r) == opened("doctor"@, texts(args@), seq!["doctor"@, "--json"@]),
{
    let words = ["doctor", "--json"];
    proof {
        assert(slices(words@) =~= seq!["doctor"@, "--json"@]);
    }
    open_exact("doctor", args, &words)
}

/// Opens `camera census --json`.
pub fn camera_census(args: &[String]) -> (r: Result<u32, Reply>)
    ensures
        opened_view(r) == opened(
            "camera.census"@,
            texts(args@),
            seq!["camera"@, "census"@, "--json"@],
        ),
{
    let words = ["camera", "census", "--json"];
    proof {
        assert(slices(words@) =~= seq!["camera"@, "census"@, "--json"@]);
    }
    open_exact("camera.census", args, &words)
}

/// What `camera census --json` answers: why the nodes could not be listed, or
/// null, and the entries as the census wrote them.
pub fn camera_census_reply(listing_error: &Option<String>, entries: &str, contract: u32) -> (r:
    Reply)
    ensures
        r@ == answered(
            "camera.census"@,
            JsonV::Obj(
                no_fields().push(("listing_error"@, text_or_null(opt_text(*listing_error)))).push(
                    ("entries"@, JsonV::Raw(entries@)),
                ),
            ),
            contract,
        ),
{
    let mut o = JsonObj::new();
    o.put("listing_error", Json::text_or_null(listing_error));
    o.put("entries", Json::raw(entries));
    answer("camera.census", Json::obj(o), contract)
}

/// Opens `camera diagnostics --json`.
pub fn camera_diagnostics(args: &[String]) -> (r: Result<u32, Reply>)
    ensures
        opened_view(r) == opened(
            "camera.diagnostics"@,
            texts(args@),
            seq!["camera"@, "diagnostics"@, "--json"@],
        ),
{
    let words = ["camera", "diagnostics", "--json"];
    proof {
        assert(slices(words@) =~= seq!["camera"@, "diagnostics"@, "--json"@]);
    }
    open_exact("camera.diagnostics", args, &words)
}

/// Opens `login status --json`.
pub fn login_status(args: &[String]) -> (r: Result<u32, Reply>)
    ensures
        opened_view(r) == opened(
            "login.status"@,
            texts(args@),
            seq!["login"@, "status"@, "--json"@],
        ),
{
    let words = ["login", "status", "--json"];
    proof {
        assert(slices(words@) =~= seq!["login"@, "status"@, "--json"@]);
    }
    open_exact("login.status", args, &words)
}

/// Opens `models list --json`.
pub fn models_list(args: &[String]) -> (r: Result<u32, Reply>)
    ensures
        opened_view(r) == opened(
            "models.list"@,
            texts(args@),
            seq!["models"@, "list"@, "--json"@],
        ),
{
    let words = ["models", "list", "--json"];
    proof {
        assert(slices(words@) =~= seq!["models"@, "list"@, "--json"@]);
    }
    open_exact("models.list", args, &words)
}

/// How the daemon answered a machine command.
pub enum Answered<T> {
    /// The answer the command asked for.
    Payload(T),
    /// A failure with a code of its own.
    Refused { code: OperationErrorCode, retryable: bool },
    /// A failure in prose, from an older daemon; its text is not inspected.
    Prose,
    /// An answer of another kind.
    Unexpected,
    /// No answer.
    Unavailable,
}

/// The code and retry advice of an answer that is no payload.
pub open spec fn answer_error<T>(a: Answered<T>) -> Option<(Seq<char>, bool)> {
    match a {
        Answered::Payload(_) => None,
        Answered::Refused { code, retryable } => Some((published_code(code), retryable)),
        Answered::Prose => Some(("operation-failed"@, false)),
        Answered::Unexpected => Some(("protocol-error"@, false)),
        Answered::Unavailable => Some(("daemon-unavailable"@, true)),
    }
}

/// Every answer that is no payload carries an action line.
pub proof fn every_failed_answer_has_an_action_line<T>(a: Answered<T>)
    ensures
        !(a is Payload) ==> (match answer_error(a) {
            Some((code, _)) => action_line(code) is Some,
            None => false,
        }),
{
}

/// The published code of an answer that is no payload.
pub fn answer_code<T>(a: &Answered<T>) -> (r: Option<(&'static str, bool)>)
    ensures
        match r {
            Some((code, retryable)) => answer_error(*a) == Some((code@, retryable)),
            None => answer_error(*a) is None,
        },
{
    match a {
        Answered::Payload(_) => None,
        Answered::Refused { code, retryable } => Some((error_code(*code), *retryable)),
        Answered::Prose => Some(("operation-failed", false)),
        Answered::Unexpected => Some(("protocol-error", false)),
        Answered::Unavailable => Some(("daemon-unavailable", true)),
    }
}

/// What a command answers when the daemon's payload is its data.
pub open spec fn relayed(command: Seq<char>, a: Answered<JsonV>, contract: u32) -> ReplyV {
    match a {
        Answered::Payload(data) => answered(command, data, contract),
        _ => {
            let (code, retryable) = answer_error(a)->0;
            refused(command, code, retryable, contract, 1)
        },
    }
}

pub open spec fn answered_view(a: Answered<Json>) -> Answered<JsonV> {
    match a {
        Answered::Payload(j) => Answered::Payload(j@),
        Answered::Refused { code, retryable } => Answered::Refused { code, retryable },
        Answered::Prose => Answered::Prose,
        Answered::Unexpected => Answered::Unexpected,
        Answered::Unavailable => Answered::Unavailable,
    }
}

/// Turns the daemon's answer into the command's.
pub fn relay(command: &'static str, a: Answered<Json>, contract: u32) -> (r: Reply)
    ensures
        r@ == relayed(command@, answered_view(a), contract),
{
    match answer_code(&a) {
        Some((code, retryable)) => refuse(command, code, retryable, contract, 1),
        None => {
            match a {
                Answered::Payload(data) => answer(command, data, contract),
                _ => refuse(command, "operation-failed", false, contract, 1),
            }
        },
    }
}

/// How `support-report --json` is opened: the contract, and the `--since` text
/// if one was given. Reading that text as a time is the collector's part; how a
/// text it cannot read is answered, `support_report_reply` says.
pub fn support_report(args: &[String]) -> (r: Result<(u32, Option<String>), Reply>)
    ensures
        match r {
            Ok((v, since)) => negotiated(texts(args@)) == Contract::Agreed(v)
                && support_report_since(stripped(texts(args@))) == Some(opt_text(since)),
            Err(reply) => opened_if(
                "support-report"@,
                texts(args@),
                support_report_since(stripped(texts(args@))) is Some,
            ) == Err::<u32, ReplyV>(reply@),
        },
{
    match open_contract("support-report", args) {
        Err(reply) => Err(reply),
        Ok(v) => {
            let rest = without_contract(args);
            match valid_support_report_args(rest.as_slice()) {
                Some(since) => Ok((v, since)),
                None => Err(refuse_usage("support-report", v)),
            }
        },
    }
}

/// How far back a support report looks where no `--since` was given, in seconds.
pub const SUPPORT_WINDOW: u64 = 600;

/// How collecting a support report ended.
pub enum Collected {
    Report(Json),
    /// The `--since` text is no time.
    UnreadableSince,
    /// The report could not be written as JSON.
    NotWritten,
}

/// What `support-report --json` answers: the report, a usage error where the
/// `--since` cannot be read, or the failure to write the report.
pub open spec fn support_reported(c: Collected, contract: u32) -> ReplyV {
    match c {
        Collected::Report(j) => answered("support-report"@, j@, contract),
        Collected::UnreadableSince => usage_error("support-report"@, contract),
        Collected::NotWritten => refused(
            "support-report"@,
            "operation-failed"@,
            false,
            contract,
            1,
        ),
    }
}

/// Answers `support-report --json`.
pub fn support_report_reply(c: Collected, contract: u32) -> (r: Reply)
    ensures
        r@ == support_reported(c, contract),
{
    match c {
        Collected::Report(j) => answer("support-report", j, contract),
        Collected::UnreadableSince => refuse_usage("support-report", contract),
        Collected::NotWritten => refuse("support-report", "operation-failed", false, contract, 1),
    }
}

/// A `--since` that cannot be read is answered as arguments that are no such
/// command are: with a usage error under the agreed contract and exit code 2.
pub proof fn an_unreadable_since_is_a_usage_error(args: Seq<Seq<char>>, contract: u32)
    requires
        negotiated(args) == Contract::Agreed(contract),
    ensures
        support_reported(Collected::UnreadableSince, contract).exit == 2,
        opened_if("support-report"@, args, false) == Err::<u32, ReplyV>(
            support_reported(Collected::UnreadableSince, contract),
        ),
{
}

/// Root, or the reason to refuse before anything is written.
pub open spec fn root_refusal(command: Seq<char>, euid: u32, contract: u32) -> Option<ReplyV> {
    if euid == 0 {
        None
    } else {
        Some(refused(command, "not-authorized"@, false, contract, 1))
    }
}

pub open spec fn opt_reply(r: Option<Reply>) -> Option<ReplyV> {
    match r {
        Some(reply) => Some(reply@),
        None => None,
    }
}

pub fn require_root(command: &'static str, euid: u32, contract: u32) -> (r: Option<Reply>)
    ensures
        opt_reply(r) == root_refusal(command@, euid, contract),
{
    if euid == 0 {
        None
    } else {
        Some(refuse(command, "not-authorized", false, contract, 1))
    }
}

/// The one object a reply is written as.
pub fn reply_object(reply: Reply) -> (r: JsonObj)
    ensures
        r@ == merged(document_fields(reply@.document), reply@.extra),
{
    let mut o = document_object(reply.document);
    o.insert_all(reply.extra);
    o
}

/// A command with exact words runs exactly where a contract is agreed on and its
/// words, and no others, are left; a command with a validator exactly where that
/// accepts. Everything else is a refusal with exit code 2, and without data.
pub proof fn a_command_opens_only_on_its_own_words(
    command: Seq<char>,
    args: Seq<Seq<char>>,
    words: Seq<Seq<char>>,
    valid: bool,
)
    ensures
        opened(command, args, words) matches Ok(v) ==> negotiated(args) == Contract::Agreed(v)
            && stripped(args) == words,
        negotiated(args) is Agreed && stripped(args) == words ==> opened(command, args, words)
            is Ok,
        opened_if(command, args, valid) is Ok <==> negotiated(args) is Agreed && valid,
        opened(command, args, words) matches Err(r) ==> !r.document.ok && r.exit == 2
            && r.document.data is None && r.document.command == command && (
        r.document.error->0.code == "unsupported-contract"@ <==> negotiated(args)
            == Contract::Unsupported),
        opened_if(command, args, valid) matches Err(r) ==> !r.document.ok && r.exit == 2
            && r.document.data is None && r.document.command == command,
{
    reveal_strlit("unsupported-contract");
    reveal_strlit("usage-error");
    assert("unsupported-contract"@.len() == 20 && "usage-error"@.len() == 11);
}

/// What the daemon answered decides the reply: its payload is the data of a
/// success, and every other answer is a failure, exit code 1, under the code of its
/// kind. Only a daemon that could not be reached, and a refusal that says so itself,
/// is worth retrying.
pub proof fn only_a_payload_is_a_success(
    command: Seq<char>,
    a: Answered<JsonV>,
    contract: u32,
)
    ensures
        ({
            let r = relayed(command, a, contract);
            &&& r.document.ok <==> a is Payload
            &&& r.exit == (if a is Payload {
                0u8
            } else {
                1u8
            })
            &&& a matches Answered::Payload(data) ==> r.document.data == Some(data)
                && r.document.error is None
            &&& !(a is Payload) ==> r.document.data is None && r.document.error is Some
            &&& a is Unavailable ==> r.document.error->0.code == "daemon-unavailable"@
                && r.document.error->0.retryable
            &&& a is Unexpected ==> r.document.error->0.code == "protocol-error"@
                && !r.document.error->0.retryable
            &&& a is Prose ==> r.document.error->0.code == "operation-failed"@
                && !r.document.error->0.retryable
            &&& a matches Answered::Refused { code, retryable } ==> r.document.error->0.retryable
                == retryable && (r.document.error->0.code == "camera-busy"@ <==> code
                == OperationErrorCode::CameraBusy) && (r.document.error->0.code
                == "not-authorized"@ <==> code == OperationErrorCode::NotAuthorized) && (
            r.document.error->0.code == "deadline-expired"@ <==> code
                == OperationErrorCode::DeadlineExpired)
            &&& r.document.contract_version == contract
            &&& r.document.command == command
        }),
{
    reveal_strlit("camera-busy");
    reveal_strlit("not-authorized");
    reveal_strlit("deadline-expired");
    reveal_strlit("operation-failed");
    assert("camera-busy"@.len() == 11);
    assert("not-authorized"@.len() == 14);
    assert("deadline-expired"@.len() == 16 && "deadline-expired"@[0] == 'd');
    assert("operation-failed"@.len() == 16 && "operation-failed"@[0] == 'o');
}

/// Each code that a person can act on has its own line, and a code without one has
/// none.
pub proof fn each_code_has_its_own_action_line(code: Seq<char>)
    ensures
        action_line("camera-busy"@) == Some(CAMERA_BUSY_MESSAGE@),
        action_line("not-authorized"@) == Some(NOT_AUTHORIZED_MESSAGE@),
        action_line("operation-failed"@) == Some(OPERATION_FAILED_MESSAGE@),
        action_line("deadline-expired"@) == Some(DEADLINE_EXPIRED_MESSAGE@),
        action_line("usage-error"@) == Some(USAGE_ERROR_MESSAGE@),
        action_line("protocol-error"@) == Some(PROTOCOL_ERROR_MESSAGE@),
        action_line("daemon-unavailable"@) == Some(DAEMON_UNAVAILABLE_MESSAGE@),
        error_of(code, true).code == code && error_of(code, true).retryable,
        error_of(code, false).code == code && !error_of(code, false).retryable,
        error_of(code, true).message == action_line(code),
{
    reveal_strlit("camera-busy");
    reveal_strlit("not-authorized");
    reveal_strlit("operation-failed");
    reveal_strlit("deadline-expired");
    reveal_strlit("usage-error");
    reveal_strlit("protocol-error");
    reveal_strlit("daemon-unavailable");
    assert("camera-busy"@.len() == 11 && "camera-busy"@[0] == 'c');
    assert("not-authorized"@.len() == 14 && "not-authorized"@[0] == 'n');
    assert("operation-failed"@.len() == 16 && "operation-failed"@[0] == 'o');
    assert("deadline-expired"@.len() == 16 && "deadline-expired"@[0] == 'd');
    assert("usage-error"@.len() == 11 && "usage-error"@[0] == 'u');
    assert("protocol-error"@.len() == 14 && "protocol-error"@[0] == 'p');
    assert("daemon-unavailable"@.len() == 18);
}

/// A document is written with everything it says: the contract, the command,
/// whether it succeeded, its data where it has any, and its error, with its code and
/// whether to retry, where it has one.
pub proof fn a_document_is_written_whole(d: DocumentV)
    ensures
        document_fields(d).contains(
            ("contract_version"@, JsonV::Num(d.contract_version as nat)),
        ),
        document_fields(d).contains(("command"@, JsonV::Str(d.command))),
        document_fields(d).contains(("ok"@, JsonV::Bool(d.ok))),
        d.data matches Some(j) ==> document_fields(d).contains(("data"@, j)),
        d.error matches Some(e) ==> exists|o: Seq<(Seq<char>, JsonV)>|
            #[trigger] document_fields(d).contains(("error"@, JsonV::Obj(o))) && o.contains(
                ("code"@, JsonV::Str(e.code)),
            ) && o.contains(("retryable"@, JsonV::Bool(e.retryable))) && (e.message matches Some(m)
                ==> o.contains(("message"@, JsonV::Str(m)))),
        document_fields(d).len() == 4 + (if d.data is Some {
            1int
        } else {
            0
        }) + (if d.error is Some {
            1int
        } else {
            0
        }),
{
    let f = document_fields(d);
    assert(f[0] == ("contract_version"@, JsonV::Num(d.contract_version as nat)));
    assert(f[2] == ("command"@, JsonV::Str(d.command)));
    assert(f[3] == ("ok"@, JsonV::Bool(d.ok)));
    if d.data is Some {
        assert(f[4] == ("data"@, d.data->0));
    }
    if d.error is Some {
        let e = d.error->0;
        let o = error_json(e)->Obj_0;
        assert(f[f.len() - 1] == ("error"@, JsonV::Obj(o)));
        assert(o[0] == ("code"@, JsonV::Str(e.code)));
        assert(o[1] == ("retryable"@, JsonV::Bool(e.retryable)));
        if e.message is Some {
            assert(o[2] == ("message"@, JsonV::Str(e.message->0)));
        }
        assert(f.contains(("error"@, JsonV::Obj(o))));
    }
}

/// Only root passes where root is needed; everyone else is told so.
pub proof fn only_root_passes(command: Seq<char>, euid: u32, contract: u32)
    ensures
        root_refusal(command, euid, contract) is None <==> euid == 0,
        root_refusal(command, euid, contract) matches Some(r) ==> !r.document.ok && r.exit == 1
            && r.document.error->0.code == "not-authorized"@,
{
}

/// What a program learns of this engine: the contracts that it speaks, the limit it
/// was told, and each capability once.
pub proof fn a_program_learns_which_contracts_are_spoken(max_profiles: nat)
    ensures
        ({
            let data = version_data(max_profiles)->Obj_0;
            let range = no_fields().push(("min"@, JsonV::Num(CONTRACT_MIN as nat))).push(
                ("max"@, JsonV::Num(CONTRACT_MAX as nat)),
            );
            &&& data.contains(("contract_versions"@, JsonV::Obj(range)))
            &&& data.contains(
                ("limits"@, JsonV::Obj(no_fields().push(("max_profiles"@, JsonV::Num(max_profiles))))),
            )
            &&& exists|list: Seq<JsonV>|
                #[trigger] data.contains(("capabilities"@, JsonV::Arr(list))) && list.len()
                    == capabilities().len() && forall|i: int|
                    0 <= i < list.len() ==> #[trigger] list[i] == JsonV::Str(capabilities()[i])
        }),
{
    let data = version_data(max_profiles)->Obj_0;
    let list = string_values(capabilities());
    assert(data[0] == ("capabilities"@, JsonV::Arr(list)));
    assert(data[1].0 == "contract_versions"@);
    assert(data[2].0 == "limits"@);
    assert(data.contains(("capabilities"@, JsonV::Arr(list))));
}

/// A collected report is a success, and every other end of a support report a
/// failure: exit code 2 for what the caller wrote, 1 for what went wrong here.
pub proof fn only_a_collected_report_is_a_success(c: Collected, contract: u32)
    ensures
        support_reported(c, contract).document.ok <==> c is Report,
        support_reported(c, contract).exit == (match c {
            Collected::Report(_) => 0u8,
            Collected::UnreadableSince => 2u8,
            Collected::NotWritten => 1u8,
        }),
        c matches Collected::Report(j) ==> support_reported(c, contract).document.data == Some(j@),
        c is UnreadableSince ==> support_reported(c, contract).document.error->0.code
            == "usage-error"@,
        c is NotWritten ==> support_reported(c, contract).document.error->0.code
            == "operation-failed"@,
{
}

/// A failure with more to say is a failure all the same: exit code one, not in order,
/// with its error and what it was given to say.
pub proof fn a_failure_with_more_to_say_is_a_failure(
    command: Seq<char>,
    code: Seq<char>,
    retryable: bool,
    extra: Seq<(Seq<char>, JsonV)>,
    contract: u32,
)
    ensures
        ({
            let r = failed_with(command, code, retryable, contract, extra);
            &&& r.exit == 1
            &&& !r.document.ok
            &&& r.document.data is None
            &&& r.document.error is Some
            &&& r.document.error->0.code == code
            &&& r.document.error->0.retryable == retryable
            &&& r.document.contract_version == contract
            &&& r.extra == extra
        }),
{
}

} // verus!
