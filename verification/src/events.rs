//! The NDJSON event stream of `auth test`: one envelope per line, a gapless
//! sequence, and exactly one terminal line, the last.

use vstd::prelude::*;

use crate::contract::{negotiated, stripped, without_contract, Contract};
use crate::flags::{auth_test_args_valid, valid_auth_test_args, valid_id};
use crate::ids::{a_spelled_id_is_valid, lower_id, random_id, spells_bytes};
use crate::json::{no_fields, text_or_null, Json, JsonObj, JsonV};
use crate::machine::{
    answer_code, answer_error, error_json, error_object, error_of, machine_error, open_contract,
    opened_if, opt_error, opt_json, refuse, refuse_usage, refused, Answered, ErrorV, MachineError,
    Reply, ReplyV, ENGINE_VERSION,
};
use crate::text::{opt_slice, opt_text, owned, texts};

verus! {

/// One line of an event stream, carrying the whole envelope.
pub struct Event {
    pub contract_version: u32,
    pub engine_version: &'static str,
    pub command: &'static str,
    pub operation_id: String,
    pub session_id: String,
    pub sequence: u64,
    pub event: &'static str,
    pub terminal: bool,
    pub data: Option<Json>,
    pub error: Option<MachineError>,
}

pub struct EventV {
    pub contract_version: u32,
    pub engine_version: Seq<char>,
    pub command: Seq<char>,
    pub operation_id: Seq<char>,
    pub session_id: Seq<char>,
    pub sequence: nat,
    pub event: Seq<char>,
    pub terminal: bool,
    pub data: Option<JsonV>,
    pub error: Option<ErrorV>,
}

impl View for Event {
    type V = EventV;

    open spec fn view(&self) -> EventV {
        EventV {
            contract_version: self.contract_version,
            engine_version: self.engine_version@,
            command: self.command@,
            operation_id: self.operation_id@,
            session_id: self.session_id@,
            sequence: self.sequence as nat,
            event: self.event@,
            terminal: self.terminal,
            data: opt_json(self.data),
            error: opt_error(self.error),
        }
    }
}

/// The fields of an event, in the order they are written.
pub open spec fn event_fields(e: EventV) -> Seq<(Seq<char>, JsonV)> {
    let head = no_fields().push(("contract_version"@, JsonV::Num(e.contract_version as nat))).push(
        ("engine_version"@, JsonV::Str(e.engine_version)),
    ).push(("command"@, JsonV::Str(e.command))).push(
        ("operation_id"@, JsonV::Str(e.operation_id)),
    ).push(("session_id"@, JsonV::Str(e.session_id))).push(
        ("sequence"@, JsonV::Num(e.sequence)),
    ).push(("event"@, JsonV::Str(e.event))).push(("terminal"@, JsonV::Bool(e.terminal)));
    let with_data = match e.data {
        Some(j) => head.push(("data"@, j)),
        None => head,
    };
    match e.error {
        Some(err) => with_data.push(("error"@, error_json(err))),
        None => with_data,
    }
}

/// An event as a JSON object.
pub fn event_object(e: Event) -> (r: JsonObj)
    ensures
        r@ == event_fields(e@),
{
    let mut o = JsonObj::new();
    o.put("contract_version", Json::num(e.contract_version as u64));
    o.put("engine_version", Json::text(e.engine_version));
    o.put("command", Json::text(e.command));
    o.put("operation_id", Json::text(e.operation_id.as_str()));
    o.put("session_id", Json::text(e.session_id.as_str()));
    o.put("sequence", Json::num(e.sequence));
    o.put("event", Json::text(e.event));
    o.put("terminal", Json::flag(e.terminal));
    match e.data {
        Some(j) => {
            o.put("data", j);
        },
        None => {},
    }
    match &e.error {
        Some(err) => {
            o.put("error", error_object(err));
        },
        None => {},
    }
    o
}

/// Produces an event stream. Finishing consumes it, so nothing can follow the
/// terminal line. The sequence is kept here alone and only ever counts up.
pub struct EventStream {
    command: &'static str,
    contract: u32,
    operation_id: String,
    session_id: String,
    sequence: u64,
}

pub struct StreamV {
    pub command: Seq<char>,
    pub contract: u32,
    pub operation_id: Seq<char>,
    pub session_id: Seq<char>,
    pub sequence: nat,
}

impl View for EventStream {
    type V = StreamV;

    closed spec fn view(&self) -> StreamV {
        StreamV {
            command: self.command@,
            contract: self.contract,
            operation_id: self.operation_id@,
            session_id: self.session_id@,
            sequence: self.sequence as nat,
        }
    }
}

/// The line a stream produces next.
pub open spec fn line_of(
    s: StreamV,
    event: Seq<char>,
    terminal: bool,
    data: Option<JsonV>,
    error: Option<ErrorV>,
) -> EventV {
    EventV {
        contract_version: s.contract,
        engine_version: ENGINE_VERSION@,
        command: s.command,
        operation_id: s.operation_id,
        session_id: s.session_id,
        sequence: s.sequence,
        event,
        terminal,
        data,
        error,
    }
}

/// The stream after a line.
pub open spec fn after_line(s: StreamV) -> StreamV {
    StreamV { sequence: s.sequence + 1, ..s }
}

/// A stream that has said nothing yet: at sequence zero, under an operation id
/// that spells sixteen bytes.
pub open spec fn fresh(
    s: StreamV,
    command: Seq<char>,
    contract: u32,
    session_id: Seq<char>,
) -> bool {
    &&& s.command == command
    &&& s.contract == contract
    &&& spells_bytes(s.operation_id)
    &&& s.session_id == session_id
    &&& s.sequence == 0
}

impl EventStream {
    /// A stream under a fresh operation id, at sequence zero. Which id it is rests
    /// on chance.
    pub fn new(command: &'static str, contract: u32, session_id: String) -> (r: EventStream)
        ensures
            fresh(r@, command@, contract, session_id@),
            lower_id(r@.operation_id),
            valid_id(r@.operation_id),
    {
        EventStream { command, contract, operation_id: random_id(), session_id, sequence: 0 }
    }

    /// The number the next line carries.
    pub fn sequence(&self) -> (r: u64)
        ensures
            r == self@.sequence,
    {
        self.sequence
    }

    fn line(
        &mut self,
        event: &'static str,
        terminal: bool,
        data: Option<Json>,
        error: Option<MachineError>,
    ) -> (r: Event)
        requires
            old(self)@.sequence < u64::MAX,
        ensures
            r@ == line_of(old(self)@, event@, terminal, opt_json(data), opt_error(error)),
            final(self)@ == after_line(old(self)@),
    {
        let line = Event {
            contract_version: self.contract,
            engine_version: ENGINE_VERSION,
            command: self.command,
            operation_id: owned(self.operation_id.as_str()),
            session_id: owned(self.session_id.as_str()),
            sequence: self.sequence,
            event,
            terminal,
            data,
            error,
        };
        self.sequence = self.sequence + 1;
        line
    }

    /// A progress line.
    pub fn progress(&mut self, event: &'static str, data: Json) -> (r: Event)
        requires
            old(self)@.sequence < u64::MAX,
        ensures
            r@ == line_of(old(self)@, event@, false, Some(data@), None),
            final(self)@ == after_line(old(self)@),
    {
        self.line(event, false, Some(data), None)
    }

    /// The single terminal line.
    pub fn finish(self, event: &'static str, data: Json) -> (r: Event)
        requires
            self@.sequence < u64::MAX,
        ensures
            r@ == line_of(self@, event@, true, Some(data@), None),
    {
        let mut s = self;
        s.line(event, true, Some(data), None)
    }

    /// The single terminal line, as a failure. The command then exits with 1.
    pub fn fail(self, code: &'static str, retryable: bool) -> (r: Event)
        requires
            self@.sequence < u64::MAX,
        ensures
            r@ == line_of(self@, "error"@, true, None, Some(error_of(code@, retryable))),
    {
        let mut s = self;
        s.line("error", true, None, Some(machine_error(code, retryable)))
    }
}

/// A stable reason code for a verdict.
pub open spec fn reason_code(granted: bool, live: bool) -> Seq<char> {
    if granted {
        "granted"@
    } else if live {
        "no-match"@
    } else {
        "not-live"@
    }
}

pub fn auth_reason(granted: bool, live: bool) -> (r: &'static str)
    ensures
        r@ == reason_code(granted, live),
{
    if granted {
        "granted"
    } else if live {
        "no-match"
    } else {
        "not-live"
    }
}

/// Why a refusal happened. Policy is decided before any capture, so it wins; a
/// deliberate decline is no verdict on the face.
pub open spec fn refusal_code(granted: bool, live: bool, declined: bool, policy: bool) -> Option<
    Seq<char>,
> {
    if granted {
        None
    } else if policy {
        Some("policy"@)
    } else if declined {
        Some("declined"@)
    } else if live {
        Some("no-match"@)
    } else {
        Some("not-live"@)
    }
}

pub fn auth_refusal(
    granted: bool,
    live: bool,
    declined_by_gesture: bool,
    refused_by_policy: bool,
) -> (r: Option<&'static str>)
    ensures
        opt_slice(r) == refusal_code(granted, live, declined_by_gesture, refused_by_policy),
{
    if granted {
        return None;
    }
    if refused_by_policy {
        return Some("policy");
    }
    if declined_by_gesture {
        return Some("declined");
    }
    if live {
        Some("no-match")
    } else {
        Some("not-live")
    }
}

/// A refusal names a liveness verdict only where a face was examined, and agrees
/// with the reason there.
pub proof fn a_refusal_names_a_verdict_only_where_a_face_was_seen(
    granted: bool,
    live: bool,
    declined: bool,
    policy: bool,
)
    ensures
        refusal_code(granted, live, declined, policy) is None <==> granted,
        !granted && !declined && !policy ==> refusal_code(granted, live, declined, policy) == Some(
            reason_code(granted, live),
        ),
        !granted && (declined || policy) ==> refusal_code(granted, live, declined, policy) != Some(
            "not-live"@,
        ),
{
    reveal_strlit("policy");
    reveal_strlit("declined");
    reveal_strlit("not-live");
    assert("policy"@.len() == 6);
    assert("declined"@[0] == 'd');
    assert("not-live"@[0] == 'n');
    assert("not-live"@.len() == 8);
}

/// A verdict of the daemon. The match score is not part of it.
#[derive(Clone, Copy, Debug, PartialEq, Eq, Structural)]
pub struct Verdict {
    pub granted: bool,
    pub live: bool,
    pub declined_by_gesture: bool,
    pub refused_by_policy: bool,
}

/// What the result line carries.
pub open spec fn verdict_data(v: Verdict) -> JsonV {
    JsonV::Obj(
        no_fields().push(("granted"@, JsonV::Bool(v.granted))).push(
            ("live"@, JsonV::Bool(v.live)),
        ).push(("reason"@, JsonV::Str(reason_code(v.granted, v.live)))).push(
            (
                "refusal"@,
                text_or_null(
                    refusal_code(v.granted, v.live, v.declined_by_gesture, v.refused_by_policy),
                ),
            ),
        ),
    )
}

pub fn verdict_object(v: &Verdict) -> (r: Json)
    ensures
        r@ == verdict_data(*v),
{
    let mut o = JsonObj::new();
    o.put("granted", Json::flag(v.granted));
    o.put("live", Json::flag(v.live));
    o.put("reason", Json::text(auth_reason(v.granted, v.live)));
    o.put(
        "refusal",
        Json::slice_or_null(
            auth_refusal(v.granted, v.live, v.declined_by_gesture, v.refused_by_policy),
        ),
    );
    Json::obj(o)
}

/// How `auth test` is opened: the contract and the arguments it may act on.
pub fn auth_test(args: &[String]) -> (r: Result<(u32, Vec<String>), Reply>)
    ensures
        match r {
            Ok((v, rest)) => negotiated(texts(args@)) == Contract::Agreed(v)
                && auth_test_args_valid(stripped(texts(args@))) && texts(rest@) == stripped(
                texts(args@),
            ),
            Err(reply) => opened_if(
                "auth.test"@,
                texts(args@),
                auth_test_args_valid(stripped(texts(args@))),
            ) == Err::<u32, ReplyV>(reply@),
        },
{
    match open_contract("auth.test", args) {
        Err(reply) => Err(reply),
        Ok(v) => {
            let rest = without_contract(args);
            if valid_auth_test_args(rest.as_slice()) {
                Ok((v, rest))
            } else {
                Err(refuse_usage("auth.test", v))
            }
        },
    }
}

/// Why a session could not be taken.
#[derive(Clone, Copy, Debug, PartialEq, Eq, Structural)]
pub enum SessionRefusal {
    /// Another session of this user holds the lock; retrying is right.
    Busy,
    /// The lock could not be created or opened; retrying would spin.
    Unavailable,
}

/// How taking the session lock ended.
#[derive(Clone, Copy, Debug, PartialEq, Eq, Structural)]
pub enum LockAttempt {
    Taken,
    CannotOpen,
    WouldBlock,
    Failed,
}

/// Only a lock that is held elsewhere is worth waiting for.
pub open spec fn session_result(a: LockAttempt) -> Option<SessionRefusal> {
    match a {
        LockAttempt::Taken => None,
        LockAttempt::WouldBlock => Some(SessionRefusal::Busy),
        LockAttempt::CannotOpen => Some(SessionRefusal::Unavailable),
        LockAttempt::Failed => Some(SessionRefusal::Unavailable),
    }
}

pub fn classify_session(a: LockAttempt) -> (r: Option<SessionRefusal>)
    ensures
        r == session_result(a),
{
    match a {
        LockAttempt::Taken => None,
        LockAttempt::WouldBlock => Some(SessionRefusal::Busy),
        LockAttempt::CannotOpen => Some(SessionRefusal::Unavailable),
        LockAttempt::Failed => Some(SessionRefusal::Unavailable),
    }
}

/// Where the session lock of a user stands: in the runtime directory, else in a
/// directory of the user's own.
pub open spec fn session_dir(runtime_dir: Option<Seq<char>>, uid: nat) -> Seq<char> {
    match runtime_dir {
        Some(d) => d,
        None => "/tmp/irlume-"@ + crate::text::decimal(uid),
    }
}

pub fn session_lock_dir(runtime_dir: &Option<String>, uid: u32) -> (r: String)
    ensures
        r@ == session_dir(opt_text(*runtime_dir), uid as nat),
{
    match runtime_dir {
        Some(d) => owned(d.as_str()),
        None => {
            let n = crate::text::dec(uid as u64);
            crate::text::cat2("/tmp/irlume-", n.as_str())
        },
    }
}

/// A refusal before the stream begins is a single document with exit code 2.
pub open spec fn session_refused(why: SessionRefusal, contract: u32) -> ReplyV {
    match why {
        SessionRefusal::Busy => refused("auth.test"@, "session-busy"@, true, contract, 2),
        SessionRefusal::Unavailable => refused(
            "auth.test"@,
            "operation-failed"@,
            false,
            contract,
            2,
        ),
    }
}

pub fn refuse_session(why: SessionRefusal, contract: u32) -> (r: Reply)
    ensures
        r@ == session_refused(why, contract),
{
    match why {
        SessionRefusal::Busy => refuse("auth.test", "session-busy", true, contract, 2),
        SessionRefusal::Unavailable => refuse("auth.test", "operation-failed", false, contract, 2),
    }
}

/// What the first line says.
pub open spec fn started_data() -> JsonV {
    JsonV::Obj(no_fields().push(("operation"@, JsonV::Str("auth-test"@))))
}

/// Begins the stream: the lines to print before the daemon is asked.
pub fn auth_test_begin(contract: u32, session_id: String) -> (r: (EventStream, Event, Event))
    ensures
        ({
            let s = StreamV {
                command: "auth.test"@,
                contract,
                operation_id: r.0@.operation_id,
                session_id: session_id@,
                sequence: 0,
            };
            &&& fresh(s, "auth.test"@, contract, session_id@)
            &&& lower_id(s.operation_id)
            &&& valid_id(s.operation_id)
            &&& r.1@ == line_of(s, "started"@, false, Some(started_data()), None)
            &&& r.2@ == line_of(
                after_line(s),
                "capturing"@,
                false,
                Some(JsonV::Obj(no_fields())),
                None,
            )
            &&& r.0@ == after_line(after_line(s))
            &&& r.0@.sequence < u64::MAX
        }),
{
    let mut stream = EventStream::new("auth.test", contract, session_id);
    let mut o = JsonObj::new();
    o.put("operation", Json::text("auth-test"));
    let started = stream.progress("started", Json::obj(o));
    let capturing = stream.progress("capturing", Json::obj(JsonObj::new()));
    (stream, started, capturing)
}

/// How the stream ends, and the exit code: a refusal is a successful test that
/// answered no, a failed command is not.
pub open spec fn auth_test_ending(s: StreamV, a: Answered<Verdict>) -> (EventV, u8) {
    match a {
        Answered::Payload(v) => (line_of(s, "result"@, true, Some(verdict_data(v)), None), 0),
        _ => {
            let (code, retryable) = answer_error(a)->0;
            (line_of(s, "error"@, true, None, Some(error_of(code, retryable))), 1)
        },
    }
}

/// Ends the stream with the daemon's answer.
pub fn auth_test_end(stream: EventStream, a: &Answered<Verdict>) -> (r: (Event, u8))
    requires
        stream@.sequence < u64::MAX,
    ensures
        (r.0@, r.1) == auth_test_ending(stream@, *a),
{
    match answer_code(a) {
        Some((code, retryable)) => (stream.fail(code, retryable), 1),
        None => {
            match a {
                Answered::Payload(v) => (stream.finish("result", verdict_object(v)), 0),
                _ => (stream.fail("operation-failed", false), 1),
            }
        },
    }
}

/// What one line says beside its envelope.
pub struct Said {
    pub event: Seq<char>,
    pub terminal: bool,
    pub data: Option<JsonV>,
    pub error: Option<ErrorV>,
}

/// The stream after `n` lines.
pub open spec fn after_lines(s: StreamV, n: nat) -> StreamV
    decreases n,
{
    if n == 0 {
        s
    } else {
        after_line(after_lines(s, (n - 1) as nat))
    }
}

/// The lines that a stream produces one after the other.
pub open spec fn stream_lines(s: StreamV, said: Seq<Said>) -> Seq<EventV> {
    Seq::new(
        said.len(),
        |k: int|
            line_of(
                after_lines(s, k as nat),
                said[k].event,
                said[k].terminal,
                said[k].data,
                said[k].error,
            ),
    )
}

proof fn lines_count_up(s: StreamV, n: nat)
    ensures
        after_lines(s, n) == (StreamV { sequence: s.sequence + n, ..s }),
    decreases n,
{
    if n > 0 {
        lines_count_up(s, (n - 1) as nat);
    }
}

/// However many lines a stream produces, line `k` carries the number `k` and says
/// what was asked of it, all of them carry one contract, command, session and
/// operation, and the stream has counted every one of them.
pub proof fn every_line_carries_its_number(
    s: StreamV,
    command: Seq<char>,
    contract: u32,
    session_id: Seq<char>,
    said: Seq<Said>,
)
    requires
        fresh(s, command, contract, session_id),
    ensures
        stream_lines(s, said).len() == said.len(),
        forall|k: int|
            0 <= k < said.len() ==> (#[trigger] stream_lines(s, said)[k]) == (EventV {
                contract_version: contract,
                engine_version: ENGINE_VERSION@,
                command,
                operation_id: s.operation_id,
                session_id,
                sequence: k as nat,
                event: said[k].event,
                terminal: said[k].terminal,
                data: said[k].data,
                error: said[k].error,
            }),
        lower_id(s.operation_id),
        after_lines(s, said.len()) == (StreamV { sequence: said.len(), ..s }),
{
    a_spelled_id_is_valid(s.operation_id);
    lines_count_up(s, said.len());
    assert forall|k: int| 0 <= k < said.len() implies (#[trigger] stream_lines(s, said)[k])
        == (EventV {
        contract_version: contract,
        engine_version: ENGINE_VERSION@,
        command,
        operation_id: s.operation_id,
        session_id,
        sequence: k as nat,
        event: said[k].event,
        terminal: said[k].terminal,
        data: said[k].data,
        error: said[k].error,
    }) by {
        lines_count_up(s, k as nat);
    }
}

/// What a progress line says.
pub open spec fn progress_said(event: Seq<char>, data: JsonV) -> Said {
    Said { event, terminal: false, data: Some(data), error: None }
}

/// How a stream ends: with a result or with a failure.
pub enum Ending {
    Finished { event: Seq<char>, data: JsonV },
    Failed { code: Seq<char>, retryable: bool },
}

/// What the terminal line says.
pub open spec fn ending_said(e: Ending) -> Said {
    match e {
        Ending::Finished { event, data } => Said {
            event,
            terminal: true,
            data: Some(data),
            error: None,
        },
        Ending::Failed { code, retryable } => Said {
            event: "error"@,
            terminal: true,
            data: None,
            error: Some(error_of(code, retryable)),
        },
    }
}

/// Progress lines, and then the terminal one.
pub open spec fn told(progress: Seq<(Seq<char>, JsonV)>, e: Ending) -> Seq<Said> {
    progress.map_values(|p: (Seq<char>, JsonV)| progress_said(p.0, p.1)).push(ending_said(e))
}

/// What a consumer is promised of every stream, whatever its progress lines and
/// however it ends: the sequence counts from zero without gaps, exactly the last
/// line is terminal, every line carries the same operation, session, contract and
/// command, and only the last line can carry an error, in place of its data.
pub proof fn a_stream_is_gapless_and_ends_once(
    s: StreamV,
    command: Seq<char>,
    contract: u32,
    session_id: Seq<char>,
    progress: Seq<(Seq<char>, JsonV)>,
    e: Ending,
)
    requires
        fresh(s, command, contract, session_id),
    ensures
        ({
            let lines = stream_lines(s, told(progress, e));
            &&& lines.len() == progress.len() + 1
            &&& forall|i: int| 0 <= i < lines.len() ==> (#[trigger] lines[i]).sequence == i
            &&& forall|i: int|
                0 <= i < lines.len() ==> ((#[trigger] lines[i]).terminal <==> i == lines.len() - 1)
            &&& forall|i: int|
                0 <= i < lines.len() ==> (#[trigger] lines[i]).operation_id == s.operation_id
                    && lines[i].session_id == session_id && lines[i].contract_version == contract
                    && lines[i].command == command && lines[i].engine_version == ENGINE_VERSION@
            &&& forall|i: int|
                0 <= i < progress.len() ==> (#[trigger] lines[i]).event == progress[i].0
                    && lines[i].data == Some(progress[i].1) && lines[i].error is None
            &&& lines.last().data is Some <==> lines.last().error is None
            &&& lower_id(s.operation_id)
        }),
{
    let said = told(progress, e);
    every_line_carries_its_number(s, command, contract, session_id, said);
    let lines = stream_lines(s, said);
    assert forall|i: int| 0 <= i < lines.len() implies ((#[trigger] lines[i]).terminal <==> i
        == lines.len() - 1) && (i < progress.len() ==> lines[i].event == progress[i].0
        && lines[i].data == Some(progress[i].1) && lines[i].error is None) by {
        if i < progress.len() {
            assert(said[i] == progress_said(progress[i].0, progress[i].1));
        } else {
            assert(said[i] == ending_said(e));
        }
    }
    assert(said[progress.len() as int] == ending_said(e));
}

/// What `auth test` reports before it asks the daemon.
pub open spec fn auth_test_progress() -> Seq<(Seq<char>, JsonV)> {
    seq![("started"@, started_data()), ("capturing"@, JsonV::Obj(no_fields()))]
}

/// How `auth test` closes its stream.
pub open spec fn auth_test_close(a: Answered<Verdict>) -> Ending {
    match a {
        Answered::Payload(v) => Ending::Finished { event: "result"@, data: verdict_data(v) },
        _ => {
            let (code, retryable) = answer_error(a)->0;
            Ending::Failed { code, retryable }
        },
    }
}

/// The lines of one `auth test`, from its beginning to its end, are one stream,
/// whatever the daemon answers.
pub proof fn an_auth_test_is_one_stream(s: StreamV, a: Answered<Verdict>)
    ensures
        stream_lines(s, told(auth_test_progress(), auth_test_close(a))) =~= seq![
            line_of(s, "started"@, false, Some(started_data()), None),
            line_of(after_line(s), "capturing"@, false, Some(JsonV::Obj(no_fields())), None),
            auth_test_ending(after_line(after_line(s)), a).0,
        ],
{
    reveal_with_fuel(after_lines, 3);
    let said = told(auth_test_progress(), auth_test_close(a));
    assert(said[0] == progress_said("started"@, started_data()));
    assert(said[1] == progress_said("capturing"@, JsonV::Obj(no_fields())));
    assert(said[2] == ending_said(auth_test_close(a)));
}

/// A reason says one thing: `granted` that the test was passed, `not-live` that it
/// was not and no live face was seen, `no-match` that the live face was not theirs.
pub proof fn each_reason_says_one_thing(granted: bool, live: bool)
    ensures
        reason_code(granted, live) == "granted"@ <==> granted,
        reason_code(granted, live) == "no-match"@ <==> !granted && live,
        reason_code(granted, live) == "not-live"@ <==> !granted && !live,
{
    reveal_strlit("granted");
    reveal_strlit("no-match");
    reveal_strlit("not-live");
    assert("granted"@.len() == 7);
    assert("no-match"@.len() == 8 && "no-match"@[2] == '-');
    assert("not-live"@.len() == 8 && "not-live"@[2] == 't');
}

/// A refusal says one thing: `policy` that policy decided, `declined` that the user
/// did and policy had not, and else what the face showed.
pub proof fn each_refusal_says_one_thing(granted: bool, live: bool, declined: bool, policy: bool)
    ensures
        refusal_code(granted, live, declined, policy) is None <==> granted,
        refusal_code(granted, live, declined, policy) == Some("policy"@) <==> !granted && policy,
        refusal_code(granted, live, declined, policy) == Some("declined"@) <==> !granted && !policy
            && declined,
        refusal_code(granted, live, declined, policy) == Some("no-match"@) <==> !granted && !policy
            && !declined && live,
        refusal_code(granted, live, declined, policy) == Some("not-live"@) <==> !granted && !policy
            && !declined && !live,
{
    reveal_strlit("policy");
    reveal_strlit("declined");
    reveal_strlit("no-match");
    reveal_strlit("not-live");
    assert("policy"@.len() == 6);
    assert("declined"@.len() == 8 && "declined"@[0] == 'd');
    assert("no-match"@.len() == 8 && "no-match"@[2] == '-' && "no-match"@[0] == 'n');
    assert("not-live"@.len() == 8 && "not-live"@[2] == 't' && "not-live"@[0] == 'n');
}

/// The result line says that the test was passed exactly where it was, and of a live
/// face exactly where one was seen; it says why not exactly where it was not.
pub proof fn a_verdict_is_published_as_it_was(v: Verdict)
    ensures
        ({
            let o = verdict_data(v)->Obj_0;
            &&& o.contains(("granted"@, JsonV::Bool(true))) <==> v.granted
            &&& o.contains(("granted"@, JsonV::Bool(false))) <==> !v.granted
            &&& o.contains(("live"@, JsonV::Bool(true))) <==> v.live
            &&& o.contains(("live"@, JsonV::Bool(false))) <==> !v.live
            &&& o.contains(("refusal"@, JsonV::Null)) <==> v.granted
            &&& o.contains(("reason"@, JsonV::Str("granted"@))) <==> v.granted
        }),
{
    let o = verdict_data(v)->Obj_0;
    reveal_strlit("granted");
    reveal_strlit("live");
    reveal_strlit("reason");
    reveal_strlit("refusal");
    assert("granted"@.len() == 7 && "granted"@[0] == 'g');
    assert("live"@.len() == 4);
    assert("reason"@.len() == 6);
    assert("refusal"@.len() == 7 && "refusal"@[0] == 'r');
    each_reason_says_one_thing(v.granted, v.live);
    assert(o[0] == ("granted"@, JsonV::Bool(v.granted)));
    assert(o[1] == ("live"@, JsonV::Bool(v.live)));
    assert(o[2].0 == "reason"@);
    assert(o[3].0 == "refusal"@);
}

/// A session begins exactly where its lock was taken. Only a lock that another
/// session holds is worth another try; the refusal says so and is no success.
pub proof fn only_a_held_lock_is_worth_another_try(a: LockAttempt, contract: u32)
    ensures
        session_result(a) is None <==> a == LockAttempt::Taken,
        session_result(a) matches Some(why) ==> ({
            let r = session_refused(why, contract);
            &&& r.exit == 2
            &&& !r.document.ok
            &&& r.document.error is Some
            &&& r.document.error->0.retryable <==> a == LockAttempt::WouldBlock
            &&& r.document.contract_version == contract
        }),
{
}

/// The stream of a test ends with exit code zero and the verdict exactly where the
/// daemon gave one, though it be a refusal, and else with exit code one and an error.
pub proof fn only_a_verdict_ends_well(s: StreamV, a: Answered<Verdict>)
    ensures
        auth_test_ending(s, a).1 == 0 <==> a is Payload,
        auth_test_ending(s, a).1 == 1 <==> !(a is Payload),
        auth_test_ending(s, a).0.terminal,
        auth_test_ending(s, a).0.data is Some <==> a is Payload,
        auth_test_ending(s, a).0.error is Some <==> !(a is Payload),
        auth_test_ending(s, a).0.sequence == s.sequence,
        auth_test_ending(s, a).0.operation_id == s.operation_id,
        a matches Answered::Payload(v) ==> auth_test_ending(s, a).0.data == Some(verdict_data(v)),
{
}

/// The lock stands in the runtime directory where there is one; without one, two
/// users never share a directory.
pub proof fn each_user_has_a_lock_of_their_own(dir: Seq<char>, a: nat, b: nat)
    ensures
        session_dir(Some(dir), a) == dir,
        session_dir(None, a) == session_dir(None, b) ==> a == b,
{
    let p = "/tmp/irlume-"@;
    let x = session_dir(None, a);
    let y = session_dir(None, b);
    if x == y {
        assert(x.skip(p.len() as int) =~= crate::text::decimal(a));
        assert(y.skip(p.len() as int) =~= crate::text::decimal(b));
        crate::text::no_two_numbers_are_shown_alike(a, b);
    }
}

} // verus!
