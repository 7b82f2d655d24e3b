//! Talking to `irlumed`: what an answer to a ping establishes, how long a
//! request may take, and how a failed request is worded.

use vstd::prelude::*;

use crate::console::{fail_with, failed, said, say_out, Outcome, OutcomeV};
use crate::text::{cat2, cat4, contains, occurs, owned};

verus! {

/// What a ping established about the daemon.
#[derive(Clone, Copy, Debug, PartialEq, Eq, Structural)]
pub enum DaemonReach {
    /// Answering and ready.
    Running,
    /// Answering, but the engine is still loading models.
    Starting,
    /// The socket is there but this user may not connect; says nothing about
    /// the daemon's health.
    AccessDenied,
    /// Nothing is listening, or the reply was unusable.
    Down,
}

/// How a ping ended.
#[derive(Clone, Copy, Debug, PartialEq, Eq, Structural)]
pub enum PingOutcome {
    /// The daemon's own answer to a ping.
    Pong,
    /// A plain acknowledgement.
    Acknowledged,
    /// Any other reply.
    OtherReply,
    /// The connection was refused to this user.
    PermissionDenied,
    /// Any other failure.
    Failed,
}

/// What each outcome of a ping means.
pub open spec fn reach_of(p: PingOutcome) -> DaemonReach {
    match p {
        PingOutcome::Pong => DaemonReach::Running,
        PingOutcome::Acknowledged => DaemonReach::Starting,
        PingOutcome::OtherReply => DaemonReach::Down,
        PingOutcome::PermissionDenied => DaemonReach::AccessDenied,
        PingOutcome::Failed => DaemonReach::Down,
    }
}

/// Classifies one ping outcome.
pub fn classify_reach(p: PingOutcome) -> (r: DaemonReach)
    ensures
        r == reach_of(p),
{
    match p {
        PingOutcome::Pong => DaemonReach::Running,
        PingOutcome::Acknowledged => DaemonReach::Starting,
        PingOutcome::OtherReply => DaemonReach::Down,
        PingOutcome::PermissionDenied => DaemonReach::AccessDenied,
        PingOutcome::Failed => DaemonReach::Down,
    }
}

/// A refused connection is never read as a stopped daemon, and only the
/// daemon's own answer to a ping reads as a running one.
pub proof fn access_denied_is_not_down(p: PingOutcome)
    ensures
        reach_of(p) == DaemonReach::AccessDenied <==> p == PingOutcome::PermissionDenied,
        reach_of(p) == DaemonReach::Running <==> p == PingOutcome::Pong,
        p == PingOutcome::PermissionDenied ==> reach_of(p) != DaemonReach::Down,
{
}

/// Whether follow-up observations are asked of a daemon in that state.
pub fn observes(reach: DaemonReach) -> (r: bool)
    ensures
        r == (reach == DaemonReach::Running),
{
    match reach {
        DaemonReach::Running => true,
        _ => false,
    }
}

/// A failed request's message, with the hint where it adds information.
pub open spec fn unanswered(message: Seq<char>) -> Seq<char> {
    if occurs(message, "irlumed"@) {
        message
    } else {
        message + " (is irlumed running?)"@
    }
}

/// Words a failed request: a message that already names the daemon stays as it
/// is.
pub fn request_failed(message: &str) -> (r: String)
    ensures
        r@ == unanswered(message@),
{
    if contains(message, "irlumed") {
        owned(message)
    } else {
        cat2(message, " (is irlumed running?)")
    }
}

/// The daemon's answer to a request that it acknowledges in words.
pub enum TextAnswer {
    Acknowledged(String),
    Refused(String),
    /// An answer of another kind, as the daemon's side prints it.
    Unexpected(String),
    /// No answer, and why.
    Failed(String),
}

/// How such an answer is reported: only an acknowledgement is a success.
pub open spec fn text_report(tag: Seq<char>, a: TextAnswer) -> OutcomeV {
    match a {
        TextAnswer::Acknowledged(m) => said("["@ + tag + "] "@ + m@),
        TextAnswer::Refused(e) => failed("["@ + tag + "] "@ + e@, 1),
        TextAnswer::Unexpected(d) => failed("["@ + tag + "] unexpected response "@ + d@, 1),
        TextAnswer::Failed(e) => failed("["@ + tag + "] "@ + e@, 1),
    }
}

/// Reports the daemon's answer under a tag.
pub fn report_ok_response(tag: &str, a: TextAnswer) -> (r: Outcome)
    ensures
        r@ == text_report(tag@, a),
{
    match a {
        TextAnswer::Acknowledged(m) => say_out(cat4("[", tag, "] ", m.as_str())),
        TextAnswer::Refused(e) => fail_with(cat4("[", tag, "] ", e.as_str()), 1),
        TextAnswer::Unexpected(d) => fail_with(
            cat4("[", tag, "] unexpected response ", d.as_str()),
            1,
        ),
        TextAnswer::Failed(e) => fail_with(cat4("[", tag, "] ", e.as_str()), 1),
    }
}

/// Each outcome of a ping is read as one state: an acknowledgement as one that is
/// still loading, and anything but that, the daemon's own answer or a refused
/// connection as none at all.
pub proof fn each_ping_is_read_as_one_state(p: PingOutcome)
    ensures
        reach_of(p) == DaemonReach::Starting <==> p == PingOutcome::Acknowledged,
        reach_of(p) == DaemonReach::Down <==> p == PingOutcome::OtherReply || p
            == PingOutcome::Failed,
{
}

/// Only an acknowledgement is a success; everything else is told on stderr and fails.
pub proof fn only_an_acknowledgement_is_a_success(tag: Seq<char>, a: TextAnswer)
    ensures
        text_report(tag, a).exit == 0 <==> a is Acknowledged,
        text_report(tag, a).exit == 1 <==> !(a is Acknowledged),
        text_report(tag, a).says.len() == 1,
        text_report(tag, a).says[0] is Out <==> a is Acknowledged,
{
}

/// The message of a failed request is kept, and the hint follows exactly where the
/// message does not name the daemon yet.
pub proof fn a_failed_request_keeps_its_message(message: Seq<char>)
    ensures
        message.is_prefix_of(unanswered(message)),
        unanswered(message).len() > message.len() <==> !occurs(message, "irlumed"@),
{
    reveal_strlit(" (is irlumed running?)");
    assert(" (is irlumed running?)"@.len() > 0);
    assert(unanswered(message).subrange(0, message.len() as int) =~= message);
}

} // verus!
