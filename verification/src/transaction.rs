//! Login transactions: what was changed, on what authority, and whether the
//! machine is still as an apply left it.

use vstd::prelude::*;

use crate::args::has_arg;
use crate::contract::{negotiated, stripped, without_contract, Contract};
use crate::flags::{
    login_apply_request, transaction_request, valid_id, valid_login_apply_args,
    valid_transaction_args,
};
use crate::ids::{random_id, spells_bytes};
use crate::json::{no_fields, text_values, Json, JsonArr, JsonObj, JsonV};
use crate::machine::{
    answer, answered, fail_with_extra, failed_with, open_contract, opened_if, opt_reply, refuse,
    refuse_usage, refused, require_root, root_refusal, Reply, ReplyV, ENGINE_VERSION,
};
use crate::plan::{change_id, plan_id, plan_identifier, planned_views, PlannedChange, PlannedSurface, PlannedV};
use crate::rollback::RollbackProgress;
use crate::text::{cat2, opt_text, owned, push_line, same, texts};

verus! {

/// The backup beside a surface, as it was before an apply.
pub struct SidecarRecord {
    pub path: String,
    pub after_sha256: String,
    pub before: Option<String>,
    pub mode: Option<u32>,
    pub uid: Option<u32>,
    pub gid: Option<u32>,
}

/// One surface of a transaction: its content and metadata from before, and the
/// digest of what apply wrote.
pub struct SurfaceRecord {
    pub id: String,
    pub path: String,
    pub change: String,
    pub before: Option<String>,
    pub after_sha256: String,
    pub mode: Option<u32>,
    pub uid: Option<u32>,
    pub gid: Option<u32>,
    pub sidecar: Option<SidecarRecord>,
}

/// How far a transaction got.
#[derive(Clone, Copy, Debug, PartialEq, Eq, Structural)]
pub enum TransactionStatus {
    /// The state from before is recorded; the writes were never confirmed.
    Prepared,
    /// The writes are confirmed.
    Applied,
    /// A status that a newer engine wrote.
    Unknown,
}

/// The record of one login change.
pub struct Transaction {
    pub id: String,
    pub schema_version: u32,
    pub status: TransactionStatus,
    pub action: String,
    pub plan_id: String,
    pub engine_version: String,
    pub surfaces: Vec<SurfaceRecord>,
}

/// How a surface compares with what apply left.
#[derive(Clone, Copy, Debug, PartialEq, Eq, Structural)]
pub enum Drift {
    AsApplied,
    ChangedSinceApply,
    Unreadable,
}

/// The published name of a comparison.
pub open spec fn drift_state(d: Drift) -> Seq<char> {
    match d {
        Drift::AsApplied => "as-applied"@,
        Drift::ChangedSinceApply => "changed-since-apply"@,
        Drift::Unreadable => "unreadable"@,
    }
}

/// One surface and how it compares.
pub struct Observed {
    pub id: String,
    pub drift: Drift,
}

pub open spec fn observed_views(v: Seq<Observed>) -> Seq<(Seq<char>, Drift)> {
    v.map_values(|o: Observed| (o.id@, o.drift))
}

/// How many surfaces are not as apply left them.
pub open spec fn drifted_count(v: Seq<(Seq<char>, Drift)>) -> nat {
    v.filter(|o: (Seq<char>, Drift)| o.1 != Drift::AsApplied).len()
}

pub open spec fn observed_json(o: (Seq<char>, Drift)) -> JsonV {
    JsonV::Obj(
        no_fields().push(("surface"@, JsonV::Str(o.0))).push(
            ("state"@, JsonV::Str(drift_state(o.1))),
        ),
    )
}

pub open spec fn observed_jsons(v: Seq<(Seq<char>, Drift)>) -> Seq<JsonV> {
    v.map_values(|o: (Seq<char>, Drift)| observed_json(o))
}

/// Compares as `d`.
pub open spec fn drift_is(d: Drift) -> spec_fn((Seq<char>, Drift)) -> bool {
    |o: (Seq<char>, Drift)| o.1 == d
}

/// The ids of the surfaces that compare as `d`, in order.
pub open spec fn ids_with(v: Seq<(Seq<char>, Drift)>, d: Drift) -> Seq<Seq<char>> {
    v.filter(drift_is(d)).map_values(|o: (Seq<char>, Drift)| o.0)
}

fn drift_word(d: Drift) -> (r: &'static str)
    ensures
        r@ == drift_state(d),
{
    match d {
        Drift::AsApplied => "as-applied",
        Drift::ChangedSinceApply => "changed-since-apply",
        Drift::Unreadable => "unreadable",
    }
}

proof fn lemma_filter_step<A>(v: Seq<A>, i: int, p: spec_fn(A) -> bool)
    requires
        0 <= i < v.len(),
    ensures
        v.take(i + 1).filter(p) == (if p(v[i]) {
            v.take(i).filter(p).push(v[i])
        } else {
            v.take(i).filter(p)
        }),
{
    let t = v.take(i + 1);
    assert(t.drop_last() =~= v.take(i));
    assert(t.last() == v[i]);
    reveal(Seq::filter);
}

/// Each surface's state, and how many are not as apply left them.
pub fn verify_surfaces(observed: &[Observed]) -> (r: (Json, u64))
    ensures
        r.0@ == JsonV::Arr(observed_jsons(observed_views(observed@))),
        r.1 == drifted_count(observed_views(observed@)),
{
    let ghost views = observed_views(observed@);
    let ghost p = |o: (Seq<char>, Drift)| o.1 != Drift::AsApplied;
    let mut a = JsonArr::new();
    let mut drifted: u64 = 0;
    let mut i: usize = 0;
    proof {
        assert(observed_jsons(views).take(0) =~= Seq::<JsonV>::empty());
        assert(views.take(0) =~= Seq::<(Seq<char>, Drift)>::empty());
        reveal(Seq::filter);
    }
    while i < observed.len()
        invariant
            i <= observed@.len(),
            views == observed_views(observed@),
            p == (|o: (Seq<char>, Drift)| o.1 != Drift::AsApplied),
            a@ == observed_jsons(views).take(i as int),
            drifted == views.take(i as int).filter(p).len(),
            drifted <= i,
        decreases observed@.len() - i,
    {
        let mut o = JsonObj::new();
        o.put("surface", Json::text(observed[i].id.as_str()));
        o.put("state", Json::text(drift_word(observed[i].drift)));
        a.put(Json::obj(o));
        let steady = match observed[i].drift {
            Drift::AsApplied => true,
            _ => false,
        };
        proof {
            assert(a@ =~= observed_jsons(views).take(i + 1));
            lemma_filter_step(views, i as int, p);
            assert(views[i as int].1 == observed@[i as int].drift);
        }
        if !steady {
            drifted = drifted + 1;
        }
        i = i + 1;
    }
    proof {
        assert(views.take(views.len() as int) =~= views);
        assert(observed_jsons(views).take(views.len() as int) =~= observed_jsons(views));
    }
    (Json::arr(a), drifted)
}

/// What blocks a rollback, kept apart by reason: a file that changed and one
/// that cannot be read are different problems.
pub struct RollbackBlockers {
    pub changed: Vec<String>,
    pub unreadable: Vec<String>,
}

impl RollbackBlockers {
    pub open spec fn blocks(self) -> bool {
        self.changed@.len() > 0 || self.unreadable@.len() > 0
    }

    pub fn any(&self) -> (r: bool)
        ensures
            r == self.blocks(),
    {
        self.changed.len() > 0 || self.unreadable.len() > 0
    }
}

/// The surfaces that stop a rollback. The comparisons are those that pass over
/// what a stopped run already put back.
pub fn rollback_blockers(observed: &[Observed]) -> (r: RollbackBlockers)
    ensures
        texts(r.changed@) == ids_with(observed_views(observed@), Drift::ChangedSinceApply),
        texts(r.unreadable@) == ids_with(observed_views(observed@), Drift::Unreadable),
{
    let ghost views = observed_views(observed@);
    let ghost pc = drift_is(Drift::ChangedSinceApply);
    let ghost pu = drift_is(Drift::Unreadable);
    let ghost name = |o: (Seq<char>, Drift)| o.0;
    let mut changed = crate::text::no_lines();
    let mut unreadable = crate::text::no_lines();
    let mut i: usize = 0;
    proof {
        assert(views.take(0) =~= Seq::<(Seq<char>, Drift)>::empty());
        reveal(Seq::filter);
        assert(views.take(0).filter(pc).map_values(name) =~= Seq::<Seq<char>>::empty());
        assert(views.take(0).filter(pu).map_values(name) =~= Seq::<Seq<char>>::empty());
    }
    while i < observed.len()
        invariant
            i <= observed@.len(),
            views == observed_views(observed@),
            pc == drift_is(Drift::ChangedSinceApply),
            pu == drift_is(Drift::Unreadable),
            name == (|o: (Seq<char>, Drift)| o.0),
            texts(changed@) == views.take(i as int).filter(pc).map_values(name),
            texts(unreadable@) == views.take(i as int).filter(pu).map_values(name),
        decreases observed@.len() - i,
    {
        let ghost v = views[i as int];
        proof {
            assert(v == (observed@[i as int].id@, observed@[i as int].drift));
            lemma_filter_step(views, i as int, pc);
            lemma_filter_step(views, i as int, pu);
            assert(views.take(i as int).filter(pc).push(v).map_values(name) =~= views.take(
                i as int,
            ).filter(pc).map_values(name).push(v.0));
            assert(views.take(i as int).filter(pu).push(v).map_values(name) =~= views.take(
                i as int,
            ).filter(pu).map_values(name).push(v.0));
        }
        match observed[i].drift {
            Drift::AsApplied => {},
            Drift::ChangedSinceApply => {
                push_line(&mut changed, owned(observed[i].id.as_str()));
            },
            Drift::Unreadable => {
                push_line(&mut unreadable, owned(observed[i].id.as_str()));
            },
        }
        i = i + 1;
    }
    proof {
        assert(views.take(views.len() as int) =~= views);
    }
    RollbackBlockers { changed, unreadable }
}

/// Whether any surface stops a rollback.
pub open spec fn blocked(v: Seq<(Seq<char>, Drift)>) -> bool {
    ids_with(v, Drift::ChangedSinceApply).len() > 0 || ids_with(v, Drift::Unreadable).len() > 0
}

proof fn lemma_filter_nonempty<A>(v: Seq<A>, p: spec_fn(A) -> bool)
    ensures
        v.filter(p).len() > 0 <==> exists|i: int| 0 <= i < v.len() && p(#[trigger] v[i]),
    decreases v.len(),
{
    reveal(Seq::filter);
    if v.len() > 0 {
        lemma_filter_nonempty(v.drop_last(), p);
        if v.drop_last().filter(p).len() > 0 {
            let i = choose|i: int| 0 <= i < v.drop_last().len() && p(#[trigger] v.drop_last()[i]);
            assert(p(v[i]));
        }
        if p(v.last()) {
            assert(p(v[v.len() - 1]));
        }
        if exists|i: int| 0 <= i < v.len() && p(#[trigger] v[i]) {
            let i = choose|i: int| 0 <= i < v.len() && p(#[trigger] v[i]);
            if i < v.len() - 1 {
                assert(p(v.drop_last()[i]));
            }
        }
    }
}

/// Only a stack whose every surface is exactly as apply left it rolls back.
pub proof fn a_rollback_is_allowed_only_when_nothing_drifted(v: Seq<(Seq<char>, Drift)>)
    ensures
        blocked(v) <==> drifted_count(v) > 0,
        !blocked(v) <==> forall|i: int| 0 <= i < v.len() ==> (#[trigger] v[i]).1 == Drift::AsApplied,
{
    let pc = drift_is(Drift::ChangedSinceApply);
    let pu = drift_is(Drift::Unreadable);
    let pd = |o: (Seq<char>, Drift)| o.1 != Drift::AsApplied;
    lemma_filter_nonempty(v, pc);
    lemma_filter_nonempty(v, pu);
    lemma_filter_nonempty(v, pd);
    if v.filter(pd).len() > 0 {
        let i = choose|i: int| 0 <= i < v.len() && pd(#[trigger] v[i]);
        assert(pc(v[i]) || pu(v[i]));
    }
    if v.filter(pc).len() > 0 {
        let i = choose|i: int| 0 <= i < v.len() && pc(#[trigger] v[i]);
        assert(pd(v[i]));
    }
    if v.filter(pu).len() > 0 {
        let i = choose|i: int| 0 <= i < v.len() && pu(#[trigger] v[i]);
        assert(pd(v[i]));
    }
    if forall|i: int| 0 <= i < v.len() ==> (#[trigger] v[i]).1 == Drift::AsApplied {
        assert(forall|i: int| 0 <= i < v.len() ==> !pd(#[trigger] v[i]));
    } else {
        let i = choose|i: int| 0 <= i < v.len() && (#[trigger] v[i]).1 != Drift::AsApplied;
        assert(pd(v[i]));
    }
}

/// Why a transaction record could not be loaded.
#[derive(Clone, Copy, Debug, PartialEq, Eq, Structural)]
pub enum LoadFailure {
    NotFound,
    NotAuthorized,
    Unreadable,
    /// A record of a newer format than this build reads.
    TooNew,
}

/// The published code of each reason; none is folded into another.
pub open spec fn load_failure_code(f: LoadFailure) -> Seq<char> {
    match f {
        LoadFailure::NotFound => "not-found"@,
        LoadFailure::NotAuthorized => "not-authorized"@,
        LoadFailure::Unreadable => "operation-failed"@,
        LoadFailure::TooNew => "unsupported-record"@,
    }
}

/// Reports why a record could not be loaded.
pub fn load_failure(command: &'static str, reason: LoadFailure, contract: u32) -> (r: Reply)
    ensures
        r@ == refused(command@, load_failure_code(reason), false, contract, 1),
{
    let code = match reason {
        LoadFailure::NotFound => "not-found",
        LoadFailure::NotAuthorized => "not-authorized",
        LoadFailure::Unreadable => "operation-failed",
        LoadFailure::TooNew => "unsupported-record",
    };
    refuse(command, code, false, contract, 1)
}

/// How a transaction command is opened.
pub open spec fn transaction_opened(
    command: Seq<char>,
    args: Seq<Seq<char>>,
    sub: Seq<char>,
    allow_apply: bool,
) -> Result<u32, ReplyV> {
    opened_if(command, args, transaction_request(stripped(args), sub, allow_apply) is Some)
}

/// Opens `login verify`: the contract and the transaction id.
pub fn login_verify(args: &[String]) -> (r: Result<(u32, String), Reply>)
    ensures
        match r {
            Ok((v, id)) => transaction_opened("login.verify"@, texts(args@), "verify"@, false) == Ok::<
                u32,
                ReplyV,
            >(v) && transaction_request(stripped(texts(args@)), "verify"@, false) == Some(id@),
            Err(reply) => transaction_opened("login.verify"@, texts(args@), "verify"@, false)
                == Err::<u32, ReplyV>(reply@),
        },
{
    match open_contract("login.verify", args) {
        Err(reply) => Err(reply),
        Ok(v) => {
            let rest = without_contract(args);
            match valid_transaction_args(rest.as_slice(), "verify", false) {
                Some(id) => Ok((v, id)),
                None => Err(refuse_usage("login.verify", v)),
            }
        },
    }
}

/// The published name of a status.
pub open spec fn status_word(s: TransactionStatus) -> Seq<char> {
    match s {
        TransactionStatus::Applied => "applied"@,
        TransactionStatus::Prepared => "prepared"@,
        TransactionStatus::Unknown => "unknown"@,
    }
}

/// Whether `login rollback` would be accepted as the machine stands.
pub open spec fn rollback_available(
    status: TransactionStatus,
    remaining: Seq<(Seq<char>, Drift)>,
) -> bool {
    status == TransactionStatus::Applied && !blocked(remaining)
}

pub open spec fn progress_json(started: Seq<Seq<char>>, done: Seq<Seq<char>>) -> JsonV {
    JsonV::Obj(
        no_fields().push(("started"@, JsonV::Arr(text_values(started)))).push(
            ("done"@, JsonV::Arr(text_values(done))),
        ),
    )
}

/// What `login verify` answers. `observed` compares every surface; `remaining`
/// passes over what a stopped rollback already put back.
pub open spec fn verify_data(
    record: Transaction,
    observed: Seq<(Seq<char>, Drift)>,
    remaining: Seq<(Seq<char>, Drift)>,
    restored: RollbackProgress,
) -> JsonV {
    JsonV::Obj(
        no_fields().push(("transaction_id"@, JsonV::Str(record.id@))).push(
            ("action"@, JsonV::Str(record.action@)),
        ).push(("plan_id"@, JsonV::Str(record.plan_id@))).push(
            ("status"@, JsonV::Str(status_word(record.status))),
        ).push(("surfaces"@, JsonV::Arr(observed_jsons(observed)))).push(
            ("drifted"@, JsonV::Num(drifted_count(observed))),
        ).push(
            ("rollback_available"@, JsonV::Bool(rollback_available(record.status, remaining))),
        ).push(
            (
                "already_restored"@,
                progress_json(texts(restored.started@), texts(restored.done@)),
            ),
        ),
    )
}

fn is_applied(s: TransactionStatus) -> (r: bool)
    ensures
        r == (s == TransactionStatus::Applied),
{
    match s {
        TransactionStatus::Applied => true,
        _ => false,
    }
}

/// What `login verify` answers about a loaded record.
pub fn login_verify_reply(
    record: &Transaction,
    observed: &[Observed],
    remaining: &[Observed],
    restored: &RollbackProgress,
    contract: u32,
) -> (r: Reply)
    ensures
        r@ == answered(
            "login.verify"@,
            verify_data(
                *record,
                observed_views(observed@),
                observed_views(remaining@),
                *restored,
            ),
            contract,
        ),
{
    let (surfaces, drifted) = verify_surfaces(observed);
    let blocking = rollback_blockers(remaining);
    proof {
        assert(texts(blocking.changed@).len() == blocking.changed@.len());
        assert(texts(blocking.unreadable@).len() == blocking.unreadable@.len());
    }
    let status = match record.status {
        TransactionStatus::Applied => "applied",
        TransactionStatus::Prepared => "prepared",
        TransactionStatus::Unknown => "unknown",
    };
    let mut progress = JsonObj::new();
    progress.put("started", Json::texts(&restored.started));
    progress.put("done", Json::texts(&restored.done));
    let mut o = JsonObj::new();
    o.put("transaction_id", Json::text(record.id.as_str()));
    o.put("action", Json::text(record.action.as_str()));
    o.put("plan_id", Json::text(record.plan_id.as_str()));
    o.put("status", Json::text(status));
    o.put("surfaces", surfaces);
    o.put("drifted", Json::num(drifted));
    o.put("rollback_available", Json::flag(is_applied(record.status) && !blocking.any()));
    o.put("already_restored", Json::obj(progress));
    answer("login.verify", Json::obj(o), contract)
}

/// What `login rollback` was asked to do.
pub struct RollbackRequest {
    pub contract: u32,
    pub id: String,
    pub will_apply: bool,
    pub accept_unconfirmed: bool,
}

/// Opens `login rollback`: the contract, the transaction, and whether to write.
pub fn login_rollback(args: &[String]) -> (r: Result<RollbackRequest, Reply>)
    ensures
        match r {
            Ok(q) => transaction_opened("login.rollback"@, texts(args@), "rollback"@, true) == Ok::<
                u32,
                ReplyV,
            >(q.contract) && transaction_request(stripped(texts(args@)), "rollback"@, true) == Some(
                q.id@,
            ) && q.will_apply == stripped(texts(args@)).contains("--apply"@) && q.accept_unconfirmed
                == stripped(texts(args@)).contains("--accept-unconfirmed"@),
            Err(reply) => transaction_opened("login.rollback"@, texts(args@), "rollback"@, true)
                == Err::<u32, ReplyV>(reply@),
        },
{
    match open_contract("login.rollback", args) {
        Err(reply) => Err(reply),
        Ok(contract) => {
            let rest = without_contract(args);
            match valid_transaction_args(rest.as_slice(), "rollback", true) {
                Some(id) => {
                    let will_apply = has_arg(rest.as_slice(), "--apply");
                    let accept_unconfirmed = has_arg(rest.as_slice(), "--accept-unconfirmed");
                    Ok(RollbackRequest { contract, id, will_apply, accept_unconfirmed })
                },
                None => Err(refuse_usage("login.rollback", contract)),
            }
        },
    }
}

/// What stops a change before anything is read: not being root, or another
/// process holding the lock. A run that writes nothing needs neither.
pub open spec fn write_refusal(
    command: Seq<char>,
    will_write: bool,
    euid: u32,
    locked: bool,
    contract: u32,
) -> Option<ReplyV> {
    if !will_write {
        None
    } else if euid != 0 {
        root_refusal(command, euid, contract)
    } else if !locked {
        Some(refused(command, "operation-failed"@, true, contract, 1))
    } else {
        None
    }
}

/// Refuses a change by a caller that is not root, or that could not take the
/// lock. `locked` is asked for only where the caller is root.
pub fn refuse_write(
    command: &'static str,
    will_write: bool,
    euid: u32,
    locked: bool,
    contract: u32,
) -> (r: Option<Reply>)
    ensures
        opt_reply(r) == write_refusal(command@, will_write, euid, locked, contract),
{
    if !will_write {
        return None;
    }
    match require_root(command, euid, contract) {
        Some(reply) => Some(reply),
        None => {
            if locked {
                None
            } else {
                Some(refuse(command, "operation-failed", true, contract, 1))
            }
        },
    }
}

/// Whether a loaded record may be rolled back, and if so whether without the
/// protection of confirmed digests.
pub open spec fn rollback_gate_result(
    status: TransactionStatus,
    accept_unconfirmed: bool,
    remaining: Seq<(Seq<char>, Drift)>,
    contract: u32,
) -> Result<bool, ReplyV> {
    if status != TransactionStatus::Applied {
        if accept_unconfirmed {
            Ok(true)
        } else {
            Err(refused("login.rollback"@, "unconfirmed-transaction"@, false, contract, 1))
        }
    } else if blocked(remaining) {
        Err(
            refused(
                "login.rollback"@,
                if ids_with(remaining, Drift::ChangedSinceApply).len() == 0 {
                    "operation-failed"@
                } else {
                    "changed-since-apply"@
                },
                false,
                contract,
                1,
            ),
        )
    } else {
        Ok(false)
    }
}

/// Decides whether a loaded record may be rolled back. Every surface is compared
/// before any is written.
pub fn rollback_gate(
    status: TransactionStatus,
    accept_unconfirmed: bool,
    remaining: &[Observed],
    contract: u32,
) -> (r: Result<bool, Reply>)
    ensures
        match r {
            Ok(unconfirmed) => rollback_gate_result(
                status,
                accept_unconfirmed,
                observed_views(remaining@),
                contract,
            ) == Ok::<bool, ReplyV>(unconfirmed),
            Err(reply) => rollback_gate_result(
                status,
                accept_unconfirmed,
                observed_views(remaining@),
                contract,
            ) == Err::<bool, ReplyV>(reply@),
        },
{
    if !is_applied(status) {
        if accept_unconfirmed {
            return Ok(true);
        }
        return Err(refuse("login.rollback", "unconfirmed-transaction", false, contract, 1));
    }
    let blockers = rollback_blockers(remaining);
    proof {
        assert(texts(blockers.changed@).len() == blockers.changed@.len());
        assert(texts(blockers.unreadable@).len() == blockers.unreadable@.len());
    }
    if blockers.any() {
        if blockers.changed.len() == 0 {
            return Err(refuse("login.rollback", "operation-failed", false, contract, 1));
        }
        return Err(refuse("login.rollback", "changed-since-apply", false, contract, 1));
    }
    Ok(false)
}

/// What `login verify` says of a rollback is what `login rollback` decides: it
/// is available exactly where one that accepts nothing unconfirmed may begin.
pub proof fn verify_and_rollback_agree(
    status: TransactionStatus,
    remaining: Seq<(Seq<char>, Drift)>,
    contract: u32,
)
    ensures
        rollback_available(status, remaining) <==> rollback_gate_result(
            status,
            false,
            remaining,
            contract,
        ) == Ok::<bool, ReplyV>(false),
        rollback_available(status, remaining) <==> rollback_gate_result(
            status,
            false,
            remaining,
            contract,
        ) is Ok,
{
}

/// A surface that stops a rollback is named once, in its turn, among those that
/// compare as it does, and no other surface is.
pub proof fn each_blocker_is_named_once(
    v: Seq<(Seq<char>, Drift)>,
    o: (Seq<char>, Drift),
    d: Drift,
)
    ensures
        ids_with(Seq::empty(), d) == Seq::<Seq<char>>::empty(),
        ids_with(v.push(o), d) == (if o.1 == d {
            ids_with(v, d).push(o.0)
        } else {
            ids_with(v, d)
        }),
{
    let name = |o: (Seq<char>, Drift)| o.0;
    reveal(Seq::filter);
    assert(v.push(o).drop_last() =~= v);
    assert(Seq::<(Seq<char>, Drift)>::empty().filter(drift_is(d)).map_values(name)
        =~= Seq::<Seq<char>>::empty());
    assert(v.filter(drift_is(d)).push(o).map_values(name) =~= v.filter(drift_is(d)).map_values(
        name,
    ).push(o.0));
}

proof fn lemma_named(v: Seq<(Seq<char>, Drift)>, d: Drift)
    ensures
        ids_with(v, d).len() > 0 <==> exists|i: int| 0 <= i < v.len() && (#[trigger] v[i]).1 == d,
{
    let p = drift_is(d);
    lemma_filter_nonempty(v, p);
    if v.filter(p).len() > 0 {
        let i = choose|i: int| 0 <= i < v.len() && p(#[trigger] v[i]);
        assert(v[i].1 == d);
    }
    if exists|i: int| 0 <= i < v.len() && (#[trigger] v[i]).1 == d {
        let i = choose|i: int| 0 <= i < v.len() && (#[trigger] v[i]).1 == d;
        assert(p(v[i]));
    }
}

/// A confirmed transaction may be rolled back exactly where every surface that
/// remains compares as apply left it. One surface that changed or cannot be read
/// is a refusal, whatever the others, and writes nothing; a change is named as
/// such, and what cannot be read is not called a change.
pub proof fn one_surface_that_drifted_stops_a_confirmed_rollback(
    accept_unconfirmed: bool,
    remaining: Seq<(Seq<char>, Drift)>,
    contract: u32,
)
    ensures
        ({
            let gate = rollback_gate_result(
                TransactionStatus::Applied,
                accept_unconfirmed,
                remaining,
                contract,
            );
            &&& gate is Ok <==> (forall|i: int|
                0 <= i < remaining.len() ==> (#[trigger] remaining[i]).1 == Drift::AsApplied)
            &&& gate is Ok ==> gate->Ok_0 == false
            &&& gate is Err ==> !gate->Err_0.document.ok && gate->Err_0.exit == 1
                && gate->Err_0.document.data is None && gate->Err_0.document.error is Some
                && !gate->Err_0.document.error->0.retryable
            &&& forall|i: int|
                0 <= i < remaining.len() && (#[trigger] remaining[i]).1 == Drift::ChangedSinceApply
                    ==> gate is Err && gate->Err_0.document.error->0.code
                    == "changed-since-apply"@
            &&& gate is Err && (forall|i: int|
                0 <= i < remaining.len() ==> (#[trigger] remaining[i]).1
                    != Drift::ChangedSinceApply) ==> gate->Err_0.document.error->0.code
                == "operation-failed"@
        }),
{
    lemma_named(remaining, Drift::ChangedSinceApply);
    lemma_named(remaining, Drift::Unreadable);
    a_rollback_is_allowed_only_when_nothing_drifted(remaining);
}

/// A transaction that was never confirmed is rolled back only where the caller
/// accepts that, whatever the surfaces compare as, and is then marked as such.
pub proof fn an_unconfirmed_rollback_needs_the_callers_word(
    status: TransactionStatus,
    accept_unconfirmed: bool,
    remaining: Seq<(Seq<char>, Drift)>,
    contract: u32,
)
    requires
        status != TransactionStatus::Applied,
    ensures
        ({
            let gate = rollback_gate_result(status, accept_unconfirmed, remaining, contract);
            &&& gate is Ok <==> accept_unconfirmed
            &&& gate is Ok ==> gate->Ok_0 == true
            &&& gate is Err ==> !gate->Err_0.document.ok && gate->Err_0.exit == 1
                && gate->Err_0.document.error->0.code == "unconfirmed-transaction"@
        }),
{
}

/// What `login verify` publishes: a rollback is available exactly where the
/// transaction is confirmed and every surface that remains compares as apply left
/// it, the count of drifted surfaces is zero exactly where none drifted, and each
/// surface is listed, in order, under the word of its comparison.
pub proof fn verify_publishes_what_was_compared(
    record: Transaction,
    observed: Seq<(Seq<char>, Drift)>,
    remaining: Seq<(Seq<char>, Drift)>,
    restored: RollbackProgress,
)
    ensures
        ({
            let data = verify_data(record, observed, remaining, restored);
            let free = record.status == TransactionStatus::Applied && forall|i: int|
                0 <= i < remaining.len() ==> (#[trigger] remaining[i]).1 == Drift::AsApplied;
            &&& data is Obj
            &&& data->Obj_0.contains(("rollback_available"@, JsonV::Bool(true))) <==> free
            &&& data->Obj_0.contains(("rollback_available"@, JsonV::Bool(false))) <==> !free
            &&& data->Obj_0.contains(("transaction_id"@, JsonV::Str(record.id@)))
            &&& data->Obj_0.contains(("plan_id"@, JsonV::Str(record.plan_id@)))
            &&& data->Obj_0.contains(("drifted"@, JsonV::Num(0))) <==> forall|i: int|
                0 <= i < observed.len() ==> (#[trigger] observed[i]).1 == Drift::AsApplied
            &&& exists|list: Seq<JsonV>|
                {
                    &&& #[trigger] data->Obj_0.contains(("surfaces"@, JsonV::Arr(list)))
                    &&& list.len() == observed.len()
                    &&& forall|i: int|
                        0 <= i < observed.len() ==> (#[trigger] list[i]) is Obj
                            && list[i]->Obj_0.contains(("surface"@, JsonV::Str(observed[i].0)))
                            && list[i]->Obj_0.contains(
                            (
                                "state"@,
                                JsonV::Str(
                                    match observed[i].1 {
                                        Drift::AsApplied => "as-applied"@,
                                        Drift::ChangedSinceApply => "changed-since-apply"@,
                                        Drift::Unreadable => "unreadable"@,
                                    },
                                ),
                            ),
                        )
                }
        }),
{
    a_rollback_is_allowed_only_when_nothing_drifted(remaining);
    a_rollback_is_allowed_only_when_nothing_drifted(observed);
    let fields = verify_data(record, observed, remaining, restored)->Obj_0;
    assert(fields[0] == ("transaction_id"@, JsonV::Str(record.id@)));
    assert(fields[2] == ("plan_id"@, JsonV::Str(record.plan_id@)));
    assert(fields[4] == ("surfaces"@, JsonV::Arr(observed_jsons(observed))));
    assert(fields[5] == ("drifted"@, JsonV::Num(drifted_count(observed))));
    assert(fields[6] == (
        "rollback_available"@,
        JsonV::Bool(rollback_available(record.status, remaining)),
    ));
    let list = observed_jsons(observed);
    assert(fields.contains(("surfaces"@, JsonV::Arr(list))));
    assert forall|i: int| 0 <= i < observed.len() implies (#[trigger] list[i]) is Obj
        && list[i]->Obj_0.contains(("surface"@, JsonV::Str(observed[i].0)))
        && list[i]->Obj_0.contains(
        (
            "state"@,
            JsonV::Str(
                match observed[i].1 {
                    Drift::AsApplied => "as-applied"@,
                    Drift::ChangedSinceApply => "changed-since-apply"@,
                    Drift::Unreadable => "unreadable"@,
                },
            ),
        ),
    ) by {
        let own = list[i]->Obj_0;
        assert(own[0] == ("surface"@, JsonV::Str(observed[i].0)));
        assert(own[1] == ("state"@, JsonV::Str(drift_state(observed[i].1))));
    }
}

/// The count of drifted surfaces grows by one with each surface that is not as
/// apply left it, and by nothing else.
pub proof fn each_drifted_surface_counts_once(v: Seq<(Seq<char>, Drift)>, o: (Seq<char>, Drift))
    ensures
        drifted_count(Seq::empty()) == 0,
        drifted_count(v.push(o)) == drifted_count(v) + if o.1 == Drift::AsApplied {
            0nat
        } else {
            1nat
        },
{
    reveal(Seq::filter);
    assert(v.push(o).drop_last() =~= v);
}

/// A change is refused exactly where it would write and the caller is not root,
/// or root without the lock; only the second is worth retrying.
pub proof fn only_root_with_the_lock_writes(
    command: Seq<char>,
    will_write: bool,
    euid: u32,
    locked: bool,
    contract: u32,
)
    ensures
        ({
            let r = write_refusal(command, will_write, euid, locked, contract);
            &&& r is None <==> !will_write || (euid == 0 && locked)
            &&& r is Some ==> !r->0.document.ok && r->0.exit == 1
            &&& will_write && euid != 0 ==> r->0.document.error->0.code == "not-authorized"@
                && !r->0.document.error->0.retryable
            &&& will_write && euid == 0 && !locked ==> r->0.document.error->0.code
                == "operation-failed"@ && r->0.document.error->0.retryable
        }),
{
}

/// What an apply did, or is about to do, to one surface.
pub struct AppliedSurface {
    pub id: &'static str,
    pub role: &'static str,
    pub path: String,
    pub change: PlannedChange,
    pub before: Option<String>,
    pub before_metadata: Option<(u32, u32, u32)>,
    pub after_sha256: String,
    pub sidecar_existed: bool,
    pub sidecar_before: Option<String>,
    pub sidecar_metadata: Option<(u32, u32, u32)>,
    pub sidecar_after_sha256: String,
    /// Why the surface could not be written.
    pub error: Option<String>,
}

/// The record of a backup carries its metadata piece by piece.
pub open spec fn sidecar_records(a: AppliedSurface, backup: Seq<char>, s: SidecarRecord) -> bool {
    &&& s.path@ == a.path@ + backup
    &&& s.after_sha256@ == a.sidecar_after_sha256@
    &&& opt_text(s.before) == opt_text(a.sidecar_before)
    &&& a.sidecar_metadata matches Some((m, u, g)) ==> s.mode == Some(m) && s.uid == Some(u)
        && s.gid == Some(g)
    &&& a.sidecar_metadata is None ==> s.mode is None && s.uid is None && s.gid is None
}

/// What the record of one surface says of it. A backup is recorded only where
/// there was one to speak of.
pub open spec fn records(a: AppliedSurface, backup: Seq<char>, s: SurfaceRecord) -> bool {
    &&& s.id@ == a.id@
    &&& s.path@ == a.path@
    &&& s.change@ == change_id(a.change)
    &&& opt_text(s.before) == opt_text(a.before)
    &&& s.after_sha256@ == a.after_sha256@
    &&& a.before_metadata matches Some((m, u, g)) ==> s.mode == Some(m) && s.uid == Some(u)
        && s.gid == Some(g)
    &&& a.before_metadata is None ==> s.mode is None && s.uid is None && s.gid is None
    &&& s.sidecar is Some <==> a.sidecar_existed || a.sidecar_before is Some
    &&& s.sidecar matches Some(k) ==> sidecar_records(a, backup, k)
}

pub open spec fn records_all(
    applied: Seq<AppliedSurface>,
    backup: Seq<char>,
    surfaces: Seq<SurfaceRecord>,
) -> bool {
    &&& surfaces.len() == applied.len()
    &&& forall|i: int| 0 <= i < applied.len() ==> records(applied[i], backup, #[trigger] surfaces[i])
}

fn copied(s: &Option<String>) -> (r: Option<String>)
    ensures
        opt_text(r) == opt_text(*s),
        r is Some == s is Some,
{
    match s {
        Some(s) => Some(owned(s.as_str())),
        None => None,
    }
}

fn pieces(m: Option<(u32, u32, u32)>) -> (r: (Option<u32>, Option<u32>, Option<u32>))
    ensures
        m matches Some((a, b, c)) ==> r == (Some(a), Some(b), Some(c)),
        m is None ==> r == (None::<u32>, None::<u32>, None::<u32>),
{
    match m {
        Some((a, b, c)) => (Some(a), Some(b), Some(c)),
        None => (None, None, None),
    }
}

fn surface_record(a: &AppliedSurface, backup: &str) -> (r: SurfaceRecord)
    ensures
        records(*a, backup@, r),
{
    let (mode, uid, gid) = pieces(a.before_metadata);
    let sidecar = if a.sidecar_existed || a.sidecar_before.is_some() {
        let (m, u, g) = pieces(a.sidecar_metadata);
        Some(
            SidecarRecord {
                path: cat2(a.path.as_str(), backup),
                after_sha256: owned(a.sidecar_after_sha256.as_str()),
                before: copied(&a.sidecar_before),
                mode: m,
                uid: u,
                gid: g,
            },
        )
    } else {
        None
    };
    SurfaceRecord {
        id: owned(a.id),
        path: owned(a.path.as_str()),
        change: owned(a.change.id()),
        before: copied(&a.before),
        after_sha256: owned(a.after_sha256.as_str()),
        mode,
        uid,
        gid,
        sidecar,
    }
}

/// The records of all surfaces, in order. `backup` is the suffix of a backup's
/// file name.
pub fn surface_records(applied: &[AppliedSurface], backup: &str) -> (r: Vec<SurfaceRecord>)
    ensures
        records_all(applied@, backup@, r@),
{
    let mut out: Vec<SurfaceRecord> = Vec::new();
    let mut i: usize = 0;
    while i < applied.len()
        invariant
            i <= applied@.len(),
            out@.len() == i,
            forall|j: int| 0 <= j < i ==> records(applied@[j], backup@, #[trigger] out@[j]),
        decreases applied@.len() - i,
    {
        out.push(surface_record(&applied[i], backup));
        i = i + 1;
    }
    out
}

/// Opens `login apply`: the contract, the action, and the plan the caller saw.
pub fn login_apply(args: &[String]) -> (r: Result<(u32, &'static str, String), Reply>)
    ensures
        match r {
            Ok((v, action, plan)) => negotiated(texts(args@)) == Contract::Agreed(v)
                && login_apply_request(stripped(texts(args@))) == Some((action@, plan@)),
            Err(reply) => opened_if(
                "login.apply"@,
                texts(args@),
                login_apply_request(stripped(texts(args@))) is Some,
            ) == Err::<u32, ReplyV>(reply@),
        },
{
    match open_contract("login.apply", args) {
        Err(reply) => Err(reply),
        Ok(v) => {
            let rest = without_contract(args);
            match valid_login_apply_args(rest.as_slice()) {
                Some((action, plan)) => Ok((v, action, plan)),
                None => Err(refuse_usage("login.apply", v)),
            }
        },
    }
}

/// A plan is stale when the machine now calls for another.
pub open spec fn stale_refusal(
    action: Seq<char>,
    supplied: Seq<char>,
    planned: Seq<PlannedV>,
    contract: u32,
) -> Option<ReplyV> {
    if plan_identifier(action, planned) == supplied {
        None
    } else {
        Some(refused("login.apply"@, "plan-stale"@, false, contract, 1))
    }
}

/// Refuses a plan that no longer describes this machine. The supplied id is
/// compared, never trusted.
pub fn refuse_stale(
    action: &str,
    supplied: &str,
    planned: &[PlannedSurface],
    contract: u32,
) -> (r: Option<Reply>)
    ensures
        opt_reply(r) == stale_refusal(action@, supplied@, planned_views(planned@), contract),
{
    let current = plan_id(action, planned);
    if same(current.as_str(), supplied) {
        None
    } else {
        Some(refuse("login.apply", "plan-stale", false, contract, 1))
    }
}

/// The record to store before the first write: the state from before of every
/// surface, under a fresh id.
pub fn prepare_record(
    action: &str,
    plan: &str,
    prepared: &[AppliedSurface],
    backup: &str,
    schema_version: u32,
) -> (r: Transaction)
    ensures
        spells_bytes(r.id@),
        valid_id(r.id@),
        r.schema_version == schema_version,
        r.status == TransactionStatus::Prepared,
        r.action@ == action@,
        r.plan_id@ == plan@,
        r.engine_version@ == ENGINE_VERSION@,
        records_all(prepared@, backup@, r.surfaces@),
{
    Transaction {
        id: random_id(),
        schema_version,
        status: TransactionStatus::Prepared,
        action: owned(action),
        plan_id: owned(plan),
        engine_version: owned(ENGINE_VERSION),
        surfaces: surface_records(prepared, backup),
    }
}

/// The refusal when the record cannot be stored: nothing has been touched yet.
pub fn prepare_failed(contract: u32) -> (r: Reply)
    ensures
        r@ == refused("login.apply"@, "operation-failed"@, true, contract, 1),
{
    refuse("login.apply", "operation-failed", true, contract, 1)
}

/// The record to store after the writes: the same transaction, confirmed, with
/// what each surface now holds.
pub fn confirm_record(record: Transaction, applied: &[AppliedSurface], backup: &str) -> (r:
    Transaction)
    ensures
        r.id == record.id,
        r.schema_version == record.schema_version,
        r.status == TransactionStatus::Applied,
        r.action == record.action,
        r.plan_id == record.plan_id,
        r.engine_version == record.engine_version,
        records_all(applied@, backup@, r.surfaces@),
{
    Transaction {
        id: record.id,
        schema_version: record.schema_version,
        status: TransactionStatus::Applied,
        action: record.action,
        plan_id: record.plan_id,
        engine_version: record.engine_version,
        surfaces: surface_records(applied, backup),
    }
}

/// How many surfaces could not be written.
pub open spec fn failed_count(applied: Seq<AppliedSurface>) -> nat {
    applied.filter(|a: AppliedSurface| a.error is Some).len()
}

pub open spec fn applied_json(a: AppliedSurface) -> JsonV {
    JsonV::Obj(
        no_fields().push(("surface"@, JsonV::Str(a.id@))).push(("role"@, JsonV::Str(a.role@))).push(
            ("change"@, JsonV::Str(change_id(a.change))),
        ).push(("applied"@, JsonV::Bool(a.error is None))),
    )
}

pub open spec fn applied_jsons(applied: Seq<AppliedSurface>) -> Seq<JsonV> {
    applied.map_values(|a: AppliedSurface| applied_json(a))
}

/// What `login apply` answers once the writes are over. A partial apply is a
/// failure that names its transaction, so that it can be rolled back; so is one
/// whose confirmation could not be stored.
pub open spec fn apply_outcome(
    record: Transaction,
    applied: Seq<AppliedSurface>,
    confirmed: bool,
    contract: u32,
) -> ReplyV {
    let id = no_fields().push(("transaction_id"@, JsonV::Str(record.id@)));
    if !confirmed {
        failed_with(
            "login.apply"@,
            "operation-failed"@,
            false,
            contract,
            id.push(("status"@, JsonV::Str("prepared"@))),
        )
    } else if failed_count(applied) > 0 {
        failed_with(
            "login.apply"@,
            "operation-failed"@,
            false,
            contract,
            id.push(("failed"@, JsonV::Num(failed_count(applied)))),
        )
    } else {
        answered(
            "login.apply"@,
            JsonV::Obj(
                id.push(("plan_id"@, JsonV::Str(record.plan_id@))).push(
                    ("action"@, JsonV::Str(record.action@)),
                ).push(("changes"@, JsonV::Arr(applied_jsons(applied)))).push(
                    ("applied"@, JsonV::Num(applied.len())),
                ).push(("failed"@, JsonV::Num(0))),
            ),
            contract,
        )
    }
}

/// Counts the surfaces that could not be written.
pub fn count_failed(applied: &[AppliedSurface]) -> (r: u64)
    ensures
        r == failed_count(applied@),
        r <= applied@.len(),
{
    let ghost p = |a: AppliedSurface| a.error is Some;
    let mut n: u64 = 0;
    let mut i: usize = 0;
    proof {
        assert(applied@.take(0) =~= Seq::<AppliedSurface>::empty());
        reveal(Seq::filter);
    }
    while i < applied.len()
        invariant
            i <= applied@.len(),
            p == (|a: AppliedSurface| a.error is Some),
            n == applied@.take(i as int).filter(p).len(),
            n <= i,
        decreases applied@.len() - i,
    {
        proof {
            lemma_filter_step(applied@, i as int, p);
        }
        if applied[i].error.is_some() {
            n = n + 1;
        }
        i = i + 1;
    }
    proof {
        assert(applied@.take(applied@.len() as int) =~= applied@);
    }
    n
}

/// What `login apply` answers once the writes are over. `confirmed` says whether
/// the confirmed record could be stored.
pub fn login_apply_reply(
    record: &Transaction,
    applied: &[AppliedSurface],
    confirmed: bool,
    contract: u32,
) -> (r: Reply)
    ensures
        r@ == apply_outcome(*record, applied@, confirmed, contract),
{
    let mut o = JsonObj::new();
    o.put("transaction_id", Json::text(record.id.as_str()));
    if !confirmed {
        o.put("status", Json::text("prepared"));
        return fail_with_extra("login.apply", "operation-failed", false, contract, o);
    }
    let failed: u64 = count_failed(applied);
    if failed > 0 {
        o.put("failed", Json::num(failed));
        return fail_with_extra("login.apply", "operation-failed", false, contract, o);
    }
    let mut changes = JsonArr::new();
    let ghost want = applied_jsons(applied@);
    let mut i: usize = 0;
    proof {
        assert(want.take(0) =~= Seq::<JsonV>::empty());
    }
    while i < applied.len()
        invariant
            i <= applied@.len(),
            want == applied_jsons(applied@),
            changes@ == want.take(i as int),
        decreases applied@.len() - i,
    {
        let mut c = JsonObj::new();
        c.put("surface", Json::text(applied[i].id));
        c.put("role", Json::text(applied[i].role));
        c.put("change", Json::text(applied[i].change.id()));
        c.put("applied", Json::flag(applied[i].error.is_none()));
        changes.put(Json::obj(c));
        proof {
            assert(changes@ =~= want.take(i + 1));
        }
        i = i + 1;
    }
    proof {
        assert(want.take(want.len() as int) =~= want);
    }
    o.put("plan_id", Json::text(record.plan_id.as_str()));
    o.put("action", Json::text(record.action.as_str()));
    o.put("changes", Json::arr(changes));
    o.put("applied", Json::num(applied.len() as u64));
    o.put("failed", Json::num(0));
    answer("login.apply", Json::obj(o), contract)
}

proof fn lemma_failed(applied: Seq<AppliedSurface>)
    ensures
        failed_count(applied) > 0 <==> exists|i: int|
            0 <= i < applied.len() && (#[trigger] applied[i]).error is Some,
{
    let p = |a: AppliedSurface| a.error is Some;
    lemma_filter_nonempty(applied, p);
    if applied.filter(p).len() > 0 {
        let i = choose|i: int| 0 <= i < applied.len() && p(#[trigger] applied[i]);
        assert(applied[i].error is Some);
    }
    if exists|i: int| 0 <= i < applied.len() && (#[trigger] applied[i]).error is Some {
        let i = choose|i: int| 0 <= i < applied.len() && (#[trigger] applied[i]).error is Some;
        assert(p(applied[i]));
    }
}

/// The count of failed surfaces grows by one with each surface that could not be
/// written, and by nothing else.
pub proof fn each_failed_surface_counts_once(applied: Seq<AppliedSurface>, a: AppliedSurface)
    ensures
        failed_count(Seq::empty()) == 0,
        failed_count(applied.push(a)) == failed_count(applied) + if a.error is Some {
            1nat
        } else {
            0nat
        },
{
    reveal(Seq::filter);
    assert(applied.push(a).drop_last() =~= applied);
}

/// An apply is a success exactly where its confirmation was stored and no surface
/// carries an error. Anything less is a failure, exit code 1, that names its
/// transaction; where some surface could not be written it says how many.
pub proof fn a_partial_apply_is_a_failure(
    record: Transaction,
    applied: Seq<AppliedSurface>,
    confirmed: bool,
    contract: u32,
)
    ensures
        ({
            let r = apply_outcome(record, applied, confirmed, contract);
            let whole = confirmed && forall|i: int|
                0 <= i < applied.len() ==> (#[trigger] applied[i]).error is None;
            &&& r.document.ok <==> whole
            &&& r.exit == 0 <==> whole
            &&& r.exit == 0 || r.exit == 1
            &&& !whole ==> r.document.error is Some && r.document.error->0.code
                == "operation-failed"@ && r.document.data is None && r.extra.contains(
                ("transaction_id"@, JsonV::Str(record.id@)),
            )
            &&& confirmed && !whole ==> r.extra.contains(
                ("failed"@, JsonV::Num(failed_count(applied))),
            ) && failed_count(applied) > 0
            &&& !confirmed ==> r.extra.contains(("status"@, JsonV::Str("prepared"@)))
            &&& whole ==> r.document.data is Some && r.document.data->0 is Obj
                && r.document.data->0->Obj_0.contains(("failed"@, JsonV::Num(0)))
                && r.document.data->0->Obj_0.contains(("applied"@, JsonV::Num(applied.len())))
                && r.document.data->0->Obj_0.contains(
                ("transaction_id"@, JsonV::Str(record.id@)),
            )
        }),
{
    lemma_failed(applied);
    let r = apply_outcome(record, applied, confirmed, contract);
    if r.document.ok {
        let fields = r.document.data->0->Obj_0;
        assert(fields[0] == ("transaction_id"@, JsonV::Str(record.id@)));
        assert(fields[4] == ("applied"@, JsonV::Num(applied.len())));
        assert(fields[5] == ("failed"@, JsonV::Num(0)));
    } else {
        assert(r.extra[0] == ("transaction_id"@, JsonV::Str(record.id@)));
        if confirmed {
            assert(r.extra[1] == ("failed"@, JsonV::Num(failed_count(applied))));
        } else {
            assert(r.extra[1] == ("status"@, JsonV::Str("prepared"@)));
        }
    }
}

/// A record keeps of each surface, in order, everything that putting it back
/// takes: its path, its text from before, its mode and its owner, and the digest
/// that tells whether it changed since.
pub proof fn a_record_can_put_every_surface_back(
    applied: Seq<AppliedSurface>,
    backup: Seq<char>,
    surfaces: Seq<SurfaceRecord>,
    i: int,
)
    requires
        records_all(applied, backup, surfaces),
        0 <= i < applied.len(),
    ensures
        surfaces.len() == applied.len(),
        surfaces[i].path@ == applied[i].path@,
        surfaces[i].id@ == applied[i].id@,
        applied[i].before matches Some(text) ==> surfaces[i].before is Some
            && surfaces[i].before->0@ == text@,
        applied[i].before is None ==> surfaces[i].before is None,
        surfaces[i].after_sha256@ == applied[i].after_sha256@,
        applied[i].before_metadata matches Some((mode, uid, gid)) ==> surfaces[i].mode == Some(mode)
            && surfaces[i].uid == Some(uid) && surfaces[i].gid == Some(gid),
        applied[i].sidecar_existed ==> surfaces[i].sidecar is Some,
        applied[i].sidecar_before matches Some(text) ==> surfaces[i].sidecar is Some
            && surfaces[i].sidecar->0.before is Some && surfaces[i].sidecar->0.before->0@ == text@
            && surfaces[i].sidecar->0.path@ == applied[i].path@ + backup,
{
    assert(records(applied[i], backup, surfaces[i]));
}

/// An apply is refused as stale exactly where the machine's plan has another id
/// than the one the caller saw.
pub proof fn only_the_plan_that_was_seen_is_applied(
    action: Seq<char>,
    supplied: Seq<char>,
    planned: Seq<PlannedV>,
    contract: u32,
)
    ensures
        stale_refusal(action, supplied, planned, contract) is None <==> supplied
            == plan_identifier(action, planned),
        stale_refusal(action, supplied, planned, contract) matches Some(r) ==> !r.document.ok
            && r.exit == 1 && r.document.error->0.code == "plan-stale"@,
{
}

/// What is remembered as wired, for the unit that repairs regressions.
#[derive(Clone, Copy, Debug, PartialEq, Eq, Structural)]
pub struct WiredMarker {
    pub sudo: bool,
    pub polkit: bool,
    pub lock: bool,
    pub face_lock_intent: bool,
}

/// The marker to write after an apply: none where a surface failed. The scopes
/// an apply does not touch keep their flags, and the lock screen counts as
/// wired only where it is.
pub open spec fn marker_result(
    enable: bool,
    failed: bool,
    old_marker: Option<WiredMarker>,
    lock_wired: bool,
    face_lock_intent: bool,
) -> Option<WiredMarker> {
    if failed {
        None
    } else {
        Some(
            WiredMarker {
                sudo: old_marker is Some && old_marker->0.sudo,
                polkit: old_marker is Some && old_marker->0.polkit,
                lock: enable && lock_wired,
                face_lock_intent,
            },
        )
    }
}

pub fn marker_after(
    enable: bool,
    failed: bool,
    old_marker: Option<WiredMarker>,
    lock_wired: bool,
    face_lock_intent: bool,
) -> (r: Option<WiredMarker>)
    ensures
        r == marker_result(enable, failed, old_marker, lock_wired, face_lock_intent),
{
    if failed {
        return None;
    }
    let (sudo, polkit) = match old_marker {
        Some(m) => (m.sudo, m.polkit),
        None => (false, false),
    };
    Some(WiredMarker { sudo, polkit, lock: enable && lock_wired, face_lock_intent })
}

/// A failed apply leaves no new marker. A marker keeps what was remembered of sudo
/// and polkit, invents neither, and calls the lock screen wired only after an
/// enable that wired it.
pub proof fn a_marker_claims_only_what_is_wired(
    enable: bool,
    failed: bool,
    old_marker: Option<WiredMarker>,
    lock_wired: bool,
    face_lock_intent: bool,
)
    ensures
        ({
            let m = marker_result(enable, failed, old_marker, lock_wired, face_lock_intent);
            &&& m is None <==> failed
            &&& m is Some ==> (m->0.lock <==> enable && lock_wired)
            &&& m is Some ==> m->0.face_lock_intent == face_lock_intent
            &&& m is Some && old_marker is Some ==> m->0.sudo == old_marker->0.sudo
                && m->0.polkit == old_marker->0.polkit
            &&& m is Some && old_marker is None ==> !m->0.sudo && !m->0.polkit
        }),
{
}

/// No two reasons why a record could not be loaded are published alike.
pub proof fn each_load_failure_has_its_own_code(a: LoadFailure, b: LoadFailure)
    ensures
        load_failure_code(a) == load_failure_code(b) <==> a == b,
        load_failure_code(LoadFailure::NotFound) == "not-found"@,
        load_failure_code(LoadFailure::NotAuthorized) == "not-authorized"@,
        load_failure_code(LoadFailure::TooNew) == "unsupported-record"@,
{
    reveal_strlit("not-found");
    reveal_strlit("not-authorized");
    reveal_strlit("operation-failed");
    reveal_strlit("unsupported-record");
    assert("not-found"@.len() == 9);
    assert("not-authorized"@.len() == 14);
    assert("operation-failed"@.len() == 16);
    assert("unsupported-record"@.len() == 18);
}

/// One surface that changed blocks, one that cannot be read does, and nothing else
/// does.
pub proof fn one_blocker_of_either_kind_blocks(b: RollbackBlockers)
    ensures
        b.changed@.len() > 0 ==> b.blocks(),
        b.unreadable@.len() > 0 ==> b.blocks(),
        b.changed@.len() == 0 && b.unreadable@.len() == 0 ==> !b.blocks(),
{
}

/// A file that was not there has no owner and no mode to put back, and neither has
/// its backup; a backup is recorded only where there was one.
pub proof fn nothing_is_recorded_of_what_was_not_there(
    a: AppliedSurface,
    backup: Seq<char>,
    s: SurfaceRecord,
)
    requires
        records(a, backup, s),
    ensures
        a.before_metadata is None ==> s.mode is None && s.uid is None && s.gid is None,
        !a.sidecar_existed && a.sidecar_before is None ==> s.sidecar is None,
        s.sidecar is Some && a.sidecar_metadata is None ==> s.sidecar->0.mode is None
            && s.sidecar->0.uid is None && s.sidecar->0.gid is None,
        s.change@ == change_id(a.change),
{
}

} // verus!
