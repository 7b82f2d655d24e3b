//! Carrying out a login plan, one step at a time: agree, lock, plan again, store
//! what was there before, write, confirm.
//!
//! The run performs nothing itself. Each method takes what one step brought and
//! says what comes next, and no step can be taken out of order.

use vstd::prelude::*;

use crate::contract::{negotiated, stripped, Contract};
use crate::flags::{login_apply_request, valid_id};
use crate::ids::spells_bytes;
use crate::machine::{opened_if, opt_reply, refused, Reply, ReplyV, ENGINE_VERSION};
use crate::plan::{plan_identifier, planned_views, PlannedSurface};
use crate::text::texts;
use crate::transaction::{
    apply_outcome, confirm_record, count_failed, failed_count, login_apply, login_apply_reply,
    marker_after, marker_result, prepare_failed, prepare_record, records_all, refuse_stale,
    refuse_write, stale_refusal, write_refusal, AppliedSurface, Transaction, TransactionStatus,
    WiredMarker,
};

verus! {

/// What the run waits for.
#[derive(Clone, Copy, Debug, PartialEq, Eq, Structural)]
pub enum ApplyStep {
    /// Root, and the lock that makes the transaction one unit.
    Lock,
    /// The plan as the machine calls for it now.
    Plan,
    /// The state of every surface before any write.
    Prepare,
    /// The prepared record stored durably.
    StorePrepared,
    /// The surfaces written.
    Write,
    /// The confirmed record stored durably.
    StoreApplied,
    /// Over.
    End,
}

/// A `login apply` in progress.
pub struct Apply {
    pub contract: u32,
    pub action: &'static str,
    pub supplied_plan: String,
    pub planned: Vec<PlannedSurface>,
    pub record: Option<Transaction>,
    pub applied: Vec<AppliedSurface>,
    /// Whether the confirmed record was stored.
    pub confirmed: bool,
    pub step: ApplyStep,
}

/// The steps that come after the plan was found current.
pub open spec fn past_plan(s: ApplyStep) -> bool {
    s == ApplyStep::Prepare || s == ApplyStep::StorePrepared || s == ApplyStep::Write || s
        == ApplyStep::StoreApplied
}

impl Apply {
    /// Past the plan, the plan the caller saw is the one the machine calls for.
    /// Writing is reached only with a prepared record at hand, and confirmation
    /// only with a confirmed one. Nothing counts as confirmed before the end.
    pub open spec fn wf(self) -> bool {
        &&& past_plan(self.step) ==> plan_identifier(self.action@, planned_views(self.planned@))
            == self.supplied_plan@
        &&& self.step == ApplyStep::StorePrepared || self.step == ApplyStep::Write ==> self.record
            is Some && self.record->0.status == TransactionStatus::Prepared
            && self.record->0.plan_id@ == self.supplied_plan@
        &&& self.step == ApplyStep::StoreApplied ==> self.record is Some && self.record->0.status
            == TransactionStatus::Applied
        &&& self.confirmed ==> self.step == ApplyStep::End && self.record is Some
            && self.record->0.status == TransactionStatus::Applied
    }

    /// The arguments agree on a contract, an action and a plan.
    pub fn begin(args: &[String]) -> (r: Result<Apply, Reply>)
        ensures
            match r {
                Ok(a) => a.wf() && a.step == ApplyStep::Lock && !a.confirmed
                    && negotiated(texts(args@)) == Contract::Agreed(a.contract)
                    && login_apply_request(stripped(texts(args@))) == Some(
                    (a.action@, a.supplied_plan@),
                ),
                Err(reply) => opened_if(
                    "login.apply"@,
                    texts(args@),
                    login_apply_request(stripped(texts(args@))) is Some,
                ) == Err::<u32, ReplyV>(reply@),
            },
    {
        match login_apply(args) {
            Err(reply) => Err(reply),
            Ok((contract, action, supplied_plan)) => Ok(
                Apply {
                    contract,
                    action,
                    supplied_plan,
                    planned: Vec::new(),
                    record: None,
                    applied: Vec::new(),
                    confirmed: false,
                    step: ApplyStep::Lock,
                },
            ),
        }
    }

    /// The caller's effective user, and whether the lock was taken.
    pub fn locked(&mut self, euid: u32, locked: bool) -> (r: Option<Reply>)
        requires
            old(self).wf(),
            old(self).step == ApplyStep::Lock,
        ensures
            final(self).wf(),
            !final(self).confirmed,
            final(self).same_request(*old(self)),
            opt_reply(r) == write_refusal(
                "login.apply"@,
                true,
                euid,
                locked,
                old(self).contract,
            ),
            final(self).step == (if r is Some {
                ApplyStep::End
            } else {
                ApplyStep::Plan
            }),
    {
        match refuse_write("login.apply", true, euid, locked, self.contract) {
            Some(reply) => {
                self.step = ApplyStep::End;
                Some(reply)
            },
            None => {
                self.step = ApplyStep::Plan;
                None
            },
        }
    }

    /// The plan as the machine calls for it now.
    pub fn replanned(&mut self, planned: Vec<PlannedSurface>) -> (r: Option<Reply>)
        requires
            old(self).wf(),
            old(self).step == ApplyStep::Plan,
        ensures
            final(self).wf(),
            !final(self).confirmed,
            final(self).same_request(*old(self)),
            opt_reply(r) == stale_refusal(
                old(self).action@,
                old(self).supplied_plan@,
                planned_views(planned@),
                old(self).contract,
            ),
            final(self).planned == planned,
            final(self).step == (if r is Some {
                ApplyStep::End
            } else {
                ApplyStep::Prepare
            }),
    {
        let refusal = refuse_stale(
            self.action,
            self.supplied_plan.as_str(),
            planned.as_slice(),
            self.contract,
        );
        self.planned = planned;
        match refusal {
            Some(reply) => {
                self.step = ApplyStep::End;
                Some(reply)
            },
            None => {
                self.step = ApplyStep::Prepare;
                None
            },
        }
    }

    /// The state of every surface before any write. The record to store is then
    /// at hand.
    pub fn prepared(&mut self, before: &[AppliedSurface], backup: &str, schema_version: u32)
        requires
            old(self).wf(),
            old(self).step == ApplyStep::Prepare,
        ensures
            final(self).wf(),
            !final(self).confirmed,
            final(self).same_request(*old(self)),
            final(self).planned == old(self).planned,
            final(self).step == ApplyStep::StorePrepared,
            final(self).record matches Some(t) && spells_bytes(t.id@) && valid_id(t.id@)
                && t.schema_version == schema_version && t.status == TransactionStatus::Prepared
                && t.action@ == old(self).action@ && t.plan_id@ == old(self).supplied_plan@
                && t.engine_version@ == ENGINE_VERSION@ && records_all(
                before@,
                backup@,
                t.surfaces@,
            ),
    {
        let record = prepare_record(
            self.action,
            self.supplied_plan.as_str(),
            before,
            backup,
            schema_version,
        );
        self.record = Some(record);
        self.step = ApplyStep::StorePrepared;
    }

    /// Whether the prepared record was stored. Only then may a surface be
    /// written.
    pub fn stored(&mut self, ok: bool) -> (r: Option<Reply>)
        requires
            old(self).wf(),
            old(self).step == ApplyStep::StorePrepared,
        ensures
            final(self).wf(),
            !final(self).confirmed,
            final(self).same_request(*old(self)),
            final(self).planned == old(self).planned,
            final(self).record == old(self).record,
            (final(self).step, r is Some) == after_store(ok),
            opt_reply(r) == (if ok {
                None
            } else {
                Some(refused("login.apply"@, "operation-failed"@, true, old(self).contract, 1))
            }),
            final(self).step == (if ok {
                ApplyStep::Write
            } else {
                ApplyStep::End
            }),
    {
        if ok {
            self.step = ApplyStep::Write;
            None
        } else {
            self.step = ApplyStep::End;
            Some(prepare_failed(self.contract))
        }
    }

    /// What the writes did. The confirmed record to store is then at hand.
    pub fn written(&mut self, applied: Vec<AppliedSurface>, backup: &str)
        requires
            old(self).wf(),
            old(self).step == ApplyStep::Write,
        ensures
            final(self).wf(),
            !final(self).confirmed,
            final(self).same_request(*old(self)),
            final(self).planned == old(self).planned,
            final(self).applied == applied,
            final(self).step == ApplyStep::StoreApplied,
            final(self).record matches Some(t) && t.id == old(self).record->0.id
                && t.schema_version == old(self).record->0.schema_version && t.status
                == TransactionStatus::Applied && t.action == old(self).record->0.action && t.plan_id
                == old(self).record->0.plan_id && t.engine_version == old(
                self,
            ).record->0.engine_version && records_all(applied@, backup@, t.surfaces@),
    {
        let record = self.record.take();
        match record {
            Some(t) => {
                let confirmed = confirm_record(t, applied.as_slice(), backup);
                self.record = Some(confirmed);
            },
            None => {},
        }
        self.applied = applied;
        self.step = ApplyStep::StoreApplied;
    }

    /// Whether the confirmed record was stored: the answer to publish.
    pub fn confirmed(&mut self, ok: bool) -> (r: Option<Reply>)
        requires
            old(self).wf(),
            old(self).step == ApplyStep::StoreApplied,
        ensures
            final(self).wf(),
            final(self).same_request(*old(self)),
            final(self).planned == old(self).planned,
            final(self).record == old(self).record,
            final(self).applied == old(self).applied,
            final(self).confirmed == ok,
            final(self).step == ApplyStep::End,
            opt_reply(r) == Some(
                apply_outcome(old(self).record->0, old(self).applied@, ok, old(self).contract),
            ),
    {
        self.confirmed = ok;
        self.step = ApplyStep::End;
        match &self.record {
            Some(t) => Some(login_apply_reply(t, self.applied.as_slice(), ok, self.contract)),
            None => None,
        }
    }

    /// The marker to leave for the unit that repairs regressions: only where the
    /// confirmed record was stored and every surface was written. `None` leaves
    /// the marker as it is.
    pub fn marker(
        &self,
        old_marker: Option<WiredMarker>,
        lock_wired: bool,
        face_lock_intent: bool,
    ) -> (r: Option<WiredMarker>)
        ensures
            r == (if self.confirmed {
                marker_result(
                    self.action@ == "enable"@,
                    failed_count(self.applied@) > 0,
                    old_marker,
                    lock_wired,
                    face_lock_intent,
                )
            } else {
                None
            }),
    {
        if !self.confirmed {
            return None;
        }
        let enable = crate::text::same(self.action, "enable");
        let failed: u64 = count_failed(self.applied.as_slice());
        marker_after(enable, failed > 0, old_marker, lock_wired, face_lock_intent)
    }

    /// The request itself does not change as the run proceeds.
    pub open spec fn same_request(self, other: Apply) -> bool {
        self.contract == other.contract && self.action == other.action && self.supplied_plan
            == other.supplied_plan
    }
}

/// A surface is written only under a plan the caller saw and the machine still
/// calls for, and only with the state from before stored first.
pub proof fn writing_needs_a_current_plan_and_a_prepared_record(a: Apply)
    requires
        a.wf(),
        a.step == ApplyStep::Write,
    ensures
        plan_identifier(a.action@, planned_views(a.planned@)) == a.supplied_plan@,
        a.record is Some,
        a.record->0.status == TransactionStatus::Prepared,
{
}

/// Where a run goes on after its prepared record was to be stored, and whether it
/// answers.
pub open spec fn after_store(ok: bool) -> (ApplyStep, bool) {
    if ok {
        (ApplyStep::Write, false)
    } else {
        (ApplyStep::End, true)
    }
}

/// Nothing is written unless the prepared record was stored, and a run that is
/// stopped there says so.
pub proof fn nothing_is_written_without_a_stored_record(ok: bool)
    ensures
        after_store(ok).0 == ApplyStep::Write <==> ok,
        after_store(ok).0 == ApplyStep::End <==> !ok,
        after_store(ok).1 <==> !ok,
{
}

/// A run stays with the contract, the action and the plan that it began with.
pub proof fn a_run_stays_with_its_request(a: Apply, b: Apply)
    requires
        a.same_request(b),
    ensures
        a.contract == b.contract,
        a.action == b.action,
        a.supplied_plan == b.supplied_plan,
{
}

/// Everything past the plan, the confirmation too, is under the plan that the caller
/// saw; only what was written can be confirmed.
pub proof fn everything_past_the_plan_is_under_it(a: Apply)
    requires
        a.wf(),
        a.step == ApplyStep::Prepare || a.step == ApplyStep::StorePrepared || a.step
            == ApplyStep::StoreApplied,
    ensures
        plan_identifier(a.action@, planned_views(a.planned@)) == a.supplied_plan@,
        !a.confirmed,
        a.step == ApplyStep::StoreApplied ==> a.record is Some && a.record->0.status
            == TransactionStatus::Applied,
        a.step == ApplyStep::StorePrepared ==> a.record is Some && a.record->0.status
            == TransactionStatus::Prepared && a.record->0.plan_id@ == a.supplied_plan@,
{
}

} // verus!
