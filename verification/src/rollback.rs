//! Putting back what a login transaction changed: a resumable machine that
//! notes every restore before and after it happens.
//!
//! The machine performs nothing itself. It hands out one action at a time, is
//! told whether the action succeeded, and ends with the reply to publish.

use vstd::prelude::*;

use crate::json::{no_fields, text_or_null, text_values, Json, JsonArr, JsonObj, JsonV};
use crate::machine::{
    answer, answered, fail_with_extra, failed_with, refuse, refused, Reply, ReplyV,
};
use crate::text::{opt_text, owned, push_line, texts};
use crate::transaction::SurfaceRecord;

verus! {

/// What a rollback of one transaction has put back so far, by key.
pub struct RollbackProgress {
    pub started: Vec<String>,
    pub done: Vec<String>,
}

/// One surface to put back: its record, whether its files are ones this program
/// manages, and the key under which its backup's restore is noted.
pub struct Target {
    pub surface: SurfaceRecord,
    pub managed: bool,
    pub sidecar_managed: bool,
    pub sidecar_key: String,
}

/// What the machine decides by.
pub struct TargetV {
    pub id: Seq<char>,
    pub sidecar_key: Seq<char>,
    /// The backup is recorded and is a file this program manages.
    pub restores_sidecar: bool,
}

impl Target {
    pub open spec fn model(self) -> TargetV {
        TargetV {
            id: self.surface.id@,
            sidecar_key: self.sidecar_key@,
            restores_sidecar: self.surface.sidecar is Some && self.sidecar_managed,
        }
    }
}

pub open spec fn target_views(v: Seq<Target>) -> Seq<TargetV> {
    v.map_values(|t: Target| t.model())
}

/// Where the machine stands with the current surface.
#[derive(Clone, Copy, Debug, PartialEq, Eq, Structural)]
pub enum Step {
    /// Compare the surface with what apply left.
    Check,
    /// Note that the restore has begun.
    NoteStarted,
    /// Write the surface's content from before.
    RestoreLive,
    /// Note that the surface is back.
    NoteLive,
    /// Write the backup's content from before.
    RestoreSidecar,
    /// Note that the backup is back.
    NoteSidecar,
    /// Everything is back: clear the note.
    Clear,
    /// Over.
    End,
}

/// The state of a rollback.
#[verifier::ext_equal]
pub struct RunV {
    pub targets: Seq<TargetV>,
    pub unconfirmed: bool,
    pub started: Seq<Seq<char>>,
    pub done: Seq<Seq<char>>,
    pub at: int,
    pub live_done: bool,
    pub sidecar_done: bool,
    pub step: Step,
}

pub open spec fn both_done(t: TargetV, done: Seq<Seq<char>>) -> bool {
    done.contains(t.id) && done.contains(t.sidecar_key)
}

/// The first surface at or after `i` that is not wholly back.
pub open spec fn next_open(targets: Seq<TargetV>, done: Seq<Seq<char>>, i: int) -> int
    decreases targets.len() - i,
{
    if i < 0 || i >= targets.len() {
        targets.len() as int
    } else if both_done(targets[i], done) {
        next_open(targets, done, i + 1)
    } else {
        i
    }
}

/// Turns to the first open surface at or after `i`. Digests of an unconfirmed
/// transaction were never confirmed, so they gate nothing.
pub open spec fn enter(r: RunV, i: int) -> RunV {
    let j = next_open(r.targets, r.done, i);
    if j >= r.targets.len() {
        RunV { at: j, step: Step::Clear, ..r }
    } else {
        let e = RunV {
            at: j,
            live_done: r.done.contains(r.targets[j].id),
            sidecar_done: r.done.contains(r.targets[j].sidecar_key),
            ..r
        };
        if r.unconfirmed {
            begin_live(e)
        } else {
            RunV { step: Step::Check, ..e }
        }
    }
}

/// Announces the restore of the surface, unless it is back already.
pub open spec fn begin_live(r: RunV) -> RunV {
    if r.live_done {
        begin_sidecar(r)
    } else {
        let id = r.targets[r.at].id;
        RunV {
            started: if r.started.contains(id) {
                r.started
            } else {
                r.started.push(id)
            },
            step: Step::NoteStarted,
            ..r
        }
    }
}

/// Turns to the surface's backup.
pub open spec fn begin_sidecar(r: RunV) -> RunV {
    if r.targets[r.at].restores_sidecar && !r.sidecar_done {
        RunV { step: Step::RestoreSidecar, ..r }
    } else {
        end_sidecar(r)
    }
}

pub open spec fn end_sidecar(r: RunV) -> RunV {
    RunV { done: r.done.push(r.targets[r.at].sidecar_key), step: Step::NoteSidecar, ..r }
}

/// What an action's success or failure leads to. A failure ends the run.
pub open spec fn next_run(r: RunV, ok: bool) -> RunV {
    if !ok {
        RunV { step: Step::End, ..r }
    } else {
        match r.step {
            Step::Check => begin_live(r),
            Step::NoteStarted => RunV { step: Step::RestoreLive, ..r },
            Step::RestoreLive => RunV {
                done: r.done.push(r.targets[r.at].id),
                step: Step::NoteLive,
                ..r
            },
            Step::NoteLive => begin_sidecar(r),
            Step::RestoreSidecar => end_sidecar(r),
            Step::NoteSidecar => enter(r, r.at + 1),
            Step::Clear => RunV { step: Step::End, ..r },
            Step::End => r,
        }
    }
}

/// How a rollback that starts from some progress begins.
pub open spec fn first_run(
    targets: Seq<TargetV>,
    unconfirmed: bool,
    started: Seq<Seq<char>>,
    done: Seq<Seq<char>>,
) -> RunV {
    enter(
        RunV {
            targets,
            unconfirmed,
            started,
            done,
            at: 0,
            live_done: false,
            sidecar_done: false,
            step: Step::Check,
        },
        0,
    )
}

/// The next thing to do. The indices are positions in the transaction's
/// surfaces.
pub enum Action {
    /// Compare the surface with what apply left, passing over what the noted
    /// progress says is back already.
    Check(usize),
    /// Store the progress durably.
    Note,
    /// Put the surface's file back.
    RestoreLive(usize),
    /// Put the surface's backup back.
    RestoreSidecar(usize),
    /// Remove the stored progress.
    Clear,
    /// Publish the reply; nothing is left to do.
    Publish(Reply),
}

/// What an action is, apart from the reply.
pub open spec fn action_for(r: RunV, a: Action) -> bool {
    match r.step {
        Step::Check => a == Action::Check(r.at as usize),
        Step::NoteStarted => a == Action::Note,
        Step::RestoreLive => a == Action::RestoreLive(r.at as usize),
        Step::NoteLive => a == Action::Note,
        Step::RestoreSidecar => a == Action::RestoreSidecar(r.at as usize),
        Step::NoteSidecar => a == Action::Note,
        Step::Clear => a == Action::Clear,
        Step::End => a is Publish,
    }
}

/// What every reply about this rollback names.
pub struct AboutV {
    pub command: Seq<char>,
    pub contract: u32,
    pub id: Seq<char>,
    pub action: Seq<char>,
    pub snapshot: Option<Seq<char>>,
}

/// What a stopped rollback says: how far it got, and where it stopped.
pub open spec fn stopped_extra(about: AboutV, r: RunV, with_snapshot: bool) -> Seq<
    (Seq<char>, JsonV),
> {
    let head = no_fields().push(("transaction_id"@, JsonV::Str(about.id))).push(
        ("restored"@, JsonV::Arr(text_values(r.done))),
    ).push(("stopped_at"@, JsonV::Str(r.targets[r.at].id)));
    if with_snapshot {
        head.push(("snapshot"@, text_or_null(about.snapshot)))
    } else {
        head
    }
}

/// The reply when the action of `r.step` fails.
pub open spec fn failure_reply(about: AboutV, r: RunV) -> ReplyV {
    match r.step {
        Step::Check => failed_with(
            about.command,
            "changed-since-apply"@,
            false,
            about.contract,
            stopped_extra(about, r, true),
        ),
        Step::RestoreSidecar => failed_with(
            about.command,
            "operation-failed"@,
            false,
            about.contract,
            stopped_extra(about, r, false),
        ),
        Step::Clear => failed_with(
            about.command,
            "operation-failed"@,
            true,
            about.contract,
            no_fields().push(("transaction_id"@, JsonV::Str(about.id))).push(
                ("restored"@, JsonV::Arr(text_values(r.done))),
            ).push(("applied"@, JsonV::Bool(true))).push(
                ("snapshot"@, text_or_null(about.snapshot)),
            ),
        ),
        _ => failed_with(
            about.command,
            "operation-failed"@,
            false,
            about.contract,
            stopped_extra(about, r, true),
        ),
    }
}

/// The reply when everything is back and the note is cleared.
pub open spec fn success_reply(about: AboutV, r: RunV) -> ReplyV {
    answered(
        about.command,
        JsonV::Obj(
            no_fields().push(("transaction_id"@, JsonV::Str(about.id))).push(
                ("action"@, JsonV::Str(about.action)),
            ).push(("unconfirmed"@, JsonV::Bool(r.unconfirmed))).push(
                ("restored"@, JsonV::Arr(text_values(r.done))),
            ).push(("applied"@, JsonV::Bool(true))).push(
                ("snapshot"@, text_or_null(about.snapshot)),
            ),
        ),
        about.contract,
    )
}

/// The reply that the outcome of `r.step` ends the rollback with.
pub open spec fn ending(about: AboutV, r: RunV, ok: bool) -> ReplyV {
    if ok {
        success_reply(about, r)
    } else {
        failure_reply(about, r)
    }
}

/// A rollback in progress.
pub struct Rollback {
    pub command: &'static str,
    pub contract: u32,
    pub id: String,
    pub action: String,
    pub unconfirmed: bool,
    pub snapshot: Option<String>,
    pub targets: Vec<Target>,
    pub progress: RollbackProgress,
    pub at: usize,
    pub live_done: bool,
    pub sidecar_done: bool,
    pub step: Step,
}

impl View for Rollback {
    type V = RunV;

    open spec fn view(&self) -> RunV {
        RunV {
            targets: target_views(self.targets@),
            unconfirmed: self.unconfirmed,
            started: texts(self.progress.started@),
            done: texts(self.progress.done@),
            at: self.at as int,
            live_done: self.live_done,
            sidecar_done: self.sidecar_done,
            step: self.step,
        }
    }
}

fn holds(keys: &Vec<String>, key: &str) -> (r: bool)
    ensures
        r == texts(keys@).contains(key@),
{
    crate::args::has_arg(keys.as_slice(), key)
}

impl RollbackProgress {
    /// Whether the restore noted under `key` is finished.
    pub fn finished(&self, key: &str) -> (r: bool)
        ensures
            r == texts(self.done@).contains(key@),
    {
        holds(&self.done, key)
    }
}

impl Rollback {
    pub open spec fn about(self) -> AboutV {
        AboutV {
            command: self.command@,
            contract: self.contract,
            id: self.id@,
            action: self.action@,
            snapshot: opt_text(self.snapshot),
        }
    }

    /// The machine points at a surface while it works on one.
    pub open spec fn wf(self) -> bool {
        run_wf(self@)
    }

    fn advance_to(&mut self, from: usize)
        requires
            from <= old(self).targets@.len(),
        ensures
            final(self)@ == enter(old(self)@, from as int),
            final(self).about() == old(self).about(),
            final(self).targets == old(self).targets,
            final(self).wf(),
    {
        let n: usize = self.targets.len();
        let mut i: usize = from;
        while i < n && self.progress.finished(self.targets[i].surface.id.as_str())
            && self.progress.finished(self.targets[i].sidecar_key.as_str())
            invariant
                *self == *old(self),
                n == self.targets@.len(),
                from <= i <= n,
                next_open(self@.targets, self@.done, from as int) == next_open(
                    self@.targets,
                    self@.done,
                    i as int,
                ),
            decreases n - i,
        {
            i = i + 1;
        }
        self.at = i;
        if i == n {
            self.step = Step::Clear;
            return;
        }
        self.live_done = self.progress.finished(self.targets[i].surface.id.as_str());
        self.sidecar_done = self.progress.finished(self.targets[i].sidecar_key.as_str());
        if self.unconfirmed {
            self.begin_live();
        } else {
            self.step = Step::Check;
        }
    }

    fn begin_live(&mut self)
        requires
            old(self).at < old(self).targets@.len(),
        ensures
            final(self)@ == begin_live(old(self)@),
            final(self).about() == old(self).about(),
            final(self).targets == old(self).targets,
            final(self).wf(),
    {
        if self.live_done {
            self.begin_sidecar();
        } else {
            if !holds(&self.progress.started, self.targets[self.at].surface.id.as_str()) {
                let id = owned(self.targets[self.at].surface.id.as_str());
                push_line(&mut self.progress.started, id);
            }
            self.step = Step::NoteStarted;
        }
    }

    fn begin_sidecar(&mut self)
        requires
            old(self).at < old(self).targets@.len(),
        ensures
            final(self)@ == begin_sidecar(old(self)@),
            final(self).about() == old(self).about(),
            final(self).targets == old(self).targets,
            final(self).wf(),
    {
        let managed = self.targets[self.at].surface.sidecar.is_some()
            && self.targets[self.at].sidecar_managed;
        if managed && !self.sidecar_done {
            self.step = Step::RestoreSidecar;
        } else {
            self.end_sidecar();
        }
    }

    fn end_sidecar(&mut self)
        requires
            old(self).at < old(self).targets@.len(),
        ensures
            final(self)@ == end_sidecar(old(self)@),
            final(self).about() == old(self).about(),
            final(self).targets == old(self).targets,
            final(self).wf(),
    {
        let key = owned(self.targets[self.at].sidecar_key.as_str());
        push_line(&mut self.progress.done, key);
        self.step = Step::NoteSidecar;
    }

    /// The action that the current step calls for.
    fn pending(&self) -> (a: Action)
        requires
            self.wf(),
            self.step != Step::End,
        ensures
            action_for(self@, a),
    {
        match self.step {
            Step::Check => Action::Check(self.at),
            Step::NoteStarted => Action::Note,
            Step::RestoreLive => Action::RestoreLive(self.at),
            Step::NoteLive => Action::Note,
            Step::RestoreSidecar => Action::RestoreSidecar(self.at),
            Step::NoteSidecar => Action::Note,
            Step::Clear => Action::Clear,
            Step::End => Action::Clear,
        }
    }

    fn stopped(&self, with_snapshot: bool) -> (o: JsonObj)
        requires
            self.at < self.targets@.len(),
        ensures
            o@ == stopped_extra(self.about(), self@, with_snapshot),
    {
        let mut o = JsonObj::new();
        o.put("transaction_id", Json::text(self.id.as_str()));
        o.put("restored", Json::texts(&self.progress.done));
        o.put("stopped_at", Json::text(self.targets[self.at].surface.id.as_str()));
        if with_snapshot {
            o.put("snapshot", Json::text_or_null(&self.snapshot));
        }
        o
    }

    fn failure(&self) -> (r: Reply)
        requires
            self.wf(),
            self.step != Step::End,
        ensures
            r@ == failure_reply(self.about(), self@),
    {
        match self.step {
            Step::Check => fail_with_extra(
                self.command,
                "changed-since-apply",
                false,
                self.contract,
                self.stopped(true),
            ),
            Step::RestoreSidecar => fail_with_extra(
                self.command,
                "operation-failed",
                false,
                self.contract,
                self.stopped(false),
            ),
            Step::Clear => {
                let mut o = JsonObj::new();
                o.put("transaction_id", Json::text(self.id.as_str()));
                o.put("restored", Json::texts(&self.progress.done));
                o.put("applied", Json::flag(true));
                o.put("snapshot", Json::text_or_null(&self.snapshot));
                fail_with_extra(self.command, "operation-failed", true, self.contract, o)
            },
            _ => fail_with_extra(
                self.command,
                "operation-failed",
                false,
                self.contract,
                self.stopped(true),
            ),
        }
    }

    fn success(&self) -> (r: Reply)
        ensures
            r@ == success_reply(self.about(), self@),
    {
        let mut o = JsonObj::new();
        o.put("transaction_id", Json::text(self.id.as_str()));
        o.put("action", Json::text(self.action.as_str()));
        o.put("unconfirmed", Json::flag(self.unconfirmed));
        o.put("restored", Json::texts(&self.progress.done));
        o.put("applied", Json::flag(true));
        o.put("snapshot", Json::text_or_null(&self.snapshot));
        answer(self.command, Json::obj(o), self.contract)
    }

    /// Takes the outcome of the current action and gives the next one.
    pub fn advance(&mut self, ok: bool) -> (a: Action)
        requires
            old(self).wf(),
            old(self).step != Step::End,
        ensures
            final(self)@ == next_run(old(self)@, ok),
            final(self).wf(),
            final(self).about() == old(self).about(),
            final(self).targets == old(self).targets,
            action_for(final(self)@, a),
            a matches Action::Publish(reply) ==> reply@ == ending(old(self).about(), old(self)@, ok),
    {
        if !ok {
            let reply = self.failure();
            self.step = Step::End;
            return Action::Publish(reply);
        }
        match self.step {
            Step::Check => {
                self.begin_live();
            },
            Step::NoteStarted => {
                self.step = Step::RestoreLive;
            },
            Step::RestoreLive => {
                let id = owned(self.targets[self.at].surface.id.as_str());
                push_line(&mut self.progress.done, id);
                self.step = Step::NoteLive;
            },
            Step::NoteLive => {
                self.begin_sidecar();
            },
            Step::RestoreSidecar => {
                self.end_sidecar();
            },
            Step::NoteSidecar => {
                let n: usize = self.targets.len();
                let next: usize = if self.at < n {
                    self.at + 1
                } else {
                    n
                };
                self.advance_to(next);
            },
            Step::Clear => {
                let reply = self.success();
                self.step = Step::End;
                return Action::Publish(reply);
            },
            Step::End => {},
        }
        self.pending()
    }
}

/// A surface is at hand exactly while one is being worked on.
pub open spec fn run_wf(r: RunV) -> bool {
    &&& 0 <= r.at <= r.targets.len()
    &&& r.step != Step::Clear && r.step != Step::End ==> r.at < r.targets.len()
}

/// Whether every file the record names is one this program manages.
pub open spec fn all_managed(targets: Seq<Target>) -> bool {
    forall|i: int| 0 <= i < targets.len() ==> (#[trigger] targets[i]).managed
}

/// What a dry run reports.
pub open spec fn dry_run_data(
    id: Seq<char>,
    action: Seq<char>,
    targets: Seq<TargetV>,
    unconfirmed: bool,
) -> JsonV {
    JsonV::Obj(
        no_fields().push(("transaction_id"@, JsonV::Str(id))).push(
            ("action"@, JsonV::Str(action)),
        ).push(("unconfirmed"@, JsonV::Bool(unconfirmed))).push(
            ("would_restore"@, JsonV::Arr(text_values(target_ids(targets)))),
        ).push(("applied"@, JsonV::Bool(false))),
    )
}

pub open spec fn target_ids(targets: Seq<TargetV>) -> Seq<Seq<char>> {
    targets.map_values(|t: TargetV| t.id)
}

/// The answer that ends a rollback before it touches anything: a dry run, or a
/// record that names a file this program does not manage.
pub open spec fn early_reply(
    command: Seq<char>,
    id: Seq<char>,
    action: Seq<char>,
    targets: Seq<Target>,
    will_apply: bool,
    contract: u32,
    unconfirmed: bool,
) -> Option<ReplyV> {
    if !will_apply {
        Some(
            answered(
                command,
                dry_run_data(id, action, target_views(targets), unconfirmed),
                contract,
            ),
        )
    } else if !all_managed(targets) {
        Some(refused(command, "unmanaged-path"@, false, contract, 1))
    } else {
        None
    }
}

/// Decides whether a rollback may begin. `None` means it may; an unconfirmed one
/// then first copies what it is about to overwrite.
pub fn rollback_restore(
    command: &'static str,
    id: &str,
    action: &str,
    targets: &Vec<Target>,
    will_apply: bool,
    contract: u32,
    unconfirmed: bool,
) -> (r: Option<Reply>)
    ensures
        crate::machine::opt_reply(r) == early_reply(
            command@,
            id@,
            action@,
            targets@,
            will_apply,
            contract,
            unconfirmed,
        ),
{
    if !will_apply {
        let mut ids = JsonArr::new();
        let ghost want = text_values(target_ids(target_views(targets@)));
        let mut i: usize = 0;
        proof {
            assert(want.take(0) =~= Seq::<JsonV>::empty());
        }
        while i < targets.len()
            invariant
                i <= targets@.len(),
                want == text_values(target_ids(target_views(targets@))),
                ids@ == want.take(i as int),
            decreases targets@.len() - i,
        {
            ids.put(Json::text(targets[i].surface.id.as_str()));
            proof {
                assert(ids@ =~= want.take(i + 1));
            }
            i = i + 1;
        }
        proof {
            assert(want.take(want.len() as int) =~= want);
        }
        let mut o = JsonObj::new();
        o.put("transaction_id", Json::text(id));
        o.put("action", Json::text(action));
        o.put("unconfirmed", Json::flag(unconfirmed));
        o.put("would_restore", Json::arr(ids));
        o.put("applied", Json::flag(false));
        return Some(answer(command, Json::obj(o), contract));
    }
    let mut i: usize = 0;
    while i < targets.len()
        invariant
            i <= targets@.len(),
            will_apply,
            forall|j: int| 0 <= j < i ==> (#[trigger] targets@[j]).managed,
        decreases targets@.len() - i,
    {
        if !targets[i].managed {
            return Some(refuse(command, "unmanaged-path", false, contract, 1));
        }
        i = i + 1;
    }
    None
}

/// The answer when what an unconfirmed rollback would overwrite cannot be
/// copied first.
pub fn snapshot_failed(command: &'static str, contract: u32) -> (r: Reply)
    ensures
        r@ == refused(command@, "operation-failed"@, true, contract, 1),
{
    refuse(command, "operation-failed", true, contract, 1)
}

/// What to write back to one path.
pub struct Restore {
    pub path: String,
    pub before: Option<String>,
    pub metadata: Option<(u32, u32, u32)>,
}

/// Mode and ownership come together or not at all.
pub open spec fn whole_metadata(mode: Option<u32>, uid: Option<u32>, gid: Option<u32>) -> Option<
    (u32, u32, u32),
> {
    match (mode, uid, gid) {
        (Some(m), Some(u), Some(g)) => Some((m, u, g)),
        _ => None,
    }
}

fn metadata(mode: Option<u32>, uid: Option<u32>, gid: Option<u32>) -> (r: Option<(u32, u32, u32)>)
    ensures
        r == whole_metadata(mode, uid, gid),
{
    match (mode, uid, gid) {
        (Some(m), Some(u), Some(g)) => Some((m, u, g)),
        _ => None,
    }
}

fn copied(s: &Option<String>) -> (r: Option<String>)
    ensures
        opt_text(r) == opt_text(*s),
{
    match s {
        Some(s) => Some(owned(s.as_str())),
        None => None,
    }
}

impl Rollback {
    /// Begins or resumes a rollback from the noted progress.
    pub fn resume(
        command: &'static str,
        contract: u32,
        id: String,
        action: String,
        unconfirmed: bool,
        snapshot: Option<String>,
        targets: Vec<Target>,
        progress: RollbackProgress,
    ) -> (r: (Rollback, Action))
        requires
            all_managed(targets@),
            unconfirmed ==> snapshot is Some,
        ensures
            r.0@ == first_run(
                target_views(targets@),
                unconfirmed,
                texts(progress.started@),
                texts(progress.done@),
            ),
            r.0.wf(),
            r.0.targets == targets,
            r.0.about() == (AboutV {
                command: command@,
                contract,
                id: id@,
                action: action@,
                snapshot: opt_text(snapshot),
            }),
            action_for(r.0@, r.1),
            r.0.step != Step::End,
    {
        let mut run = Rollback {
            command,
            contract,
            id,
            action,
            unconfirmed,
            snapshot,
            targets,
            progress,
            at: 0,
            live_done: false,
            sidecar_done: false,
            step: Step::Check,
        };
        run.advance_to(0);
        let a = run.pending();
        (run, a)
    }

    /// What to write for the surface at `index`.
    pub fn live_restore(&self, index: usize) -> (r: Restore)
        requires
            index < self.targets@.len(),
        ensures
            ({
                let s = self.targets@[index as int].surface;
                r.path@ == s.path@ && opt_text(r.before) == opt_text(s.before) && r.metadata
                    == whole_metadata(s.mode, s.uid, s.gid)
            }),
    {
        let s = &self.targets[index].surface;
        Restore {
            path: owned(s.path.as_str()),
            before: copied(&s.before),
            metadata: metadata(s.mode, s.uid, s.gid),
        }
    }

    /// What to write for the backup of the surface at `index`.
    pub fn sidecar_restore(&self, index: usize) -> (r: Option<Restore>)
        requires
            index < self.targets@.len(),
        ensures
            match (self.targets@[index as int].surface.sidecar, r) {
                (Some(s), Some(r)) => r.path@ == s.path@ && opt_text(r.before) == opt_text(s.before)
                    && r.metadata == whole_metadata(s.mode, s.uid, s.gid),
                (None, None) => true,
                _ => false,
            },
    {
        match &self.targets[index].surface.sidecar {
            Some(s) => Some(
                Restore {
                    path: owned(s.path.as_str()),
                    before: copied(&s.before),
                    metadata: metadata(s.mode, s.uid, s.gid),
                },
            ),
            None => None,
        }
    }
}

/// A rollback together with what it has done to the machine: the progress that
/// is stored durably, and the surfaces checked and written.
pub struct WorldV {
    pub run: RunV,
    pub stored_started: Seq<Seq<char>>,
    pub stored_done: Seq<Seq<char>>,
    pub checked: Set<int>,
    pub written: Set<int>,
    pub sidecars_written: Set<int>,
}

/// The effect of an action that succeeds, and the machine's next state.
pub open spec fn world_step(w: WorldV, ok: bool) -> WorldV {
    let noting = w.run.step == Step::NoteStarted || w.run.step == Step::NoteLive || w.run.step
        == Step::NoteSidecar;
    WorldV {
        run: next_run(w.run, ok),
        stored_started: if ok && noting {
            w.run.started
        } else {
            w.stored_started
        },
        stored_done: if ok && noting {
            w.run.done
        } else {
            w.stored_done
        },
        checked: if ok && w.run.step == Step::Check {
            w.checked.insert(w.run.at)
        } else {
            w.checked
        },
        written: if ok && w.run.step == Step::RestoreLive {
            w.written.insert(w.run.at)
        } else {
            w.written
        },
        sidecars_written: if ok && w.run.step == Step::RestoreSidecar {
            w.sidecars_written.insert(w.run.at)
        } else {
            w.sidecars_written
        },
    }
}

/// The world before the first action of a rollback.
pub open spec fn first_world(
    targets: Seq<TargetV>,
    unconfirmed: bool,
    started: Seq<Seq<char>>,
    done: Seq<Seq<char>>,
) -> WorldV {
    WorldV {
        run: first_run(targets, unconfirmed, started, done),
        stored_started: started,
        stored_done: done,
        checked: Set::empty(),
        written: Set::empty(),
        sidecars_written: Set::empty(),
    }
}

/// The world after the outcomes `events`, one for each action in turn.
pub open spec fn world_after(w: WorldV, events: Seq<bool>) -> WorldV
    decreases events.len(),
{
    if events.len() == 0 {
        w
    } else {
        world_step(world_after(w, events.drop_last()), events.last())
    }
}

/// Everything before `i` is wholly noted as back.
spec fn back_before(r: RunV, i: int) -> bool {
    forall|k: int| 0 <= k < i && k < r.targets.len() ==> both_done(#[trigger] r.targets[k], r.done)
}

spec fn noted_is_true(w: WorldV, done0: Seq<Seq<char>>, key: Seq<char>) -> bool {
    ||| done0.contains(key)
    ||| exists|i: int|
        #![trigger w.run.targets[i]]
        0 <= i < w.run.targets.len() && w.written.contains(i) && w.run.targets[i].id == key
    ||| exists|i: int|
        #![trigger w.run.targets[i]]
        0 <= i < w.run.targets.len() && w.run.targets[i].sidecar_key == key && (
        w.sidecars_written.contains(i) || !w.run.targets[i].restores_sidecar)
}

spec fn extends(a: Seq<Seq<char>>, b: Seq<Seq<char>>) -> bool {
    forall|k: Seq<char>| #[trigger] a.contains(k) ==> b.contains(k)
}

/// What holds between any two actions, whatever the step.
spec fn world_base(w: WorldV, targets: Seq<TargetV>, unconfirmed: bool, done0: Seq<Seq<char>>) -> bool {
    let r = w.run;
    &&& r.targets == targets
    &&& r.unconfirmed == unconfirmed
    &&& 0 <= r.at <= targets.len()
    &&& extends(w.stored_started, r.started)
    &&& extends(w.stored_done, r.done)
    &&& extends(done0, r.done)
    // What has been written is announced durably, and checked unless the
    // transaction is unconfirmed.
    &&& forall|i: int| #[trigger]
        w.written.contains(i) ==> 0 <= i < targets.len() && w.stored_started.contains(targets[i].id)
            && (unconfirmed || w.checked.contains(i))
    &&& forall|i: int| #[trigger]
        w.sidecars_written.contains(i) ==> 0 <= i < targets.len() && targets[i].restores_sidecar
    // What is noted as done was done.
    &&& forall|k: Seq<char>| #[trigger] r.done.contains(k) ==> noted_is_true(w, done0, k)
}

/// What the work on the current surface rests on.
spec fn at_surface(w: WorldV, done0: Seq<Seq<char>>) -> bool {
    let r = w.run;
    &&& r.at < r.targets.len()
    &&& back_before(r, r.at)
    &&& r.live_done ==> r.done.contains(r.targets[r.at].id)
    &&& r.sidecar_done ==> noted_is_true(w, done0, r.targets[r.at].sidecar_key)
}

spec fn world_inv(w: WorldV, targets: Seq<TargetV>, unconfirmed: bool, done0: Seq<Seq<char>>) -> bool {
    let r = w.run;
    &&& world_base(w, targets, unconfirmed, done0)
    &&& match r.step {
        Step::Check => at_surface(w, done0),
        Step::NoteStarted => at_surface(w, done0) && r.started.contains(targets[r.at].id) && (
        unconfirmed || w.checked.contains(r.at)),
        Step::RestoreLive => at_surface(w, done0) && w.stored_started.contains(targets[r.at].id) && (
        unconfirmed || w.checked.contains(r.at)),
        Step::NoteLive => at_surface(w, done0) && r.done.contains(targets[r.at].id),
        Step::RestoreSidecar => at_surface(w, done0) && r.done.contains(targets[r.at].id)
            && targets[r.at].restores_sidecar,
        Step::NoteSidecar => at_surface(w, done0) && both_done(targets[r.at], r.done),
        Step::Clear => back_before(r, targets.len() as int),
        Step::End => true,
    }
}

proof fn lemma_contains_push(s: Seq<Seq<char>>, k: Seq<char>)
    ensures
        s.push(k).contains(k),
        extends(s, s.push(k)),
        forall|x: Seq<char>| #[trigger] s.push(k).contains(x) ==> x == k || s.contains(x),
{
    assert(s.push(k)[s.len() as int] == k);
    assert forall|x: Seq<char>| #[trigger] s.contains(x) implies s.push(k).contains(x) by {
        let i = choose|i: int| 0 <= i < s.len() && s[i] == x;
        assert(s.push(k)[i] == x);
    }
    assert forall|x: Seq<char>| #[trigger] s.push(k).contains(x) implies x == k || s.contains(x) by {
        let i = choose|i: int| 0 <= i < s.push(k).len() && s.push(k)[i] == x;
        if i < s.len() {
            assert(s[i] == x);
        }
    }
}

/// Noting more keys keeps what was already back.
proof fn lemma_done_grows(w: WorldV, done0: Seq<Seq<char>>, key: Seq<char>)
    ensures
        ({
            let g = WorldV { run: RunV { done: w.run.done.push(key), ..w.run }, ..w };
            &&& extends(w.run.done, g.run.done)
            &&& g.run.done.contains(key)
            &&& forall|i: int| back_before(w.run, i) ==> #[trigger] back_before(g.run, i)
            &&& forall|k: Seq<char>| #[trigger]
                g.run.done.contains(k) ==> k == key || w.run.done.contains(k)
            &&& forall|k: Seq<char>|
                noted_is_true(w, done0, k) ==> #[trigger] noted_is_true(g, done0, k)
        }),
{
    lemma_contains_push(w.run.done, key);
    let g = WorldV { run: RunV { done: w.run.done.push(key), ..w.run }, ..w };
    assert forall|i: int| back_before(w.run, i) implies #[trigger] back_before(g.run, i) by {
        assert forall|k: int| 0 <= k < i && k < g.run.targets.len() implies both_done(
            #[trigger] g.run.targets[k],
            g.run.done,
        ) by {
            assert(both_done(w.run.targets[k], w.run.done));
        }
    }
}

proof fn lemma_end_sidecar(w: WorldV, targets: Seq<TargetV>, unconfirmed: bool, done0: Seq<Seq<char>>)
    requires
        world_base(w, targets, unconfirmed, done0),
        at_surface(w, done0),
        w.run.done.contains(targets[w.run.at].id),
        noted_is_true(w, done0, targets[w.run.at].sidecar_key),
    ensures
        world_inv(
            WorldV { run: end_sidecar(w.run), ..w },
            targets,
            unconfirmed,
            done0,
        ),
{
    let key = targets[w.run.at].sidecar_key;
    lemma_done_grows(w, done0, key);
    let g = WorldV { run: RunV { done: w.run.done.push(key), ..w.run }, ..w };
    let e = WorldV { run: end_sidecar(w.run), ..w };
    assert(back_before(g.run, w.run.at));
    assert(e.run.done == g.run.done);
    assert(e.run.targets == w.run.targets);
    assert(e.written == w.written && e.sidecars_written == w.sidecars_written);
    assert forall|k: Seq<char>| noted_is_true(w, done0, k) implies #[trigger] noted_is_true(
        e,
        done0,
        k,
    ) by {}
    assert forall|k: Seq<char>| #[trigger] e.run.done.contains(k) implies noted_is_true(e, done0, k) by {
        assert(k == key || w.run.done.contains(k));
        assert(noted_is_true(w, done0, k));
    }
    assert(back_before(e.run, e.run.at)) by {
        assert forall|k: int| 0 <= k < e.run.at && k < e.run.targets.len() implies both_done(
            #[trigger] e.run.targets[k],
            e.run.done,
        ) by {
            assert(both_done(g.run.targets[k], g.run.done));
        }
    }
}

proof fn lemma_begin_sidecar(w: WorldV, targets: Seq<TargetV>, unconfirmed: bool, done0: Seq<Seq<char>>)
    requires
        world_base(w, targets, unconfirmed, done0),
        at_surface(w, done0),
        w.run.done.contains(targets[w.run.at].id),
    ensures
        world_inv(
            WorldV { run: begin_sidecar(w.run), ..w },
            targets,
            unconfirmed,
            done0,
        ),
{
    let t = targets[w.run.at];
    if t.restores_sidecar && !w.run.sidecar_done {
        let e = WorldV { run: begin_sidecar(w.run), ..w };
        lemma_step_only(w, e, targets, unconfirmed, done0);
    } else {
        if !t.restores_sidecar {
            assert(w.run.targets[w.run.at].sidecar_key == t.sidecar_key);
            assert(noted_is_true(w, done0, t.sidecar_key));
        }
        lemma_end_sidecar(w, targets, unconfirmed, done0);
    }
}

/// Changing only the step or the announced keys keeps what holds between
/// actions.
proof fn lemma_step_only(
    w: WorldV,
    e: WorldV,
    targets: Seq<TargetV>,
    unconfirmed: bool,
    done0: Seq<Seq<char>>,
)
    requires
        world_base(w, targets, unconfirmed, done0),
        e.run.targets == w.run.targets,
        e.run.unconfirmed == w.run.unconfirmed,
        e.run.done == w.run.done,
        0 <= e.run.at <= targets.len(),
        extends(e.stored_started, e.run.started),
        extends(w.stored_started, e.stored_started),
        extends(e.stored_done, e.run.done),
        forall|i: int| #[trigger] w.checked.contains(i) ==> e.checked.contains(i),
        e.written == w.written,
        e.sidecars_written == w.sidecars_written,
    ensures
        world_base(e, targets, unconfirmed, done0),
        e.run.at == w.run.at && e.run.live_done == w.run.live_done && e.run.sidecar_done
            == w.run.sidecar_done && at_surface(w, done0) ==> at_surface(e, done0),
        forall|i: int| back_before(w.run, i) ==> #[trigger] back_before(e.run, i),
        forall|k: Seq<char>| noted_is_true(w, done0, k) ==> #[trigger] noted_is_true(e, done0, k),
{
    assert forall|k: Seq<char>| noted_is_true(w, done0, k) implies #[trigger] noted_is_true(
        e,
        done0,
        k,
    ) by {}
    assert forall|i: int| back_before(w.run, i) implies #[trigger] back_before(e.run, i) by {
        assert forall|k: int| 0 <= k < i && k < e.run.targets.len() implies both_done(
            #[trigger] e.run.targets[k],
            e.run.done,
        ) by {
            assert(both_done(w.run.targets[k], w.run.done));
        }
    }
    if e.run.at == w.run.at && at_surface(w, done0) {
        assert(back_before(e.run, e.run.at));
    }
}

proof fn lemma_begin_live(w: WorldV, targets: Seq<TargetV>, unconfirmed: bool, done0: Seq<Seq<char>>)
    requires
        world_base(w, targets, unconfirmed, done0),
        at_surface(w, done0),
        unconfirmed || w.checked.contains(w.run.at),
    ensures
        world_inv(
            WorldV { run: begin_live(w.run), ..w },
            targets,
            unconfirmed,
            done0,
        ),
{
    if w.run.live_done {
        lemma_begin_sidecar(w, targets, unconfirmed, done0);
    } else {
        let id = targets[w.run.at].id;
        lemma_contains_push(w.run.started, id);
        let e = WorldV { run: begin_live(w.run), ..w };
        assert(extends(w.stored_started, e.run.started)) by {
            assert forall|k: Seq<char>| #[trigger] w.stored_started.contains(k) implies e.run.started.contains(
                k,
            ) by {
                assert(w.run.started.contains(k));
            }
        }
        lemma_step_only(w, e, targets, unconfirmed, done0);
    }
}

proof fn lemma_enter(w: WorldV, i: int, targets: Seq<TargetV>, unconfirmed: bool, done0: Seq<Seq<char>>)
    requires
        world_base(w, targets, unconfirmed, done0),
        0 <= i <= targets.len(),
        back_before(w.run, i),
    ensures
        world_inv(
            WorldV { run: enter(w.run, i), ..w },
            targets,
            unconfirmed,
            done0,
        ),
{
    let r = w.run;
    lemma_next_open(targets, r.done, i);
    let j = next_open(targets, r.done, i);
    assert(back_before(r, j)) by {
        assert forall|k: int| 0 <= k < j && k < r.targets.len() implies both_done(
            #[trigger] r.targets[k],
            r.done,
        ) by {
            if k >= i {
                assert(both_done(targets[k], r.done));
            }
        }
    }
    if j >= targets.len() {
        let e = WorldV { run: enter(r, i), ..w };
        lemma_step_only(w, e, targets, unconfirmed, done0);
        assert(back_before(e.run, j));
    } else {
        let e = WorldV {
            run: RunV {
                at: j,
                live_done: r.done.contains(targets[j].id),
                sidecar_done: r.done.contains(targets[j].sidecar_key),
                ..r
            },
            ..w
        };
        lemma_step_only(w, e, targets, unconfirmed, done0);
        assert(back_before(e.run, j));
        if e.run.sidecar_done {
            assert(noted_is_true(w, done0, targets[j].sidecar_key));
            assert(noted_is_true(e, done0, targets[j].sidecar_key));
        }
        assert(at_surface(e, done0));
        if unconfirmed {
            lemma_begin_live(e, targets, unconfirmed, done0);
        } else {
            let c = WorldV { run: RunV { step: Step::Check, ..e.run }, ..e };
            lemma_step_only(e, c, targets, unconfirmed, done0);
        }
    }
}

proof fn lemma_world_step(w: WorldV, ok: bool, targets: Seq<TargetV>, unconfirmed: bool, done0: Seq<Seq<char>>)
    requires
        world_inv(w, targets, unconfirmed, done0),
    ensures
        world_inv(world_step(w, ok), targets, unconfirmed, done0),
{
    let r = w.run;
    let n = world_step(w, ok);
    if !ok {
        lemma_step_only(w, n, targets, unconfirmed, done0);
    } else {
        match r.step {
            Step::Check => {
                let c = WorldV { checked: w.checked.insert(r.at), ..w };
                lemma_step_only(w, c, targets, unconfirmed, done0);
                lemma_begin_live(c, targets, unconfirmed, done0);
            },
            Step::NoteStarted => {
                lemma_step_only(w, n, targets, unconfirmed, done0);
            },
            Step::RestoreLive => {
                lemma_restored_live(w, targets, unconfirmed, done0);
            },
            Step::NoteLive => {
                let c = WorldV { stored_started: r.started, stored_done: r.done, ..w };
                lemma_step_only(w, c, targets, unconfirmed, done0);
                lemma_begin_sidecar(c, targets, unconfirmed, done0);
            },
            Step::RestoreSidecar => {
                let c = WorldV { sidecars_written: w.sidecars_written.insert(r.at), ..w };
                assert(c.sidecars_written.contains(r.at));
                assert forall|k: Seq<char>| noted_is_true(w, done0, k) implies #[trigger] noted_is_true(
                    c,
                    done0,
                    k,
                ) by {}
                assert(c.run.targets[r.at].sidecar_key == targets[r.at].sidecar_key);
                assert(noted_is_true(c, done0, targets[r.at].sidecar_key));
                assert(world_base(c, targets, unconfirmed, done0)) by {
                    assert forall|k: Seq<char>| #[trigger] c.run.done.contains(k) implies noted_is_true(
                        c,
                        done0,
                        k,
                    ) by {
                        assert(noted_is_true(w, done0, k));
                    }
                }
                lemma_end_sidecar(c, targets, unconfirmed, done0);
            },
            Step::NoteSidecar => {
                let c = WorldV { stored_started: r.started, stored_done: r.done, ..w };
                lemma_step_only(w, c, targets, unconfirmed, done0);
                assert(back_before(c.run, r.at + 1)) by {
                    assert forall|k: int| 0 <= k < r.at + 1 && k < c.run.targets.len() implies both_done(
                        #[trigger] c.run.targets[k],
                        c.run.done,
                    ) by {
                        if k < r.at {
                            assert(both_done(w.run.targets[k], w.run.done));
                        }
                    }
                }
                lemma_enter(c, r.at + 1, targets, unconfirmed, done0);
            },
            Step::Clear => {
                lemma_step_only(w, n, targets, unconfirmed, done0);
            },
            Step::End => {},
        }
    }
}

proof fn lemma_restored_live(w: WorldV, targets: Seq<TargetV>, unconfirmed: bool, done0: Seq<Seq<char>>)
    requires
        world_inv(w, targets, unconfirmed, done0),
        w.run.step == Step::RestoreLive,
    ensures
        world_inv(world_step(w, true), targets, unconfirmed, done0),
{
    let r = w.run;
    let n = world_step(w, true);
    let id = targets[r.at].id;
    lemma_done_grows(w, done0, id);
    let g = WorldV { run: RunV { done: r.done.push(id), ..r }, ..w };
    assert(n.run.done == g.run.done);
    assert(n.written.contains(r.at));
    assert(n.run.targets[r.at].id == id);
    assert(noted_is_true(n, done0, id));
    assert forall|k: Seq<char>| noted_is_true(w, done0, k) implies #[trigger] noted_is_true(
        n,
        done0,
        k,
    ) by {}
    assert forall|k: Seq<char>| #[trigger] n.run.done.contains(k) implies noted_is_true(n, done0, k) by {
        if k != id {
            assert(r.done.contains(k));
            assert(noted_is_true(w, done0, k));
        }
    }
    assert(back_before(g.run, r.at));
    assert(back_before(n.run, n.run.at)) by {
        assert forall|k: int| 0 <= k < n.run.at && k < n.run.targets.len() implies both_done(
            #[trigger] n.run.targets[k],
            n.run.done,
        ) by {
            assert(both_done(g.run.targets[k], g.run.done));
        }
    }
}

proof fn lemma_world(
    targets: Seq<TargetV>,
    unconfirmed: bool,
    started: Seq<Seq<char>>,
    done: Seq<Seq<char>>,
    events: Seq<bool>,
)
    ensures
        world_inv(
            world_after(first_world(targets, unconfirmed, started, done), events),
            targets,
            unconfirmed,
            done,
        ),
    decreases events.len(),
{
    let first = first_world(targets, unconfirmed, started, done);
    if events.len() == 0 {
        let zero = WorldV {
            run: RunV {
                targets,
                unconfirmed,
                started,
                done,
                at: 0,
                live_done: false,
                sidecar_done: false,
                step: Step::Check,
            },
            ..first
        };
        lemma_enter(zero, 0, targets, unconfirmed, done);
    } else {
        lemma_world(targets, unconfirmed, started, done, events.drop_last());
        lemma_world_step(
            world_after(first, events.drop_last()),
            events.last(),
            targets,
            unconfirmed,
            done,
        );
    }
}

/// At every moment of a rollback, every surface it has written is durably
/// announced as begun, so a run that is killed at any point leaves a note that
/// the next run can resume from.
pub proof fn every_write_is_announced_first(
    targets: Seq<TargetV>,
    unconfirmed: bool,
    started: Seq<Seq<char>>,
    done: Seq<Seq<char>>,
    events: Seq<bool>,
    i: int,
)
    ensures
        ({
            let w = world_after(first_world(targets, unconfirmed, started, done), events);
            w.written.contains(i) ==> 0 <= i < targets.len() && w.stored_started.contains(
                targets[i].id,
            )
        }),
{
    lemma_world(targets, unconfirmed, started, done, events);
}

/// A confirmed rollback writes no surface that it has not just found as apply
/// left it.
pub proof fn a_confirmed_rollback_writes_only_what_it_checked(
    targets: Seq<TargetV>,
    started: Seq<Seq<char>>,
    done: Seq<Seq<char>>,
    events: Seq<bool>,
    i: int,
)
    ensures
        ({
            let w = world_after(first_world(targets, false, started, done), events);
            w.written.contains(i) ==> w.checked.contains(i)
        }),
{
    lemma_world(targets, false, started, done, events);
}

/// What the stored note calls done is true: it was done before this run, or this
/// run wrote it, or it is a backup that there was no need to write.
pub proof fn the_note_never_claims_too_much(
    targets: Seq<TargetV>,
    unconfirmed: bool,
    started: Seq<Seq<char>>,
    done: Seq<Seq<char>>,
    events: Seq<bool>,
    key: Seq<char>,
)
    ensures
        ({
            let w = world_after(first_world(targets, unconfirmed, started, done), events);
            w.stored_done.contains(key) ==> {
                ||| done.contains(key)
                ||| exists|i: int|
                    0 <= i < targets.len() && #[trigger] w.written.contains(i) && targets[i].id
                        == key
                ||| exists|i: int|
                    0 <= i < targets.len() && #[trigger] targets[i].sidecar_key == key && (
                    w.sidecars_written.contains(i) || !targets[i].restores_sidecar)
            }
        }),
{
    lemma_world(targets, unconfirmed, started, done, events);
    let w = world_after(first_world(targets, unconfirmed, started, done), events);
    if w.stored_done.contains(key) {
        assert(w.run.done.contains(key));
        assert(noted_is_true(w, done, key));
    }
}

/// When a rollback comes to clear its note, every surface and every backup is
/// noted as back.
pub proof fn the_note_is_cleared_only_when_everything_is_back(
    targets: Seq<TargetV>,
    unconfirmed: bool,
    started: Seq<Seq<char>>,
    done: Seq<Seq<char>>,
    events: Seq<bool>,
    i: int,
)
    requires
        0 <= i < targets.len(),
        world_after(first_world(targets, unconfirmed, started, done), events).run.step
            == Step::Clear,
    ensures
        both_done(
            targets[i],
            world_after(first_world(targets, unconfirmed, started, done), events).run.done,
        ),
{
    lemma_world(targets, unconfirmed, started, done, events);
    let w = world_after(first_world(targets, unconfirmed, started, done), events);
    assert(both_done(w.run.targets[i], w.run.done));
}

/// A run never writes a surface that the progress it began with calls back.
pub proof fn finished_surfaces_are_not_written_again(
    targets: Seq<TargetV>,
    unconfirmed: bool,
    started: Seq<Seq<char>>,
    done: Seq<Seq<char>>,
    events: Seq<bool>,
    i: int,
)
    requires
        0 <= i < targets.len(),
        done.contains(targets[i].id),
    ensures
        !world_after(first_world(targets, unconfirmed, started, done), events).written.contains(i),
    decreases events.len(),
{
    let first = first_world(targets, unconfirmed, started, done);
    if events.len() > 0 {
        finished_surfaces_are_not_written_again(
            targets,
            unconfirmed,
            started,
            done,
            events.drop_last(),
            i,
        );
        lemma_live_open(targets, unconfirmed, started, done, events.drop_last());
        lemma_world(targets, unconfirmed, started, done, events.drop_last());
    }
}

/// While a surface is being written or its writing announced, it was not noted
/// as back when the run turned to it.
proof fn lemma_live_open(
    targets: Seq<TargetV>,
    unconfirmed: bool,
    started: Seq<Seq<char>>,
    done: Seq<Seq<char>>,
    events: Seq<bool>,
)
    ensures
        ({
            let w = world_after(first_world(targets, unconfirmed, started, done), events);
            let r = w.run;
            &&& r.targets == targets
            &&& extends(done, r.done)
            &&& r.step == Step::Check ==> (r.at < targets.len() && !r.live_done ==> !done.contains(
                targets[r.at].id,
            ))
            &&& r.step == Step::NoteStarted || r.step == Step::RestoreLive ==> !done.contains(
                targets[r.at].id,
            )
        }),
    decreases events.len(),
{
    lemma_world(targets, unconfirmed, started, done, events);
    if events.len() > 0 {
        lemma_live_open(targets, unconfirmed, started, done, events.drop_last());
        lemma_world(targets, unconfirmed, started, done, events.drop_last());
        let w = world_after(
            first_world(targets, unconfirmed, started, done),
            events.drop_last(),
        );
        if w.run.step == Step::NoteSidecar {
            lemma_next_open(targets, w.run.done, w.run.at + 1);
        }
    } else {
        lemma_next_open(targets, done, 0);
    }
}

/// How much is left to do at most.
pub open spec fn measure(r: RunV) -> int {
    let stage: int = match r.step {
        Step::Check => 6,
        Step::NoteStarted => 5,
        Step::RestoreLive => 4,
        Step::NoteLive => 3,
        Step::RestoreSidecar => 2,
        Step::NoteSidecar => 1,
        Step::Clear => 1,
        Step::End => 0,
    };
    if r.step == Step::End {
        0
    } else {
        7 * (r.targets.len() - r.at) + stage
    }
}

/// Every action, whatever its outcome, brings a rollback nearer to its end.
pub proof fn a_rollback_always_ends(r: RunV, ok: bool)
    requires
        run_wf(r),
        r.step != Step::End,
    ensures
        0 <= measure(next_run(r, ok)) < measure(r),
        run_wf(next_run(r, ok)),
{
    if r.step == Step::NoteSidecar {
        lemma_next_open(r.targets, r.done, r.at + 1);
    }
}

proof fn lemma_next_open(targets: Seq<TargetV>, done: Seq<Seq<char>>, i: int)
    requires
        0 <= i <= targets.len(),
    ensures
        i <= next_open(targets, done, i) <= targets.len(),
        forall|k: int| i <= k < next_open(targets, done, i) ==> both_done(
            #[trigger] targets[k],
            done,
        ),
        next_open(targets, done, i) < targets.len() ==> !both_done(
            targets[next_open(targets, done, i)],
            done,
        ),
    decreases targets.len() - i,
{
    if i < targets.len() && both_done(targets[i], done) {
        lemma_next_open(targets, done, i + 1);
    }
}

/// A rollback is a success exactly where its last action succeeded. A failure has
/// exit code 1, names its transaction and what is back so far, and says
/// changed-since-apply exactly where a surface was found changed.
pub proof fn a_stopped_rollback_says_how_far_it_got(about: AboutV, r: RunV, ok: bool)
    ensures
        ({
            let e = ending(about, r, ok);
            &&& e.document.ok <==> ok
            &&& e.exit == (if ok {
                0u8
            } else {
                1u8
            })
            &&& !ok ==> e.document.data is None && e.extra.contains(
                ("transaction_id"@, JsonV::Str(about.id)),
            ) && e.extra.contains(("restored"@, JsonV::Arr(text_values(r.done))))
            &&& !ok ==> (e.document.error->0.code == "changed-since-apply"@ <==> r.step
                == Step::Check)
            &&& !ok && r.step != Step::Check ==> e.document.error->0.code == "operation-failed"@
            &&& !ok ==> (e.document.error->0.retryable <==> r.step == Step::Clear)
            &&& !ok && r.step != Step::Clear ==> e.extra.contains(
                ("stopped_at"@, JsonV::Str(r.targets[r.at].id)),
            )
            &&& ok ==> e.document.data is Some && e.document.data->0 is Obj
                && e.document.data->0->Obj_0.contains(
                ("transaction_id"@, JsonV::Str(about.id)),
            ) && e.document.data->0->Obj_0.contains(
                ("restored"@, JsonV::Arr(text_values(r.done))),
            ) && e.document.data->0->Obj_0.contains(("applied"@, JsonV::Bool(true)))
                && e.document.data->0->Obj_0.contains(
                ("unconfirmed"@, JsonV::Bool(r.unconfirmed)),
            )
        }),
{
    reveal_strlit("changed-since-apply");
    reveal_strlit("operation-failed");
    assert("changed-since-apply"@.len() == 19 && "operation-failed"@.len() == 16);
    let e = ending(about, r, ok);
    if ok {
        let f = e.document.data->0->Obj_0;
        assert(f[0] == ("transaction_id"@, JsonV::Str(about.id)));
        assert(f[2] == ("unconfirmed"@, JsonV::Bool(r.unconfirmed)));
        assert(f[3] == ("restored"@, JsonV::Arr(text_values(r.done))));
        assert(f[4] == ("applied"@, JsonV::Bool(true)));
    } else {
        assert(e.extra[0] == ("transaction_id"@, JsonV::Str(about.id)));
        assert(e.extra[1] == ("restored"@, JsonV::Arr(text_values(r.done))));
        if r.step != Step::Clear {
            assert(e.extra[2] == ("stopped_at"@, JsonV::Str(r.targets[r.at].id)));
        }
    }
}

/// A failed action ends the rollback and changes nothing else; a rollback whose
/// actions succeed ends only by clearing its note.
pub proof fn a_failed_action_ends_the_rollback(r: RunV)
    ensures
        next_run(r, false) == (RunV { step: Step::End, ..r }),
        r.step != Step::Clear && r.step != Step::End ==> next_run(r, true).step != Step::End,
        next_run(r, true).targets == r.targets,
        next_run(r, true).unconfirmed == r.unconfirmed,
{
}

/// A surface is compared before it is written exactly where the transaction is
/// confirmed, its restore is noted before it is written and after, and its backup
/// follows only where it is to be restored and is not back already.
pub proof fn a_surface_is_put_back_in_order(r: RunV)
    requires
        0 <= r.at < r.targets.len(),
    ensures
        r.step == Step::Check && !r.live_done ==> next_run(r, true).step == Step::NoteStarted
            && next_run(r, true).started.contains(r.targets[r.at].id),
        r.step == Step::NoteStarted ==> next_run(r, true).step == Step::RestoreLive
            && next_run(r, true).at == r.at,
        r.step == Step::RestoreLive ==> next_run(r, true).step == Step::NoteLive && next_run(
            r,
            true,
        ).done == r.done.push(r.targets[r.at].id),
        r.step == Step::NoteLive ==> (next_run(r, true).step == Step::RestoreSidecar
            <==> r.targets[r.at].restores_sidecar && !r.sidecar_done),
        r.step == Step::NoteLive && next_run(r, true).step != Step::RestoreSidecar ==> next_run(
            r,
            true,
        ).step == Step::NoteSidecar && next_run(r, true).done == r.done.push(
            r.targets[r.at].sidecar_key,
        ),
        r.step == Step::RestoreSidecar ==> next_run(r, true).step == Step::NoteSidecar && next_run(
            r,
            true,
        ).done == r.done.push(r.targets[r.at].sidecar_key),
{
    if r.step == Step::Check && !r.live_done {
        let id = r.targets[r.at].id;
        if !r.started.contains(id) {
            assert(r.started.push(id)[r.started.len() as int] == id);
        }
    }
}

/// A rollback turns to the first surface that is not wholly back, skips only those
/// that are, and comes to clear its note exactly where there is none.
pub proof fn only_finished_surfaces_are_passed_over(
    targets: Seq<TargetV>,
    done: Seq<Seq<char>>,
    i: int,
)
    requires
        0 <= i <= targets.len(),
    ensures
        ({
            let j = next_open(targets, done, i);
            &&& i <= j <= targets.len()
            &&& forall|k: int|
                i <= k < j ==> done.contains((#[trigger] targets[k]).id) && done.contains(
                    targets[k].sidecar_key,
                )
            &&& j < targets.len() ==> !done.contains(targets[j].id) || !done.contains(
                targets[j].sidecar_key,
            )
        }),
    decreases targets.len() - i,
{
    if i < targets.len() && both_done(targets[i], done) {
        only_finished_surfaces_are_passed_over(targets, done, i + 1);
    }
}

/// Where a rollback turns next: it clears its note exactly where nothing is open,
/// and else compares the surface first exactly where the transaction is confirmed.
pub proof fn a_confirmed_surface_is_compared_first(r: RunV, i: int)
    requires
        0 <= i <= r.targets.len(),
    ensures
        ({
            let e = enter(r, i);
            let j = next_open(r.targets, r.done, i);
            &&& e.step == Step::Clear <==> j == r.targets.len()
            &&& e.at == j
            &&& j < r.targets.len() ==> (e.step == Step::Check <==> !r.unconfirmed)
            &&& j < r.targets.len() && r.unconfirmed && !r.done.contains(r.targets[j].id) ==> e.step
                == Step::NoteStarted
        }),
{
    only_finished_surfaces_are_passed_over(r.targets, r.done, i);
}

/// Nothing is touched without being asked for, nor where one file of the record is
/// not this program's: a dry run answers with every surface it would restore, and
/// one file that is not managed refuses the whole.
pub proof fn one_unmanaged_file_refuses_the_whole(
    command: Seq<char>,
    id: Seq<char>,
    action: Seq<char>,
    targets: Seq<Target>,
    will_apply: bool,
    contract: u32,
    unconfirmed: bool,
)
    ensures
        ({
            let r = early_reply(command, id, action, targets, will_apply, contract, unconfirmed);
            let managed = forall|i: int| 0 <= i < targets.len() ==> (#[trigger] targets[i]).managed;
            &&& r is None <==> will_apply && managed
            &&& !will_apply ==> r is Some && r->0.document.ok && r->0.exit == 0
            &&& will_apply && !managed ==> !r->0.document.ok && r->0.exit == 1
                && r->0.document.error->0.code == "unmanaged-path"@
            &&& !will_apply ==> r->0.document.data->0->Obj_0.contains(
                ("applied"@, JsonV::Bool(false)),
            ) && r->0.document.data->0->Obj_0.contains(("transaction_id"@, JsonV::Str(id)))
                && exists|list: Seq<JsonV>|
                #[trigger] r->0.document.data->0->Obj_0.contains(
                    ("would_restore"@, JsonV::Arr(list)),
                ) && list.len() == targets.len() && forall|i: int|
                    0 <= i < list.len() ==> #[trigger] list[i] == JsonV::Str(
                        targets[i].surface.id@,
                    )
        }),
{
    if !will_apply {
        let f = dry_run_data(id, action, target_views(targets), unconfirmed)->Obj_0;
        let list = text_values(target_ids(target_views(targets)));
        assert(f[0] == ("transaction_id"@, JsonV::Str(id)));
        assert(f[3] == ("would_restore"@, JsonV::Arr(list)));
        assert(f[4] == ("applied"@, JsonV::Bool(false)));
        assert(f.contains(("would_restore"@, JsonV::Arr(list))));
    }
}

/// Mode and owner are put back only where all three were recorded, as recorded.
pub proof fn metadata_comes_whole(mode: Option<u32>, uid: Option<u32>, gid: Option<u32>)
    ensures
        whole_metadata(mode, uid, gid) is Some <==> mode is Some && uid is Some && gid is Some,
        whole_metadata(mode, uid, gid) matches Some((m, u, g)) ==> mode == Some(m) && uid == Some(u)
            && gid == Some(g),
{
}

/// A backup is restored exactly where the record has one and it is a file this
/// program manages.
pub proof fn a_backup_is_restored_only_where_it_is_managed(t: Target)
    ensures
        t.model().restores_sidecar <==> t.surface.sidecar is Some && t.sidecar_managed,
        t.model().id == t.surface.id@,
        t.model().sidecar_key == t.sidecar_key@,
{
}

/// Each step asks for one action, on the surface that it stands at: it is compared
/// before it is written, progress is noted round every write, and the reply is
/// published exactly at the end.
pub proof fn each_step_asks_for_its_own_action(r: RunV, a: Action)
    requires
        action_for(r, a),
    ensures
        a is Check <==> r.step == Step::Check,
        a matches Action::Check(i) ==> i == r.at as usize,
        a is RestoreLive <==> r.step == Step::RestoreLive,
        a matches Action::RestoreLive(i) ==> i == r.at as usize,
        a is RestoreSidecar <==> r.step == Step::RestoreSidecar,
        a matches Action::RestoreSidecar(i) ==> i == r.at as usize,
        a is Note <==> r.step == Step::NoteStarted || r.step == Step::NoteLive || r.step
            == Step::NoteSidecar,
        a is Clear <==> r.step == Step::Clear,
        a is Publish <==> r.step == Step::End,
{
}

/// A rollback that stops names the snapshot to go back to, unless it stopped at a
/// backup.
pub proof fn a_stopped_rollback_names_its_snapshot(about: AboutV, r: RunV)
    ensures
        ({
            let e = ending(about, r, false);
            &&& e.extra.len() == (if r.step == Step::RestoreSidecar {
                3nat
            } else {
                4nat
            })
            &&& r.step != Step::RestoreSidecar ==> e.extra.contains(
                ("snapshot"@, text_or_null(about.snapshot)),
            )
        }),
{
    let e = ending(about, r, false);
    if r.step != Step::RestoreSidecar {
        assert(e.extra[3] == ("snapshot"@, text_or_null(about.snapshot)));
    }
}

} // verus!
