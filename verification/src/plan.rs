//! What a login change would do to each surface, and the id that ties a plan to
//! the machine state it was computed against.

use vstd::prelude::*;
use vstd::utf8::encode_utf8;

use crate::contract::{negotiated, stripped, without_contract, Contract};
use crate::flags::{login_plan_action, valid_id, valid_login_plan_args};
use crate::ids::{digest, lemma_hex, lower_id, sha256};
use crate::json::{no_fields, Json, JsonArr, JsonObj, JsonV};
use crate::machine::{answer, answered, open_contract, opened_if, refuse_usage, Reply, ReplyV};
use crate::text::{hex, hex_of, texts};

verus! {

/// What would happen to one surface.
#[derive(Clone, Copy, Debug, PartialEq, Eq, Structural)]
pub enum PlannedChange {
    MaterializeOverride,
    Wire,
    RemoveOverride,
    RestoreBackup,
    StripInPlace,
    AlreadyCorrect,
    NotInstalled,
    NoAnchor,
    NotWired,
}

/// The published name of a change.
pub open spec fn change_id(c: PlannedChange) -> Seq<char> {
    match c {
        PlannedChange::MaterializeOverride => "materialize-override"@,
        PlannedChange::Wire => "wire"@,
        PlannedChange::RemoveOverride => "remove-override"@,
        PlannedChange::RestoreBackup => "restore-backup"@,
        PlannedChange::StripInPlace => "strip-in-place"@,
        PlannedChange::AlreadyCorrect => "already-correct"@,
        PlannedChange::NotInstalled => "not-installed"@,
        PlannedChange::NoAnchor => "no-anchor"@,
        PlannedChange::NotWired => "not-wired"@,
    }
}

/// Whether a change writes to disk.
pub open spec fn change_writes(c: PlannedChange) -> bool {
    match c {
        PlannedChange::MaterializeOverride => true,
        PlannedChange::Wire => true,
        PlannedChange::RemoveOverride => true,
        PlannedChange::RestoreBackup => true,
        PlannedChange::StripInPlace => true,
        PlannedChange::AlreadyCorrect => false,
        PlannedChange::NotInstalled => false,
        PlannedChange::NoAnchor => false,
        PlannedChange::NotWired => false,
    }
}

impl PlannedChange {
    pub fn id(&self) -> (r: &'static str)
        ensures
            r@ == change_id(*self),
    {
        match self {
            PlannedChange::MaterializeOverride => "materialize-override",
            PlannedChange::Wire => "wire",
            PlannedChange::RemoveOverride => "remove-override",
            PlannedChange::RestoreBackup => "restore-backup",
            PlannedChange::StripInPlace => "strip-in-place",
            PlannedChange::AlreadyCorrect => "already-correct",
            PlannedChange::NotInstalled => "not-installed",
            PlannedChange::NoAnchor => "no-anchor",
            PlannedChange::NotWired => "not-wired",
        }
    }

    pub fn writes(&self) -> (r: bool)
        ensures
            r == change_writes(*self),
    {
        match self {
            PlannedChange::MaterializeOverride => true,
            PlannedChange::Wire => true,
            PlannedChange::RemoveOverride => true,
            PlannedChange::RestoreBackup => true,
            PlannedChange::StripInPlace => true,
            _ => false,
        }
    }
}

proof fn reveal_change_ids()
    ensures
        change_id(PlannedChange::MaterializeOverride).len() == 20,
        change_id(PlannedChange::Wire).len() == 4,
        change_id(PlannedChange::RemoveOverride).len() == 15,
        change_id(PlannedChange::RestoreBackup).len() == 14,
        change_id(PlannedChange::StripInPlace).len() == 14,
        change_id(PlannedChange::AlreadyCorrect).len() == 15,
        change_id(PlannedChange::NotInstalled).len() == 13,
        change_id(PlannedChange::NoAnchor).len() == 9,
        change_id(PlannedChange::NotWired).len() == 9,
        change_id(PlannedChange::RemoveOverride)[0] == 'r',
        change_id(PlannedChange::AlreadyCorrect)[0] == 'a',
        change_id(PlannedChange::RestoreBackup)[0] == 'r',
        change_id(PlannedChange::StripInPlace)[0] == 's',
        change_id(PlannedChange::NoAnchor)[2] == '-',
        change_id(PlannedChange::NotWired)[2] == 't',
        forall|c: PlannedChange| !(#[trigger] change_id(c)).contains(' '),
{
    reveal_strlit("materialize-override");
    reveal_strlit("wire");
    reveal_strlit("remove-override");
    reveal_strlit("restore-backup");
    reveal_strlit("strip-in-place");
    reveal_strlit("already-correct");
    reveal_strlit("not-installed");
    reveal_strlit("no-anchor");
    reveal_strlit("not-wired");
    assert forall|c: PlannedChange| !(#[trigger] change_id(c)).contains(' ') by {
        assert forall|i: int| 0 <= i < change_id(c).len() implies change_id(c)[i] != ' ' by {
            match c {
                PlannedChange::MaterializeOverride => {},
                PlannedChange::Wire => {},
                PlannedChange::RemoveOverride => {},
                PlannedChange::RestoreBackup => {},
                PlannedChange::StripInPlace => {},
                PlannedChange::AlreadyCorrect => {},
                PlannedChange::NotInstalled => {},
                PlannedChange::NoAnchor => {},
                PlannedChange::NotWired => {},
            }
        }
    }
}

/// No two changes share a published name.
pub proof fn change_ids_are_distinct(a: PlannedChange, b: PlannedChange)
    ensures
        change_id(a) == change_id(b) ==> a == b,
{
    reveal_change_ids();
}

/// One surface of a plan: what it is, what would happen to it, and the state it
/// was seen in.
pub struct PlannedSurface {
    pub id: &'static str,
    pub role: &'static str,
    pub change: PlannedChange,
    pub state: String,
}

pub struct PlannedV {
    pub id: Seq<char>,
    pub role: Seq<char>,
    pub change: PlannedChange,
    pub state: Seq<char>,
}

impl View for PlannedSurface {
    type V = PlannedV;

    open spec fn view(&self) -> PlannedV {
        PlannedV { id: self.id@, role: self.role@, change: self.change, state: self.state@ }
    }
}

pub open spec fn planned_views(v: Seq<PlannedSurface>) -> Seq<PlannedV> {
    v.map_values(|s: PlannedSurface| s@)
}

/// What one surface contributes to the id: its outcome and its observed state.
pub open spec fn surface_material(s: PlannedV) -> Seq<char> {
    seq!['\n'] + s.id + seq![' '] + change_id(s.change) + seq![' '] + s.state
}

/// What a plan's id digests: the action, then every surface.
pub open spec fn plan_material(action: Seq<char>, planned: Seq<PlannedV>) -> Seq<char>
    decreases planned.len(),
{
    if planned.len() == 0 {
        action
    } else {
        plan_material(action, planned.drop_last()) + surface_material(planned.last())
    }
}

/// The identifier of a plan: the first half of the digest, hex encoded.
pub open spec fn plan_identifier(action: Seq<char>, planned: Seq<PlannedV>) -> Seq<char> {
    hex(sha256(encode_utf8(plan_material(action, planned))).take(16))
}

/// A digest of the action and the exact per-surface outcomes and states it was
/// computed against.
pub fn plan_id(action: &str, planned: &[PlannedSurface]) -> (r: String)
    ensures
        r@ == plan_identifier(action@, planned_views(planned@)),
        lower_id(r@),
        valid_id(r@),
{
    let ghost views = planned_views(planned@);
    let mut material = crate::text::owned(action);
    let mut i: usize = 0;
    while i < planned.len()
        invariant
            i <= planned@.len(),
            views == planned_views(planned@),
            material@ == plan_material(action@, views.take(i as int)),
        decreases planned@.len() - i,
    {
        let ghost before = material@;
        material.push('\n');
        material.append(planned[i].id);
        material.push(' ');
        material.append(planned[i].change.id());
        material.push(' ');
        material.append(planned[i].state.as_str());
        proof {
            let s = views[i as int];
            assert(s == planned@[i as int]@);
            assert(material@ =~= before + surface_material(s));
            assert(views.take(i + 1).drop_last() =~= views.take(i as int));
            assert(views.take(i + 1).last() == s);
        }
        i = i + 1;
    }
    proof {
        assert(views.take(views.len() as int) =~= views);
    }
    let full = digest(material.as_str().as_bytes());
    let half = vstd::slice::slice_subrange(full.as_slice(), 0, 16);
    proof {
        assert(half@ =~= full@.take(16));
        lemma_hex(half@);
    }
    hex_of(half)
}

/// The surfaces' part of the material, front to back.
spec fn tail_material(planned: Seq<PlannedV>) -> Seq<char>
    decreases planned.len(),
{
    if planned.len() == 0 {
        Seq::empty()
    } else {
        surface_material(planned[0]) + tail_material(planned.skip(1))
    }
}

proof fn lemma_material_split(action: Seq<char>, planned: Seq<PlannedV>)
    ensures
        plan_material(action, planned) == action + tail_material(planned),
    decreases planned.len(),
{
    if planned.len() == 0 {
        assert(action + tail_material(planned) =~= action);
    } else {
        lemma_material_split(action, planned.drop_last());
        lemma_tail_last(planned);
        assert(action + tail_material(planned.drop_last()) + surface_material(planned.last())
            =~= action + (tail_material(planned.drop_last()) + surface_material(planned.last())));
    }
}

proof fn lemma_tail_last(planned: Seq<PlannedV>)
    requires
        planned.len() > 0,
    ensures
        tail_material(planned) == tail_material(planned.drop_last()) + surface_material(
            planned.last(),
        ),
    decreases planned.len(),
{
    let head = surface_material(planned[0]);
    if planned.len() == 1 {
        assert(planned.skip(1) =~= Seq::<PlannedV>::empty());
        assert(planned.drop_last() =~= Seq::<PlannedV>::empty());
        assert(tail_material(planned.skip(1)) =~= Seq::<char>::empty());
        assert(tail_material(planned) =~= head);
        assert(tail_material(planned.drop_last()) + head =~= head);
    } else {
        lemma_tail_last(planned.skip(1));
        assert(planned.skip(1).drop_last() =~= planned.drop_last().skip(1));
        assert(planned.drop_last()[0] == planned[0]);
        assert(head + (tail_material(planned.drop_last().skip(1)) + surface_material(planned.last()))
            =~= (head + tail_material(planned.drop_last().skip(1))) + surface_material(
            planned.last(),
        ));
    }
}

/// `s` is empty or begins with `c`.
spec fn starts_or_empty(s: Seq<char>, c: char) -> bool {
    s.len() == 0 || s[0] == c
}

proof fn lemma_split_at(a: Seq<char>, s: Seq<char>, b: Seq<char>, t: Seq<char>, c: char)
    requires
        a + s == b + t,
        !a.contains(c),
        !b.contains(c),
        starts_or_empty(s, c),
        starts_or_empty(t, c),
    ensures
        a == b,
        s == t,
{
    if a.len() < b.len() {
        assert((a + s)[a.len() as int] == (b + t)[a.len() as int]);
        assert((a + s).len() == (b + t).len());
        assert(s.len() > 0);
        assert((a + s)[a.len() as int] == s[0]);
        assert(b[a.len() as int] == c);
        assert(b.contains(c));
    } else if b.len() < a.len() {
        assert((a + s)[b.len() as int] == (b + t)[b.len() as int]);
        assert((a + s).len() == (b + t).len());
        assert(t.len() > 0);
        assert((b + t)[b.len() as int] == t[0]);
        assert(a[b.len() as int] == c);
        assert(a.contains(c));
    } else {
        assert((a + s).take(a.len() as int) =~= a);
        assert((b + t).take(a.len() as int) =~= b);
        assert((a + s).skip(a.len() as int) =~= s);
        assert((b + t).skip(a.len() as int) =~= t);
    }
}

/// A surface whose id and state keep to one line, the id to one word.
pub open spec fn plain_surface(s: PlannedV) -> bool {
    !s.id.contains('\n') && !s.id.contains(' ') && !s.state.contains('\n')
}

pub open spec fn plain_plan(action: Seq<char>, planned: Seq<PlannedV>) -> bool {
    &&& !action.contains('\n')
    &&& forall|i: int| 0 <= i < planned.len() ==> plain_surface(#[trigger] planned[i])
}

/// What a plan's id covers of one surface.
pub open spec fn same_outcome(a: PlannedV, b: PlannedV) -> bool {
    a.id == b.id && a.change == b.change && a.state == b.state
}

pub open spec fn same_outcomes(p: Seq<PlannedV>, q: Seq<PlannedV>) -> bool {
    p.len() == q.len() && forall|i: int|
        0 <= i < p.len() ==> same_outcome(#[trigger] p[i], q[i])
}

/// A field behind its mark, and what follows it.
spec fn marked(mark: char, field: Seq<char>, rest: Seq<char>) -> Seq<char> {
    seq![mark] + (field + rest)
}

proof fn lemma_field(
    mark: char,
    a: Seq<char>,
    s: Seq<char>,
    b: Seq<char>,
    t: Seq<char>,
    c: char,
)
    requires
        marked(mark, a, s) == marked(mark, b, t),
        !a.contains(c),
        !b.contains(c),
        starts_or_empty(s, c),
        starts_or_empty(t, c),
    ensures
        a == b,
        s == t,
{
    assert(marked(mark, a, s).skip(1) =~= a + s);
    assert(marked(mark, b, t).skip(1) =~= b + t);
    lemma_split_at(a, s, b, t, c);
}

/// A surface is its id, its change and its state, each behind its mark.
proof fn lemma_surface_layout(a: PlannedV, tail: Seq<char>)
    ensures
        surface_material(a) + tail == marked(
            '\n',
            a.id,
            marked(' ', change_id(a.change), marked(' ', a.state, tail)),
        ),
{
    assert(surface_material(a) + tail =~= marked(
        '\n',
        a.id,
        marked(' ', change_id(a.change), marked(' ', a.state, tail)),
    ));
}

proof fn lemma_first_surface(a: PlannedV, ta: Seq<char>, b: PlannedV, tb: Seq<char>)
    requires
        surface_material(a) + ta == surface_material(b) + tb,
        plain_surface(a),
        plain_surface(b),
        starts_or_empty(ta, '\n'),
        starts_or_empty(tb, '\n'),
    ensures
        same_outcome(a, b),
        ta == tb,
{
    lemma_surface_layout(a, ta);
    lemma_surface_layout(b, tb);
    let sa = marked(' ', a.state, ta);
    let sb = marked(' ', b.state, tb);
    let ca = marked(' ', change_id(a.change), sa);
    let cb = marked(' ', change_id(b.change), sb);
    // Up to the first space after the line break stands the id.
    lemma_field('\n', a.id, ca, b.id, cb, ' ');
    // Then the change, up to the next space.
    assert(!change_id(a.change).contains(' ') && !change_id(b.change).contains(' ')) by {
        reveal_change_ids();
    }
    lemma_field(' ', change_id(a.change), sa, change_id(b.change), sb, ' ');
    change_ids_are_distinct(a.change, b.change);
    // Then the state, up to the next line break.
    lemma_field(' ', a.state, ta, b.state, tb, '\n');
}

proof fn lemma_tail_injective(p: Seq<PlannedV>, q: Seq<PlannedV>)
    requires
        tail_material(p) == tail_material(q),
        forall|i: int| 0 <= i < p.len() ==> plain_surface(#[trigger] p[i]),
        forall|i: int| 0 <= i < q.len() ==> plain_surface(#[trigger] q[i]),
    ensures
        same_outcomes(p, q),
    decreases p.len(),
{
    if p.len() > 0 {
        assert(tail_material(p)[0] == '\n');
        assert(q.len() > 0);
        let a = p[0];
        let b = q[0];
        assert(plain_surface(a) && plain_surface(b));
        let ta = tail_material(p.skip(1));
        let tb = tail_material(q.skip(1));
        assert(starts_or_empty(ta, '\n'));
        assert(starts_or_empty(tb, '\n'));
        lemma_first_surface(a, ta, b, tb);
        assert forall|i: int| 0 <= i < p.skip(1).len() implies plain_surface(
            #[trigger] p.skip(1)[i],
        ) by {
            assert(p.skip(1)[i] == p[i + 1]);
        }
        assert forall|i: int| 0 <= i < q.skip(1).len() implies plain_surface(
            #[trigger] q.skip(1)[i],
        ) by {
            assert(q.skip(1)[i] == q[i + 1]);
        }
        lemma_tail_injective(p.skip(1), q.skip(1));
        assert forall|i: int| 0 <= i < p.len() implies same_outcome(#[trigger] p[i], q[i]) by {
            if i > 0 {
                assert(p.skip(1)[i - 1] == p[i]);
                assert(q.skip(1)[i - 1] == q[i]);
                assert(same_outcome(p.skip(1)[i - 1], q.skip(1)[i - 1]));
            }
        }
    } else if q.len() > 0 {
        assert(tail_material(q)[0] == '\n');
    }
}

/// A plan's id digests everything an apply is about: two plans digest the same
/// material exactly when their action, their outcomes and the states they were
/// computed against agree.
pub proof fn plan_material_covers_action_outcomes_and_state(
    action_p: Seq<char>,
    p: Seq<PlannedV>,
    action_q: Seq<char>,
    q: Seq<PlannedV>,
)
    requires
        plain_plan(action_p, p),
        plain_plan(action_q, q),
    ensures
        plan_material(action_p, p) == plan_material(action_q, q) <==> action_p == action_q
            && same_outcomes(p, q),
{
    lemma_material_split(action_p, p);
    lemma_material_split(action_q, q);
    if plan_material(action_p, p) == plan_material(action_q, q) {
        lemma_split_at(action_p, tail_material(p), action_q, tail_material(q), '\n');
        lemma_tail_injective(p, q);
    }
    if action_p == action_q && same_outcomes(p, q) {
        lemma_same_outcomes_same_material(action_p, p, q);
    }
}

proof fn lemma_same_outcomes_same_material(action: Seq<char>, p: Seq<PlannedV>, q: Seq<PlannedV>)
    requires
        same_outcomes(p, q),
    ensures
        plan_material(action, p) == plan_material(action, q),
    decreases p.len(),
{
    if p.len() > 0 {
        assert(same_outcome(p[p.len() - 1], q[p.len() - 1]));
        assert forall|i: int| 0 <= i < p.drop_last().len() implies same_outcome(
            #[trigger] p.drop_last()[i],
            q.drop_last()[i],
        ) by {
            assert(same_outcome(p[i], q[i]));
        }
        lemma_same_outcomes_same_material(action, p.drop_last(), q.drop_last());
    }
}

/// A plan over an unchanged machine keeps its id.
pub proof fn an_unchanged_machine_keeps_the_plan_id(
    action: Seq<char>,
    p: Seq<PlannedV>,
    q: Seq<PlannedV>,
)
    requires
        same_outcomes(p, q),
    ensures
        plan_identifier(action, p) == plan_identifier(action, q),
{
    lemma_same_outcomes_same_material(action, p, q);
}

/// How many surfaces of a plan would be written.
pub open spec fn writes_count(planned: Seq<PlannedV>) -> nat
    decreases planned.len(),
{
    if planned.len() == 0 {
        0
    } else {
        writes_count(planned.drop_last()) + if change_writes(planned.last().change) {
            1nat
        } else {
            0nat
        }
    }
}

/// One surface as the plan publishes it.
pub open spec fn planned_json(s: PlannedV) -> JsonV {
    JsonV::Obj(
        no_fields().push(("surface"@, JsonV::Str(s.id))).push(("role"@, JsonV::Str(s.role))).push(
            ("change"@, JsonV::Str(change_id(s.change))),
        ).push(("writes"@, JsonV::Bool(change_writes(s.change)))),
    )
}

pub open spec fn planned_jsons(planned: Seq<PlannedV>) -> Seq<JsonV> {
    planned.map_values(|s: PlannedV| planned_json(s))
}

/// What `login plan --json` answers.
pub open spec fn plan_data(action: Seq<char>, planned: Seq<PlannedV>) -> JsonV {
    JsonV::Obj(
        no_fields().push(("plan_id"@, JsonV::Str(plan_identifier(action, planned)))).push(
            ("action"@, JsonV::Str(action)),
        ).push(("changes"@, JsonV::Arr(planned_jsons(planned)))).push(
            ("writes"@, JsonV::Num(writes_count(planned))),
        ).push(("requires_root"@, JsonV::Bool(writes_count(planned) > 0))),
    )
}

/// Opens `login plan`: the contract, and the action to plan.
pub fn login_plan(args: &[String]) -> (r: Result<(u32, &'static str), Reply>)
    ensures
        match r {
            Ok((v, action)) => negotiated(texts(args@)) == Contract::Agreed(v) && login_plan_action(
                stripped(texts(args@)),
            ) == Some(action@),
            Err(reply) => opened_if(
                "login.plan"@,
                texts(args@),
                login_plan_action(stripped(texts(args@))) is Some,
            ) == Err::<u32, ReplyV>(reply@),
        },
{
    match open_contract("login.plan", args) {
        Err(reply) => Err(reply),
        Ok(v) => {
            let rest = without_contract(args);
            match valid_login_plan_args(rest.as_slice()) {
                Some(action) => Ok((v, action)),
                None => Err(refuse_usage("login.plan", v)),
            }
        },
    }
}

/// What `login plan` answers about the surfaces it was given.
pub fn login_plan_reply(action: &str, planned: &[PlannedSurface], contract: u32) -> (r: Reply)
    ensures
        r@ == answered("login.plan"@, plan_data(action@, planned_views(planned@)), contract),
{
    let ghost views = planned_views(planned@);
    let mut changes = JsonArr::new();
    let mut writes: u64 = 0;
    let mut i: usize = 0;
    proof {
        assert(planned_jsons(views).take(0) =~= Seq::<JsonV>::empty());
    }
    while i < planned.len()
        invariant
            i <= planned@.len(),
            views == planned_views(planned@),
            changes@ == planned_jsons(views).take(i as int),
            writes == writes_count(views.take(i as int)),
            writes <= i,
        decreases planned@.len() - i,
    {
        let mut o = JsonObj::new();
        o.put("surface", Json::text(planned[i].id));
        o.put("role", Json::text(planned[i].role));
        o.put("change", Json::text(planned[i].change.id()));
        o.put("writes", Json::flag(planned[i].change.writes()));
        changes.put(Json::obj(o));
        if planned[i].change.writes() {
            writes = writes + 1;
        }
        proof {
            assert(changes@ =~= planned_jsons(views).take(i + 1));
            assert(views.take(i + 1).drop_last() =~= views.take(i as int));
        }
        i = i + 1;
    }
    proof {
        assert(views.take(views.len() as int) =~= views);
        assert(planned_jsons(views).take(views.len() as int) =~= planned_jsons(views));
    }
    let mut o = JsonObj::new();
    let id = plan_id(action, planned);
    o.put("plan_id", Json::text(id.as_str()));
    o.put("action", Json::text(action));
    o.put("changes", Json::arr(changes));
    o.put("writes", Json::num(writes));
    o.put("requires_root", Json::flag(writes > 0));
    answer("login.plan", Json::obj(o), contract)
}

/// A change that finds nothing to do writes nothing, and every other one writes.
pub proof fn only_a_change_with_something_to_do_writes(c: PlannedChange)
    ensures
        !change_writes(c) <==> c == PlannedChange::AlreadyCorrect || c
            == PlannedChange::NotInstalled || c == PlannedChange::NoAnchor || c
            == PlannedChange::NotWired,
{
}

/// The count of writes grows by one with each surface that would be written, and by
/// nothing else; it is zero exactly where none would be.
pub proof fn each_written_surface_counts_once(planned: Seq<PlannedV>, s: PlannedV)
    ensures
        writes_count(Seq::empty()) == 0,
        writes_count(planned.push(s)) == writes_count(planned) + if change_writes(s.change) {
            1nat
        } else {
            0nat
        },
        writes_count(planned) == 0 <==> forall|i: int|
            0 <= i < planned.len() ==> !change_writes((#[trigger] planned[i]).change),
    decreases planned.len(),
{
    assert(planned.push(s).drop_last() =~= planned);
    if planned.len() > 0 {
        each_written_surface_counts_once(planned.drop_last(), s);
        if writes_count(planned) == 0 {
            assert forall|i: int| 0 <= i < planned.len() implies !change_writes(
                (#[trigger] planned[i]).change,
            ) by {
                if i < planned.len() - 1 {
                    assert(planned.drop_last()[i] == planned[i]);
                }
            }
        }
        if forall|i: int|
            0 <= i < planned.len() ==> !change_writes((#[trigger] planned[i]).change) {
            assert forall|i: int| 0 <= i < planned.drop_last().len() implies !change_writes(
                (#[trigger] planned.drop_last()[i]).change,
            ) by {
                assert(planned.drop_last()[i] == planned[i]);
            }
            assert(!change_writes(planned[planned.len() - 1].change));
        }
    }
}

/// A plan publishes its id, its action, and each surface, in order, with its change
/// and whether that writes; it needs root exactly where some surface would be
/// written.
pub proof fn a_plan_needs_root_only_to_write(action: Seq<char>, planned: Seq<PlannedV>)
    ensures
        ({
            let data = plan_data(action, planned)->Obj_0;
            let writes = exists|i: int|
                0 <= i < planned.len() && change_writes((#[trigger] planned[i]).change);
            &&& data.contains(("requires_root"@, JsonV::Bool(true))) <==> writes
            &&& data.contains(("requires_root"@, JsonV::Bool(false))) <==> !writes
            &&& data.contains(("action"@, JsonV::Str(action)))
            &&& data.contains(("plan_id"@, JsonV::Str(plan_identifier(action, planned))))
            &&& data.contains(("writes"@, JsonV::Num(writes_count(planned))))
            &&& exists|list: Seq<JsonV>|
                #[trigger] data.contains(("changes"@, JsonV::Arr(list))) && list.len()
                    == planned.len() && forall|i: int|
                    0 <= i < list.len() ==> (#[trigger] list[i]) is Obj && list[i]->Obj_0.contains(
                        ("surface"@, JsonV::Str(planned[i].id)),
                    ) && list[i]->Obj_0.contains(
                        ("change"@, JsonV::Str(change_id(planned[i].change))),
                    ) && list[i]->Obj_0.contains(
                        ("writes"@, JsonV::Bool(change_writes(planned[i].change))),
                    )
        }),
{
    let data = plan_data(action, planned)->Obj_0;
    let list = planned_jsons(planned);
    assert(data[0].0 == "plan_id"@);
    assert(data[1].0 == "action"@);
    assert(data[2] == ("changes"@, JsonV::Arr(list)));
    assert(data[3].0 == "writes"@);
    assert(data[4] == ("requires_root"@, JsonV::Bool(writes_count(planned) > 0)));
    assert(data.contains(("changes"@, JsonV::Arr(list))));
    if planned.len() > 0 {
        each_written_surface_counts_once(planned, planned[0]);
    }
    assert forall|i: int| 0 <= i < list.len() implies (#[trigger] list[i]) is Obj
        && list[i]->Obj_0.contains(("surface"@, JsonV::Str(planned[i].id)))
        && list[i]->Obj_0.contains(("change"@, JsonV::Str(change_id(planned[i].change))))
        && list[i]->Obj_0.contains(
        ("writes"@, JsonV::Bool(change_writes(planned[i].change))),
    ) by {
        let o = list[i]->Obj_0;
        assert(o[0] == ("surface"@, JsonV::Str(planned[i].id)));
        assert(o[2] == ("change"@, JsonV::Str(change_id(planned[i].change))));
        assert(o[3] == ("writes"@, JsonV::Bool(change_writes(planned[i].change))));
    }
}

/// The id of a plan spells the first sixteen bytes of the digest of its material,
/// byte by byte.
pub proof fn a_plan_id_spells_the_digest_of_its_material(
    action: Seq<char>,
    planned: Seq<PlannedV>,
    i: int,
)
    requires
        0 <= i < 16,
        sha256(encode_utf8(plan_material(action, planned))).len() >= 16,
    ensures
        plan_identifier(action, planned).len() == 32,
        crate::text::hex_value(plan_identifier(action, planned).subrange(2 * i, 2 * i + 2))
            == sha256(encode_utf8(plan_material(action, planned)))[i],
{
    let bytes = sha256(encode_utf8(plan_material(action, planned))).take(16);
    crate::text::spelled_bytes_read_back(bytes, i);
}

/// The material of a plan is its action and then one line for each surface, in
/// order: its id, its change and its state.
pub proof fn each_surface_adds_its_line(
    action: Seq<char>,
    planned: Seq<PlannedV>,
    s: PlannedV,
)
    ensures
        plan_material(action, Seq::empty()) == action,
        plan_material(action, planned.push(s)) == plan_material(action, planned) + seq!['\n'] + s.id
            + seq![' '] + change_id(s.change) + seq![' '] + s.state,
{
    assert(planned.push(s).drop_last() =~= planned);
    assert(plan_material(action, planned) + surface_material(s) =~= plan_material(action, planned)
        + seq!['\n'] + s.id + seq![' '] + change_id(s.change) + seq![' '] + s.state);
}

} // verus!
