//! How committed log entries are applied to the replicated state machine.
//!
//! Applying a batch of entries alternates writes to storage with updates of
//! the in-memory state. The decisions are made here: `apply_plan` turns the
//! entries into the ordered operations to perform, and `StateMachine::record`
//! updates the in-memory state once an operation has been carried out.
use vstd::prelude::*;

use crate::ids::RaftLogId;
use crate::models::{Request, TransportableParam};

verus! {

/// The payload of a committed log entry. `M` is the membership configuration.
pub enum EntryPayload<M> {
    /// An entry that only marks a new leader's term.
    Blank,
    /// A request to the state machine.
    Normal(Request),
    /// A new membership configuration.
    Membership(M),
}

/// A committed log entry.
pub struct Entry<M> {
    pub log_id: RaftLogId,
    pub payload: EntryPayload<M>,
}

/// A membership configuration together with the id of the entry that set it.
pub struct EffectiveMembership<M> {
    pub log_id: Option<RaftLogId>,
    pub membership: M,
}

/// One step of applying entries, in the order in which it must be performed.
pub enum ApplyOp<M> {
    /// Persist, then record, the id of the entry being applied.
    SetLastApplied(RaftLogId),
    /// Run the statement of a normal entry on the live data.
    Execute { sql: String, params: Vec<TransportableParam> },
    /// Persist, then record, the membership that an entry set.
    SetMembership(EffectiveMembership<M>),
    /// Answer the entry with an empty response.
    Respond,
}

/// The steps that apply one entry: its id is recorded first, then its payload
/// takes effect, and the entry is answered last.
pub open spec fn entry_ops<M>(e: Entry<M>) -> Seq<ApplyOp<M>> {
    let payload_ops: Seq<ApplyOp<M>> = match e.payload {
        EntryPayload::Blank => Seq::empty(),
        EntryPayload::Normal(Request::Execute { sql, value }) => seq![
            ApplyOp::Execute { sql: sql, params: value },
        ],
        EntryPayload::Membership(m) => seq![
            ApplyOp::SetMembership(EffectiveMembership { log_id: Some(e.log_id), membership: m }),
        ],
    };
    seq![ApplyOp::SetLastApplied(e.log_id)] + payload_ops + seq![ApplyOp::Respond]
}

/// The steps that apply a batch of entries, entry after entry.
pub open spec fn plan_of<M>(entries: Seq<Entry<M>>) -> Seq<ApplyOp<M>>
    decreases entries.len(),
{
    if entries.len() == 0 {
        Seq::empty()
    } else {
        plan_of(entries.drop_last()) + entry_ops(entries.last())
    }
}

fn ops_of_entry<M>(e: Entry<M>) -> (ops: Vec<ApplyOp<M>>)
    ensures
        ops@ == entry_ops(e),
{
    let ghost g = e;
    let mut ops: Vec<ApplyOp<M>> = Vec::new();
    ops.push(ApplyOp::SetLastApplied(e.log_id));
    match e.payload {
        EntryPayload::Blank => {},
        EntryPayload::Normal(Request::Execute { sql, value }) => {
            ops.push(ApplyOp::Execute { sql, params: value });
        },
        EntryPayload::Membership(m) => {
            ops.push(ApplyOp::SetMembership(EffectiveMembership { log_id: Some(e.log_id), membership: m }));
        },
    }
    ops.push(ApplyOp::Respond);
    assert(ops@ =~= entry_ops(g));
    ops
}

/// Turns a batch of committed entries into the steps that apply them.
pub fn apply_plan<M>(entries: Vec<Entry<M>>) -> (ops: Vec<ApplyOp<M>>)
    ensures
        ops@ == plan_of(entries@),
{
    let ghost all = entries@;
    assert(all.len() == entries.len());
    let mut rest = entries;
    let mut ops: Vec<ApplyOp<M>> = Vec::new();
    let mut i: usize = 0;
    while rest.len() > 0
        invariant
            i <= all.len(),
            all.len() <= usize::MAX,
            rest@ == all.skip(i as int),
            ops@ == plan_of(all.take(i as int)),
        decreases rest.len(),
    {
        let e = rest.remove(0);
        let mut step = ops_of_entry(e);
        proof {
            assert(all.take(i + 1).drop_last() =~= all.take(i as int));
            assert(all.take(i + 1).last() == all[i as int]);
        }
        ops.append(&mut step);
        i = i + 1;
        proof {
            assert(rest@ =~= all.skip(i as int));
        }
    }
    assert(all.take(i as int) =~= all);
    ops
}

/// The in-memory part of the state machine: the id of the last applied entry
/// and the membership configuration in effect.
pub struct AppliedState<M> {
    pub last_applied_log: Option<RaftLogId>,
    pub last_membership: EffectiveMembership<M>,
}

/// The in-memory state after one step has been carried out.
pub open spec fn after_op<M>(s: AppliedState<M>, op: ApplyOp<M>) -> AppliedState<M> {
    match op {
        ApplyOp::SetLastApplied(id) => AppliedState { last_applied_log: Some(id), last_membership: s.last_membership },
        ApplyOp::SetMembership(m) => AppliedState { last_applied_log: s.last_applied_log, last_membership: m },
        _ => s,
    }
}

/// The in-memory state after a sequence of steps has been carried out in order.
pub open spec fn after_ops<M>(s: AppliedState<M>, ops: Seq<ApplyOp<M>>) -> AppliedState<M>
    decreases ops.len(),
{
    if ops.len() == 0 {
        s
    } else {
        after_op(after_ops(s, ops.drop_last()), ops.last())
    }
}

/// The membership in effect after a batch: the one set by the last membership
/// entry of the batch, or the one in effect before when there is none.
pub open spec fn latest_membership<M>(before: EffectiveMembership<M>, entries: Seq<Entry<M>>) -> EffectiveMembership<M>
    decreases entries.len(),
{
    if entries.len() == 0 {
        before
    } else {
        match entries.last().payload {
            EntryPayload::Membership(m) => EffectiveMembership { log_id: Some(entries.last().log_id), membership: m },
            _ => latest_membership(before, entries.drop_last()),
        }
    }
}

/// The number of responses among a sequence of steps.
pub open spec fn response_count<M>(ops: Seq<ApplyOp<M>>) -> nat
    decreases ops.len(),
{
    if ops.len() == 0 {
        0
    } else {
        response_count(ops.drop_last()) + if ops.last() is Respond { 1nat } else { 0nat }
    }
}

/// The replicated state machine's in-memory state.
pub struct StateMachine<M> {
    last_applied_log: Option<RaftLogId>,
    last_membership: EffectiveMembership<M>,
}

impl<M> View for StateMachine<M> {
    type V = AppliedState<M>;

    closed spec fn view(&self) -> AppliedState<M> {
        AppliedState { last_applied_log: self.last_applied_log, last_membership: self.last_membership }
    }
}

impl<M> StateMachine<M> {
    /// The state machine as its storage left it: the last applied id and the
    /// stored membership, or `initial_membership` when none was stored.
    pub fn restore(
        last_applied_log: Option<RaftLogId>,
        stored_membership: Option<EffectiveMembership<M>>,
        initial_membership: EffectiveMembership<M>,
    ) -> (sm: StateMachine<M>)
        ensures
            sm@.last_applied_log == last_applied_log,
            sm@.last_membership == match stored_membership {
                Some(m) => m,
                None => initial_membership,
            },
    {
        let last_membership = match stored_membership {
            Some(m) => m,
            None => initial_membership,
        };
        StateMachine { last_applied_log, last_membership }
    }

    /// The id of the last applied entry.
    pub fn last_applied_log(&self) -> (id: Option<RaftLogId>)
        ensures
            id == self@.last_applied_log,
    {
        self.last_applied_log
    }

    /// The membership configuration in effect.
    pub fn last_membership(&self) -> (m: &EffectiveMembership<M>)
        ensures
            *m == self@.last_membership,
    {
        &self.last_membership
    }

    /// Records the id of the last applied entry, once it has been persisted.
    pub fn set_last_applied_log(&mut self, log: RaftLogId)
        ensures
            final(self)@ == (AppliedState { last_applied_log: Some(log), last_membership: old(self)@.last_membership }),
    {
        self.last_applied_log = Some(log);
    }

    /// Records the membership in effect, once it has been persisted.
    pub fn set_last_membership(&mut self, membership: EffectiveMembership<M>)
        ensures
            final(self)@ == (AppliedState { last_applied_log: old(self)@.last_applied_log, last_membership: membership }),
    {
        self.last_membership = membership;
    }

    /// Records the effect of a step that has been carried out.
    pub fn record(&mut self, op: ApplyOp<M>)
        ensures
            final(self)@ == after_op(old(self)@, op),
    {
        match op {
            ApplyOp::SetLastApplied(id) => self.last_applied_log = Some(id),
            ApplyOp::SetMembership(m) => self.last_membership = m,
            _ => {},
        }
    }
}

proof fn lemma_after_ops_concat<M>(s: AppliedState<M>, a: Seq<ApplyOp<M>>, b: Seq<ApplyOp<M>>)
    ensures
        after_ops(s, a + b) == after_ops(after_ops(s, a), b),
    decreases b.len(),
{
    if b.len() == 0 {
        assert(a + b =~= a);
    } else {
        assert((a + b).drop_last() =~= a + b.drop_last());
        assert((a + b).last() == b.last());
        lemma_after_ops_concat(s, a, b.drop_last());
    }
}

proof fn lemma_response_count_concat<M>(a: Seq<ApplyOp<M>>, b: Seq<ApplyOp<M>>)
    ensures
        response_count(a + b) == response_count(a) + response_count(b),
    decreases b.len(),
{
    if b.len() == 0 {
        assert(a + b =~= a);
    } else {
        assert((a + b).drop_last() =~= a + b.drop_last());
        assert((a + b).last() == b.last());
        lemma_response_count_concat(a, b.drop_last());
    }
}

proof fn lemma_entry_ops_effect<M>(s: AppliedState<M>, e: Entry<M>)
    ensures
        after_ops(s, entry_ops(e)).last_applied_log == Some(e.log_id),
        after_ops(s, entry_ops(e)).last_membership == match e.payload {
            EntryPayload::Membership(m) => EffectiveMembership { log_id: Some(e.log_id), membership: m },
            _ => s.last_membership,
        },
        response_count(entry_ops(e)) == 1,
{
    reveal_with_fuel(after_ops, 4);
    reveal_with_fuel(response_count, 4);
    let ops = entry_ops(e);
    let empty = Seq::<ApplyOp<M>>::empty();
    let first = seq![ApplyOp::SetLastApplied(e.log_id)];
    assert(first.drop_last() =~= empty);
    match e.payload {
        EntryPayload::Blank => {
            assert(ops.drop_last() =~= first);
        },
        EntryPayload::Normal(Request::Execute { sql, value }) => {
            assert(ops.drop_last().drop_last() =~= first);
        },
        EntryPayload::Membership(m) => {
            assert(ops.drop_last().drop_last() =~= first);
        },
    }
}

/// Applying a batch answers every entry exactly once, leaves the last entry's
/// id as the last applied one, and leaves in effect the membership of the
/// batch's last membership entry (or the one in effect before, if it has none).
pub proof fn lemma_apply_plan_effect<M>(s: AppliedState<M>, entries: Seq<Entry<M>>)
    ensures
        response_count(plan_of(entries)) == entries.len(),
        after_ops(s, plan_of(entries)).last_applied_log == if entries.len() == 0 {
            s.last_applied_log
        } else {
            Some(entries.last().log_id)
        },
        after_ops(s, plan_of(entries)).last_membership == latest_membership(s.last_membership, entries),
    decreases entries.len(),
{
    if entries.len() == 0 {
    } else {
        let init = entries.drop_last();
        let e = entries.last();
        lemma_apply_plan_effect(s, init);
        lemma_after_ops_concat(s, plan_of(init), entry_ops(e));
        lemma_response_count_concat(plan_of(init), entry_ops(e));
        lemma_entry_ops_effect(after_ops(s, plan_of(init)), e);
    }
}

proof fn lemma_response_count_bounded<M>(ops: Seq<ApplyOp<M>>)
    ensures
        response_count(ops) <= ops.len(),
    decreases ops.len(),
{
    if ops.len() > 0 {
        lemma_response_count_bounded(ops.drop_last());
    }
}

proof fn lemma_take_step<M>(plan: Seq<ApplyOp<M>>, k: int)
    requires
        0 <= k < plan.len(),
    ensures
        plan.take(k + 1).drop_last() == plan.take(k),
        plan.take(k + 1).last() == plan[k],
{
    assert(plan.take(k + 1).drop_last() =~= plan.take(k));
}

/// What a batch being applied has done: its plan, the in-memory state it
/// started from, how many steps have been carried out, whether it stopped on a
/// failed step, and whether a step has been handed out and not yet reported.
pub struct PlanRunView<M> {
    pub plan: Seq<ApplyOp<M>>,
    pub start: AppliedState<M>,
    pub done: nat,
    pub stopped: bool,
    pub in_flight: bool,
}

/// A batch of entries being applied, one step at a time. Steps are handed out
/// in the plan's order; the first step that could not be carried out stops the
/// batch, and no later step is handed out.
pub struct PlanRun<M> {
    pending: Vec<ApplyOp<M>>,
    done: usize,
    responses: usize,
    stopped: bool,
    in_flight: bool,
    plan: Ghost<Seq<ApplyOp<M>>>,
    start: Ghost<AppliedState<M>>,
}

impl<M> View for PlanRun<M> {
    type V = PlanRunView<M>;

    closed spec fn view(&self) -> PlanRunView<M> {
        PlanRunView {
            plan: self.plan@,
            start: self.start@,
            done: self.done as nat,
            stopped: self.stopped,
            in_flight: self.in_flight,
        }
    }
}

impl<M> PlanRun<M> {
    /// The run's internal consistency: the pending steps are the plan's steps
    /// not yet taken, the next one last.
    pub closed spec fn wf(&self) -> bool {
        let plan = self.plan@;
        &&& plan.len() <= usize::MAX
        &&& self.done <= plan.len()
        &&& !(self.in_flight && self.stopped)
        &&& self.pending@.len() + self.done + (if self.in_flight || self.stopped { 1int } else { 0int })
            == plan.len()
        &&& forall|i: int| 0 <= i < self.pending@.len() ==> #[trigger] self.pending@[i] == plan[plan.len() - 1 - i]
        &&& self.responses == response_count(plan.take(self.done as int))
    }

    /// Starts applying a batch of entries to the state machine in state `sm`.
    pub fn new(entries: Vec<Entry<M>>, sm: &StateMachine<M>) -> (run: PlanRun<M>)
        ensures
            run.wf(),
            run@.plan == plan_of(entries@),
            run@.start == sm@,
            run@.done == 0,
            !run@.stopped,
            !run@.in_flight,
    {
        let mut ops = apply_plan(entries);
        let ghost plan = ops@;
        assert(plan.len() == ops.len());
        let mut pending: Vec<ApplyOp<M>> = Vec::new();
        while ops.len() > 0
            invariant
                ops@.len() + pending@.len() == plan.len(),
                ops@ == plan.take(ops@.len() as int),
                forall|i: int| 0 <= i < pending@.len() ==> #[trigger] pending@[i] == plan[plan.len() - 1 - i],
            decreases ops.len(),
        {
            let op = ops.pop().unwrap();
            proof {
                assert(ops@ =~= plan.take(ops@.len() as int));
            }
            pending.push(op);
        }
        proof {
            assert(plan.take(0) =~= Seq::<ApplyOp<M>>::empty());
        }
        PlanRun {
            pending,
            done: 0,
            responses: 0,
            stopped: false,
            in_flight: false,
            plan: Ghost(plan),
            start: Ghost(sm@),
        }
    }

    /// Hands out the next step to carry out, unless the batch is over or stopped.
    pub fn next_step(&mut self) -> (op: Option<ApplyOp<M>>)
        requires
            old(self).wf(),
            !old(self)@.in_flight,
        ensures
            final(self).wf(),
            if old(self)@.stopped || old(self)@.done == old(self)@.plan.len() {
                op is None && final(self)@ == old(self)@
            } else {
                op == Some(old(self)@.plan[old(self)@.done as int])
                    && final(self)@ == (PlanRunView { in_flight: true, ..old(self)@ })
            },
    {
        if self.stopped || self.pending.len() == 0 {
            return None;
        }
        let op = self.pending.pop().unwrap();
        self.in_flight = true;
        proof {
            let plan = self.plan@;
            assert(old(self).pending@[old(self).pending@.len() - 1] == plan[plan.len() - 1 - (old(self).pending@.len() - 1)]);
            assert forall|i: int| 0 <= i < self.pending@.len() implies #[trigger] self.pending@[i]
                == plan[plan.len() - 1 - i] by {
                assert(self.pending@[i] == old(self).pending@[i]);
            }
        }
        Some(op)
    }

    /// Reports whether the step handed out was carried out. A carried-out step
    /// is recorded in the state machine; a failed one stops the batch and
    /// leaves the state machine as it was. The result tells whether to go on.
    pub fn complete(&mut self, sm: &mut StateMachine<M>, op: ApplyOp<M>, performed: bool) -> (go_on: bool)
        requires
            old(self).wf(),
            old(self)@.in_flight,
            op == old(self)@.plan[old(self)@.done as int],
        ensures
            final(self).wf(),
            go_on == performed,
            !final(self)@.in_flight,
            final(self)@.plan == old(self)@.plan,
            final(self)@.start == old(self)@.start,
            performed ==> final(self)@.done == old(self)@.done + 1 && !final(self)@.stopped
                && final(sm)@ == after_op(old(sm)@, op),
            !performed ==> final(self)@.done == old(self)@.done && final(self)@.stopped && final(sm)@ == old(sm)@,
            old(sm)@ == after_ops(old(self)@.start, old(self)@.plan.take(old(self)@.done as int))
                ==> final(sm)@ == after_ops(final(self)@.start, final(self)@.plan.take(final(self)@.done as int)),
    {
        self.in_flight = false;
        if !performed {
            self.stopped = true;
            return false;
        }
        let ghost plan = self.plan@;
        let ghost k = self.done as int;
        proof {
            lemma_take_step(plan, k);
            lemma_response_count_bounded(plan.take(k + 1));
        }
        let is_response = match op {
            ApplyOp::Respond => true,
            _ => false,
        };
        sm.record(op);
        if is_response {
            self.responses = self.responses + 1;
        }
        self.done = self.done + 1;
        true
    }

    /// The number of entries answered so far.
    pub fn responses(&self) -> (n: usize)
        requires
            self.wf(),
        ensures
            n == response_count(self@.plan.take(self@.done as int)),
    {
        self.responses
    }

    /// Whether every step of the batch has been carried out.
    pub fn is_finished(&self) -> (b: bool)
        requires
            self.wf(),
        ensures
            b == (!self@.stopped && self@.done == self@.plan.len()),
    {
        !self.stopped && !self.in_flight && self.pending.len() == 0
    }
}

/// A batch whose every step was carried out has answered each of its entries
/// once and left the state machine as the whole plan does: the last entry's id
/// applied, and the membership of its last membership entry in effect. A batch
/// that stopped leaves exactly the effect of the steps before the failed one.
pub proof fn lemma_finished_run<M>(v: PlanRunView<M>, entries: Seq<Entry<M>>)
    requires
        v.plan == plan_of(entries),
        v.done == v.plan.len(),
    ensures
        response_count(v.plan.take(v.done as int)) == entries.len(),
        after_ops(v.start, v.plan.take(v.done as int)).last_applied_log == if entries.len() == 0 {
            v.start.last_applied_log
        } else {
            Some(entries.last().log_id)
        },
        after_ops(v.start, v.plan.take(v.done as int)).last_membership == latest_membership(
            v.start.last_membership,
            entries,
        ),
{
    assert(v.plan.take(v.done as int) =~= v.plan);
    lemma_apply_plan_effect(v.start, entries);
}

/// The statements that a sequence of steps runs on the live data, in order.
pub open spec fn statements_run<M>(ops: Seq<ApplyOp<M>>) -> Seq<(String, Vec<TransportableParam>)>
    decreases ops.len(),
{
    if ops.len() == 0 {
        Seq::empty()
    } else {
        let rest = statements_run(ops.drop_last());
        match ops.last() {
            ApplyOp::Execute { sql, params } => rest.push((sql, params)),
            _ => rest,
        }
    }
}

/// The statements that a batch of entries carries, in order.
pub open spec fn statements_of<M>(entries: Seq<Entry<M>>) -> Seq<(String, Vec<TransportableParam>)>
    decreases entries.len(),
{
    if entries.len() == 0 {
        Seq::empty()
    } else {
        let rest = statements_of(entries.drop_last());
        match entries.last().payload {
            EntryPayload::Normal(Request::Execute { sql, value }) => rest.push((sql, value)),
            _ => rest,
        }
    }
}

/// The ids that a sequence of steps records as applied, in order.
pub open spec fn applied_ids<M>(ops: Seq<ApplyOp<M>>) -> Seq<RaftLogId>
    decreases ops.len(),
{
    if ops.len() == 0 {
        Seq::empty()
    } else {
        let rest = applied_ids(ops.drop_last());
        match ops.last() {
            ApplyOp::SetLastApplied(id) => rest.push(id),
            _ => rest,
        }
    }
}

/// The memberships that a sequence of steps puts in effect, in order.
pub open spec fn memberships_set<M>(ops: Seq<ApplyOp<M>>) -> Seq<EffectiveMembership<M>>
    decreases ops.len(),
{
    if ops.len() == 0 {
        Seq::empty()
    } else {
        let rest = memberships_set(ops.drop_last());
        match ops.last() {
            ApplyOp::SetMembership(m) => rest.push(m),
            _ => rest,
        }
    }
}

/// The memberships that a batch of entries carries, each with its entry's id.
pub open spec fn memberships_of<M>(entries: Seq<Entry<M>>) -> Seq<EffectiveMembership<M>>
    decreases entries.len(),
{
    if entries.len() == 0 {
        Seq::empty()
    } else {
        let rest = memberships_of(entries.drop_last());
        match entries.last().payload {
            EntryPayload::Membership(m) => rest.push(EffectiveMembership { log_id: Some(entries.last().log_id), membership: m }),
            _ => rest,
        }
    }
}

proof fn lemma_filters_concat<M>(a: Seq<ApplyOp<M>>, b: Seq<ApplyOp<M>>)
    ensures
        statements_run(a + b) == statements_run(a) + statements_run(b),
        applied_ids(a + b) == applied_ids(a) + applied_ids(b),
        memberships_set(a + b) == memberships_set(a) + memberships_set(b),
    decreases b.len(),
{
    if b.len() == 0 {
        assert(a + b =~= a);
        assert(statements_run(a) + statements_run(b) =~= statements_run(a));
        assert(applied_ids(a) + applied_ids(b) =~= applied_ids(a));
        assert(memberships_set(a) + memberships_set(b) =~= memberships_set(a));
    } else {
        assert((a + b).drop_last() =~= a + b.drop_last());
        assert((a + b).last() == b.last());
        lemma_filters_concat(a, b.drop_last());
        assert(statements_run(a) + statements_run(b.drop_last()).push((b.last()->sql, b.last()->params))
            =~= (statements_run(a) + statements_run(b.drop_last())).push((b.last()->sql, b.last()->params)));
        match b.last() {
            ApplyOp::SetLastApplied(id) => {
                assert(applied_ids(a) + applied_ids(b.drop_last()).push(id) =~= (applied_ids(a) + applied_ids(
                    b.drop_last(),
                )).push(id));
            },
            ApplyOp::SetMembership(m) => {
                assert(memberships_set(a) + memberships_set(b.drop_last()).push(m) =~= (memberships_set(a)
                    + memberships_set(b.drop_last())).push(m));
            },
            _ => {},
        }
    }
}

proof fn lemma_entry_ops_filters<M>(e: Entry<M>)
    ensures
        applied_ids(entry_ops(e)) == seq![e.log_id],
        statements_run(entry_ops(e)) == match e.payload {
            EntryPayload::Normal(Request::Execute { sql, value }) => seq![(sql, value)],
            _ => Seq::empty(),
        },
        memberships_set(entry_ops(e)) == match e.payload {
            EntryPayload::Membership(m) => seq![EffectiveMembership { log_id: Some(e.log_id), membership: m }],
            _ => Seq::empty(),
        },
        entry_ops(e)[0] == ApplyOp::<M>::SetLastApplied(e.log_id),
        entry_ops(e).last() is Respond,
{
    reveal_with_fuel(applied_ids, 4);
    reveal_with_fuel(statements_run, 4);
    reveal_with_fuel(memberships_set, 4);
    let ops = entry_ops(e);
    let first = seq![ApplyOp::<M>::SetLastApplied(e.log_id)];
    assert(first.drop_last() =~= Seq::<ApplyOp<M>>::empty());
    match e.payload {
        EntryPayload::Blank => {
            assert(ops.drop_last() =~= first);
        },
        EntryPayload::Normal(Request::Execute { sql, value }) => {
            assert(ops.drop_last().drop_last() =~= first);
        },
        EntryPayload::Membership(m) => {
            assert(ops.drop_last().drop_last() =~= first);
        },
    }
}

/// Applying a batch runs every statement of its normal entries, each with its
/// own parameters, exactly once and in the entries' order, and no other
/// statement; it records every entry's id as applied exactly once, in order;
/// and it puts in effect exactly the memberships of the membership entries,
/// each with its entry's id, in order.
pub proof fn lemma_plan_runs_each_entry<M>(entries: Seq<Entry<M>>)
    ensures
        statements_run(plan_of(entries)) == statements_of(entries),
        applied_ids(plan_of(entries)) == entries.map_values(|e: Entry<M>| e.log_id),
        memberships_set(plan_of(entries)) == memberships_of(entries),
    decreases entries.len(),
{
    if entries.len() > 0 {
        let init = entries.drop_last();
        let e = entries.last();
        lemma_plan_runs_each_entry(init);
        lemma_filters_concat(plan_of(init), entry_ops(e));
        lemma_entry_ops_filters(e);
        assert(entries.map_values(|e: Entry<M>| e.log_id) =~= init.map_values(|e: Entry<M>| e.log_id).push(
            e.log_id,
        ));
        match e.payload {
            EntryPayload::Normal(Request::Execute { sql, value }) => {
                assert(statements_run(plan_of(init)) + seq![(sql, value)] =~= statements_of(init).push((sql, value)));
                assert(memberships_set(plan_of(init)) + Seq::empty() =~= memberships_of(init));
            },
            EntryPayload::Membership(m) => {
                assert(statements_run(plan_of(init)) + Seq::empty() =~= statements_of(init));
            },
            EntryPayload::Blank => {
                assert(statements_run(plan_of(init)) + Seq::empty() =~= statements_of(init));
                assert(memberships_set(plan_of(init)) + Seq::empty() =~= memberships_of(init));
            },
        }
    } else {
        assert(entries.map_values(|e: Entry<M>| e.log_id) =~= Seq::<RaftLogId>::empty());
    }
}

/// The steps of a single entry: its id is recorded first and its answer comes
/// last, and a normal entry's statement is run in between with exactly its own
/// text and parameters, however many parameters it has.
pub proof fn lemma_entry_steps<M>(e: Entry<M>, sql: String, value: Vec<TransportableParam>)
    ensures
        entry_ops(e)[0] == ApplyOp::<M>::SetLastApplied(e.log_id),
        entry_ops(e).last() is Respond,
        e.payload == EntryPayload::<M>::Normal(Request::Execute { sql, value }) ==> plan_of(seq![e])
            == seq![
            ApplyOp::<M>::SetLastApplied(e.log_id),
            ApplyOp::Execute { sql, params: value },
            ApplyOp::Respond,
        ],
{
    lemma_entry_ops_filters(e);
    let s = seq![e];
    reveal_with_fuel(plan_of, 2);
    assert(s.drop_last() =~= Seq::<Entry<M>>::empty());
    assert(s.last() == e);
    assert(plan_of(s) =~= entry_ops(e));
}

} // verus!
