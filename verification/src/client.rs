//! The client's rule for sending a statement to the leader: it follows
//! redirections to a new leader, but gives up after a bounded number of them.
use vstd::prelude::*;

use crate::rpc::{is_forward_response, mutate_outcome_spec, CallError, RpcResponse};
use crate::NodeId;

verus! {

/// How many times the client sends a statement before it gives up on finding
/// the leader.
pub open spec fn max_attempts() -> nat {
    3
}

/// The node that the client sends statements to.
pub struct LeaderTarget {
    pub node_id: NodeId,
    pub addr: String,
}

/// What the client does after the leader's reply to a statement.
pub enum RetryStep {
    /// The statement was accepted.
    Done,
    /// The call ends with this error; the client first records the leader it
    /// was last told of, when the reply named one.
    Fail { error: CallError, leader: Option<LeaderTarget> },
    /// Send the statement again, to this node.
    Redirect(LeaderTarget),
}

/// The attempts that are left and the step taken after one reply.
pub open spec fn retry_step(left: nat, result: Result<(), CallError>) -> (nat, RetryStep) {
    match result {
        Ok(()) => (left, RetryStep::Done),
        Err(CallError::UpdateLeader(node)) => if left <= 1 {
            (
                0,
                RetryStep::Fail {
                    error: CallError::UnknownLeader,
                    leader: Some(LeaderTarget { node_id: node.id, addr: node.rpc_addr }),
                },
            )
        } else {
            ((left - 1) as nat, RetryStep::Redirect(LeaderTarget { node_id: node.id, addr: node.rpc_addr }))
        },
        Err(e) => (left, RetryStep::Fail { error: e, leader: None }),
    }
}

/// The leader that the client records after a step, if the step names one.
pub open spec fn recorded_leader(step: RetryStep) -> Option<LeaderTarget> {
    match step {
        RetryStep::Redirect(t) => Some(t),
        RetryStep::Fail { error: _, leader } => leader,
        RetryStep::Done => None,
    }
}

/// The number of statements sent, given the replies in order, before the
/// client stops (or the replies run out).
pub open spec fn attempts(left: nat, results: Seq<Result<(), CallError>>) -> nat
    decreases results.len(),
{
    if results.len() == 0 {
        0
    } else {
        let (next, step) = retry_step(left, results[0]);
        if step is Redirect {
            1 + attempts(next, results.skip(1))
        } else {
            1
        }
    }
}

/// The attempts that a call to `ReplicatClient::execute` has left.
pub struct RetryBudget {
    left: u8,
}

impl View for RetryBudget {
    type V = nat;

    closed spec fn view(&self) -> nat {
        self.left as nat
    }
}

impl RetryBudget {
    /// The budget of a new call.
    pub fn new() -> (b: RetryBudget)
        ensures
            b@ == max_attempts(),
    {
        RetryBudget { left: 3 }
    }

    /// Decides what follows the leader's reply to a statement.
    pub fn on_result(&mut self, result: Result<(), CallError>) -> (step: RetryStep)
        requires
            old(self)@ >= 1,
        ensures
            (final(self)@, step) == retry_step(old(self)@, result),
    {
        match result {
            Ok(()) => RetryStep::Done,
            Err(CallError::UpdateLeader(node)) => {
                self.left = self.left - 1;
                let target = LeaderTarget { node_id: node.id, addr: node.rpc_addr };
                if self.left == 0 {
                    RetryStep::Fail { error: CallError::UnknownLeader, leader: Some(target) }
                } else {
                    RetryStep::Redirect(target)
                }
            },
            Err(e) => RetryStep::Fail { error: e, leader: None },
        }
    }
}

proof fn lemma_attempts_bounded(left: nat, results: Seq<Result<(), CallError>>)
    requires
        left >= 1,
    ensures
        attempts(left, results) <= left,
    decreases results.len(),
{
    if results.len() > 0 {
        let (next, step) = retry_step(left, results[0]);
        if step is Redirect {
            lemma_attempts_bounded(next, results.skip(1));
        }
    }
}

/// Whatever the replies, a statement is sent at most three times.
pub proof fn lemma_at_most_three_attempts(results: Seq<Result<(), CallError>>)
    ensures
        attempts(max_attempts(), results) <= max_attempts(),
{
    lemma_attempts_bounded(max_attempts(), results);
}

/// When the contacted node answers with the leader's id and address, the client
/// records that node as the leader and, while attempts are left, sends the
/// statement next to it; on its last attempt it gives up, reporting that no
/// leader accepted the statement.
pub proof fn lemma_redirect_follows_reply(resp: RpcResponse, id: NodeId, addr: String, left: nat)
    requires
        is_forward_response(resp, Some(id), Some(addr)),
        left >= 1,
    ensures
        left >= 2 ==> ({
            let (next, step) = retry_step(left, mutate_outcome_spec(resp));
            &&& next == left - 1
            &&& step matches RetryStep::Redirect(t) && t.node_id == id && t.addr == addr
        }),
        left == 1 ==> ({
            let step = retry_step(left, mutate_outcome_spec(resp)).1;
            step matches RetryStep::Fail { error: CallError::UnknownLeader, leader: Some(t) } && t.node_id == id
                && t.addr == addr
        }),
        ({
            let step = retry_step(left, mutate_outcome_spec(resp)).1;
            recorded_leader(step) matches Some(t) && t.node_id == id && t.addr == addr
        }),
{
}

/// Every reply that names a new leader makes the client record it, whether it
/// retries or gives up; other replies leave the recorded leader as it was.
pub proof fn lemma_leader_recorded(left: nat, result: Result<(), CallError>)
    requires
        left >= 1,
    ensures
        result matches Err(CallError::UpdateLeader(n)) ==> recorded_leader(retry_step(left, result).1)
            == Some(LeaderTarget { node_id: n.id, addr: n.rpc_addr }),
        !(result matches Err(CallError::UpdateLeader(_))) ==> recorded_leader(retry_step(left, result).1) is None,
{
}

/// An accepted statement ends the call as accepted, whatever redirections came
/// before it; any failure other than a redirection ends the call with that very
/// failure and records no leader.
pub proof fn lemma_reply_outcomes(left: nat, result: Result<(), CallError>)
    requires
        left >= 1,
    ensures
        result is Ok ==> retry_step(left, result) == (left, RetryStep::Done),
        result is Err && !(result->Err_0 is UpdateLeader) ==> retry_step(left, result) == (
            left,
            RetryStep::Fail { error: result->Err_0, leader: None },
        ),
{
}

} // verus!
