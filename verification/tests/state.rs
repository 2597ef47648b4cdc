use replicat::ids::{RaftLeaderId, RaftLogId};
use replicat::models::{Request, TransportableParam};
use replicat::state_machine::{apply_plan, ApplyOp, EffectiveMembership, Entry, EntryPayload, StateMachine};

fn log_id(term: u64, node_id: u64, index: u64) -> RaftLogId {
    RaftLogId { leader_id: RaftLeaderId { term, node_id }, index }
}

fn entries() -> Vec<Entry<&'static str>> {
    vec![
        Entry { log_id: log_id(1, 1, 1), payload: EntryPayload::Blank },
        Entry {
            log_id: log_id(1, 1, 2),
            payload: EntryPayload::Normal(Request::Execute {
                sql: "INSERT INTO t VALUES (?)".to_string(),
                value: vec![TransportableParam::I64(5)],
            }),
        },
        Entry { log_id: log_id(1, 1, 3), payload: EntryPayload::Membership("voters {1,2}") },
        Entry { log_id: log_id(2, 2, 4), payload: EntryPayload::Blank },
    ]
}

#[test]
fn plan_orders_steps_per_entry() {
    let ops = apply_plan(entries());
    assert_eq!(ops.len(), 10);
    assert!(matches!(ops[0], ApplyOp::SetLastApplied(id) if id == log_id(1, 1, 1)));
    assert!(matches!(ops[1], ApplyOp::Respond));
    assert!(matches!(ops[2], ApplyOp::SetLastApplied(id) if id == log_id(1, 1, 2)));
    match &ops[3] {
        ApplyOp::Execute { sql, params } => {
            assert_eq!(sql, "INSERT INTO t VALUES (?)");
            assert!(matches!(params[..], [TransportableParam::I64(5)]));
        },
        _ => panic!("expected the statement"),
    }
    assert!(matches!(ops[4], ApplyOp::Respond));
    assert!(matches!(ops[5], ApplyOp::SetLastApplied(id) if id == log_id(1, 1, 3)));
    match &ops[6] {
        ApplyOp::SetMembership(m) => {
            assert_eq!(m.log_id, Some(log_id(1, 1, 3)));
            assert_eq!(m.membership, "voters {1,2}");
        },
        _ => panic!("expected the membership"),
    }
    assert!(matches!(ops[7], ApplyOp::Respond));
    assert!(matches!(ops[8], ApplyOp::SetLastApplied(id) if id == log_id(2, 2, 4)));
    assert!(matches!(ops[9], ApplyOp::Respond));
}

#[test]
fn plan_of_no_entries_is_empty() {
    let ops = apply_plan::<&'static str>(vec![]);
    assert!(ops.is_empty());
}

#[test]
fn recording_the_plan_updates_the_state() {
    let mut sm = StateMachine::restore(None, None, EffectiveMembership { log_id: None, membership: "initial" });
    assert_eq!(sm.last_applied_log(), None);
    let ops = apply_plan(entries());
    let mut responses = 0;
    for op in ops {
        if let ApplyOp::Respond = op {
            responses += 1;
        }
        sm.record(op);
    }
    assert_eq!(responses, 4);
    assert_eq!(sm.last_applied_log(), Some(log_id(2, 2, 4)));
    assert_eq!(sm.last_membership().log_id, Some(log_id(1, 1, 3)));
    assert_eq!(sm.last_membership().membership, "voters {1,2}");
}

#[test]
fn restore_prefers_stored_membership() {
    let sm = StateMachine::restore(
        Some(log_id(1, 1, 5)),
        Some(EffectiveMembership { log_id: Some(log_id(1, 1, 2)), membership: "stored" }),
        EffectiveMembership { log_id: None, membership: "initial" },
    );
    assert_eq!(sm.last_applied_log(), Some(log_id(1, 1, 5)));
    assert_eq!(sm.last_membership().membership, "stored");
}

#[test]
fn setters_update_state() {
    let mut sm = StateMachine::restore(None, None, EffectiveMembership { log_id: None, membership: 0u8 });
    sm.set_last_applied_log(log_id(3, 1, 9));
    sm.set_last_membership(EffectiveMembership { log_id: Some(log_id(3, 1, 9)), membership: 2u8 });
    assert_eq!(sm.last_applied_log(), Some(log_id(3, 1, 9)));
    assert_eq!(sm.last_membership().membership, 2);
}

use replicat::state_machine::PlanRun;

#[test]
fn run_applies_every_step_in_order() {
    let mut sm = StateMachine::restore(None, None, EffectiveMembership { log_id: None, membership: "initial" });
    let mut run = PlanRun::new(entries(), &sm);
    let mut steps = 0;
    while let Some(op) = run.next_step() {
        steps += 1;
        assert!(run.complete(&mut sm, op, true));
    }
    assert_eq!(steps, 10);
    assert!(run.is_finished());
    assert_eq!(run.responses(), 4);
    assert_eq!(sm.last_applied_log(), Some(log_id(2, 2, 4)));
    assert_eq!(sm.last_membership().membership, "voters {1,2}");
}

#[test]
fn run_stops_at_first_failed_step() {
    let mut sm = StateMachine::restore(None, None, EffectiveMembership { log_id: None, membership: "initial" });
    let mut run = PlanRun::new(entries(), &sm);
    // Steps: applied id 1, respond, applied id 2, execute (fails here).
    for _ in 0..3 {
        let op = run.next_step().expect("a step");
        assert!(run.complete(&mut sm, op, true));
    }
    let op = run.next_step().expect("the statement");
    assert!(matches!(op, ApplyOp::Execute { .. }));
    assert!(!run.complete(&mut sm, op, false));
    assert!(run.next_step().is_none());
    assert!(!run.is_finished());
    assert_eq!(run.responses(), 1);
    assert_eq!(sm.last_applied_log(), Some(log_id(1, 1, 2)));
    assert_eq!(sm.last_membership().membership, "initial");
}

#[test]
fn run_of_no_entries_is_finished() {
    let sm = StateMachine::restore(None, None, EffectiveMembership { log_id: None, membership: 0u8 });
    let mut run = PlanRun::new(vec![], &sm);
    assert!(run.next_step().is_none());
    assert!(run.is_finished());
    assert_eq!(run.responses(), 0);
}
