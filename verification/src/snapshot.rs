//! Naming and numbering of state-machine snapshots.
use vstd::prelude::*;

use crate::decimal::{decimal, digit_char, push_decimal};
use crate::ids::RaftLogId;

verus! {

/// The id of a snapshot: the last applied log id (its term, its leader's node
/// id and its index) and the snapshot's sequence number, joined by dashes; with
/// nothing applied yet, two dashes and the sequence number.
pub open spec fn snapshot_id_text(last_applied: Option<RaftLogId>, snapshot_idx: u64) -> Seq<char> {
    match last_applied {
        Some(l) => decimal(l.leader_id.term as nat) + ("-"@ + (decimal(l.leader_id.node_id as nat) + ("-"@
            + (decimal(l.index as nat) + ("-"@ + decimal(snapshot_idx as nat)))))),
        None => "--"@ + decimal(snapshot_idx as nat),
    }
}

/// Builds the id of a new snapshot.
pub fn snapshot_id(last_applied: Option<RaftLogId>, snapshot_idx: u64) -> (id: String)
    ensures
        id@ == snapshot_id_text(last_applied, snapshot_idx),
{
    match last_applied {
        Some(l) => {
            let mut id = String::new();
            push_decimal(&mut id, l.leader_id.term);
            id.append("-");
            push_decimal(&mut id, l.leader_id.node_id);
            id.append("-");
            push_decimal(&mut id, l.index);
            id.append("-");
            push_decimal(&mut id, snapshot_idx);
            proof {
                let t = decimal(l.leader_id.term as nat);
                let n = decimal(l.leader_id.node_id as nat);
                let i = decimal(l.index as nat);
                let k = decimal(snapshot_idx as nat);
                assert(id@ =~= t + ("-"@ + (n + ("-"@ + (i + ("-"@ + k))))));
            }
            id
        },
        None => {
            let mut id = String::from_str("--");
            push_decimal(&mut id, snapshot_idx);
            id
        },
    }
}

/// The sequence number handed to the next snapshot, and whether the counter
/// row must be created first.
pub struct SnapshotIndex {
    pub index: u64,
    pub create_counter: bool,
}

/// Reads the counter value that the store returned after incrementing it: with
/// no counter yet, the snapshot is numbered 0 and the counter must be created.
pub fn snapshot_index(fetched: Option<i64>) -> (r: SnapshotIndex)
    ensures
        r.create_counter == fetched is None,
        r.index == match fetched {
            Some(v) => v as u64,
            None => 0u64,
        },
{
    match fetched {
        Some(v) => SnapshotIndex { index: v as u64, create_counter: false },
        None => SnapshotIndex { index: 0, create_counter: true },
    }
}

// ---------------------------------------------------------------------------
// Distinct snapshots get distinct ids.

/// Whether a character is a decimal digit.
pub open spec fn is_digit(c: char) -> bool {
    '0' <= c && c <= '9'
}

/// Whether every character of `s` is a decimal digit.
pub open spec fn all_digits(s: Seq<char>) -> bool {
    forall|i: int| 0 <= i < s.len() ==> #[trigger] is_digit(s[i])
}

pub proof fn lemma_decimal_shape(n: nat)
    ensures
        all_digits(decimal(n)),
        decimal(n).len() >= 1,
        n >= 10 ==> decimal(n).len() >= 2,
    decreases n,
{
    if n >= 10 {
        lemma_decimal_shape(n / 10);
        let d = decimal(n / 10);
        assert(decimal(n) == d.push(digit_char(n % 10)));
        assert forall|i: int| 0 <= i < decimal(n).len() implies #[trigger] is_digit(decimal(n)[i]) by {
            if i < d.len() {
                assert(decimal(n)[i] == d[i]);
            }
        }
    }
}

proof fn lemma_digit_char_injective(a: nat, b: nat)
    requires
        a < 10,
        b < 10,
        digit_char(a) == digit_char(b),
    ensures
        a == b,
{
}

/// Different numbers have different decimal renderings.
pub proof fn lemma_decimal_injective(a: nat, b: nat)
    requires
        decimal(a) == decimal(b),
    ensures
        a == b,
    decreases a,
{
    lemma_decimal_shape(a);
    lemma_decimal_shape(b);
    if a < 10 && b < 10 {
        assert(decimal(a)[0] == digit_char(a));
        assert(decimal(b)[0] == digit_char(b));
        lemma_digit_char_injective(a, b);
    } else if a >= 10 && b >= 10 {
        let da = decimal(a / 10);
        let db = decimal(b / 10);
        assert(decimal(a) == da.push(digit_char(a % 10)));
        assert(decimal(b) == db.push(digit_char(b % 10)));
        assert(da =~= decimal(a).drop_last());
        assert(db =~= decimal(b).drop_last());
        lemma_decimal_injective(a / 10, b / 10);
        assert(decimal(a).last() == digit_char(a % 10));
        assert(decimal(b).last() == digit_char(b % 10));
        lemma_digit_char_injective(a % 10, b % 10);
    } else {
        assert(decimal(a).len() != decimal(b).len());
    }
}

proof fn lemma_split_at_dash(a1: Seq<char>, r1: Seq<char>, a2: Seq<char>, r2: Seq<char>)
    requires
        all_digits(a1),
        all_digits(a2),
        a1 + ("-"@ + r1) == a2 + ("-"@ + r2),
    ensures
        a1 == a2,
        r1 == r2,
{
    reveal_strlit("-");
    let s1 = a1 + ("-"@ + r1);
    let s2 = a2 + ("-"@ + r2);
    if a1.len() < a2.len() {
        assert(s1[a1.len() as int] == '-');
        assert(s2[a1.len() as int] == a2[a1.len() as int]);
        assert(is_digit(a2[a1.len() as int]));
    } else if a2.len() < a1.len() {
        assert(s2[a2.len() as int] == '-');
        assert(s1[a2.len() as int] == a1[a2.len() as int]);
        assert(is_digit(a1[a2.len() as int]));
    } else {
        assert(a1 =~= s1.subrange(0, a1.len() as int));
        assert(a2 =~= s2.subrange(0, a2.len() as int));
        assert(r1 =~= s1.subrange(a1.len() as int + 1, s1.len() as int));
        assert(r2 =~= s2.subrange(a2.len() as int + 1, s2.len() as int));
    }
}

/// Two snapshots get the same id only if they have the same last applied log
/// id and the same sequence number.
pub proof fn lemma_snapshot_id_injective(
    last1: Option<RaftLogId>,
    idx1: u64,
    last2: Option<RaftLogId>,
    idx2: u64,
)
    requires
        snapshot_id_text(last1, idx1) == snapshot_id_text(last2, idx2),
    ensures
        last1 == last2,
        idx1 == idx2,
{
    reveal_strlit("-");
    reveal_strlit("--");
    match (last1, last2) {
        (Some(l1), Some(l2)) => {
            lemma_decimal_shape(l1.leader_id.term as nat);
            lemma_decimal_shape(l2.leader_id.term as nat);
            lemma_decimal_shape(l1.leader_id.node_id as nat);
            lemma_decimal_shape(l2.leader_id.node_id as nat);
            lemma_decimal_shape(l1.index as nat);
            lemma_decimal_shape(l2.index as nat);
            let k1 = decimal(idx1 as nat);
            let k2 = decimal(idx2 as nat);
            let i1 = decimal(l1.index as nat) + ("-"@ + k1);
            let i2 = decimal(l2.index as nat) + ("-"@ + k2);
            let n1 = decimal(l1.leader_id.node_id as nat) + ("-"@ + i1);
            let n2 = decimal(l2.leader_id.node_id as nat) + ("-"@ + i2);
            lemma_split_at_dash(decimal(l1.leader_id.term as nat), n1, decimal(l2.leader_id.term as nat), n2);
            lemma_split_at_dash(decimal(l1.leader_id.node_id as nat), i1, decimal(l2.leader_id.node_id as nat), i2);
            lemma_split_at_dash(decimal(l1.index as nat), k1, decimal(l2.index as nat), k2);
            lemma_decimal_injective(l1.leader_id.term as nat, l2.leader_id.term as nat);
            lemma_decimal_injective(l1.leader_id.node_id as nat, l2.leader_id.node_id as nat);
            lemma_decimal_injective(l1.index as nat, l2.index as nat);
            lemma_decimal_injective(idx1 as nat, idx2 as nat);
            assert(l1.leader_id == l2.leader_id);
        },
        (Some(l1), None) => {
            lemma_decimal_shape(l1.leader_id.term as nat);
            let s1 = snapshot_id_text(last1, idx1);
            assert(s1[0] == decimal(l1.leader_id.term as nat)[0]);
            assert(is_digit(decimal(l1.leader_id.term as nat)[0]));
            assert(snapshot_id_text(last2, idx2)[0] == '-');
        },
        (None, Some(l2)) => {
            lemma_decimal_shape(l2.leader_id.term as nat);
            let s2 = snapshot_id_text(last2, idx2);
            assert(s2[0] == decimal(l2.leader_id.term as nat)[0]);
            assert(is_digit(decimal(l2.leader_id.term as nat)[0]));
            assert(snapshot_id_text(last1, idx1)[0] == '-');
        },
        (None, None) => {
            let k1 = decimal(idx1 as nat);
            let k2 = decimal(idx2 as nat);
            assert(k1 =~= snapshot_id_text(last1, idx1).subrange(2, snapshot_id_text(last1, idx1).len() as int));
            assert(k2 =~= snapshot_id_text(last2, idx2).subrange(2, snapshot_id_text(last2, idx2).len() as int));
            lemma_decimal_injective(idx1 as nat, idx2 as nat);
        },
    }
}

} // verus!
