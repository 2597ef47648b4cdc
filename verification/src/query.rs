//! The SQL text that reads a range of Raft log entries.
use vstd::prelude::*;

use crate::decimal::{decimal, push_decimal};
use crate::snapshot::{all_digits, is_digit, lemma_decimal_injective, lemma_decimal_shape};

verus! {

/// One end of a range of log indexes, as `std::ops::Bound` gives it.
#[derive(Clone, Copy, Debug, PartialEq, Eq)]
pub enum RangeBound {
    Included(u64),
    Excluded(u64),
    Unbounded,
}

/// The largest log index the log table can hold (a signed 64-bit column).
pub open spec fn max_stored_index() -> int {
    i64::MAX as int
}

/// The first index that a start bound admits.
pub open spec fn first_index(start: RangeBound) -> int {
    match start {
        RangeBound::Included(x) => x as int,
        RangeBound::Excluded(x) => x + 1,
        RangeBound::Unbounded => 0,
    }
}

/// The last index that an end bound admits.
pub open spec fn last_index(end: RangeBound) -> int {
    match end {
        RangeBound::Included(x) => x as int,
        RangeBound::Excluded(x) => x - 1,
        RangeBound::Unbounded => max_stored_index(),
    }
}

/// Whether index `i` lies in the range given by its two bounds.
pub open spec fn range_contains(start: RangeBound, end: RangeBound, i: int) -> bool {
    &&& match start {
        RangeBound::Included(x) => x <= i,
        RangeBound::Excluded(x) => x < i,
        RangeBound::Unbounded => true,
    }
    &&& match end {
        RangeBound::Included(x) => i <= x,
        RangeBound::Excluded(x) => i < x,
        RangeBound::Unbounded => true,
    }
}

/// The bounds on which computing the first and last index does not overflow.
pub open spec fn bounds_computable(start: RangeBound, end: RangeBound) -> bool {
    &&& start != RangeBound::Excluded(u64::MAX)
    &&& end != RangeBound::Excluded(0)
}

/// The exact text of the query that selects the entries from `first` to `last`.
pub open spec fn logs_query_text(first: int, last: int) -> Seq<char> {
    "SELECT entry FROM replicat_raft_logs WHERE log_index >= "@ + decimal(first as nat)
        + " AND log_index <= "@ + decimal(last as nat) + ";"@
}

/// Builds the query that selects the serialized log entries whose index lies in
/// the range from `start` to `end`, both ends given as bounds.
pub fn logs_query(start: RangeBound, end: RangeBound) -> (query: String)
    requires
        bounds_computable(start, end),
    ensures
        query@ == logs_query_text(first_index(start), last_index(end)),
{
    let first: u64 = match start {
        RangeBound::Included(x) => x,
        RangeBound::Excluded(x) => x + 1,
        RangeBound::Unbounded => 0,
    };
    let last: u64 = match end {
        RangeBound::Included(x) => x,
        RangeBound::Excluded(x) => x - 1,
        RangeBound::Unbounded => 0x7fff_ffff_ffff_ffff,
    };
    let mut query = String::from_str("SELECT entry FROM replicat_raft_logs WHERE log_index >= ");
    push_decimal(&mut query, first);
    query.append(" AND log_index <= ");
    push_decimal(&mut query, last);
    query.append(";");
    query
}

/// The query covers exactly the indexes of the range, among those the log can hold.
pub proof fn lemma_logs_query_covers_range(start: RangeBound, end: RangeBound, i: int)
    requires
        bounds_computable(start, end),
        0 <= i <= max_stored_index(),
    ensures
        (first_index(start) <= i && i <= last_index(end)) <==> range_contains(start, end, i),
{
}

/// What a range query selects: a text of the form
/// `SELECT entry FROM replicat_raft_logs WHERE log_index >= lo AND log_index <= hi;`
/// selects the entries whose index lies between `lo` and `hi`, both included.
pub open spec fn query_selects(text: Seq<char>, i: int) -> bool {
    exists|lo: nat, hi: nat|
        #![trigger decimal(lo), decimal(hi)]
        text == "SELECT entry FROM replicat_raft_logs WHERE log_index >= "@ + decimal(lo) + " AND log_index <= "@
            + decimal(hi) + ";"@ && lo <= i <= hi
}

proof fn lemma_split_digits(a1: Seq<char>, r1: Seq<char>, a2: Seq<char>, r2: Seq<char>)
    requires
        all_digits(a1),
        all_digits(a2),
        r1.len() > 0,
        r2.len() > 0,
        !is_digit(r1[0]),
        !is_digit(r2[0]),
        a1 + r1 == a2 + r2,
    ensures
        a1 == a2,
        r1 == r2,
{
    let s1 = a1 + r1;
    let s2 = a2 + r2;
    if a1.len() < a2.len() {
        assert(s1[a1.len() as int] == r1[0]);
        assert(s2[a1.len() as int] == a2[a1.len() as int]);
        assert(is_digit(a2[a1.len() as int]));
    } else if a2.len() < a1.len() {
        assert(s2[a2.len() as int] == r2[0]);
        assert(s1[a2.len() as int] == a1[a2.len() as int]);
        assert(is_digit(a1[a2.len() as int]));
    } else {
        assert(a1 =~= s1.subrange(0, a1.len() as int));
        assert(a2 =~= s2.subrange(0, a2.len() as int));
        assert(r1 =~= s1.subrange(a1.len() as int, s1.len() as int));
        assert(r2 =~= s2.subrange(a2.len() as int, s2.len() as int));
    }
}

/// Two range queries of the same form have the same bounds only if their texts
/// are equal: the text determines the bounds it selects between.
proof fn lemma_query_text_bounds(lo1: nat, hi1: nat, lo2: nat, hi2: nat)
    requires
        "SELECT entry FROM replicat_raft_logs WHERE log_index >= "@ + decimal(lo1) + " AND log_index <= "@
            + decimal(hi1) + ";"@ == "SELECT entry FROM replicat_raft_logs WHERE log_index >= "@ + decimal(lo2)
            + " AND log_index <= "@ + decimal(hi2) + ";"@,
    ensures
        lo1 == lo2,
        hi1 == hi2,
{
    reveal_strlit(" AND log_index <= ");
    reveal_strlit(";");
    let p = "SELECT entry FROM replicat_raft_logs WHERE log_index >= "@;
    let m = " AND log_index <= "@;
    let e = ";"@;
    let t1 = p + decimal(lo1) + m + decimal(hi1) + e;
    let t2 = p + decimal(lo2) + m + decimal(hi2) + e;
    lemma_decimal_shape(lo1);
    lemma_decimal_shape(lo2);
    lemma_decimal_shape(hi1);
    lemma_decimal_shape(hi2);
    let r1 = m + decimal(hi1) + e;
    let r2 = m + decimal(hi2) + e;
    assert(decimal(lo1) + r1 =~= t1.subrange(p.len() as int, t1.len() as int));
    assert(decimal(lo2) + r2 =~= t2.subrange(p.len() as int, t2.len() as int));
    assert(r1[0] == ' ');
    assert(r2[0] == ' ');
    lemma_split_digits(decimal(lo1), r1, decimal(lo2), r2);
    lemma_decimal_injective(lo1, lo2);
    assert(decimal(hi1) =~= r1.subrange(m.len() as int, r1.len() - 1));
    assert(decimal(hi2) =~= r2.subrange(m.len() as int, r2.len() - 1));
    lemma_decimal_injective(hi1, hi2);
}

/// The query built for a range selects exactly the indexes that the range
/// contains, among those the log can hold.
pub proof fn lemma_logs_query_selects_range(start: RangeBound, end: RangeBound, i: int)
    requires
        bounds_computable(start, end),
        0 <= i <= max_stored_index(),
    ensures
        query_selects(logs_query_text(first_index(start), last_index(end)), i) <==> range_contains(start, end, i),
{
    let f = first_index(start);
    let l = last_index(end);
    let text = logs_query_text(f, l);
    lemma_logs_query_covers_range(start, end, i);
    assert(f >= 0 && l >= 0);
    if range_contains(start, end, i) {
        let lo = f as nat;
        let hi = l as nat;
        assert(text == "SELECT entry FROM replicat_raft_logs WHERE log_index >= "@ + decimal(lo)
            + " AND log_index <= "@ + decimal(hi) + ";"@ && lo <= i <= hi);
    }
    if query_selects(text, i) {
        let (lo, hi) = choose|lo: nat, hi: nat|
            #![trigger decimal(lo), decimal(hi)]
            text == "SELECT entry FROM replicat_raft_logs WHERE log_index >= "@ + decimal(lo)
                + " AND log_index <= "@ + decimal(hi) + ";"@ && lo <= i <= hi;
        lemma_query_text_bounds(lo, hi, f as nat, l as nat);
    }
}

} // verus!
