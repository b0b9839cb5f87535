use vstd::prelude::*;

use crate::circuit::{ConstraintSystem, ConstraintSystemView, Lookup, LookupSource};
use crate::expr::{eval, evaluable, evaluate};
use crate::trace::{cell, Trace, TraceView};

verus! {

/// Why a row fails its lookup.
#[derive(Clone, Copy, Debug, PartialEq, Eq, Structural)]
pub enum ViolationKind {
    /// The input value occurs in no assigned cell of the reference set.
    NotInTable,
    /// The input value occurs in no assigned cell of a fixed table that has
    /// unassigned rows, whose padding is left to the proving backend.
    UndefinedTablePadding,
}

/// A row on which a lookup fails.
#[derive(Clone, Copy, Debug, PartialEq, Eq, Structural)]
pub struct Violation {
    pub lookup: usize,
    pub row: usize,
    pub kind: ViolationKind,
}

/// The cell of the reference set at `row`, if it was assigned.
pub open spec fn source_cell(tv: TraceView, source: LookupSource, row: int) -> Option<u64> {
    match source {
        LookupSource::LiveColumn(c) => cell(tv.advice, c as int, row),
        LookupSource::FixedTable(c) => cell(tv.table, c as int, row),
    }
}

pub open spec fn source_has(tv: TraceView, source: LookupSource, row: int, v: int) -> bool {
    match source_cell(tv, source, row) {
        Some(x) => x as int == v,
        None => false,
    }
}

/// `v` was assigned to some row of the reference set within the trace.
pub open spec fn in_reference(tv: TraceView, source: LookupSource, v: int) -> bool {
    exists|row: int| 0 <= row < tv.capacity && #[trigger] source_has(tv, source, row, v)
}

/// The lookup holds at `row`: its input evaluates there, and the value is in the reference set.
pub open spec fn row_holds(lookup: Lookup, tv: TraceView, row: int) -> bool {
    evaluable(lookup.input, tv, row) && in_reference(tv, lookup.source, eval(lookup.input, tv, row))
}

/// Every row of the fixed table column `c` within the trace was assigned.
pub open spec fn table_complete(tv: TraceView, c: int) -> bool {
    forall|row: int| 0 <= row < tv.capacity ==> #[trigger] cell(tv.table, c, row) is Some
}

pub open spec fn violation_kind(tv: TraceView, source: LookupSource) -> ViolationKind {
    match source {
        LookupSource::LiveColumn(_) => ViolationKind::NotInTable,
        LookupSource::FixedTable(c) => if table_complete(tv, c as int) {
            ViolationKind::NotInTable
        } else {
            ViolationKind::UndefinedTablePadding
        },
    }
}

/// The failing rows among the first `n` rows of one lookup, in row order.
pub open spec fn row_violations(lookup: Lookup, index: int, tv: TraceView, n: nat) -> Seq<Violation>
    decreases n,
{
    if n == 0 {
        Seq::empty()
    } else {
        let prev = row_violations(lookup, index, tv, (n - 1) as nat);
        if row_holds(lookup, tv, n - 1) {
            prev
        } else {
            prev.push(
                Violation {
                    lookup: index as usize,
                    row: (n - 1) as usize,
                    kind: violation_kind(tv, lookup.source),
                },
            )
        }
    }
}

/// The failing rows of the first `m` lookups, by lookup and then by row.
pub open spec fn violations_upto(lookups: Seq<Lookup>, tv: TraceView, m: nat) -> Seq<Violation>
    decreases m,
{
    if m == 0 {
        Seq::empty()
    } else {
        violations_upto(lookups, tv, (m - 1) as nat) + row_violations(
            lookups[m - 1],
            m - 1,
            tv,
            tv.capacity,
        )
    }
}

pub open spec fn violations(cs: ConstraintSystemView, tv: TraceView) -> Seq<Violation> {
    violations_upto(cs.lookups, tv, cs.lookups.len())
}

/// Every lookup holds on every row of the trace.
pub open spec fn satisfied(cs: ConstraintSystemView, tv: TraceView) -> bool {
    forall|l: int, row: int|
        0 <= l < cs.lookups.len() && 0 <= row < tv.capacity ==> #[trigger] row_holds(
            cs.lookups[l],
            tv,
            row,
        )
}

fn source_cell_at(trace: &Trace, source: LookupSource, row: usize) -> (r: Option<u64>)
    ensures
        r == source_cell(trace@, source, row as int),
{
    match source {
        LookupSource::LiveColumn(c) => trace.advice_cell(c, row),
        LookupSource::FixedTable(c) => trace.table_cell(c, row),
    }
}

/// Whether `v` was assigned to some row of the reference set.
pub fn reference_contains(trace: &Trace, source: LookupSource, v: i128) -> (r: bool)
    ensures
        r == in_reference(trace@, source, v as int),
{
    let mut row: usize = 0;
    while row < trace.capacity
        invariant
            row <= trace.capacity,
            forall|k: int| 0 <= k < row ==> !#[trigger] source_has(trace@, source, k, v as int),
        decreases trace.capacity - row,
    {
        match source_cell_at(trace, source, row) {
            Some(x) => {
                if x as i128 == v {
                    assert(source_has(trace@, source, row as int, v as int));
                    return true;
                }
            },
            None => {},
        }
        row = row + 1;
    }
    false
}

/// Whether every row of the fixed table column `c` was assigned.
pub fn table_is_complete(trace: &Trace, c: usize) -> (r: bool)
    ensures
        r == table_complete(trace@, c as int),
{
    let mut row: usize = 0;
    while row < trace.capacity
        invariant
            row <= trace.capacity,
            forall|k: int| 0 <= k < row ==> #[trigger] cell(trace@.table, c as int, k) is Some,
        decreases trace.capacity - row,
    {
        if trace.table_cell(c, row).is_none() {
            return false;
        }
        row = row + 1;
    }
    true
}

fn kind_of(trace: &Trace, source: LookupSource) -> (r: ViolationKind)
    ensures
        r == violation_kind(trace@, source),
{
    match source {
        LookupSource::LiveColumn(_) => ViolationKind::NotInTable,
        LookupSource::FixedTable(c) => if table_is_complete(trace, c) {
            ViolationKind::NotInTable
        } else {
            ViolationKind::UndefinedTablePadding
        },
    }
}

/// Whether `lookup` holds at `row`.
pub fn check_row(lookup: &Lookup, trace: &Trace, row: usize) -> (r: bool)
    ensures
        r == row_holds(*lookup, trace@, row as int),
{
    match evaluate(&lookup.input, trace, row) {
        Some(v) => reference_contains(trace, lookup.source, v),
        None => false,
    }
}

/// Checks every lookup of `cs` on every row of `trace`; on failure, lists the
/// failing rows by lookup and then by row.
pub fn verify(cs: &ConstraintSystem, trace: &Trace) -> (r: Result<(), Vec<Violation>>)
    ensures
        r is Ok <==> satisfied(cs@, trace@),
        r is Ok <==> violations(cs@, trace@).len() == 0,
        r matches Err(vs) ==> vs@ == violations(cs@, trace@),
{
    let mut out: Vec<Violation> = Vec::new();
    let mut l: usize = 0;
    while l < cs.lookups.len()
        invariant
            l <= cs.lookups.len(),
            out@ == violations_upto(cs@.lookups, trace@, l as nat),
            out@.len() == 0 <==> forall|l2: int, row: int|
                0 <= l2 < l && 0 <= row < trace.capacity ==> #[trigger] row_holds(
                    cs@.lookups[l2],
                    trace@,
                    row,
                ),
        decreases cs.lookups.len() - l,
    {
        let lookup = &cs.lookups[l];
        let kind = kind_of(trace, lookup.source);
        let ghost before = out@;
        let mut row: usize = 0;
        while row < trace.capacity
            invariant
                l < cs.lookups.len(),
                lookup == cs@.lookups[l as int],
                kind == violation_kind(trace@, lookup.source),
                before == violations_upto(cs@.lookups, trace@, l as nat),
                row <= trace.capacity,
                out@ == before + row_violations(*lookup, l as int, trace@, row as nat),
                out@.len() == 0 <==> (before.len() == 0 && forall|row2: int|
                    0 <= row2 < row ==> #[trigger] row_holds(*lookup, trace@, row2)),
            decreases trace.capacity - row,
        {
            if !check_row(lookup, trace, row) {
                let v = Violation { lookup: l, row, kind };
                proof {
                    assert(before + row_violations(*lookup, l as int, trace@, row as nat).push(v)
                        =~= (before + row_violations(*lookup, l as int, trace@, row as nat)).push(
                        v,
                    ));
                }
                out.push(v);
            }
            row = row + 1;
        }
        proof {
            assert(out@.len() == 0 <==> forall|l2: int, row2: int|
                0 <= l2 < l + 1 && 0 <= row2 < trace.capacity ==> #[trigger] row_holds(
                    cs@.lookups[l2],
                    trace@,
                    row2,
                )) by {
                if out@.len() == 0 {
                    assert forall|l2: int, row2: int|
                        0 <= l2 < l + 1 && 0 <= row2 < trace.capacity implies #[trigger] row_holds(
                        cs@.lookups[l2],
                        trace@,
                        row2,
                    ) by {
                        if l2 == l {
                            assert(row_holds(*lookup, trace@, row2));
                        }
                    }
                }
            }
        }
        l = l + 1;
    }
    if out.len() == 0 {
        Ok(())
    } else {
        Err(out)
    }
}

} // verus!
