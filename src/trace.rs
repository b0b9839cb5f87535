use vstd::arithmetic::power::lemma_pow0;
use vstd::arithmetic::power2::{lemma_pow2_unfold, pow2};
use vstd::prelude::*;

verus! {

/// One write of a value into a cell: an advice column or a fixed table column.
#[derive(Clone, Copy, Debug, PartialEq, Eq, Structural)]
pub struct CellWrite {
    pub column: usize,
    pub row: usize,
    pub value: u64,
}

/// One row on which a selector is switched on.
#[derive(Clone, Copy, Debug, PartialEq, Eq, Structural)]
pub struct SelectorWrite {
    pub selector: usize,
    pub row: usize,
}

/// Failure of an assignment.
#[derive(Clone, Copy, Debug, PartialEq, Eq, Structural)]
pub enum AssignError {
    /// A row at or beyond the trace's row capacity was addressed.
    CapacityExceeded { row: usize, capacity: usize },
}

/// A trace under construction: its row capacity and the writes made so far,
/// in the order they were made. A later write to the same cell wins.
pub struct Trace {
    pub capacity: usize,
    pub advice: Vec<CellWrite>,
    pub enabled: Vec<SelectorWrite>,
    pub table: Vec<CellWrite>,
}

pub struct TraceView {
    pub capacity: nat,
    pub advice: Seq<CellWrite>,
    pub enabled: Seq<SelectorWrite>,
    pub table: Seq<CellWrite>,
}

impl View for Trace {
    type V = TraceView;

    open spec fn view(&self) -> TraceView {
        TraceView {
            capacity: self.capacity as nat,
            advice: self.advice@,
            enabled: self.enabled@,
            table: self.table@,
        }
    }
}

pub open spec fn writes_to(w: CellWrite, column: int, row: int) -> bool {
    w.column as int == column && w.row as int == row
}

/// `k` is the index of the last write to the cell `(column, row)`.
pub open spec fn is_last_write(ws: Seq<CellWrite>, column: int, row: int, k: int) -> bool {
    &&& 0 <= k < ws.len()
    &&& writes_to(ws[k], column, row)
    &&& forall|j: int| k < j < ws.len() ==> !#[trigger] writes_to(ws[j], column, row)
}

/// The value of a cell after all writes: that of the last write to it, if any.
pub open spec fn cell(ws: Seq<CellWrite>, column: int, row: int) -> Option<u64> {
    if exists|k: int| is_last_write(ws, column, row, k) {
        Some(ws[choose|k: int| is_last_write(ws, column, row, k)].value)
    } else {
        None
    }
}

pub open spec fn is_enabled(tv: TraceView, selector: int, row: int) -> bool {
    exists|k: int|
        0 <= k < tv.enabled.len() && #[trigger] tv.enabled[k] == (SelectorWrite {
            selector: selector as usize,
            row: row as usize,
        })
}

/// An advice cell as an expression reads it: unassigned cells read as zero.
pub open spec fn advice_value(tv: TraceView, column: int, row: int) -> int {
    match cell(tv.advice, column, row) {
        Some(v) => v as int,
        None => 0,
    }
}

pub open spec fn writes_in_range(ws: Seq<CellWrite>, capacity: nat) -> bool {
    forall|k: int| 0 <= k < ws.len() ==> (#[trigger] ws[k]).row < capacity
}

/// Every write of the trace lies within its capacity.
pub open spec fn trace_wf(tv: TraceView) -> bool {
    &&& writes_in_range(tv.advice, tv.capacity)
    &&& writes_in_range(tv.table, tv.capacity)
    &&& forall|k: int| 0 <= k < tv.enabled.len() ==> (#[trigger] tv.enabled[k]).row < tv.capacity
}

pub open spec fn empty_trace(capacity: nat) -> TraceView {
    TraceView { capacity, advice: Seq::empty(), enabled: Seq::empty(), table: Seq::empty() }
}

pub proof fn lemma_last_write_unique(ws: Seq<CellWrite>, column: int, row: int, k1: int, k2: int)
    requires
        is_last_write(ws, column, row, k1),
        is_last_write(ws, column, row, k2),
    ensures
        k1 == k2,
{
    if k1 < k2 {
        assert(!writes_to(ws[k2], column, row));
    } else if k2 < k1 {
        assert(!writes_to(ws[k1], column, row));
    }
}

pub proof fn lemma_cell_is(ws: Seq<CellWrite>, column: int, row: int, k: int)
    requires
        is_last_write(ws, column, row, k),
    ensures
        cell(ws, column, row) == Some(ws[k].value),
{
    let c = choose|j: int| is_last_write(ws, column, row, j);
    lemma_last_write_unique(ws, column, row, k, c);
}

pub proof fn lemma_cell_none(ws: Seq<CellWrite>, column: int, row: int)
    requires
        forall|k: int| 0 <= k < ws.len() ==> !#[trigger] writes_to(ws[k], column, row),
    ensures
        cell(ws, column, row) == None::<u64>,
{
    assert forall|k: int| !is_last_write(ws, column, row, k) by {
        if 0 <= k < ws.len() {
            assert(!writes_to(ws[k], column, row));
        }
    }
}

fn read_cell(ws: &Vec<CellWrite>, column: usize, row: usize) -> (r: Option<u64>)
    ensures
        r == cell(ws@, column as int, row as int),
{
    let mut i: usize = ws.len();
    while i > 0
        invariant
            i <= ws.len(),
            forall|k: int| i <= k < ws.len() ==> !#[trigger] writes_to(ws@[k], column as int, row as int),
        decreases i,
    {
        i = i - 1;
        let w = ws[i];
        if w.column == column && w.row == row {
            proof {
                lemma_cell_is(ws@, column as int, row as int, i as int);
            }
            return Some(w.value);
        }
    }
    proof {
        lemma_cell_none(ws@, column as int, row as int);
    }
    None
}

impl Trace {
    /// An empty trace with room for `capacity` rows.
    pub fn new(capacity: usize) -> (r: Trace)
        ensures
            r@ == empty_trace(capacity as nat),
            trace_wf(r@),
    {
        Trace { capacity, advice: Vec::new(), enabled: Vec::new(), table: Vec::new() }
    }

    /// Writes `value` into the advice cell `(column, row)`.
    pub fn assign_advice(&mut self, column: usize, row: usize, value: u64) -> (r: Result<(), AssignError>)
        ensures
            r is Ok <==> row < old(self).capacity,
            r is Ok ==> final(self)@ == (TraceView {
                advice: old(self)@.advice.push(CellWrite { column, row, value }),
                ..old(self)@
            }),
            r is Err ==> r == Err::<(), AssignError>(
                AssignError::CapacityExceeded { row, capacity: old(self).capacity },
            ) && final(self)@ == old(self)@,
            trace_wf(old(self)@) ==> trace_wf(final(self)@),
    {
        if row >= self.capacity {
            return Err(AssignError::CapacityExceeded { row, capacity: self.capacity });
        }
        self.advice.push(CellWrite { column, row, value });
        Ok(())
    }

    /// Switches `selector` on at `row`.
    pub fn enable_selector(&mut self, selector: usize, row: usize) -> (r: Result<(), AssignError>)
        ensures
            r is Ok <==> row < old(self).capacity,
            r is Ok ==> final(self)@ == (TraceView {
                enabled: old(self)@.enabled.push(SelectorWrite { selector, row }),
                ..old(self)@
            }),
            r is Err ==> r == Err::<(), AssignError>(
                AssignError::CapacityExceeded { row, capacity: old(self).capacity },
            ) && final(self)@ == old(self)@,
            trace_wf(old(self)@) ==> trace_wf(final(self)@),
    {
        if row >= self.capacity {
            return Err(AssignError::CapacityExceeded { row, capacity: self.capacity });
        }
        self.enabled.push(SelectorWrite { selector, row });
        Ok(())
    }

    /// Writes `value` into row `row` of the fixed table column `table`.
    pub fn assign_table_cell(&mut self, table: usize, row: usize, value: u64) -> (r: Result<(), AssignError>)
        ensures
            r is Ok <==> row < old(self).capacity,
            r is Ok ==> final(self)@ == (TraceView {
                table: old(self)@.table.push(CellWrite { column: table, row, value }),
                ..old(self)@
            }),
            r is Err ==> r == Err::<(), AssignError>(
                AssignError::CapacityExceeded { row, capacity: old(self).capacity },
            ) && final(self)@ == old(self)@,
            trace_wf(old(self)@) ==> trace_wf(final(self)@),
    {
        if row >= self.capacity {
            return Err(AssignError::CapacityExceeded { row, capacity: self.capacity });
        }
        self.table.push(CellWrite { column: table, row, value });
        Ok(())
    }

    /// The value last written into the advice cell `(column, row)`, if any.
    pub fn advice_cell(&self, column: usize, row: usize) -> (r: Option<u64>)
        ensures
            r == cell(self@.advice, column as int, row as int),
    {
        read_cell(&self.advice, column, row)
    }

    /// The value last written into row `row` of the fixed table column `table`, if any.
    pub fn table_cell(&self, table: usize, row: usize) -> (r: Option<u64>)
        ensures
            r == cell(self@.table, table as int, row as int),
    {
        read_cell(&self.table, table, row)
    }

    /// Whether `selector` is switched on at `row`.
    pub fn is_enabled(&self, selector: usize, row: usize) -> (r: bool)
        ensures
            r == is_enabled(self@, selector as int, row as int),
    {
        let mut i: usize = 0;
        while i < self.enabled.len()
            invariant
                i <= self.enabled.len(),
                forall|k: int| 0 <= k < i ==> #[trigger] self.enabled@[k] != (SelectorWrite { selector, row }),
            decreases self.enabled.len() - i,
        {
            let w = self.enabled[i];
            if w.selector == selector && w.row == row {
                assert(self@.enabled[i as int] == (SelectorWrite { selector, row }));
                return true;
            }
            i = i + 1;
        }
        false
    }
}

/// The number of rows of a trace of degree `k`, `2^k`, where it fits in a `usize`.
pub fn rows_for_degree(k: u32) -> (r: Option<usize>)
    ensures
        r == (if pow2(k as nat) <= usize::MAX {
            Some(pow2(k as nat) as usize)
        } else {
            None::<usize>
        }),
{
    let mut rows: usize = 1;
    let mut i: u32 = 0;
    proof {
        lemma_pow0(2);
    }
    while i < k
        invariant
            i <= k,
            rows as nat == pow2(i as nat),
        decreases k - i,
    {
        proof {
            lemma_pow2_unfold((i + 1) as nat);
        }
        if rows > usize::MAX / 2 {
            proof {
                lemma_pow2_grows(k as nat, (i + 1) as nat);
            }
            return None;
        }
        rows = rows * 2;
        i = i + 1;
    }
    Some(rows)
}

proof fn lemma_pow2_grows(k: nat, i: nat)
    requires
        i <= k,
    ensures
        pow2(i) <= pow2(k),
    decreases k - i,
{
    if i < k {
        lemma_pow2_grows(k, i + 1);
        lemma_pow2_unfold(i + 1);
    }
}

} // verus!
