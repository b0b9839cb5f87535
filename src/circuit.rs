use vstd::prelude::*;

use crate::expr::Expr;
use crate::trace::{empty_trace, trace_wf, AssignError, CellWrite, SelectorWrite, Trace, TraceView};

verus! {

/// Where a lookup finds its reference set.
#[derive(Clone, Copy, Debug, PartialEq, Eq, Structural)]
pub enum LookupSource {
    /// An ordinary advice column of the trace.
    LiveColumn(usize),
    /// A fixed table column, stored apart from the ordinary columns.
    FixedTable(usize),
}

/// A lookup argument: at each row the value of `input` must occur in `source`.
#[derive(Debug)]
pub struct Lookup {
    pub input: Expr,
    pub source: LookupSource,
}

/// The static description of a circuit: how many columns of each kind it
/// has declared, which advice columns may be wired by equality, and its lookups.
pub struct ConstraintSystem {
    pub num_advice_columns: usize,
    pub num_selectors: usize,
    pub num_table_columns: usize,
    pub equality: Vec<usize>,
    pub lookups: Vec<Lookup>,
}

pub struct ConstraintSystemView {
    pub num_advice_columns: nat,
    pub num_selectors: nat,
    pub num_table_columns: nat,
    pub equality: Seq<usize>,
    pub lookups: Seq<Lookup>,
}

impl View for ConstraintSystem {
    type V = ConstraintSystemView;

    open spec fn view(&self) -> ConstraintSystemView {
        ConstraintSystemView {
            num_advice_columns: self.num_advice_columns as nat,
            num_selectors: self.num_selectors as nat,
            num_table_columns: self.num_table_columns as nat,
            equality: self.equality@,
            lookups: self.lookups@,
        }
    }
}

pub open spec fn empty_system() -> ConstraintSystemView {
    ConstraintSystemView {
        num_advice_columns: 0,
        num_selectors: 0,
        num_table_columns: 0,
        equality: Seq::empty(),
        lookups: Seq::empty(),
    }
}

impl ConstraintSystem {
    /// A constraint system with nothing declared.
    pub fn new() -> (r: ConstraintSystem)
        ensures
            r@ == empty_system(),
    {
        ConstraintSystem {
            num_advice_columns: 0,
            num_selectors: 0,
            num_table_columns: 0,
            equality: Vec::new(),
            lookups: Vec::new(),
        }
    }

    /// Declares a new advice column and returns its index.
    pub fn advice_column(&mut self) -> (r: usize)
        requires
            old(self).num_advice_columns < usize::MAX,
        ensures
            r == old(self).num_advice_columns,
            final(self)@ == (ConstraintSystemView {
                num_advice_columns: old(self)@.num_advice_columns + 1,
                ..old(self)@
            }),
    {
        let r = self.num_advice_columns;
        self.num_advice_columns = r + 1;
        r
    }

    /// Declares a new selector that may appear inside lookup inputs, and returns its index.
    pub fn complex_selector(&mut self) -> (r: usize)
        requires
            old(self).num_selectors < usize::MAX,
        ensures
            r == old(self).num_selectors,
            final(self)@ == (ConstraintSystemView {
                num_selectors: old(self)@.num_selectors + 1,
                ..old(self)@
            }),
    {
        let r = self.num_selectors;
        self.num_selectors = r + 1;
        r
    }

    /// Declares a new fixed table column and returns its index.
    pub fn lookup_table_column(&mut self) -> (r: usize)
        requires
            old(self).num_table_columns < usize::MAX,
        ensures
            r == old(self).num_table_columns,
            final(self)@ == (ConstraintSystemView {
                num_table_columns: old(self)@.num_table_columns + 1,
                ..old(self)@
            }),
    {
        let r = self.num_table_columns;
        self.num_table_columns = r + 1;
        r
    }

    /// Lets the advice column `column` be wired to other cells by equality.
    pub fn enable_equality(&mut self, column: usize)
        ensures
            final(self)@ == (ConstraintSystemView {
                equality: old(self)@.equality.push(column),
                ..old(self)@
            }),
    {
        self.equality.push(column);
    }

    /// Registers a lookup: at each row, `input` must occur in `source`.
    pub fn lookup_any(&mut self, input: Expr, source: LookupSource)
        ensures
            final(self)@ == (ConstraintSystemView {
                lookups: old(self)@.lookups.push(Lookup { input, source }),
                ..old(self)@
            }),
    {
        self.lookups.push(Lookup { input, source });
    }
}

/// The columns of the lookup chip: the value column `a`, the selector `s`,
/// the fixed reference table `t1` and the live reference column `t2`.
#[derive(Clone, Copy, Debug, PartialEq, Eq, Structural)]
pub struct LookupConfig {
    pub a: usize,
    pub s: usize,
    pub t1: usize,
    pub t2: usize,
}

/// `s * a + (1 - s) * 1`: the value of `a` where `s` is on, the constant one elsewhere.
pub open spec fn gated_input_spec(s: usize, a: usize) -> Expr {
    Expr::Sum(
        Box::new(Expr::Product(Box::new(Expr::Selector(s)), Box::new(Expr::Advice(a)))),
        Box::new(
            Expr::Product(
                Box::new(
                    Expr::Sum(
                        Box::new(Expr::Constant(1)),
                        Box::new(Expr::Negated(Box::new(Expr::Selector(s)))),
                    ),
                ),
                Box::new(Expr::Constant(1)),
            ),
        ),
    )
}

/// Builds the selector-blended lookup input `s * a + (1 - s) * 1`.
pub fn gated_input(s: usize, a: usize) -> (r: Expr)
    ensures
        r == gated_input_spec(s, a),
{
    Expr::Sum(
        Box::new(Expr::Product(Box::new(Expr::Selector(s)), Box::new(Expr::Advice(a)))),
        Box::new(
            Expr::Product(
                Box::new(
                    Expr::Sum(
                        Box::new(Expr::Constant(1)),
                        Box::new(Expr::Negated(Box::new(Expr::Selector(s)))),
                    ),
                ),
                Box::new(Expr::Constant(1)),
            ),
        ),
    )
}

/// The number of rows of the reference set, row zero included.
pub const REFERENCE_ROWS: usize = 10;

/// The reference value at row `i`: one at row zero, `i` on the other rows.
pub open spec fn reference_value(i: int) -> u64 {
    if i == 0 { 1 } else { i as u64 }
}

pub open spec fn value_writes(a: usize, values: Seq<u64>) -> Seq<CellWrite> {
    Seq::new(values.len(), |i: int| CellWrite { column: a, row: i as usize, value: values[i] })
}

pub open spec fn selector_writes(s: usize, n: nat) -> Seq<SelectorWrite> {
    Seq::new(n, |i: int| SelectorWrite { selector: s, row: i as usize })
}

pub open spec fn reference_writes(column: usize) -> Seq<CellWrite> {
    Seq::new(
        REFERENCE_ROWS as nat,
        |i: int| CellWrite { column, row: i as usize, value: reference_value(i) },
    )
}

pub open spec fn declared_config(cs: ConstraintSystemView) -> LookupConfig {
    LookupConfig {
        a: cs.num_advice_columns as usize,
        s: cs.num_selectors as usize,
        t1: cs.num_table_columns as usize,
        t2: (cs.num_advice_columns + 1) as usize,
    }
}

pub open spec fn declared_system(cs: ConstraintSystemView) -> ConstraintSystemView {
    ConstraintSystemView {
        num_advice_columns: cs.num_advice_columns + 2,
        num_selectors: cs.num_selectors + 1,
        num_table_columns: cs.num_table_columns + 1,
        equality: cs.equality.push(cs.num_advice_columns as usize),
        lookups: cs.lookups,
    }
}

pub open spec fn live_lookup(config: LookupConfig) -> Lookup {
    Lookup {
        input: gated_input_spec(config.s, config.a),
        source: LookupSource::LiveColumn(config.t2),
    }
}

pub open spec fn fixed_lookup(config: LookupConfig) -> Lookup {
    Lookup {
        input: gated_input_spec(config.s, config.a),
        source: LookupSource::FixedTable(config.t1),
    }
}

/// The system after configuration: the chip's columns declared and its
/// live-column lookup registered.
pub open spec fn configured_system(cs: ConstraintSystemView) -> ConstraintSystemView {
    let d = declared_system(cs);
    ConstraintSystemView { lookups: d.lookups.push(live_lookup(declared_config(cs))), ..d }
}

pub open spec fn can_configure(cs: ConstraintSystemView) -> bool {
    &&& cs.num_advice_columns + 1 < usize::MAX
    &&& cs.num_selectors < usize::MAX
    &&& cs.num_table_columns < usize::MAX
}

/// An assignment of `n` values succeeds exactly when the values and the
/// reference rows both fit in the trace.
pub open spec fn assignment_fits(n: nat, capacity: nat) -> bool {
    n <= capacity && REFERENCE_ROWS <= capacity
}

/// The trace after the chip has assigned `values`.
pub open spec fn assigned(tv: TraceView, config: LookupConfig, values: Seq<u64>) -> TraceView {
    TraceView {
        capacity: tv.capacity,
        advice: tv.advice + value_writes(config.a, values) + reference_writes(config.t2),
        enabled: tv.enabled + selector_writes(config.s, values.len()),
        table: tv.table + reference_writes(config.t1),
    }
}

/// The lookup chip: declares its columns and lookup, and lays out a trace.
pub struct LookupChip {
    pub config: LookupConfig,
}

impl LookupChip {
    pub fn construct(config: LookupConfig) -> (r: LookupChip)
        ensures
            r.config == config,
    {
        LookupChip { config }
    }

    /// Declares the value column, the selector, the fixed table and the live
    /// reference column, and enables equality on the value column.
    pub fn declare_columns(cs: &mut ConstraintSystem) -> (r: LookupConfig)
        requires
            can_configure(old(cs)@),
        ensures
            r == declared_config(old(cs)@),
            final(cs)@ == declared_system(old(cs)@),
    {
        let a = cs.advice_column();
        let s = cs.complex_selector();
        let t1 = cs.lookup_table_column();
        let t2 = cs.advice_column();
        cs.enable_equality(a);
        LookupConfig { a, s, t1, t2 }
    }

    /// Registers `s * a + (1 - s) * 1` looked up in the live column `t2`.
    pub fn register_lookup_any(cs: &mut ConstraintSystem, config: LookupConfig)
        ensures
            final(cs)@ == (ConstraintSystemView {
                lookups: old(cs)@.lookups.push(live_lookup(config)),
                ..old(cs)@
            }),
    {
        cs.lookup_any(gated_input(config.s, config.a), LookupSource::LiveColumn(config.t2));
    }

    /// Registers `s * a + (1 - s) * 1` looked up in the fixed table `t1`.
    pub fn register_lookup(cs: &mut ConstraintSystem, config: LookupConfig)
        ensures
            final(cs)@ == (ConstraintSystemView {
                lookups: old(cs)@.lookups.push(fixed_lookup(config)),
                ..old(cs)@
            }),
    {
        cs.lookup_any(gated_input(config.s, config.a), LookupSource::FixedTable(config.t1));
    }

    /// Declares the chip's columns and registers its live-column lookup.
    pub fn configure(cs: &mut ConstraintSystem) -> (r: LookupConfig)
        requires
            can_configure(old(cs)@),
        ensures
            r == declared_config(old(cs)@),
            final(cs)@ == configured_system(old(cs)@),
    {
        let config = LookupChip::declare_columns(cs);
        LookupChip::register_lookup_any(cs, config);
        config
    }

    /// Writes `values` into the value column from row zero on, switching the
    /// selector on at each of those rows, then writes the reference values
    /// into the live column `t2` and the fixed table `t1`.
    pub fn assign(&self, trace: &mut Trace, values: &Vec<u64>) -> (r: Result<(), AssignError>)
        ensures
            r is Ok <==> assignment_fits(values.len() as nat, old(trace).capacity as nat),
            r is Ok ==> final(trace)@ == assigned(old(trace)@, self.config, values@),
            r is Err ==> r == Err::<(), AssignError>(
                AssignError::CapacityExceeded {
                    row: old(trace).capacity,
                    capacity: old(trace).capacity,
                },
            ),
            final(trace).capacity == old(trace).capacity,
            trace_wf(old(trace)@) ==> trace_wf(final(trace)@),
    {
        let ghost start = trace@;
        let mut i: usize = 0;
        while i < values.len()
            invariant
                i <= values.len(),
                i <= trace.capacity,
                trace.capacity == old(trace).capacity,
                trace_wf(old(trace)@) ==> trace_wf(trace@),
                trace@ == (TraceView {
                    advice: start.advice + value_writes(self.config.a, values@.take(i as int)),
                    enabled: start.enabled + selector_writes(self.config.s, i as nat),
                    ..start
                }),
            decreases values.len() - i,
        {
            match self.enable_and_assign(trace, i, values[i]) {
                Ok(()) => {},
                Err(e) => {
                    return Err(e);
                },
            }
            proof {
                assert(value_writes(self.config.a, values@.take(i as int + 1)) =~= value_writes(
                    self.config.a,
                    values@.take(i as int),
                ).push(CellWrite { column: self.config.a, row: i, value: values@[i as int] }));
                assert(selector_writes(self.config.s, (i + 1) as nat) =~= selector_writes(
                    self.config.s,
                    i as nat,
                ).push(SelectorWrite { selector: self.config.s, row: i }));
            }
            i = i + 1;
        }
        proof {
            assert(values@.take(values.len() as int) =~= values@);
        }
        let ghost mid = trace@;
        let t2 = self.config.t2;
        match trace.assign_advice(t2, 0, 1) {
            Ok(()) => {},
            Err(e) => {
                return Err(e);
            },
        }
        proof {
            assert(trace@.advice =~= mid.advice + reference_writes(t2).take(1));
        }
        let mut j: usize = 1;
        while j < REFERENCE_ROWS
            invariant
                1 <= j <= REFERENCE_ROWS,
                j <= trace.capacity,
                trace.capacity == old(trace).capacity,
                trace_wf(old(trace)@) ==> trace_wf(trace@),
                trace@ == (TraceView {
                    advice: mid.advice + reference_writes(t2).take(j as int),
                    ..mid
                }),
            decreases REFERENCE_ROWS - j,
        {
            match trace.assign_advice(t2, j, j as u64) {
                Ok(()) => {},
                Err(e) => {
                    return Err(e);
                },
            }
            proof {
                assert(reference_writes(t2).take(j as int + 1) =~= reference_writes(t2).take(
                    j as int,
                ).push(CellWrite { column: t2, row: j, value: j as u64 }));
            }
            j = j + 1;
        }
        proof {
            assert(reference_writes(t2).take(REFERENCE_ROWS as int) =~= reference_writes(t2));
        }
        let ghost after_column = trace@;
        let t1 = self.config.t1;
        match trace.assign_table_cell(t1, 0, 1) {
            Ok(()) => {},
            Err(e) => {
                return Err(e);
            },
        }
        proof {
            assert(trace@.table =~= after_column.table + reference_writes(t1).take(1));
        }
        let mut j: usize = 1;
        while j < REFERENCE_ROWS
            invariant
                1 <= j <= REFERENCE_ROWS,
                REFERENCE_ROWS <= trace.capacity,
                trace.capacity == old(trace).capacity,
                trace_wf(old(trace)@) ==> trace_wf(trace@),
                assignment_fits(values.len() as nat, old(trace).capacity as nat),
                trace@ == (TraceView {
                    table: after_column.table + reference_writes(t1).take(j as int),
                    ..after_column
                }),
            decreases REFERENCE_ROWS - j,
        {
            match trace.assign_table_cell(t1, j, j as u64) {
                Ok(()) => {},
                Err(e) => {
                    return Err(e);
                },
            }
            proof {
                assert(reference_writes(t1).take(j as int + 1) =~= reference_writes(t1).take(
                    j as int,
                ).push(CellWrite { column: t1, row: j, value: j as u64 }));
            }
            j = j + 1;
        }
        proof {
            assert(reference_writes(t1).take(REFERENCE_ROWS as int) =~= reference_writes(t1));
        }
        Ok(())
    }

    fn enable_and_assign(&self, trace: &mut Trace, row: usize, value: u64) -> (r: Result<
        (),
        AssignError,
    >)
        ensures
            r is Ok <==> row < old(trace).capacity,
            r is Ok ==> final(trace)@ == (TraceView {
                advice: old(trace)@.advice.push(CellWrite { column: self.config.a, row, value }),
                enabled: old(trace)@.enabled.push(SelectorWrite { selector: self.config.s, row }),
                ..old(trace)@
            }),
            r is Err ==> r == Err::<(), AssignError>(
                AssignError::CapacityExceeded { row, capacity: old(trace).capacity },
            ),
            final(trace).capacity == old(trace).capacity,
            trace_wf(old(trace)@) ==> trace_wf(final(trace)@),
    {
        match trace.enable_selector(self.config.s, row) {
            Ok(()) => {},
            Err(e) => {
                return Err(e);
            },
        }
        trace.assign_advice(self.config.a, row, value)
    }
}

/// A circuit holding the values to look up.
pub struct MyCircuit {
    pub a: Vec<u64>,
}

impl MyCircuit {
    /// The same circuit shape with no values.
    pub fn without_witnesses(&self) -> (r: MyCircuit)
        ensures
            r.a@.len() == 0,
    {
        MyCircuit { a: Vec::new() }
    }

    pub fn configure(cs: &mut ConstraintSystem) -> (r: LookupConfig)
        requires
            can_configure(old(cs)@),
        ensures
            r == declared_config(old(cs)@),
            final(cs)@ == configured_system(old(cs)@),
    {
        LookupChip::configure(cs)
    }

    /// Lays out a fresh trace of `capacity` rows for the circuit's values.
    pub fn synthesize(&self, config: LookupConfig, capacity: usize) -> (r: Result<Trace, AssignError>)
        ensures
            r is Ok <==> assignment_fits(self.a@.len(), capacity as nat),
            r matches Ok(t) ==> t@ == assigned(empty_trace(capacity as nat), config, self.a@)
                && trace_wf(t@),
            r matches Err(e) ==> e == (AssignError::CapacityExceeded { row: capacity, capacity }),
    {
        let chip = LookupChip::construct(config);
        let mut trace = Trace::new(capacity);
        match chip.assign(&mut trace, &self.a) {
            Ok(()) => Ok(trace),
            Err(e) => Err(e),
        }
    }
}

} // verus!
