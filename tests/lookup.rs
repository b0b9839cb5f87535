use lookup_padding::check::{check_row, reference_contains, verify, Violation, ViolationKind};
use lookup_padding::circuit::{
    gated_input, ConstraintSystem, LookupChip, LookupConfig, LookupSource, MyCircuit,
    REFERENCE_ROWS,
};
use lookup_padding::expr::{evaluate, Expr};
use lookup_padding::trace::{rows_for_degree, AssignError, Trace};

fn configured() -> (ConstraintSystem, LookupConfig) {
    let mut cs = ConstraintSystem::new();
    let config = MyCircuit::configure(&mut cs);
    (cs, config)
}

fn run(values: &[u64], capacity: usize) -> Result<Result<(), Vec<Violation>>, AssignError> {
    let (cs, config) = configured();
    let circuit = MyCircuit { a: values.to_vec() };
    let trace = circuit.synthesize(config, capacity)?;
    Ok(verify(&cs, &trace))
}

#[test]
fn test_lookup_on_different_rows() {
    // Zero is not among the reference values, and unassigned rows of the
    // live column are not entries of it, so row zero fails.
    let k = 5;
    let a = [0, 1, 2, 3];
    let rows = rows_for_degree(k).unwrap();
    let result = run(&a, rows).unwrap();
    assert_eq!(
        result,
        Err(vec![Violation { lookup: 0, row: 0, kind: ViolationKind::NotInTable }])
    );
}

#[test]
fn reference_values_are_accepted() {
    let values: Vec<u64> = (1..10).collect();
    assert_eq!(run(&values, 32).unwrap(), Ok(()));
}

#[test]
fn each_out_of_range_value_is_reported() {
    let result = run(&[5, 10, 0, 9, 11], 16).unwrap();
    assert_eq!(
        result,
        Err(vec![
            Violation { lookup: 0, row: 1, kind: ViolationKind::NotInTable },
            Violation { lookup: 0, row: 2, kind: ViolationKind::NotInTable },
            Violation { lookup: 0, row: 4, kind: ViolationKind::NotInTable },
        ])
    );
}

#[test]
fn empty_input_is_satisfied() {
    assert_eq!(run(&[], 10).unwrap(), Ok(()));
}

#[test]
fn unselected_rows_ignore_the_value_column() {
    let (cs, config) = configured();
    let circuit = MyCircuit { a: vec![3] };
    let mut trace = circuit.synthesize(config, 16).unwrap();
    // A stray value on a row whose selector is off.
    trace.assign_advice(config.a, 7, 0).unwrap();
    assert!(check_row(&cs.lookups[0], &trace, 7));
    assert_eq!(verify(&cs, &trace), Ok(()));
}

#[test]
fn configuring_twice_gives_the_same_result() {
    let (cs1, c1) = configured();
    let (cs2, c2) = configured();
    assert_eq!(c1, c2);
    assert_eq!(c1, LookupConfig { a: 0, s: 0, t1: 0, t2: 1 });
    assert_eq!(cs1.num_advice_columns, cs2.num_advice_columns);
    assert_eq!(cs1.num_advice_columns, 2);
    assert_eq!(cs1.num_selectors, 1);
    assert_eq!(cs1.num_table_columns, 1);
    assert_eq!(cs1.equality, vec![0]);
    assert_eq!(cs1.lookups.len(), 1);
    assert_eq!(cs2.lookups.len(), 1);
    assert_eq!(cs1.lookups[0].source, LookupSource::LiveColumn(1));
    assert_eq!(format!("{:?}", cs1.lookups[0]), format!("{:?}", cs2.lookups[0]));
}

#[test]
fn input_filling_the_capacity_is_assigned() {
    let values = vec![1u64; 12];
    assert_eq!(run(&values, 12).unwrap(), Ok(()));
}

#[test]
fn input_past_the_capacity_is_refused() {
    let values = vec![1u64; 13];
    assert_eq!(
        run(&values, 12),
        Err(AssignError::CapacityExceeded { row: 12, capacity: 12 })
    );
}

#[test]
fn capacity_below_the_reference_rows_is_refused() {
    assert_eq!(REFERENCE_ROWS, 10);
    assert_eq!(
        run(&[1, 2], 9),
        Err(AssignError::CapacityExceeded { row: 9, capacity: 9 })
    );
}

#[test]
fn chip_writes_reference_values() {
    let (_, config) = configured();
    let chip = LookupChip::construct(config);
    let mut trace = Trace::new(12);
    chip.assign(&mut trace, &vec![4, 5]).unwrap();
    assert_eq!(trace.advice_cell(config.a, 0), Some(4));
    assert_eq!(trace.advice_cell(config.a, 1), Some(5));
    assert_eq!(trace.advice_cell(config.a, 2), None);
    assert_eq!(trace.advice_cell(config.t2, 0), Some(1));
    assert_eq!(trace.advice_cell(config.t2, 9), Some(9));
    assert_eq!(trace.advice_cell(config.t2, 10), None);
    assert_eq!(trace.table_cell(config.t1, 0), Some(1));
    assert_eq!(trace.table_cell(config.t1, 6), Some(6));
    assert!(trace.is_enabled(config.s, 1));
    assert!(!trace.is_enabled(config.s, 2));
    assert!(reference_contains(&trace, LookupSource::LiveColumn(config.t2), 9));
    assert!(!reference_contains(&trace, LookupSource::LiveColumn(config.t2), 0));
}

#[test]
fn fixed_table_with_unassigned_rows_is_undefined() {
    let mut cs = ConstraintSystem::new();
    let config = LookupChip::declare_columns(&mut cs);
    LookupChip::register_lookup(&mut cs, config);
    let trace = MyCircuit { a: vec![0, 2] }.synthesize(config, 12).unwrap();
    assert_eq!(
        verify(&cs, &trace),
        Err(vec![Violation { lookup: 0, row: 0, kind: ViolationKind::UndefinedTablePadding }])
    );
}

#[test]
fn fixed_table_fully_assigned_is_checked() {
    let mut cs = ConstraintSystem::new();
    let config = LookupChip::declare_columns(&mut cs);
    LookupChip::register_lookup(&mut cs, config);
    let trace = MyCircuit { a: vec![0, 2] }.synthesize(config, 10).unwrap();
    assert_eq!(
        verify(&cs, &trace),
        Err(vec![Violation { lookup: 0, row: 0, kind: ViolationKind::NotInTable }])
    );
    let trace = MyCircuit { a: vec![7, 2] }.synthesize(config, 10).unwrap();
    assert_eq!(verify(&cs, &trace), Ok(()));
}

#[test]
fn gated_input_blends_by_selector() {
    let e = gated_input(0, 0);
    let mut trace = Trace::new(4);
    trace.assign_advice(0, 0, 42).unwrap();
    trace.assign_advice(0, 1, 42).unwrap();
    trace.enable_selector(0, 0).unwrap();
    assert_eq!(evaluate(&e, &trace, 0), Some(42));
    assert_eq!(evaluate(&e, &trace, 1), Some(1));
    assert_eq!(evaluate(&e, &trace, 2), Some(1));
}

#[test]
fn evaluation_is_exact_or_none() {
    let mut trace = Trace::new(2);
    trace.assign_advice(0, 0, 1u64 << 40).unwrap();
    let sq = Expr::Product(Box::new(Expr::Advice(0)), Box::new(Expr::Advice(0)));
    assert_eq!(evaluate(&sq, &trace, 0), Some(1i128 << 80));
    let sq2 = Expr::Product(Box::new(Expr::Advice(0)), Box::new(Expr::Advice(0)));
    let fourth = Expr::Product(Box::new(sq), Box::new(sq2));
    assert_eq!(evaluate(&fourth, &trace, 0), None);
    let diff = Expr::Sum(
        Box::new(Expr::Constant(3)),
        Box::new(Expr::Negated(Box::new(Expr::Constant(5)))),
    );
    assert_eq!(evaluate(&diff, &trace, 1), Some(-2));
}

#[test]
fn later_write_wins() {
    let mut trace = Trace::new(3);
    trace.assign_advice(2, 1, 5).unwrap();
    trace.assign_advice(2, 1, 6).unwrap();
    assert_eq!(trace.advice_cell(2, 1), Some(6));
    assert_eq!(
        trace.assign_advice(2, 3, 1),
        Err(AssignError::CapacityExceeded { row: 3, capacity: 3 })
    );
    assert_eq!(
        trace.enable_selector(0, 3),
        Err(AssignError::CapacityExceeded { row: 3, capacity: 3 })
    );
    assert_eq!(
        trace.assign_table_cell(0, 4, 1),
        Err(AssignError::CapacityExceeded { row: 4, capacity: 3 })
    );
}

#[test]
fn degree_gives_row_count() {
    assert_eq!(rows_for_degree(0), Some(1));
    assert_eq!(rows_for_degree(5), Some(32));
    assert_eq!(rows_for_degree(200), None);
}

#[test]
fn circuit_without_witnesses_is_empty() {
    let c = MyCircuit { a: vec![1, 2] };
    assert!(c.without_witnesses().a.is_empty());
}
