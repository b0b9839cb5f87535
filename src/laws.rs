use vstd::prelude::*;

use crate::check::{in_reference, row_holds, satisfied, source_cell, source_has};
use crate::circuit::{
    assigned, assignment_fits, configured_system, declared_config, empty_system,
    gated_input_spec, live_lookup, reference_value, reference_writes, value_writes,
    ConstraintSystemView, LookupConfig, LookupSource, REFERENCE_ROWS,
};
use crate::expr::{eval, evaluable, Expr};
use crate::trace::{
    advice_value, cell, empty_trace, is_enabled, lemma_cell_is, lemma_cell_none, writes_to,
    SelectorWrite, TraceView,
};

verus! {

/// The chip's configuration on an empty constraint system.
pub open spec fn chip_system() -> ConstraintSystemView {
    configured_system(empty_system())
}

pub open spec fn chip_config() -> LookupConfig {
    declared_config(empty_system())
}

/// The trace that the chip lays out for `values` in `capacity` rows.
pub open spec fn chip_trace(values: Seq<u64>, capacity: nat) -> TraceView {
    assigned(empty_trace(capacity), chip_config(), values)
}

/// A value that the live reference column holds: one to nine.
pub open spec fn is_reference_value(v: int) -> bool {
    1 <= v <= 9
}

/// The blended input reads the value column where the selector is on and
/// the constant one where it is off, and always evaluates.
pub proof fn lemma_gated_input_value(tv: TraceView, s: usize, a: usize, row: int)
    ensures
        evaluable(gated_input_spec(s, a), tv, row),
        eval(gated_input_spec(s, a), tv, row) == if is_enabled(tv, s as int, row) {
            advice_value(tv, a as int, row)
        } else {
            1
        },
{
    reveal_with_fuel(eval, 5);
    reveal_with_fuel(evaluable, 5);
    let v = advice_value(tv, a as int, row);
    assert(0 <= v <= u64::MAX);
    if is_enabled(tv, s as int, row) {
        assert(eval(Expr::Selector(s), tv, row) == 1);
        assert(1 * v == v);
    } else {
        assert(eval(Expr::Selector(s), tv, row) == 0);
        assert(0 * v == 0);
    }
}

/// On a row where the selector is off, the live-column lookup holds whatever
/// the value column holds there, as long as the reference column holds a one.
pub proof fn lemma_unselected_row_holds(tv: TraceView, config: LookupConfig, row: int)
    requires
        !is_enabled(tv, config.s as int, row),
        in_reference(tv, LookupSource::LiveColumn(config.t2), 1),
    ensures
        row_holds(live_lookup(config), tv, row),
{
    lemma_gated_input_value(tv, config.s, config.a, row);
}

proof fn lemma_chip_value_cell(values: Seq<u64>, capacity: nat, i: int)
    requires
        assignment_fits(values.len(), capacity),
        capacity <= usize::MAX,
        0 <= i,
    ensures
        cell(chip_trace(values, capacity).advice, 0, i) == if i < values.len() {
            Some(values[i])
        } else {
            None::<u64>
        },
{
    let adv = chip_trace(values, capacity).advice;
    let n = values.len() as int;
    assert(adv =~= value_writes(0, values) + reference_writes(1));
    if i < n {
        assert(writes_to(adv[i], 0, i));
        assert forall|j: int| i < j < adv.len() implies !#[trigger] writes_to(adv[j], 0, i) by {
            if j < n {
                assert(adv[j].row == j as usize);
            } else {
                assert(adv[j].column == 1);
            }
        }
        lemma_cell_is(adv, 0, i, i);
    } else {
        assert forall|k: int| 0 <= k < adv.len() implies !#[trigger] writes_to(adv[k], 0, i) by {
            if k < n {
                assert(adv[k].row == k as usize);
            } else {
                assert(adv[k].column == 1);
            }
        }
        lemma_cell_none(adv, 0, i);
    }
}

proof fn lemma_chip_reference_cell(values: Seq<u64>, capacity: nat, r: int)
    requires
        assignment_fits(values.len(), capacity),
        capacity <= usize::MAX,
        0 <= r,
    ensures
        cell(chip_trace(values, capacity).advice, 1, r) == if r < REFERENCE_ROWS {
            Some(reference_value(r))
        } else {
            None::<u64>
        },
{
    let adv = chip_trace(values, capacity).advice;
    let n = values.len() as int;
    assert(adv =~= value_writes(0, values) + reference_writes(1));
    if r < REFERENCE_ROWS {
        assert(writes_to(adv[n + r], 1, r));
        assert forall|j: int| n + r < j < adv.len() implies !#[trigger] writes_to(adv[j], 1, r) by {
            assert(adv[j].row == (j - n) as usize);
        }
        lemma_cell_is(adv, 1, r, n + r);
    } else {
        assert forall|k: int| 0 <= k < adv.len() implies !#[trigger] writes_to(adv[k], 1, r) by {
            if k < n {
                assert(adv[k].column == 0);
            } else {
                assert(adv[k].row == (k - n) as usize);
            }
        }
        lemma_cell_none(adv, 1, r);
    }
}

proof fn lemma_chip_enabled(values: Seq<u64>, capacity: nat, row: int)
    requires
        assignment_fits(values.len(), capacity),
        capacity <= usize::MAX,
        0 <= row < capacity,
    ensures
        is_enabled(chip_trace(values, capacity), 0, row) <==> row < values.len(),
{
    let tv = chip_trace(values, capacity);
    if row < values.len() {
        assert(tv.enabled[row] == (SelectorWrite { selector: 0, row: row as usize }));
    } else {
        assert forall|k: int| 0 <= k < tv.enabled.len() implies #[trigger] tv.enabled[k] != (
        SelectorWrite { selector: 0, row: row as usize }) by {
            assert(tv.enabled[k].row == k as usize);
        }
    }
}

/// The live reference column of the chip's trace holds exactly the values one to nine.
pub proof fn lemma_chip_reference_set(values: Seq<u64>, capacity: nat, v: int)
    requires
        assignment_fits(values.len(), capacity),
        capacity <= usize::MAX,
    ensures
        in_reference(chip_trace(values, capacity), LookupSource::LiveColumn(1), v)
            <==> is_reference_value(v),
{
    let tv = chip_trace(values, capacity);
    let src = LookupSource::LiveColumn(1);
    if is_reference_value(v) {
        lemma_chip_reference_cell(values, capacity, v);
        assert(source_has(tv, src, v, v));
    }
    if in_reference(tv, src, v) {
        let row = choose|row: int| 0 <= row < tv.capacity && #[trigger] source_has(tv, src, row, v);
        lemma_chip_reference_cell(values, capacity, row);
        assert(source_cell(tv, src, row) == cell(tv.advice, 1, row));
    }
}

/// On the chip's trace, row `row` holds exactly when it is past the input or
/// its input value is one to nine.
pub proof fn lemma_chip_row_holds(values: Seq<u64>, capacity: nat, row: int)
    requires
        assignment_fits(values.len(), capacity),
        capacity <= usize::MAX,
        0 <= row < capacity,
    ensures
        row_holds(chip_system().lookups[0], chip_trace(values, capacity), row) <==> (row
            < values.len() ==> is_reference_value(values[row] as int)),
{
    let tv = chip_trace(values, capacity);
    let config = chip_config();
    assert(chip_system().lookups[0] == live_lookup(config));
    lemma_gated_input_value(tv, 0, 0, row);
    lemma_chip_enabled(values, capacity, row);
    lemma_chip_value_cell(values, capacity, row);
    let v = eval(gated_input_spec(0, 0), tv, row);
    lemma_chip_reference_set(values, capacity, v);
}

/// The chip's trace for `values` satisfies its lookup exactly when every
/// input value lies among the reference values one to nine.
pub proof fn lemma_membership_via_live_column(values: Seq<u64>, capacity: nat)
    requires
        assignment_fits(values.len(), capacity),
        capacity <= usize::MAX,
    ensures
        satisfied(chip_system(), chip_trace(values, capacity)) <==> forall|i: int|
            0 <= i < values.len() ==> is_reference_value(#[trigger] values[i] as int),
{
    let tv = chip_trace(values, capacity);
    let cs = chip_system();
    assert(cs.lookups.len() == 1);
    if satisfied(cs, tv) {
        assert forall|i: int| 0 <= i < values.len() implies is_reference_value(
            #[trigger] values[i] as int,
        ) by {
            lemma_chip_row_holds(values, capacity, i);
            assert(row_holds(cs.lookups[0], tv, i));
        }
    }
    if forall|i: int| 0 <= i < values.len() ==> is_reference_value(#[trigger] values[i] as int) {
        assert forall|l: int, row: int| 0 <= l < cs.lookups.len() && 0 <= row < tv.capacity implies #[trigger] row_holds(
            cs.lookups[l],
            tv,
            row,
        ) by {
            lemma_chip_row_holds(values, capacity, row);
            if row < values.len() {
                assert(is_reference_value(values[row] as int));
            }
        }
    }
}

/// A zero among the input values makes its row fail: zero is not a reference
/// value, and unassigned rows of the live column do not count as entries.
pub proof fn lemma_zero_input_fails(values: Seq<u64>, capacity: nat, i: int)
    requires
        assignment_fits(values.len(), capacity),
        capacity <= usize::MAX,
        0 <= i < values.len(),
        values[i] == 0,
    ensures
        !row_holds(chip_system().lookups[0], chip_trace(values, capacity), i),
        !satisfied(chip_system(), chip_trace(values, capacity)),
{
    lemma_chip_row_holds(values, capacity, i);
    assert(chip_system().lookups.len() == 1);
}

/// On the chip's trace, every row past the input values holds, whatever the
/// value column holds there.
pub proof fn lemma_rows_past_input_hold(values: Seq<u64>, capacity: nat, row: int)
    requires
        assignment_fits(values.len(), capacity),
        capacity <= usize::MAX,
        values.len() <= row < capacity,
    ensures
        row_holds(chip_system().lookups[0], chip_trace(values, capacity), row),
{
    lemma_chip_enabled(values, capacity, row);
    lemma_chip_reference_set(values, capacity, 1);
    assert(chip_system().lookups[0] == live_lookup(chip_config()));
    lemma_unselected_row_holds(chip_trace(values, capacity), chip_config(), row);
}

/// Configuring two constraint systems in the same state gives the same
/// handles and the same resulting system; on an empty system the value
/// column, selector and table come first and the live column second.
pub proof fn lemma_configure_deterministic(cs1: ConstraintSystemView, cs2: ConstraintSystemView)
    requires
        cs1 == cs2,
    ensures
        declared_config(cs1) == declared_config(cs2),
        configured_system(cs1) == configured_system(cs2),
        chip_config() == (LookupConfig { a: 0, s: 0, t1: 0, t2: 1 }),
        chip_system().lookups =~= seq![live_lookup(chip_config())],
        chip_system().equality =~= seq![0usize],
{
}

/// Assigning as many values as the trace has rows succeeds; one more fails.
pub proof fn lemma_capacity_boundary(capacity: nat)
    requires
        REFERENCE_ROWS <= capacity,
    ensures
        assignment_fits(capacity, capacity),
        !assignment_fits(capacity + 1, capacity),
{
}

} // verus!
