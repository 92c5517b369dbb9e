//! Predictions of the linear model and its mean squared error over a dataset.
use vstd::prelude::*;
use crate::dataset::{Dataset, row_in_range, valid_rows};
use crate::fixed::SCALE;

verus! {

/// Largest weight magnitude (in fixed-point units) that the cost is
/// evaluated at.
pub const MAX_WEIGHT: i64 = 2_000_000_000_000;

/// Bound on the squared error of one row, in fixed-point units.
pub open spec fn row_cost_bound() -> int {
    9_000_000_000_000_000_000_000_000_000_000
}

pub open spec fn weight_in_range(w: int) -> bool {
    -MAX_WEIGHT <= w <= MAX_WEIGHT
}

/// The model's prediction `x * w` for input `x`, in fixed-point units.
pub open spec fn prediction(x: int, w: int) -> int {
    x * w
}

/// Prediction minus expected output for one row, in fixed-point units.
pub open spec fn row_error(row: (u32, u32), w: int) -> int {
    prediction(row.0 as int, w) - row.1 as int * SCALE
}

/// The row's squared error, in fixed-point units (rounded down).
pub open spec fn row_cost(row: (u32, u32), w: int) -> int {
    row_error(row, w) * row_error(row, w) / (SCALE as int)
}

/// Sum of the squared errors of all rows.
pub open spec fn total_cost(rows: Seq<(u32, u32)>, w: int) -> int
    decreases rows.len(),
{
    if rows.len() == 0 {
        0
    } else {
        total_cost(rows.drop_last(), w) + row_cost(rows.last(), w)
    }
}

/// Mean squared error of weight `w` over the rows (rounded down).
pub open spec fn cost_of(rows: Seq<(u32, u32)>, w: int) -> int {
    total_cost(rows, w) / (rows.len() as int)
}

proof fn lemma_row_cost_bounds(row: (u32, u32), w: int)
    requires
        row_in_range(row),
        weight_in_range(w),
    ensures
        -3_000_000_000_000_000_000 <= row_error(row, w) <= 3_000_000_000_000_000_000,
        0 <= row_cost(row, w) <= row_cost_bound(),
{
    let x = row.0 as int;
    let y = row.1 as int;
    let e = row_error(row, w);
    assert(-2_000_000_000_000_000_000 <= x * w <= 2_000_000_000_000_000_000) by (nonlinear_arith)
        requires
            0 <= x <= 1_000_000,
            -2_000_000_000_000 <= w <= 2_000_000_000_000,
    ;
    assert(-3_000_000_000_000_000_000 <= e <= 3_000_000_000_000_000_000);
    assert(0 <= e * e <= 9_000_000_000_000_000_000_000_000_000_000_000_000) by (nonlinear_arith)
        requires
            -3_000_000_000_000_000_000 <= e <= 3_000_000_000_000_000_000,
    ;
}

/// The model's prediction for input `x` at weight `w`.
pub fn predict(x: u32, w: i64) -> (r: i128)
    ensures
        r == prediction(x as int, w as int),
{
    proof {
        let xi = x as int;
        let wi = w as int;
        assert(-0x8000_0000_0000_0000_0000_0000 <= xi * wi <= 0x8000_0000_0000_0000_0000_0000)
            by (nonlinear_arith)
            requires
                0 <= xi <= 0xffff_ffff,
                -0x8000_0000_0000_0000 <= wi <= 0x8000_0000_0000_0000,
        ;
    }
    (x as i128) * (w as i128)
}

/// Mean squared error of the linear model with weight `w` over the dataset.
pub fn compute_cost(data: &Dataset, w: i64) -> (r: i128)
    requires
        data.wf(),
        weight_in_range(w as int),
    ensures
        r == cost_of(data@, w as int),
        0 <= r <= row_cost_bound(),
{
    let n = data.len();
    let mut acc: i128 = 0;
    let mut i: usize = 0;
    while i < n
        invariant
            n == data@.len(),
            valid_rows(data@),
            weight_in_range(w as int),
            i <= n,
            acc == total_cost(data@.take(i as int), w as int),
            0 <= acc <= i * row_cost_bound(),
        decreases n - i,
    {
        let row = data.row(i);
        proof {
            assert(row_in_range(data@[i as int]));
            lemma_row_cost_bounds(row, w as int);
            assert(data@.take(i as int + 1).drop_last() =~= data@.take(i as int));
        }
        let e: i128 = predict(row.0, w) - (row.1 as i128) * (SCALE as i128);
        proof {
            assert(0 <= e * e <= 9_000_000_000_000_000_000_000_000_000_000_000_000) by (nonlinear_arith)
                requires
                    -3_000_000_000_000_000_000 <= e <= 3_000_000_000_000_000_000,
            ;
        }
        acc = acc + e * e / (SCALE as i128);
        i += 1;
    }
    assert(data@.take(n as int) =~= data@);
    proof {
        let b = row_cost_bound();
        assert((acc as int) / (n as int) <= b) by (nonlinear_arith)
            requires
                0 <= acc <= n * b,
                n > 0,
        ;
    }
    acc / (n as i128)
}

/// The cost is never negative, whatever the rows and the weight.
pub proof fn lemma_cost_nonnegative(rows: Seq<(u32, u32)>, w: int)
    requires
        rows.len() > 0,
    ensures
        cost_of(rows, w) >= 0,
{
    lemma_total_cost_nonnegative(rows, w);
}

proof fn lemma_total_cost_nonnegative(rows: Seq<(u32, u32)>, w: int)
    ensures
        total_cost(rows, w) >= 0,
    decreases rows.len(),
{
    if rows.len() > 0 {
        lemma_total_cost_nonnegative(rows.drop_last(), w);
        let e = row_error(rows.last(), w);
        assert(e * e >= 0) by (nonlinear_arith);
    }
}

/// On a dataset of one row the cost is that row's squared error.
pub proof fn lemma_single_row_cost(row: (u32, u32), w: int)
    ensures
        cost_of(seq![row], w) == row_cost(row, w),
{
    let rows = seq![row];
    assert(rows.drop_last() =~= Seq::<(u32, u32)>::empty());
    assert(total_cost(rows.drop_last(), w) == 0);
    assert(rows.last() == row);
    assert(total_cost(rows, w) == row_cost(row, w));
}

} // verus!
