//! Training rows `(x, y)` for the model `y = w * x`.
use vstd::prelude::*;

verus! {

/// Largest input or expected output that a row may hold.
pub const MAX_SAMPLE: u32 = 1_000_000;

/// Largest number of rows in a dataset.
pub const MAX_ROWS: usize = 1_000_000;

/// Why a dataset, a parameter or a training run was refused.
#[derive(PartialEq, Eq, Structural, Debug, Clone, Copy)]
pub enum FitError {
    /// The dataset holds no rows, so its mean cost is undefined.
    EmptyDataset,
    /// The dataset holds more than `MAX_ROWS` rows.
    TooManyRows,
    /// A row holds a value above `MAX_SAMPLE`.
    SampleOutOfRange,
    /// A parameter or a hyperparameter lies outside the range the
    /// arithmetic is proved for.
    ParameterOutOfRange,
    /// An update moved the weight outside that range.
    Diverged,
}

/// Every value of the row lies within `MAX_SAMPLE`.
pub open spec fn row_in_range(row: (u32, u32)) -> bool {
    row.0 <= MAX_SAMPLE && row.1 <= MAX_SAMPLE
}

pub open spec fn rows_in_range(rows: Seq<(u32, u32)>) -> bool {
    forall|i: int| 0 <= i < rows.len() ==> #[trigger] row_in_range(rows[i])
}

/// What a dataset must be: not empty, not too long, every value in range.
pub open spec fn valid_rows(rows: Seq<(u32, u32)>) -> bool {
    0 < rows.len() <= MAX_ROWS && rows_in_range(rows)
}

/// A non-empty, immutable sequence of training rows.
pub struct Dataset {
    rows: Vec<(u32, u32)>,
}

impl View for Dataset {
    type V = Seq<(u32, u32)>;

    closed spec fn view(&self) -> Seq<(u32, u32)> {
        self.rows@
    }
}

impl Dataset {
    pub open spec fn wf(&self) -> bool {
        valid_rows(self@)
    }

    /// Takes the rows if they form a valid dataset.
    pub fn new(rows: Vec<(u32, u32)>) -> (r: Result<Dataset, FitError>)
        ensures
            r is Ok <==> valid_rows(rows@),
            r matches Ok(d) ==> d@ == rows@ && d.wf(),
            r == Err::<Dataset, FitError>(FitError::EmptyDataset) <==> rows@.len() == 0,
            r == Err::<Dataset, FitError>(FitError::TooManyRows) <==> rows@.len() > MAX_ROWS,
            r == Err::<Dataset, FitError>(FitError::SampleOutOfRange) <==> (0 < rows@.len()
                <= MAX_ROWS && !rows_in_range(rows@)),
    {
        if rows.len() == 0 {
            return Err(FitError::EmptyDataset);
        }
        if rows.len() > MAX_ROWS {
            return Err(FitError::TooManyRows);
        }
        let mut i: usize = 0;
        while i < rows.len()
            invariant
                i <= rows@.len(),
                0 < rows@.len() <= MAX_ROWS,
                forall|j: int| 0 <= j < i ==> #[trigger] row_in_range(rows@[j]),
            decreases rows@.len() - i,
        {
            if rows[i].0 > MAX_SAMPLE || rows[i].1 > MAX_SAMPLE {
                assert(!row_in_range(rows@[i as int]));
                return Err(FitError::SampleOutOfRange);
            }
            i += 1;
        }
        Ok(Dataset { rows })
    }

    pub fn len(&self) -> (r: usize)
        ensures
            r == self@.len(),
    {
        self.rows.len()
    }

    /// The row at `i`.
    pub fn row(&self, i: usize) -> (r: (u32, u32))
        requires
            i < self@.len(),
        ensures
            r == self@[i as int],
    {
        self.rows[i]
    }
}

} // verus!
