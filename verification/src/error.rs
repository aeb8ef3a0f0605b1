use vstd::prelude::*;

verus! {

/// Every way in which the harness rejects its input.
#[derive(Debug, Clone, PartialEq, Eq)]
pub enum BenchError {
    /// The delimited text itself could not be read into rows of fields.
    Malformed,
    /// The header row does not name exactly the expected columns, in order.
    Header,
    /// Data row `row` (counted from zero, after the header) does not have
    /// one field per column.
    RowWidth { row: usize },
    /// Field `column` of data row `row` is not a number.
    Number { row: usize, column: usize },
    /// Data row `row` has an empty label.
    EmptyLabel { row: usize },
    /// Record `row` carries a label outside the closed set of species.
    UnknownLabel { row: usize, label: String },
    /// Two vectors that must align position by position differ in length.
    DimensionMismatch { expected: usize, found: usize },
    /// Position `index` of the actual labels holds `value`, which is neither
    /// 0 nor 1.
    InvalidLabel { index: usize, value: u8 },
    /// A ratio over zero positions was asked for.
    EmptyInput,
    /// The operating system gave no entropy to seed a generator from.
    Entropy,
}

} // verus!
