use vstd::prelude::*;
use crate::error::BenchError;
use crate::record::{Record, FEATURE_COUNT};
use crate::table::{row_text, COLUMN_COUNT, LABEL_COLUMN};

verus! {

/// Every measurement of a row was read as a number.
pub open spec fn all_read(reading: Seq<Option<u32>>) -> bool {
    forall|j: int| 0 <= j < reading.len() ==> (#[trigger] reading[j]).is_some()
}

/// The record is made of the row's readings and the row's label.
pub open spec fn record_of(row: Seq<Seq<char>>, reading: Seq<Option<u32>>, record: Record) -> bool {
    &&& row.len() == COLUMN_COUNT
    &&& forall|j: int|
        0 <= j < FEATURE_COUNT ==> #[trigger] reading[j] == Some(record.features()[j])
    &&& record.species@ == row[LABEL_COLUMN as int]
}

/// What assembling says of rows and their readings. A different number of
/// rows and readings is refused first. After that the rows are judged in
/// order: of a row its width first, then its readings from the left.
pub open spec fn assembly(
    rows: Seq<Vec<String>>,
    readings: Seq<[Option<u32>; 4]>,
    r: Result<Vec<Record>, BenchError>,
) -> bool {
    match r {
        Ok(records) => {
            &&& rows.len() == readings.len()
            &&& records@.len() == rows.len()
            &&& forall|i: int|
                0 <= i < rows.len() ==> record_of(
                    row_text(rows[i]@),
                    readings[i]@,
                    #[trigger] records@[i],
                )
        },
        Err(BenchError::DimensionMismatch { expected, found }) => {
            &&& rows.len() != readings.len()
            &&& expected == rows.len()
            &&& found == readings.len()
        },
        Err(BenchError::RowWidth { row }) => {
            &&& rows.len() == readings.len()
            &&& row < rows.len()
            &&& rows[row as int]@.len() != COLUMN_COUNT
            &&& forall|k: int|
                0 <= k < row ==> (#[trigger] rows[k])@.len() == COLUMN_COUNT && all_read(
                    readings[k]@,
                )
        },
        Err(BenchError::Number { row, column }) => {
            &&& rows.len() == readings.len()
            &&& row < rows.len()
            &&& rows[row as int]@.len() == COLUMN_COUNT
            &&& column < FEATURE_COUNT
            &&& readings[row as int]@[column as int].is_none()
            &&& forall|j: int| 0 <= j < column ==> (#[trigger] readings[row as int]@[j]).is_some()
            &&& forall|k: int|
                0 <= k < row ==> (#[trigger] rows[k])@.len() == COLUMN_COUNT && all_read(
                    readings[k]@,
                )
        },
        Err(_) => false,
    }
}

/// The first measurement of a row that was not read as a number.
fn first_missing(reading: &[Option<u32>; 4]) -> (column: Option<usize>)
    ensures
        match column {
            Some(j) => {
                &&& j < FEATURE_COUNT
                &&& reading@[j as int].is_none()
                &&& forall|k: int| 0 <= k < j ==> (#[trigger] reading@[k]).is_some()
            },
            None => all_read(reading@),
        },
{
    let mut j: usize = 0;
    while j < FEATURE_COUNT
        invariant
            j <= FEATURE_COUNT,
            reading@.len() == FEATURE_COUNT,
            forall|k: int| 0 <= k < j ==> (#[trigger] reading@[k]).is_some(),
        decreases FEATURE_COUNT - j,
    {
        if reading[j].is_none() {
            return Some(j);
        }
        j = j + 1;
    }
    None
}

/// Makes records of data rows and of the readings of their measurements.
/// `readings[i][j]` holds the bits of the number that field `j` of row `i`
/// spells, or `None` where it spells none. One field that is no number
/// fails the whole dataset.
pub fn assemble(rows: &Vec<Vec<String>>, readings: &Vec<[Option<u32>; 4]>) -> (r: Result<
    Vec<Record>,
    BenchError,
>)
    ensures
        assembly(rows@, readings@, r),
{
    let n = rows.len();
    if n != readings.len() {
        return Err(BenchError::DimensionMismatch { expected: n, found: readings.len() });
    }
    let mut records: Vec<Record> = Vec::new();
    let mut i: usize = 0;
    while i < n
        invariant
            n == rows@.len(),
            n == readings@.len(),
            i <= n,
            records@.len() == i,
            forall|k: int| 0 <= k < i ==> (#[trigger] rows@[k])@.len() == COLUMN_COUNT,
            forall|k: int| 0 <= k < i ==> all_read(#[trigger] readings@[k]@),
            forall|k: int|
                0 <= k < i ==> record_of(
                    row_text(rows@[k]@),
                    readings@[k]@,
                    #[trigger] records@[k],
                ),
        decreases n - i,
    {
        let row = &rows[i];
        let reading = &readings[i];
        if row.len() != COLUMN_COUNT {
            return Err(BenchError::RowWidth { row: i });
        }
        match first_missing(reading) {
            Some(column) => {
                return Err(BenchError::Number { row: i, column });
            },
            None => {},
        }
        let record = match (reading[0], reading[1], reading[2], reading[3]) {
            (Some(sepal_length), Some(sepal_width), Some(petal_length), Some(petal_width)) => Record {
                sepal_length,
                sepal_width,
                petal_length,
                petal_width,
                species: row[LABEL_COLUMN].clone(),
            },
            _ => {
                assert(false);
                return Err(BenchError::Number { row: i, column: 0 });
            },
        };
        records.push(record);
        i = i + 1;
    }
    Ok(records)
}

} // verus!
