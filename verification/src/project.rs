use vstd::prelude::*;
use crate::error::BenchError;
use crate::label::label_code;
use crate::record::{first_unknown, Record, FEATURE_COUNT};

verus! {

/// A dense row-major matrix of `FEATURE_COUNT` columns.
#[derive(Debug, Clone, PartialEq, Eq)]
pub struct FeatureMatrix {
    pub rows: usize,
    pub data: Vec<u32>,
}

impl FeatureMatrix {
    /// The data holds every cell of every row.
    pub open spec fn wf(&self) -> bool {
        self.data@.len() == self.rows * FEATURE_COUNT
    }

    /// The cell at `row` and `column`.
    pub open spec fn at(&self, row: int, column: int) -> u32
        recommends
            0 <= row < self.rows,
            0 <= column < FEATURE_COUNT,
    {
        self.data@[row * FEATURE_COUNT + column]
    }

    /// Reads the cell at `row` and `column`.
    pub fn get(&self, row: usize, column: usize) -> (cell: u32)
        requires
            self.wf(),
            row < self.rows,
            column < FEATURE_COUNT,
        ensures
            cell == self.at(row as int, column as int),
    {
        let cells: usize = self.data.len();
        assert(row * FEATURE_COUNT + column < cells) by (nonlinear_arith)
            requires
                row < self.rows,
                column < FEATURE_COUNT,
                cells == self.rows * FEATURE_COUNT,
        ;
        self.data[row * FEATURE_COUNT + column]
    }
}

/// A feature matrix and the label codes of its rows.
#[derive(Debug, Clone, PartialEq, Eq)]
pub struct Projection {
    pub features: FeatureMatrix,
    pub labels: Vec<u8>,
}

/// The measurements of all records, row after row.
pub open spec fn flattened(records: Seq<Record>) -> Seq<u32> {
    Seq::new(
        records.len() * (FEATURE_COUNT as nat),
        |k: int| records[k / (FEATURE_COUNT as int)].features()[k % (FEATURE_COUNT as int)],
    )
}

impl Projection {
    /// This projection is that of `records`: one row and one code for each
    /// record, in the records' order.
    pub open spec fn is_projection_of(&self, records: Seq<Record>) -> bool {
        &&& self.features.rows == records.len()
        &&& self.features.data@ == flattened(records)
        &&& self.labels@.len() == records.len()
        &&& forall|i: int|
            0 <= i < records.len() ==> label_code(#[trigger] records[i].species@) == Some(
                self.labels@[i],
            )
    }
}

/// Checks that every record's label is in the label space, and names the
/// first record whose label is not.
pub fn validate(records: &Vec<Record>) -> (r: Result<(), BenchError>)
    ensures
        match r {
            Ok(()) => first_unknown(records@, None),
            Err(BenchError::UnknownLabel { row, label }) => first_unknown(
                records@,
                Some(row as int),
            ) && label@ == records@[row as int].species@,
            Err(_) => false,
        },
{
    let n = records.len();
    let mut i: usize = 0;
    while i < n
        invariant
            n == records@.len(),
            i <= n,
            forall|k: int| 0 <= k < i ==> label_code(#[trigger] records@[k].species@).is_some(),
        decreases n - i,
    {
        if records[i].into_labels().is_none() {
            return Err(BenchError::UnknownLabel { row: i, label: records[i].species.clone() });
        }
        i = i + 1;
    }
    Ok(())
}

/// Flattens the records into a matrix and a label vector in which row `i`
/// and code `i` describe record `i`. Fails on the first record whose label
/// has no code.
pub fn project(records: &Vec<Record>) -> (r: Result<Projection, BenchError>)
    ensures
        match r {
            Ok(p) => first_unknown(records@, None) && p.features.wf() && p.is_projection_of(
                records@,
            ),
            Err(BenchError::UnknownLabel { row, label }) => first_unknown(
                records@,
                Some(row as int),
            ) && label@ == records@[row as int].species@,
            Err(_) => false,
        },
{
    let n = records.len();
    let mut data: Vec<u32> = Vec::new();
    let mut labels: Vec<u8> = Vec::new();
    let mut i: usize = 0;
    while i < n
        invariant
            n == records@.len(),
            i <= n,
            data@ == flattened(records@.take(i as int)),
            labels@.len() == i,
            forall|k: int|
                0 <= k < i ==> label_code(#[trigger] records@[k].species@) == Some(labels@[k]),
        decreases n - i,
    {
        let record = &records[i];
        match record.into_labels() {
            Some(code) => {
                let ghost before = data@;
                data.push(record.sepal_length);
                data.push(record.sepal_width);
                data.push(record.petal_length);
                data.push(record.petal_width);
                labels.push(code);
                proof {
                    let next = records@.take(i + 1);
                    assert(data@ =~= before + record.features());
                    assert(before + record.features() =~= flattened(next)) by {
                        assert forall|k: int| 0 <= k < (i + 1) * 4 implies (before
                            + record.features())[k] == flattened(next)[k] by {
                            if k < i * 4 {
                                assert(k / 4 < i);
                                assert(flattened(records@.take(i as int))[k] == records@.take(
                                    i as int,
                                )[k / 4].features()[k % 4]);
                            } else {
                                assert(k / 4 == i);
                                assert(k % 4 == k - i * 4);
                            }
                        }
                    }
                }
            },
            None => {
                return Err(BenchError::UnknownLabel { row: i, label: record.species.clone() });
            },
        }
        i = i + 1;
    }
    proof {
        assert(records@.take(n as int) =~= records@);
    }
    Ok(Projection { features: FeatureMatrix { rows: n, data }, labels })
}

/// Projection keeps every record in its place: cell `(i, j)` of the matrix
/// is measurement `j` of record `i`, and code `i` is the code of record
/// `i`'s species.
pub proof fn projection_aligned(p: Projection, records: Seq<Record>, i: int, j: int)
    requires
        p.is_projection_of(records),
        0 <= i < records.len(),
        0 <= j < FEATURE_COUNT,
    ensures
        p.features.at(i, j) == records[i].features()[j],
        label_code(records[i].species@) == Some(p.labels@[i]),
{
    let k = i * FEATURE_COUNT + j;
    assert(0 <= k < records.len() * FEATURE_COUNT) by (nonlinear_arith)
        requires
            0 <= i < records.len(),
            0 <= j < FEATURE_COUNT,
            k == i * FEATURE_COUNT + j,
    ;
    assert(k / 4 == i && k % 4 == j);
    assert(flattened(records)[k] == records[i].features()[j]);
}

} // verus!
