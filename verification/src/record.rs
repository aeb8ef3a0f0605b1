use vstd::prelude::*;
use crate::label::{encode, label_code};

verus! {

/// Number of feature columns of every record and of every matrix row.
pub const FEATURE_COUNT: usize = 4;

/// One observation: four measurements, each held as the bit pattern of an
/// IEEE 754 single-precision number, and the species name as it was read.
#[derive(Debug, Clone, PartialEq, Eq)]
pub struct Record {
    pub sepal_length: u32,
    pub sepal_width: u32,
    pub petal_length: u32,
    pub petal_width: u32,
    pub species: String,
}

impl Record {
    /// The four measurements in column order.
    pub open spec fn features(&self) -> Seq<u32> {
        seq![self.sepal_length, self.sepal_width, self.petal_length, self.petal_width]
    }

    /// The measurements as one matrix row.
    pub fn into_feature_vector(&self) -> (row: Vec<u32>)
        ensures
            row@ == self.features(),
    {
        let mut row: Vec<u32> = Vec::new();
        row.push(self.sepal_length);
        row.push(self.sepal_width);
        row.push(self.petal_length);
        row.push(self.petal_width);
        assert(row@ =~= self.features());
        row
    }

    /// The code of this record's species, `None` where the name is outside
    /// the label space.
    pub fn into_labels(&self) -> (code: Option<u8>)
        ensures
            code == label_code(self.species@),
    {
        encode(self.species.as_str())
    }
}

/// The least position whose label has no code, if `row` is `Some`; that
/// every label has one, if it is `None`.
pub open spec fn first_unknown(records: Seq<Record>, row: Option<int>) -> bool {
    match row {
        Some(r) => {
            &&& 0 <= r < records.len()
            &&& label_code(records[r].species@).is_none()
            &&& forall|k: int| 0 <= k < r ==> label_code(#[trigger] records[k].species@).is_some()
        },
        None => forall|k: int|
            0 <= k < records.len() ==> label_code(#[trigger] records[k].species@).is_some(),
    }
}

} // verus!
