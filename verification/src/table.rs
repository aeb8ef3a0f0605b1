use vstd::prelude::*;
use crate::error::BenchError;

verus! {

/// Number of columns of the input: the measurements and the label.
pub const COLUMN_COUNT: usize = 5;

/// Position of the label among the columns.
pub const LABEL_COLUMN: usize = 4;

/// The header that the input must start with.
pub open spec fn expected_header() -> Seq<Seq<char>> {
    seq!["sepal_length"@, "sepal_width"@, "petal_length"@, "petal_width"@, "species"@]
}

/// A data row has one field per column and a label that is not empty.
pub open spec fn row_ok(row: Seq<Seq<char>>) -> bool {
    row.len() == COLUMN_COUNT && row[LABEL_COLUMN as int].len() > 0
}

/// The text of one row's fields.
pub open spec fn row_text(row: Seq<String>) -> Seq<Seq<char>> {
    Seq::new(row.len(), |j: int| row[j]@)
}

/// The text of all rows' fields.
pub open spec fn fields_of(rows: Seq<Vec<String>>) -> Seq<Seq<Seq<char>>> {
    Seq::new(rows.len(), |i: int| row_text(rows[i]@))
}

/// What the schema check says of a table whose first row is the header.
/// Exactly one verdict holds of each table: the header is judged first,
/// then the data rows in order, and of a row its width before its label.
/// Data rows are counted from zero.
pub open spec fn table_verdict(table: Seq<Seq<Seq<char>>>, verdict: Result<(), BenchError>) -> bool {
    match verdict {
        Ok(()) => {
            &&& table.len() > 0
            &&& table[0] == expected_header()
            &&& forall|i: int| 1 <= i < table.len() ==> row_ok(#[trigger] table[i])
        },
        Err(BenchError::Header) => table.len() == 0 || table[0] != expected_header(),
        Err(BenchError::RowWidth { row }) => {
            &&& row + 1 < table.len()
            &&& table[0] == expected_header()
            &&& forall|i: int| 1 <= i < row + 1 ==> row_ok(#[trigger] table[i])
            &&& table[row + 1].len() != COLUMN_COUNT
        },
        Err(BenchError::EmptyLabel { row }) => {
            &&& row + 1 < table.len()
            &&& table[0] == expected_header()
            &&& forall|i: int| 1 <= i < row + 1 ==> row_ok(#[trigger] table[i])
            &&& table[row + 1].len() == COLUMN_COUNT
            &&& table[row + 1][LABEL_COLUMN as int].len() == 0
        },
        Err(_) => false,
    }
}

/// What `csv::Reader::records` yields on `input`, read without a header
/// and with the reader's other settings left as they are: the fields of
/// every record as text, or `None` where the reader reports an error.
pub uninterp spec fn csv_records(input: Seq<u8>) -> Option<Seq<Seq<Seq<char>>>>;

/// `csv::Error`, which the reader reports and nothing here looks into.
#[verifier::external_type_specification]
#[verifier::external_body]
pub struct ExCsvError(csv::Error);

/// `csv::ReaderBuilder::from_reader` on a byte slice, with `has_headers`
/// off, and then `csv::Reader::records`, collected up to the first error.
/// The contract only gives the outcome its name.
#[verifier::external_body]
fn read_records(input: &[u8]) -> (r: Result<Vec<Vec<String>>, csv::Error>)
    ensures
        csv_records(input@) == match r {
            Ok(rows) => Some(fields_of(rows@)),
            Err(_) => None,
        },
{
    let mut reader = csv::ReaderBuilder::new().has_headers(false).from_reader(input);
    reader.records().map(|row| row.map(|fields| fields.iter().map(String::from).collect())).collect()
}

/// Whether a row is the expected header.
fn is_header(row: &Vec<String>) -> (yes: bool)
    ensures
        yes == (row_text(row@) == expected_header()),
{
    if row.len() != COLUMN_COUNT {
        assert(row_text(row@).len() != expected_header().len());
        return false;
    }
    let yes = row[0] == "sepal_length".to_owned() && row[1] == "sepal_width".to_owned() && row[2]
        == "petal_length".to_owned() && row[3] == "petal_width".to_owned() && row[4]
        == "species".to_owned();
    proof {
        let text = row_text(row@);
        let expected = expected_header();
        if yes {
            assert(text =~= expected);
        } else {
            assert(text[0] != expected[0] || text[1] != expected[1] || text[2] != expected[2]
                || text[3] != expected[3] || text[4] != expected[4]);
        }
    }
    yes
}

/// Holds a table to the schema: the header first, then each data row.
pub fn check_table(rows: &Vec<Vec<String>>) -> (r: Result<(), BenchError>)
    ensures
        table_verdict(fields_of(rows@), r),
{
    let n = rows.len();
    if n == 0 {
        return Err(BenchError::Header);
    }
    if !is_header(&rows[0]) {
        return Err(BenchError::Header);
    }
    let mut i: usize = 1;
    while i < n
        invariant
            n == rows@.len(),
            1 <= i <= n,
            fields_of(rows@)[0] == expected_header(),
            forall|k: int| 1 <= k < i ==> row_ok(#[trigger] fields_of(rows@)[k]),
        decreases n - i,
    {
        let row = &rows[i];
        if row.len() != COLUMN_COUNT {
            return Err(BenchError::RowWidth { row: i - 1 });
        }
        if row[LABEL_COLUMN].as_str().is_empty() {
            return Err(BenchError::EmptyLabel { row: i - 1 });
        }
        i = i + 1;
    }
    Ok(())
}

/// Reads delimited text into rows of fields and holds them to the schema.
/// Gives the data rows, without the header, in their order; text that
/// cannot be read into rows is `Malformed`.
pub fn parse_table(input: &[u8]) -> (r: Result<Vec<Vec<String>>, BenchError>)
    ensures
        match csv_records(input@) {
            None => r matches Err(BenchError::Malformed),
            Some(table) => match r {
                Ok(rows) => table_verdict(table, Ok(())) && fields_of(rows@) == table.skip(1),
                Err(e) => table_verdict(table, Err(e)),
            },
        },
{
    match read_records(input) {
        Ok(rows) => {
            match check_table(&rows) {
                Ok(()) => {
                    let mut data = rows;
                    let ghost before = data@;
                    data.remove(0);
                    assert(fields_of(data@) =~= fields_of(before).skip(1));
                    Ok(data)
                },
                Err(e) => Err(e),
            }
        },
        Err(_) => Err(BenchError::Malformed),
    }
}

} // verus!
