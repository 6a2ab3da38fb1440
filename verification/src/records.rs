//! Delimited text. The records of a source are read by the `csv` crate; this
//! module names what it reads.

use vstd::prelude::*;

verus! {

/// `csv::Error`, the error that the reader gives for a record.
#[verifier::external_type_specification]
#[verifier::external_body]
pub struct ExCsvError(csv::Error);

/// The records of the delimited text `source`, in the order in which they
/// stand there: the fields of each, or `None` for a record that the reader
/// reports as an error. With `has_headers`, the first record is a header and
/// is not among them.
pub uninterp spec fn csv_rows(source: Seq<u8>, delimiter: u8, has_headers: bool) -> Seq<
    Option<Seq<Seq<char>>>,
>;

/// The records as the contracts speak of them: the fields of each, or
/// `None` for a record that could not be read.
pub open spec fn row_views<E>(rows: Seq<Result<Vec<String>, E>>) -> Seq<Option<Seq<Seq<char>>>> {
    Seq::new(
        rows.len(),
        |i: int|
            match rows[i] {
                Ok(fields) => Some(fields.deep_view()),
                Err(_) => None,
            },
    )
}

/// A `csv::Reader` over `source`, built with `delimiter` and `has_headers`
/// and read to its end with `into_records`. Each record comes back as its
/// fields, copied into `String`s, or as the error that the reader gave for
/// it. The result depends on the three arguments alone.
#[verifier::external_body]
pub(crate) fn read_records(source: &[u8], delimiter: u8, has_headers: bool) -> (rows: Vec<
    Result<Vec<String>, csv::Error>,
>)
    ensures
        row_views(rows@) == csv_rows(source@, delimiter, has_headers),
{
    csv::ReaderBuilder::new()
        .delimiter(delimiter)
        .has_headers(has_headers)
        .from_reader(source)
        .into_records()
        .map(|row| row.map(|record| record.iter().map(String::from).collect()))
        .collect()
}

} // verus!
