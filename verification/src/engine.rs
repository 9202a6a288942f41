//! The statistics engine: the `csv_processor` crate behind a thin, named
//! boundary.

use csv_processor::reporter::generate_info_report;
use csv_processor::CellValue;
use csv_processor::DataFrame;
use csv_processor::JsonExportOrient;
use vstd::prelude::*;

verus! {

#[verifier::external_type_specification]
#[verifier::external_body]
pub struct ExDataFrame(DataFrame);

/// What `DataFrame::from_strings` makes of a text: the frame, or the text of
/// the error it reports.
pub uninterp spec fn parsed_frame(content: Seq<char>) -> Result<DataFrame, Seq<char>>;

/// What `DataFrame::shape` reports: the number of data rows, then the
/// number of columns.
pub uninterp spec fn frame_shape(frame: DataFrame) -> (nat, nat);

/// The number of cells that `ColumnArray::len` counts in a column, where
/// `DataFrame::get_column` finds the column.
pub uninterp spec fn column_len(frame: DataFrame, column: int) -> Option<nat>;

/// The integer that `ColumnArray::get` finds at a row of a column, where the
/// column exists and the cell holds an integer.
pub uninterp spec fn integer_cell(frame: DataFrame, column: int, row: int) -> Option<i64>;

/// The header names that `DataFrame::headers` hands out, in order.
pub uninterp spec fn frame_headers(frame: DataFrame) -> Seq<Seq<char>>;

/// The frame of per-column statistics that `generate_info_report` builds.
pub uninterp spec fn info_report(frame: DataFrame) -> DataFrame;

/// What `DataFrame::to_json` gives for the records orientation: the JSON
/// text, or the text of the error it reports.
pub uninterp spec fn records_json(frame: DataFrame) -> Result<Seq<char>, Seq<char>>;

/// Calls `DataFrame::from_strings`, which reads the first line as the header
/// and infers a type for each column. The outcome depends on the text alone;
/// an error is handed out as its display text.
#[verifier::external_body]
fn frame_from_strings(content: &str) -> (parsed: Result<DataFrame, String>)
    ensures
        match parsed {
            Ok(frame) => parsed_frame(content@) == Ok::<DataFrame, Seq<char>>(frame),
            Err(text) => parsed_frame(content@) == Err::<DataFrame, Seq<char>>(text@),
        },
{
    DataFrame::from_strings(content).map_err(|e| e.to_string())
}

/// Calls `DataFrame::shape`, which gives the length of the first column
/// (zero where the frame has no column) and the number of columns.
#[verifier::external_body]
fn frame_dimensions(frame: &DataFrame) -> (shape: (usize, usize))
    ensures
        shape.0 == frame_shape(*frame).0,
        shape.1 == frame_shape(*frame).1,
{
    frame.shape()
}

/// Calls `DataFrame::get_column` and `ColumnArray::len`, and hands out the
/// column's own number of cells where the column exists.
#[verifier::external_body]
fn frame_column_len(frame: &DataFrame, column: usize) -> (len: Option<usize>)
    ensures
        match len {
            Some(cells) => column_len(*frame, column as int) == Some(cells as nat),
            None => column_len(*frame, column as int).is_none(),
        },
{
    frame.get_column(column).map(|cells| cells.len())
}

/// Calls `DataFrame::get_column` and `ColumnArray::get`, and hands out the
/// cell's integer where both find something and the cell is an integer.
#[verifier::external_body]
fn frame_integer_cell(frame: &DataFrame, column: usize, row: usize) -> (cell: Option<i64>)
    ensures
        cell == integer_cell(*frame, column as int, row as int),
{
    match frame.get_column(column).and_then(|cells| cells.get(row)) {
        Some(CellValue::Integer(value)) => Some(value),
        _ => None,
    }
}

/// Calls `DataFrame::headers` and copies the names out, in order.
#[verifier::external_body]
fn frame_header_names(frame: &DataFrame) -> (names: Vec<String>)
    ensures
        names.deep_view() == frame_headers(*frame),
{
    frame.headers().to_vec()
}

/// Calls `generate_info_report`, which builds a frame with one row of
/// statistics for each column of the given frame, under seven headers and
/// in seven columns. It totals each integer column in 64 bits, over all of
/// that column's cells from the top, and does not survive a total that
/// leaves that range: such frames are kept away from it.
#[verifier::external_body]
fn frame_info_report(frame: &DataFrame) -> (report: DataFrame)
    requires
        totals_fit(*frame),
    ensures
        report == info_report(*frame),
        frame_shape(report).1 == 7,
        frame_headers(report).len() == 7,
{
    generate_info_report(frame)
}

/// Calls `DataFrame::to_json` with `JsonExportOrient::Records`, which writes
/// the frame as a JSON array with one object per row, keyed by the header
/// of each column: so the frame must have a header for every column. An
/// error is handed out as its display text.
#[verifier::external_body]
fn frame_to_records_json(frame: &DataFrame) -> (json: Result<String, String>)
    requires
        frame_shape(*frame).1 <= frame_headers(*frame).len(),
    ensures
        match json {
            Ok(text) => records_json(*frame) == Ok::<Seq<char>, Seq<char>>(text@),
            Err(text) => records_json(*frame) == Err::<Seq<char>, Seq<char>>(text@),
        },
{
    frame.to_json(JsonExportOrient::Records).map_err(|e| e.to_string())
}

/// The total of the integer cells in the first `rows` rows of a column.
pub open spec fn column_total(frame: DataFrame, column: int, rows: int) -> int
    decreases rows,
{
    if rows <= 0 {
        0
    } else {
        column_total(frame, column, rows - 1) + match integer_cell(frame, column, rows - 1) {
            Some(value) => value as int,
            None => 0,
        }
    }
}

/// Every running total of a column over its first `rows` rows fits in 64
/// bits.
pub open spec fn column_totals_fit(frame: DataFrame, column: int, rows: int) -> bool {
    forall|k: int|
        0 <= k <= rows ==> i64::MIN <= #[trigger] column_total(frame, column, k) <= i64::MAX
}

/// Every running total of a column over all of its own cells fits in 64
/// bits. A column that the frame does not have has nothing to total.
pub open spec fn whole_column_fits(frame: DataFrame, column: int) -> bool {
    match column_len(frame, column) {
        Some(cells) => column_totals_fit(frame, column, cells as int),
        None => true,
    }
}

/// Every running total of every column of the frame fits in 64 bits, each
/// column taken over its own length.
pub open spec fn totals_fit(frame: DataFrame) -> bool {
    forall|column: int|
        0 <= column < frame_shape(frame).1 ==> #[trigger] whole_column_fits(frame, column)
}

/// Adds up the integer cells of one column from the top and tells whether
/// every running total fits in 64 bits.
fn check_column_totals(frame: &DataFrame, column: usize, rows: usize) -> (fit: bool)
    ensures
        fit == column_totals_fit(*frame, column as int, rows as int),
{
    let mut total: i64 = 0;
    let mut row: usize = 0;
    while row < rows
        invariant
            row <= rows,
            total == column_total(*frame, column as int, row as int),
            column_totals_fit(*frame, column as int, row as int),
        decreases rows - row,
    {
        let cell = frame_integer_cell(frame, column, row);
        assert(column_total(*frame, column as int, row + 1) == total + match cell {
            Some(value) => value as int,
            None => 0,
        });
        match cell {
            Some(value) => {
                let next: i128 = total as i128 + value as i128;
                if next < i64::MIN as i128 || next > i64::MAX as i128 {
                    return false;
                }
                total = next as i64;
            },
            None => {},
        }
        row += 1;
        assert forall|k: int| 0 <= k <= row implies i64::MIN <= #[trigger] column_total(
            *frame,
            column as int,
            k,
        ) <= i64::MAX by {
            if k < row {
                assert(0 <= k <= row - 1);
            }
        }
    }
    true
}

/// Tells whether every running total of every column fits in 64 bits, each
/// column taken over its own length.
fn check_totals(frame: &DataFrame) -> (fit: bool)
    ensures
        fit == totals_fit(*frame),
{
    let (_, columns) = frame_dimensions(frame);
    let mut column: usize = 0;
    while column < columns
        invariant
            column <= columns,
            columns == frame_shape(*frame).1,
            forall|c: int| 0 <= c < column ==> #[trigger] whole_column_fits(*frame, c),
        decreases columns - column,
    {
        let fits = match frame_column_len(frame, column) {
            Some(cells) => check_column_totals(frame, column, cells),
            None => true,
        };
        assert(fits == whole_column_fits(*frame, column as int));
        if !fits {
            return false;
        }
        column += 1;
    }
    true
}

/// What the engine computes from a text: the statistics report as JSON, the
/// number of data rows and the header names.
pub struct EngineReport {
    pub report: Seq<char>,
    pub rows_count: nat,
    pub column_names: Seq<Seq<char>>,
}

/// The engine's answer for a text: its report, or the text of its refusal.
/// A text with an integer column whose running total leaves 64 bits is
/// refused before any statistics are computed.
pub open spec fn csv_report(content: Seq<char>) -> Result<EngineReport, Seq<char>> {
    match parsed_frame(content) {
        Err(text) => Err(text),
        Ok(frame) => if !totals_fit(frame) {
            Err("CSV error: integer column total out of range"@)
        } else {
            match records_json(info_report(frame)) {
                Err(text) => Err(text),
                Ok(json) => Ok(
                    EngineReport {
                        report: json,
                        rows_count: frame_shape(frame).0,
                        column_names: frame_headers(frame),
                    },
                ),
            }
        },
    }
}

/// Runs the engine on a text. On success the result holds the statistics
/// report as JSON, the number of data rows, the number of header names and
/// the header names in source order; on failure the engine's message.
pub fn generate_csv_report(raw_csv: &str) -> (out: Result<
    (String, usize, usize, Vec<String>),
    String,
>)
    ensures
        match csv_report(raw_csv@) {
            Ok(expected) => out matches Ok(got) && got.0@ == expected.report && got.1
                == expected.rows_count && got.2 == expected.column_names.len()
                && got.3.deep_view() == expected.column_names,
            Err(text) => out matches Err(got) && got@ == text,
        },
{
    let frame = match frame_from_strings(raw_csv) {
        Ok(frame) => frame,
        Err(text) => {
            return Err(text);
        },
    };
    if !check_totals(&frame) {
        return Err("CSV error: integer column total out of range".to_owned());
    }
    let (rows_count, _) = frame_dimensions(&frame);
    let column_names = frame_header_names(&frame);
    let report = frame_info_report(&frame);
    match frame_to_records_json(&report) {
        Ok(json) => {
            let columns_count = column_names.len();
            Ok((json, rows_count, columns_count, column_names))
        },
        Err(text) => Err(text),
    }
}

} // verus!
