//! What is written to and read from the two tables, as plain values. The
//! queries themselves belong to the caller.

use crate::models::ColumnInfo;
use crate::models::CsvAnalyzeResponse;
use vstd::prelude::*;

verus! {

/// The row that the joined lookup by identifier yields: the file's metadata,
/// and the analysis columns where an analysis row exists.
#[derive(Clone, Debug, PartialEq, Eq)]
pub struct AnalysisRow {
    pub filename: String,
    pub upload_time: String,
    pub uid: String,
    pub rows_count: Option<i64>,
    pub columns_count: Option<i64>,
    pub column_names: Option<String>,
    pub columns_info: Option<String>,
}

/// A stored analysis whose two JSON texts still await decoding.
#[derive(Clone, Debug, PartialEq, Eq)]
pub struct CachedAnalysis {
    pub filename: String,
    pub upload_datetime: String,
    pub uid: String,
    pub rows_count: usize,
    pub columns_count: usize,
    pub column_names: String,
    pub columns_info: String,
}

/// The values of a new analysis row, but for the statistics text.
#[derive(Clone, Debug, PartialEq, Eq)]
pub struct AnalysisInsert {
    pub file_id: i64,
    pub rows_count: i64,
    pub columns_count: i64,
    pub column_names: String,
}

/// The JSON text that `serde_json::to_string` writes for a list of strings,
/// or the text of its error.
pub uninterp spec fn names_to_json(names: Seq<Seq<char>>) -> Result<Seq<char>, Seq<char>>;

/// The list of strings that `serde_json::from_str` reads from a JSON text, or
/// the text of its error.
pub uninterp spec fn names_from_json(json: Seq<char>) -> Result<Seq<Seq<char>>, Seq<char>>;

/// Calls `serde_json::to_string` on a list of strings. The outcome depends on
/// the list alone; an error is handed out as its display text.
#[verifier::external_body]
fn encode_names(names: &Vec<String>) -> (json: Result<String, String>)
    ensures
        match json {
            Ok(text) => names_to_json(names.deep_view()) == Ok::<Seq<char>, Seq<char>>(text@),
            Err(text) => names_to_json(names.deep_view()) == Err::<Seq<char>, Seq<char>>(text@),
        },
{
    serde_json::to_string(names).map_err(|e| e.to_string())
}

/// Calls `serde_json::from_str` for a list of strings. The outcome depends on
/// the text alone; an error is handed out as its display text.
#[verifier::external_body]
fn decode_names(json: &str) -> (names: Result<Vec<String>, String>)
    ensures
        match names {
            Ok(list) => names_from_json(json@) == Ok::<Seq<Seq<char>>, Seq<char>>(
                list.deep_view(),
            ),
            Err(text) => names_from_json(json@) == Err::<Seq<Seq<char>>, Seq<char>>(text@),
        },
{
    serde_json::from_str::<Vec<String>>(json).map_err(|e| e.to_string())
}

impl AnalysisRow {
    /// The row carries a complete analysis: both counts are present and can
    /// be counts (not negative, within the machine's range), and both JSON
    /// texts are present and not empty.
    pub open spec fn is_hit(&self) -> bool {
        &&& self.rows_count matches Some(rows) && 0 <= rows <= usize::MAX
        &&& self.columns_count matches Some(columns) && 0 <= columns <= usize::MAX
        &&& self.column_names matches Some(names) && names@.len() > 0
        &&& self.columns_info matches Some(info) && info@.len() > 0
    }
}

/// Reads the outcome of the joined lookup. A missing row, a row without
/// analysis columns, a row whose counts cannot be counts, and a row whose
/// JSON texts are missing or empty all count as "not analysed yet"; any
/// other row is handed on with its counts and texts unchanged.
pub fn get_csv_analysis_by_uid(row: Option<AnalysisRow>) -> (found: Option<CachedAnalysis>)
    ensures
        match row {
            Some(row) if row.is_hit() => found == Some(
                CachedAnalysis {
                    filename: row.filename,
                    upload_datetime: row.upload_time,
                    uid: row.uid,
                    rows_count: row.rows_count.unwrap() as usize,
                    columns_count: row.columns_count.unwrap() as usize,
                    column_names: row.column_names.unwrap(),
                    columns_info: row.columns_info.unwrap(),
                },
            ),
            _ => found.is_none(),
        },
{
    let row = match row {
        Some(row) => row,
        None => {
            return None;
        },
    };
    let AnalysisRow {
        filename,
        upload_time,
        uid,
        rows_count,
        columns_count,
        column_names,
        columns_info,
    } = row;
    match (rows_count, columns_count, column_names, columns_info) {
        (Some(rows), Some(columns), Some(names), Some(info)) => {
            if rows < 0 || columns < 0 || rows as u64 > usize::MAX as u64 || columns as u64
                > usize::MAX as u64 {
                return None;
            }
            if names.as_str().is_empty() || info.as_str().is_empty() {
                return None;
            }
            Some(
                CachedAnalysis {
                    filename,
                    upload_datetime: upload_time,
                    uid,
                    rows_count: rows as usize,
                    columns_count: columns as usize,
                    column_names: names,
                    columns_info: info,
                },
            )
        },
        _ => None,
    }
}

/// Whether a decoded name list is the one that the JSON text stands for.
pub open spec fn names_decoded(json: Seq<char>, names: Result<Vec<String>, String>) -> bool {
    match names {
        Ok(list) => names_from_json(json) == Ok::<Seq<Seq<char>>, Seq<char>>(list.deep_view()),
        Err(text) => names_from_json(json) == Err::<Seq<Seq<char>>, Seq<char>>(text@),
    }
}

/// Decodes the name list of a stored analysis.
pub fn decode_column_names(json: &String) -> (names: Result<Vec<String>, String>)
    ensures
        names_decoded(json@, names),
{
    decode_names(json.as_str())
}

/// Puts a stored analysis together from its decoded parts. A name list that
/// failed to decode is reported first, then a statistics list that failed;
/// otherwise the response carries the stored metadata and counts with the
/// two decoded lists.
pub fn assemble_cached(
    cached: CachedAnalysis,
    names: Result<Vec<String>, String>,
    info: Result<Vec<ColumnInfo>, String>,
) -> (out: Result<CsvAnalyzeResponse, String>)
    ensures
        out == match (names, info) {
            (Err(text), _) => Err::<CsvAnalyzeResponse, String>(text),
            (Ok(_), Err(text)) => Err(text),
            (Ok(names), Ok(info)) => Ok(
                CsvAnalyzeResponse {
                    filename: cached.filename,
                    upload_datetime: cached.upload_datetime,
                    uid: cached.uid,
                    rows_count: cached.rows_count,
                    columns_count: cached.columns_count,
                    column_names: names,
                    columns_info: info,
                },
            ),
        },
{
    let names = match names {
        Ok(names) => names,
        Err(text) => {
            return Err(text);
        },
    };
    let info = match info {
        Ok(info) => info,
        Err(text) => {
            return Err(text);
        },
    };
    Ok(
        CsvAnalyzeResponse {
            filename: cached.filename,
            upload_datetime: cached.upload_datetime,
            uid: cached.uid,
            rows_count: cached.rows_count,
            columns_count: cached.columns_count,
            column_names: names,
            columns_info: info,
        },
    )
}

/// Both counts can be written to a 64-bit signed column.
pub open spec fn counts_fit(rows_count: usize, columns_count: usize) -> bool {
    rows_count <= i64::MAX && columns_count <= i64::MAX
}

/// Builds the analysis row for a file from its counts and the JSON text of
/// its column names. The row holds the counts as they are.
pub fn analysis_insert(
    file_id: i64,
    rows_count: usize,
    columns_count: usize,
    column_names_json: String,
) -> (row: AnalysisInsert)
    requires
        counts_fit(rows_count, columns_count),
    ensures
        row.file_id == file_id,
        row.rows_count == rows_count,
        row.columns_count == columns_count,
        row.column_names == column_names_json,
{
    AnalysisInsert {
        file_id,
        rows_count: rows_count as i64,
        columns_count: columns_count as i64,
        column_names: column_names_json,
    }
}

/// Tells whether two name lists read the same, name by name.
fn same_names(a: &Vec<String>, b: &Vec<String>) -> (same: bool)
    ensures
        same == (a.deep_view() == b.deep_view()),
{
    let ghost left = a.deep_view();
    let ghost right = b.deep_view();
    assert(left.len() == a@.len() && right.len() == b@.len());
    if a.len() != b.len() {
        return false;
    }
    let mut i: usize = 0;
    while i < a.len()
        invariant
            left == a.deep_view(),
            right == b.deep_view(),
            a@.len() == b@.len(),
            i <= a@.len(),
            forall|j: int| 0 <= j < i ==> left[j] == right[j],
        decreases a@.len() - i,
    {
        assert(left[i as int] == a@[i as int]@ && right[i as int] == b@[i as int]@);
        if a[i] != b[i] {
            return false;
        }
        i += 1;
    }
    assert(left =~= right);
    true
}

/// The JSON text of a name list reads back: it is not empty and decodes to
/// the list it was made from.
pub open spec fn names_read_back(json: Seq<char>, names: Seq<Seq<char>>) -> bool {
    json.len() > 0 && names_from_json(json) == Ok::<Seq<Seq<char>>, Seq<char>>(names)
}

/// Whether `made` is the row that stands for the given analysis values: the
/// counts as they are and the names as their JSON text. Counts that a 64-bit
/// signed column cannot hold are refused; so is a name list that the encoder
/// refuses, and one whose text does not read back.
pub open spec fn insert_made(
    file_id: i64,
    rows_count: usize,
    columns_count: usize,
    column_names: Seq<Seq<char>>,
    made: Result<AnalysisInsert, String>,
) -> bool {
    if !counts_fit(rows_count, columns_count) {
        made matches Err(got) && got@ == "count out of range"@
    } else {
        match names_to_json(column_names) {
            Ok(json) => if names_read_back(json, column_names) {
                made matches Ok(row) && row.file_id == file_id && row.rows_count == rows_count
                    && row.columns_count == columns_count && row.column_names@ == json
            } else {
                made matches Err(got) && got@ == "column names do not read back"@
            },
            Err(text) => made matches Err(got) && got@ == text,
        }
    }
}

/// Prepares the analysis row for a file, with the column names encoded as
/// JSON and read back once to make sure that a later lookup finds the same
/// names. The row is append-only: nothing here looks for an earlier row of
/// the same file.
pub fn add_csv_info_to_db(
    file_id: i64,
    rows_count: usize,
    columns_count: usize,
    column_names: &Vec<String>,
) -> (made: Result<AnalysisInsert, String>)
    ensures
        insert_made(file_id, rows_count, columns_count, column_names.deep_view(), made),
{
    if rows_count as u64 > i64::MAX as u64 || columns_count as u64 > i64::MAX as u64 {
        return Err("count out of range".to_owned());
    }
    let json = match encode_names(column_names) {
        Ok(json) => json,
        Err(text) => {
            return Err(text);
        },
    };
    let reads_back = !json.as_str().is_empty() && match decode_names(json.as_str()) {
        Ok(back) => same_names(&back, column_names),
        Err(_) => false,
    };
    if reads_back {
        Ok(analysis_insert(file_id, rows_count, columns_count, json))
    } else {
        Err("column names do not read back".to_owned())
    }
}

} // verus!
