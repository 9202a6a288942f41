//! The request flows. Each flow is a state that names the outside work to do
//! next; the caller does that work and reports its outcome as an event.

use crate::db::add_csv_info_to_db;
use crate::db::assemble_cached;
use crate::db::decode_column_names;
use crate::db::get_csv_analysis_by_uid;
use crate::db::insert_made;
use crate::models::columns_agree;
use crate::db::names_from_json;
use crate::db::AnalysisInsert;
use crate::db::AnalysisRow;
use crate::db::CachedAnalysis;
use crate::engine::csv_report;
use crate::engine::generate_csv_report;
use crate::models::AnalyzeError;
use crate::models::ColumnInfo;
use crate::models::CsvAnalyzeResponse;
use crate::models::CsvModel;
use crate::models::CsvUploadResponse;
use crate::models::FileRecord;
use vstd::prelude::*;

verus! {

/// An analysis whose statistics report is still JSON text.
#[derive(Clone, Debug, PartialEq, Eq)]
pub struct PendingAnalysis {
    /// The file's key, or nothing while the file is not stored yet.
    pub file_id: Option<i64>,
    pub filename: String,
    pub uid: String,
    pub upload_datetime: String,
    pub content: String,
    pub report: String,
    pub rows_count: usize,
    pub columns_count: usize,
    pub column_names: Vec<String>,
}

/// Where a request stands, named by the outside work that comes next.
#[derive(Debug, PartialEq, Eq)]
pub enum AnalysisState {
    /// Run the joined lookup for the identifier.
    Lookup { uid: String },
    /// Decode the stored statistics text.
    DecodeCached { cached: CachedAnalysis },
    /// Load the file registered under the identifier.
    LoadFile { uid: String },
    /// Decode the engine's statistics report.
    DecodeReport { pending: PendingAnalysis },
    /// Store the uploaded file: the response's name, identifier and upload
    /// time with the given content.
    StoreFile { content: String, response: CsvAnalyzeResponse },
    /// Store the analysis row, with the statistics of the response as text.
    StoreAnalysis { insert: AnalysisInsert, response: CsvAnalyzeResponse },
    /// Nothing is left to do.
    Done(Result<CsvAnalyzeResponse, AnalyzeError>),
}

/// The outcome of one piece of outside work.
#[derive(Debug, PartialEq, Eq)]
pub enum Event {
    /// The joined lookup ran.
    Row(Result<Option<AnalysisRow>, String>),
    /// A statistics text was decoded.
    Columns(Result<Vec<ColumnInfo>, String>),
    /// The file was looked for: found, not registered, or the query failed.
    File(Result<Option<FileRecord>, String>),
    /// The uploaded file was stored under the given key.
    FileStored(Result<i64, String>),
    /// The analysis row was stored.
    AnalysisStored(Result<(), String>),
}

/// A file that was received and stamped but not stored yet.
#[derive(Clone, Debug, PartialEq, Eq)]
pub struct PendingUpload {
    pub filename: String,
    pub uid: String,
    pub content: String,
    pub upload_datetime: String,
}

/// Calls `Uuid::new_v4` and writes the identifier out as text. Each call
/// draws fresh random bits, so only the length of the hyphenated form is
/// claimed: 36 characters.
#[verifier::external_body]
fn fresh_uid() -> (uid: String)
    ensures
        uid@.len() == 36,
{
    uuid::Uuid::new_v4().to_string()
}

/// Calls `Utc::now` and writes the instant out as text. The text follows the
/// clock, so nothing is claimed of it.
#[verifier::external_body]
fn current_time_text() -> (now: String) {
    chrono::Utc::now().to_string()
}

/// The fixed description that the listing endpoint answers with.
pub fn csv_get_handler() -> (model: CsvModel)
    ensures
        model.filename@ == "test.csv"@,
        model.size == 100,
        model.upload_datetime.is_none(),
        model.uid.is_none(),
{
    CsvModel { filename: "test.csv".to_owned(), size: 100, upload_datetime: None, uid: None }
}

/// Stamps a description with an identifier and an upload time, whatever it
/// held there before.
pub fn stamp_model(model: CsvModel, uid: String, upload_datetime: String) -> (stamped: CsvModel)
    ensures
        stamped == (CsvModel {
            filename: model.filename,
            size: model.size,
            upload_datetime: Some(upload_datetime),
            uid: Some(uid),
        }),
{
    let mut stamped = model;
    stamped.uid = Some(uid);
    stamped.upload_datetime = Some(upload_datetime);
    stamped
}

/// Stamps a description sent as a JSON body with a fresh identifier and the
/// current time.
pub fn csv_post_handler_with_json(model: CsvModel) -> (stamped: CsvModel)
    ensures
        stamped.filename == model.filename,
        stamped.size == model.size,
        stamped.uid matches Some(uid) && uid@.len() == 36,
        stamped.upload_datetime.is_some(),
{
    let uid = fresh_uid();
    let now = current_time_text();
    stamp_model(model, uid, now)
}

/// Stamps a description sent as query parameters with a fresh identifier and
/// the current time.
pub fn csv_post_handler_with_query(model: CsvModel) -> (stamped: CsvModel)
    ensures
        stamped.filename == model.filename,
        stamped.size == model.size,
        stamped.uid matches Some(uid) && uid@.len() == 36,
        stamped.upload_datetime.is_some(),
{
    let uid = fresh_uid();
    let now = current_time_text();
    stamp_model(model, uid, now)
}

/// Takes the file name out of the first field of an upload. The outer option
/// is the field, the inner one its file name; a request without either is
/// the client's mistake.
pub fn upload_filename(field: Option<Option<String>>) -> (name: Result<String, AnalyzeError>)
    ensures
        match field {
            None => name matches Err(AnalyzeError::Input(text)) && text@ == "No file uploaded"@,
            Some(None) => name matches Err(AnalyzeError::Input(text)) && text@
                == "Filename not found"@,
            Some(Some(filename)) => name == Ok::<String, AnalyzeError>(filename),
        },
{
    match field {
        None => Err(AnalyzeError::Input("No file uploaded".to_owned())),
        Some(None) => Err(AnalyzeError::Input("Filename not found".to_owned())),
        Some(Some(filename)) => Ok(filename),
    }
}

/// Stamps a received file with a fresh identifier and the current time. The
/// result is what the caller stores.
pub fn upload_csv_handler(filename: String, raw_csv: String) -> (upload: PendingUpload)
    ensures
        upload.filename == filename,
        upload.content == raw_csv,
        upload.uid@.len() == 36,
{
    let uid = fresh_uid();
    let upload_datetime = current_time_text();
    PendingUpload { filename, uid, content: raw_csv, upload_datetime }
}

/// Closes an upload once the file was stored, or failed to be.
pub fn finish_upload(upload: PendingUpload, stored: Result<i64, String>) -> (out: Result<
    CsvUploadResponse,
    AnalyzeError,
>)
    ensures
        out == match stored {
            Ok(_) => Ok::<CsvUploadResponse, AnalyzeError>(
                CsvUploadResponse {
                    uid: upload.uid,
                    filename: upload.filename,
                    upload_datetime: upload.upload_datetime,
                },
            ),
            Err(text) => Err(AnalyzeError::Storage(text)),
        },
{
    match stored {
        Ok(_) => Ok(
            CsvUploadResponse {
                uid: upload.uid,
                filename: upload.filename,
                upload_datetime: upload.upload_datetime,
            },
        ),
        Err(text) => Err(AnalyzeError::Storage(text)),
    }
}

/// The state after the engine ran on a file's content. A refusal of the
/// engine ends the request as the client's mistake; a report waits for its
/// statistics to be decoded.
pub open spec fn engine_state(
    file_id: Option<i64>,
    filename: String,
    uid: String,
    upload_datetime: String,
    content: String,
    report: Result<(String, usize, usize, Vec<String>), String>,
) -> AnalysisState {
    match report {
        Err(text) => AnalysisState::Done(Err(AnalyzeError::Input(text))),
        Ok(parts) => AnalysisState::DecodeReport {
            pending: PendingAnalysis {
                file_id,
                filename,
                uid,
                upload_datetime,
                content,
                report: parts.0,
                rows_count: parts.1,
                columns_count: parts.2,
                column_names: parts.3,
            },
        },
    }
}

/// Moves a request on once the engine has answered.
pub fn after_engine(
    file_id: Option<i64>,
    filename: String,
    uid: String,
    upload_datetime: String,
    content: String,
    report: Result<(String, usize, usize, Vec<String>), String>,
) -> (next: AnalysisState)
    ensures
        next == engine_state(file_id, filename, uid, upload_datetime, content, report),
{
    match report {
        Err(text) => AnalysisState::Done(Err(AnalyzeError::Input(text))),
        Ok(parts) => {
            let (report, rows_count, columns_count, column_names) = parts;
            AnalysisState::DecodeReport {
                pending: PendingAnalysis {
                    file_id,
                    filename,
                    uid,
                    upload_datetime,
                    content,
                    report,
                    rows_count,
                    columns_count,
                    column_names,
                },
            }
        },
    }
}

/// Whether `next` is the state that follows the engine's run on `content`.
pub open spec fn engine_ran(
    file_id: Option<i64>,
    filename: String,
    uid: String,
    upload_datetime: String,
    content: String,
    next: AnalysisState,
) -> bool {
    match csv_report(content@) {
        Err(text) => next matches AnalysisState::Done(Err(AnalyzeError::Input(got))) && got@
            == text,
        Ok(expected) => next matches AnalysisState::DecodeReport { pending }
            && pending.file_id == file_id && pending.filename == filename && pending.uid == uid
            && pending.upload_datetime == upload_datetime && pending.content == content
            && pending.report@ == expected.report && pending.rows_count == expected.rows_count
            && pending.columns_count == expected.column_names.len()
            && pending.column_names.deep_view() == expected.column_names,
    }
}

/// Runs the engine on a file's content and moves the request on.
pub fn run_engine(
    file_id: Option<i64>,
    filename: String,
    uid: String,
    upload_datetime: String,
    content: String,
) -> (next: AnalysisState)
    ensures
        engine_ran(file_id, filename, uid, upload_datetime, content, next),
{
    let report = generate_csv_report(content.as_str());
    after_engine(file_id, filename, uid, upload_datetime, content, report)
}

/// Opens the request that analyses the file registered under `uid`.
pub fn analyze_csv_by_uid_handler(uid: String) -> (state: AnalysisState)
    ensures
        state == (AnalysisState::Lookup { uid }),
{
    AnalysisState::Lookup { uid }
}

/// Opens the request that stores and analyses a file in one go, with the
/// identifier and upload time that the file is to carry.
pub fn begin_upload_analysis(
    filename: String,
    raw_csv: String,
    uid: String,
    upload_datetime: String,
) -> (state: AnalysisState)
    ensures
        engine_ran(None, filename, uid, upload_datetime, raw_csv, state),
{
    run_engine(None, filename, uid, upload_datetime, raw_csv)
}

/// Opens the request that stores and analyses a file in one go, under a
/// fresh identifier and the current time.
pub fn analyze_csv_handler(filename: String, raw_csv: String) -> (state: AnalysisState)
    ensures
        exists|uid: String, upload_datetime: String|
            uid@.len() == 36 && engine_ran(None, filename, uid, upload_datetime, raw_csv, state),
{
    let uid = fresh_uid();
    let upload_datetime = current_time_text();
    let state = begin_upload_analysis(filename, raw_csv, uid, upload_datetime);
    assert(uid@.len() == 36 && engine_ran(None, filename, uid, upload_datetime, raw_csv, state));
    state
}

/// The state after the joined lookup: a failed query ends the request, a
/// complete stored analysis goes on to decoding, and everything else is a
/// miss that goes on to loading the file.
pub open spec fn lookup_state(uid: String, row: Result<Option<AnalysisRow>, String>)
    -> AnalysisState {
    match row {
        Err(text) => AnalysisState::Done(Err(AnalyzeError::Storage(text))),
        Ok(Some(row)) if row.is_hit() => AnalysisState::DecodeCached {
            cached: CachedAnalysis {
                filename: row.filename,
                upload_datetime: row.upload_time,
                uid: row.uid,
                rows_count: row.rows_count.unwrap() as usize,
                columns_count: row.columns_count.unwrap() as usize,
                column_names: row.column_names.unwrap(),
                columns_info: row.columns_info.unwrap(),
            },
        },
        Ok(_) => AnalysisState::LoadFile { uid },
    }
}

/// Whether `next` closes a cache hit. A name list or a statistics list that
/// does not decode is a storage failure, the name list first; so is a stored
/// analysis whose names, count and statistics do not describe the same
/// columns. Otherwise the request ends with the stored analysis.
pub open spec fn cached_closed(
    cached: CachedAnalysis,
    info: Result<Vec<ColumnInfo>, String>,
    next: AnalysisState,
) -> bool {
    match names_from_json(cached.column_names@) {
        Err(text) => next matches AnalysisState::Done(Err(AnalyzeError::Storage(got))) && got@
            == text,
        Ok(names) => match info {
            Err(text) => next == AnalysisState::Done(Err(AnalyzeError::Storage(text))),
            Ok(info) => if columns_agree(names, cached.columns_count, info@) {
                next matches AnalysisState::Done(Ok(response)) && response.filename
                    == cached.filename && response.upload_datetime == cached.upload_datetime
                    && response.uid == cached.uid && response.rows_count == cached.rows_count
                    && response.columns_count == cached.columns_count
                    && response.column_names.deep_view() == names && response.columns_info
                    == info
            } else {
                next matches AnalysisState::Done(Err(AnalyzeError::Storage(got))) && got@
                    == "stored analysis does not match its columns"@
            },
        },
    }
}

/// Whether `next` is the state that follows once the file's key is known:
/// the analysis row is ready to be stored beside the response that a
/// successful insert releases, or the row could not be made.
pub open spec fn save_prepared(file_id: i64, response: CsvAnalyzeResponse, next: AnalysisState)
    -> bool {
    match next {
        AnalysisState::StoreAnalysis { insert, response: kept } => insert_made(
            file_id,
            response.rows_count,
            response.columns_count,
            response.column_names.deep_view(),
            Ok(insert),
        ) && kept == response,
        AnalysisState::Done(Err(AnalyzeError::Storage(text))) => insert_made(
            file_id,
            response.rows_count,
            response.columns_count,
            response.column_names.deep_view(),
            Err(text),
        ),
        _ => false,
    }
}

/// Readies the analysis row for a stored file.
pub fn prepare_save(file_id: i64, response: CsvAnalyzeResponse) -> (next: AnalysisState)
    ensures
        save_prepared(file_id, response, next),
{
    match add_csv_info_to_db(
        file_id,
        response.rows_count,
        response.columns_count,
        &response.column_names,
    ) {
        Err(text) => AnalysisState::Done(Err(AnalyzeError::Storage(text))),
        Ok(insert) => AnalysisState::StoreAnalysis { insert, response },
    }
}

/// The response that a report and its decoded statistics make.
pub open spec fn report_response(pending: PendingAnalysis, columns_info: Vec<ColumnInfo>)
    -> CsvAnalyzeResponse {
    CsvAnalyzeResponse {
        filename: pending.filename,
        upload_datetime: pending.upload_datetime,
        uid: pending.uid,
        rows_count: pending.rows_count,
        columns_count: pending.columns_count,
        column_names: pending.column_names,
        columns_info,
    }
}

/// Whether `next` is the state that follows once the engine's statistics
/// are decoded. Statistics that do not describe the reported columns, name
/// by name, end the request as the client's mistake before anything is
/// stored. Otherwise a file that is stored already goes on to its analysis
/// row, and an uploaded file goes on to be stored.
pub open spec fn report_decoded(
    pending: PendingAnalysis,
    columns_info: Vec<ColumnInfo>,
    next: AnalysisState,
) -> bool {
    let response = report_response(pending, columns_info);
    if !response.well_formed() {
        next matches AnalysisState::Done(Err(AnalyzeError::Input(got))) && got@
            == "CSV report does not match the header"@
    } else {
        match pending.file_id {
            Some(file_id) => save_prepared(file_id, response, next),
            None => next == (AnalysisState::StoreFile { content: pending.content, response }),
        }
    }
}

/// Moves a request on once the engine's statistics are decoded.
pub fn after_report_decoded(pending: PendingAnalysis, columns_info: Vec<ColumnInfo>) -> (next:
    AnalysisState)
    ensures
        report_decoded(pending, columns_info, next),
{
    let file_id = pending.file_id;
    let content = pending.content;
    let response = CsvAnalyzeResponse {
        filename: pending.filename,
        upload_datetime: pending.upload_datetime,
        uid: pending.uid,
        rows_count: pending.rows_count,
        columns_count: pending.columns_count,
        column_names: pending.column_names,
        columns_info,
    };
    if !response.is_well_formed() {
        return AnalysisState::Done(
            Err(AnalyzeError::Input("CSV report does not match the header".to_owned())),
        );
    }
    match file_id {
        Some(file_id) => prepare_save(file_id, response),
        None => AnalysisState::StoreFile { content, response },
    }
}

/// Whether `next` may follow `state` on `event`. Each state answers to one
/// kind of event; any other event leaves it as it is.
pub open spec fn follows(state: AnalysisState, event: Event, next: AnalysisState) -> bool {
    match (state, event) {
        (AnalysisState::Lookup { uid }, Event::Row(row)) => next == lookup_state(uid, row),
        (AnalysisState::DecodeCached { cached }, Event::Columns(info)) => cached_closed(
            cached,
            info,
            next,
        ),
        (AnalysisState::LoadFile { uid }, Event::File(Err(text))) => next == AnalysisState::Done(
            Err(AnalyzeError::Storage(text)),
        ),
        (AnalysisState::LoadFile { uid }, Event::File(Ok(None))) => next matches AnalysisState::Done(
            Err(AnalyzeError::NotFound(got)),
        ) && got@ == "CSV file not found"@,
        (AnalysisState::LoadFile { uid }, Event::File(Ok(Some(file)))) => engine_ran(
            Some(file.id),
            file.filename,
            uid,
            file.upload_time,
            file.content,
            next,
        ),
        (AnalysisState::DecodeReport { pending }, Event::Columns(Err(text))) => next
            == AnalysisState::Done(Err(AnalyzeError::Input(text))),
        (AnalysisState::DecodeReport { pending }, Event::Columns(Ok(columns_info))) => report_decoded(
            pending,
            columns_info,
            next,
        ),
        (AnalysisState::StoreFile { content, response }, Event::FileStored(Err(text))) => next
            == AnalysisState::Done(Err(AnalyzeError::Storage(text))),
        (AnalysisState::StoreFile { content, response }, Event::FileStored(Ok(file_id))) => save_prepared(
            file_id,
            response,
            next,
        ),
        (AnalysisState::StoreAnalysis { insert, response }, Event::AnalysisStored(Err(text))) => next
            == AnalysisState::Done(Err(AnalyzeError::Storage(text))),
        (AnalysisState::StoreAnalysis { insert, response }, Event::AnalysisStored(Ok(_))) => next
            == AnalysisState::Done(Ok(response)),
        _ => next == state,
    }
}

/// Closes a cache hit with the decoded statistics.
fn close_cached(cached: CachedAnalysis, info: Result<Vec<ColumnInfo>, String>) -> (next:
    AnalysisState)
    ensures
        cached_closed(cached, info, next),
{
    let names = decode_column_names(&cached.column_names);
    match assemble_cached(cached, names, info) {
        Ok(response) => {
            if response.is_well_formed() {
                AnalysisState::Done(Ok(response))
            } else {
                AnalysisState::Done(
                    Err(
                        AnalyzeError::Storage(
                            "stored analysis does not match its columns".to_owned(),
                        ),
                    ),
                )
            }
        },
        Err(text) => AnalysisState::Done(Err(AnalyzeError::Storage(text))),
    }
}

/// Moves a request on by one event.
pub fn step(state: AnalysisState, event: Event) -> (next: AnalysisState)
    ensures
        follows(state, event, next),
{
    match (state, event) {
        (AnalysisState::Lookup { uid }, Event::Row(row)) => match row {
            Err(text) => AnalysisState::Done(Err(AnalyzeError::Storage(text))),
            Ok(row) => match get_csv_analysis_by_uid(row) {
                Some(cached) => AnalysisState::DecodeCached { cached },
                None => AnalysisState::LoadFile { uid },
            },
        },
        (AnalysisState::DecodeCached { cached }, Event::Columns(info)) => close_cached(
            cached,
            info,
        ),
        (AnalysisState::LoadFile { uid }, Event::File(Err(text))) => AnalysisState::Done(
            Err(AnalyzeError::Storage(text)),
        ),
        (AnalysisState::LoadFile { uid }, Event::File(Ok(None))) => AnalysisState::Done(
            Err(AnalyzeError::NotFound("CSV file not found".to_owned())),
        ),
        (AnalysisState::LoadFile { uid }, Event::File(Ok(Some(file)))) => run_engine(
            Some(file.id),
            file.filename,
            uid,
            file.upload_time,
            file.content,
        ),
        (AnalysisState::DecodeReport { pending }, Event::Columns(Err(text))) => AnalysisState::Done(
            Err(AnalyzeError::Input(text)),
        ),
        (AnalysisState::DecodeReport { pending }, Event::Columns(Ok(columns_info))) => after_report_decoded(
            pending,
            columns_info,
        ),
        (AnalysisState::StoreFile { content, response }, Event::FileStored(Err(text))) => AnalysisState::Done(
            Err(AnalyzeError::Storage(text)),
        ),
        (AnalysisState::StoreFile { content, response }, Event::FileStored(Ok(file_id))) => prepare_save(
            file_id,
            response,
        ),
        (AnalysisState::StoreAnalysis { insert, response }, Event::AnalysisStored(Err(text))) => AnalysisState::Done(
            Err(AnalyzeError::Storage(text)),
        ),
        (AnalysisState::StoreAnalysis { insert, response }, Event::AnalysisStored(Ok(_))) => AnalysisState::Done(
            Ok(response),
        ),
        (state, _) => state,
    }
}

} // verus!
