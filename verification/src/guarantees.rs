//! What holds of the request flows as a whole, proved from the contracts of
//! their steps.

use crate::db::names_read_back;
use crate::db::names_to_json;
use crate::db::AnalysisInsert;
use crate::db::AnalysisRow;
use crate::handlers::engine_ran;
use crate::handlers::follows;
use crate::handlers::AnalysisState;
use crate::handlers::Event;
use crate::models::AnalyzeError;
use crate::models::ColumnInfo;
use crate::models::CsvAnalyzeResponse;
use crate::models::FileRecord;
use vstd::prelude::*;

verus! {

/// Two responses say the same: the same metadata, counts and statistics, and
/// name lists that read the same.
pub open spec fn same_analysis(a: CsvAnalyzeResponse, b: CsvAnalyzeResponse) -> bool {
    &&& a.filename@ == b.filename@
    &&& a.upload_datetime@ == b.upload_datetime@
    &&& a.uid@ == b.uid@
    &&& a.rows_count == b.rows_count
    &&& a.columns_count == b.columns_count
    &&& a.column_names.deep_view() == b.column_names.deep_view()
    &&& a.columns_info == b.columns_info
}

/// The request is being served from the store: it waits for stored
/// statistics to be decoded, or it is over.
pub open spec fn served_from_store(state: AnalysisState) -> bool {
    state is DecodeCached || state is Done
}

/// Every response that the state holds describes its columns consistently,
/// and an analysis row that waits to be stored holds that response's counts
/// as they are and its names as a JSON text that reads back.
pub open spec fn sound(state: AnalysisState) -> bool {
    match state {
        AnalysisState::StoreFile { content, response } => response.well_formed(),
        AnalysisState::StoreAnalysis { insert, response } => {
            &&& response.well_formed()
            &&& insert.rows_count == response.rows_count
            &&& insert.columns_count == response.columns_count
            &&& names_to_json(response.column_names.deep_view()) == Ok::<Seq<char>, Seq<char>>(
                insert.column_names@,
            )
            &&& names_read_back(insert.column_names@, response.column_names.deep_view())
        },
        AnalysisState::Done(Ok(response)) => response.well_formed(),
        _ => true,
    }
}

/// A request opens in a sound state: the lookup holds no response, and the
/// state after the engine's run holds none either.
pub proof fn lemma_opening_is_sound(
    file_id: Option<i64>,
    filename: String,
    uid: String,
    upload_datetime: String,
    content: String,
    opened: AnalysisState,
)
    requires
        engine_ran(file_id, filename, uid, upload_datetime, content, opened),
    ensures
        sound(AnalysisState::Lookup { uid }),
        sound(opened),
{
}

/// Soundness is kept by every step. So every analysis that a request
/// answers with, computed or served from the store, has as many names and
/// statistics entries as its column count says, entry by entry under the
/// same name, and every analysis row that is handed out for storing holds
/// the answer's counts unchanged.
pub proof fn lemma_steps_keep_soundness(state: AnalysisState, event: Event, next: AnalysisState)
    requires
        sound(state),
        follows(state, event, next),
    ensures
        sound(next),
{
}

/// A finished request stays finished, with its outcome, whatever is
/// reported to it.
pub proof fn lemma_done_is_final(
    outcome: Result<CsvAnalyzeResponse, AnalyzeError>,
    event: Event,
    next: AnalysisState,
)
    requires
        follows(AnalysisState::Done(outcome), event, next),
    ensures
        next == AnalysisState::Done(outcome),
{
}

/// A failed query for the file is a storage failure with the storage
/// layer's message, never "not found".
pub proof fn lemma_failed_load_is_storage_failure(uid: String, text: String, next: AnalysisState)
    requires
        follows(AnalysisState::LoadFile { uid }, Event::File(Err(text)), next),
    ensures
        next == AnalysisState::Done(Err(AnalyzeError::Storage(text))),
{
}

/// Serving the same stored row twice gives the same outcome: two requests
/// that find one complete row and decode the same statistics from it end
/// alike, with responses that say the same or with the same failure.
pub proof fn lemma_repeated_hits_agree(
    uid: String,
    row: AnalysisRow,
    decoded: Result<Vec<ColumnInfo>, String>,
    first_lookup: AnalysisState,
    first_end: AnalysisState,
    second_lookup: AnalysisState,
    second_end: AnalysisState,
)
    requires
        row.is_hit(),
        follows(AnalysisState::Lookup { uid }, Event::Row(Ok(Some(row))), first_lookup),
        follows(first_lookup, Event::Columns(decoded), first_end),
        follows(AnalysisState::Lookup { uid }, Event::Row(Ok(Some(row))), second_lookup),
        follows(second_lookup, Event::Columns(decoded), second_end),
    ensures
        first_lookup == second_lookup,
        match (first_end, second_end) {
            (AnalysisState::Done(Ok(first)), AnalysisState::Done(Ok(second))) => same_analysis(
                first,
                second,
            ),
            (
                AnalysisState::Done(Err(AnalyzeError::Storage(first))),
                AnalysisState::Done(Err(AnalyzeError::Storage(second))),
            ) => first@ == second@,
            _ => false,
        },
{
}

/// A request that finds a complete stored row never reaches the engine: it
/// is served from the store after the lookup, and a request served from the
/// store stays so on every event. The engine runs only when a file was
/// loaded, which such a request never asks for.
pub proof fn lemma_hit_stays_clear_of_engine(
    uid: String,
    row: AnalysisRow,
    after_lookup: AnalysisState,
    event: Event,
    later: AnalysisState,
    next: AnalysisState,
)
    requires
        row.is_hit(),
        follows(AnalysisState::Lookup { uid }, Event::Row(Ok(Some(row))), after_lookup),
        served_from_store(later),
        follows(later, event, next),
    ensures
        served_from_store(after_lookup),
        served_from_store(next),
{
}

/// The two tables as the flows see them: the files by identifier, and for
/// each file key the analysis row that the joined lookup finds for it, with
/// the text of its statistics.
pub struct Tables {
    pub files: Map<Seq<char>, FileRecord>,
    pub analyses: Map<i64, (AnalysisInsert, String)>,
}

impl Tables {
    /// Each file is filed under its own identifier, and no two files share
    /// a key.
    pub open spec fn well_formed(&self) -> bool {
        &&& forall|uid: Seq<char>| #[trigger]
            self.files.dom().contains(uid) ==> self.files[uid].uid@ == uid
        &&& forall|a: Seq<char>, b: Seq<char>|
            #![trigger self.files[a], self.files[b]]
            self.files.dom().contains(a) && self.files.dom().contains(b) && self.files[a].id
                == self.files[b].id ==> a == b
    }

    /// The row that the joined lookup yields for an identifier.
    pub open spec fn joined_row(&self, uid: Seq<char>) -> Option<AnalysisRow> {
        if self.files.dom().contains(uid) {
            let file = self.files[uid];
            if self.analyses.dom().contains(file.id) {
                let stored = self.analyses[file.id];
                Some(
                    AnalysisRow {
                        filename: file.filename,
                        upload_time: file.upload_time,
                        uid: file.uid,
                        rows_count: Some(stored.0.rows_count),
                        columns_count: Some(stored.0.columns_count),
                        column_names: Some(stored.0.column_names),
                        columns_info: Some(stored.1),
                    },
                )
            } else {
                Some(
                    AnalysisRow {
                        filename: file.filename,
                        upload_time: file.upload_time,
                        uid: file.uid,
                        rows_count: None,
                        columns_count: None,
                        column_names: None,
                        columns_info: None,
                    },
                )
            }
        } else {
            None
        }
    }

    /// The tables after a file was stored.
    pub open spec fn with_file(&self, file: FileRecord) -> Tables {
        Tables { files: self.files.insert(file.uid@, file), analyses: self.analyses }
    }

    /// The tables after an analysis row was appended. The lookup goes on to
    /// find the row that was there first, so a later row for the same file
    /// changes nothing that the flows see.
    pub open spec fn with_analysis(&self, insert: AnalysisInsert, columns_info: String) -> Tables {
        if self.analyses.dom().contains(insert.file_id) {
            *self
        } else {
            Tables {
                files: self.files,
                analyses: self.analyses.insert(insert.file_id, (insert, columns_info)),
            }
        }
    }
}

/// An analysis is computed once and then served from the store. Start from
/// well-formed tables that hold a file under `uid` and no analysis for it.
/// The first request misses, loads the file, runs the engine and, once the
/// statistics are decoded and the row is stored, answers with `response`;
/// the row holds the file's key and the answer's counts. Where the text of
/// the statistics is not empty and decodes to the statistics it was made
/// from, a second request on the tables so extended goes from the lookup
/// straight to decoding, never asks for the file, and answers with a
/// response that says the same as the first.
pub proof fn lemma_analysis_is_computed_once(
    tables: Tables,
    uid: String,
    columns_info: Vec<ColumnInfo>,
    columns_info_json: String,
    missed: AnalysisState,
    computed: AnalysisState,
    insert: AnalysisInsert,
    response: CsvAnalyzeResponse,
    first_end: AnalysisState,
    hit: AnalysisState,
    second_end: AnalysisState,
)
    requires
        tables.well_formed(),
        tables.files.dom().contains(uid@),
        !tables.analyses.dom().contains(tables.files[uid@].id),
        follows(AnalysisState::Lookup { uid }, Event::Row(Ok(tables.joined_row(uid@))), missed),
        follows(missed, Event::File(Ok(Some(tables.files[uid@]))), computed),
        follows(
            computed,
            Event::Columns(Ok(columns_info)),
            AnalysisState::StoreAnalysis { insert, response },
        ),
        follows(
            AnalysisState::StoreAnalysis { insert, response },
            Event::AnalysisStored(Ok(())),
            first_end,
        ),
        columns_info_json@.len() > 0,
        follows(
            AnalysisState::Lookup { uid },
            Event::Row(Ok(tables.with_analysis(insert, columns_info_json).joined_row(uid@))),
            hit,
        ),
        follows(hit, Event::Columns(Ok(columns_info)), second_end),
    ensures
        missed == (AnalysisState::LoadFile { uid }),
        computed is DecodeReport,
        insert.file_id == tables.files[uid@].id,
        insert.rows_count == response.rows_count,
        insert.columns_count == response.columns_count,
        response.well_formed(),
        first_end == AnalysisState::Done(Ok(response)),
        hit is DecodeCached,
        second_end matches AnalysisState::Done(Ok(served)) && same_analysis(served, response),
{
}

/// Storing and analysing a file in one go, then asking for it by its
/// identifier, gives the same analysis twice. Start from well-formed tables
/// that know neither the identifier nor the key under which the file gets
/// stored. The upload request runs the engine, stores the file and the
/// analysis row, and answers with `response`; the row holds the file's key
/// and the answer's counts. Where the text of the statistics is not empty
/// and decodes to the statistics it was made from, a request for the
/// identifier on the tables so extended goes from the lookup straight to
/// decoding and answers with a response that says the same.
pub proof fn lemma_upload_then_lookup_agree(
    tables: Tables,
    filename: String,
    raw_csv: String,
    uid: String,
    upload_datetime: String,
    file_id: i64,
    columns_info: Vec<ColumnInfo>,
    columns_info_json: String,
    reported: AnalysisState,
    unsaved: AnalysisState,
    insert: AnalysisInsert,
    response: CsvAnalyzeResponse,
    first_end: AnalysisState,
    hit: AnalysisState,
    second_end: AnalysisState,
)
    requires
        tables.well_formed(),
        !tables.files.dom().contains(uid@),
        forall|other: Seq<char>| #[trigger]
            tables.files.dom().contains(other) ==> tables.files[other].id != file_id,
        !tables.analyses.dom().contains(file_id),
        engine_ran(None, filename, uid, upload_datetime, raw_csv, reported),
        reported is DecodeReport,
        follows(reported, Event::Columns(Ok(columns_info)), unsaved),
        follows(
            unsaved,
            Event::FileStored(Ok(file_id)),
            AnalysisState::StoreAnalysis { insert, response },
        ),
        follows(
            AnalysisState::StoreAnalysis { insert, response },
            Event::AnalysisStored(Ok(())),
            first_end,
        ),
        columns_info_json@.len() > 0,
        follows(
            AnalysisState::Lookup { uid },
            Event::Row(
                Ok(
                    tables.with_file(
                        FileRecord {
                            id: file_id,
                            uid,
                            filename,
                            content: raw_csv,
                            upload_time: upload_datetime,
                        },
                    ).with_analysis(insert, columns_info_json).joined_row(uid@),
                ),
            ),
            hit,
        ),
        follows(hit, Event::Columns(Ok(columns_info)), second_end),
    ensures
        unsaved matches AnalysisState::StoreFile { content, response: kept } && content == raw_csv
            && kept == response,
        response.filename == filename,
        response.uid == uid,
        response.upload_datetime == upload_datetime,
        insert.file_id == file_id,
        insert.rows_count == response.rows_count,
        insert.columns_count == response.columns_count,
        response.well_formed(),
        first_end == AnalysisState::Done(Ok(response)),
        tables.with_file(
            FileRecord {
                id: file_id,
                uid,
                filename,
                content: raw_csv,
                upload_time: upload_datetime,
            },
        ).with_analysis(insert, columns_info_json).well_formed(),
        hit is DecodeCached,
        second_end matches AnalysisState::Done(Ok(served)) && same_analysis(served, response),
{
    let file = FileRecord {
        id: file_id,
        uid,
        filename,
        content: raw_csv,
        upload_time: upload_datetime,
    };
    let later = tables.with_file(file).with_analysis(insert, columns_info_json);
    assert(later.well_formed()) by {
        assert forall|other: Seq<char>| #[trigger] later.files.dom().contains(other) implies
            later.files[other].uid@ == other by {
            if other != uid@ {
                assert(tables.files.dom().contains(other));
            }
        }
        assert forall|a: Seq<char>, b: Seq<char>|
            #![trigger later.files[a], later.files[b]]
            later.files.dom().contains(a) && later.files.dom().contains(b) && later.files[a].id
                == later.files[b].id implies a == b by {
            if a != uid@ {
                assert(tables.files.dom().contains(a));
            }
            if b != uid@ {
                assert(tables.files.dom().contains(b));
            }
        }
    }
}

/// An identifier that no file is registered under ends in "not found": the
/// lookup finds no row, the file is looked for and is not there, and the
/// request is over without a response.
pub proof fn lemma_unknown_uid_is_not_found(
    tables: Tables,
    uid: String,
    after_lookup: AnalysisState,
    after_load: AnalysisState,
)
    requires
        !tables.files.dom().contains(uid@),
        follows(
            AnalysisState::Lookup { uid },
            Event::Row(Ok(tables.joined_row(uid@))),
            after_lookup,
        ),
        follows(after_lookup, Event::File(Ok(None)), after_load),
    ensures
        after_lookup == (AnalysisState::LoadFile { uid }),
        after_load matches AnalysisState::Done(Err(AnalyzeError::NotFound(_))),
{
}

/// Two failures are of one kind and carry the same message.
pub open spec fn same_failure(a: AnalyzeError, b: AnalyzeError) -> bool {
    match (a, b) {
        (AnalyzeError::Input(x), AnalyzeError::Input(y)) => x@ == y@,
        (AnalyzeError::NotFound(x), AnalyzeError::NotFound(y)) => x@ == y@,
        (AnalyzeError::Storage(x), AnalyzeError::Storage(y)) => x@ == y@,
        _ => false,
    }
}

/// Storing and analysing a file in one go comes to the same as storing it
/// first and asking for its analysis afterwards. Take the upload request up
/// to the point where the file is stored under `file_id`, and the request by
/// identifier from the point where that same file was loaded, and report
/// the same decoded statistics to both. Then both fail alike, or both hand
/// out the same analysis row beside responses that say the same.
pub proof fn lemma_fused_upload_is_upload_then_analysis(
    filename: String,
    raw_csv: String,
    uid: String,
    upload_datetime: String,
    file_id: i64,
    decoded: Result<Vec<ColumnInfo>, String>,
    fused_reported: AnalysisState,
    fused_decoded: AnalysisState,
    fused_end: AnalysisState,
    split_reported: AnalysisState,
    split_end: AnalysisState,
)
    requires
        engine_ran(None, filename, uid, upload_datetime, raw_csv, fused_reported),
        follows(fused_reported, Event::Columns(decoded), fused_decoded),
        follows(fused_decoded, Event::FileStored(Ok(file_id)), fused_end),
        engine_ran(Some(file_id), filename, uid, upload_datetime, raw_csv, split_reported),
        follows(split_reported, Event::Columns(decoded), split_end),
    ensures
        match (fused_end, split_end) {
            (
                AnalysisState::StoreAnalysis { insert: fused_row, response: fused },
                AnalysisState::StoreAnalysis { insert: split_row, response: split },
            ) => same_analysis(fused, split) && fused_row.file_id == split_row.file_id
                && fused_row.rows_count == split_row.rows_count && fused_row.columns_count
                == split_row.columns_count && fused_row.column_names@ == split_row.column_names@,
            (AnalysisState::Done(Err(fused)), AnalysisState::Done(Err(split))) => same_failure(
                fused,
                split,
            ),
            _ => false,
        },
{
}

} // verus!
