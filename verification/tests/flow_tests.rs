use csv_analyzer_api::db::AnalysisRow;
use csv_analyzer_api::handlers::{
    after_engine, after_report_decoded, analyze_csv_by_uid_handler, analyze_csv_handler,
    begin_upload_analysis, csv_get_handler, csv_post_handler_with_json,
    csv_post_handler_with_query, finish_upload, prepare_save, run_engine, stamp_model, step,
    upload_csv_handler, upload_filename, AnalysisState, Event, PendingAnalysis,
};
use csv_analyzer_api::models::{
    AnalyzeError, ColumnInfo, CsvAnalyzeResponse, CsvModel, CsvUploadResponse, FileRecord, Number,
};

const SAMPLE: &str = "a,b\n1,x\n2,\n3,z\n";

fn number(value: &serde_json::Value) -> Option<Number> {
    value.as_f64().map(|f| Number { bits: f.to_bits() })
}

fn decode_info(text: &str) -> Result<Vec<ColumnInfo>, String> {
    let parsed: serde_json::Value = serde_json::from_str(text).map_err(|e| e.to_string())?;
    let list = parsed.as_array().ok_or("not a list".to_string())?;
    let mut out = Vec::new();
    for entry in list {
        out.push(ColumnInfo {
            column: entry.get("column").and_then(|v| v.as_str()).ok_or("column")?.to_string(),
            dtype: entry.get("dtype").and_then(|v| v.as_str()).ok_or("dtype")?.to_string(),
            max: entry.get("max").and_then(number),
            mean: entry.get("mean").and_then(number),
            min: entry.get("min").and_then(number),
            null_count: entry.get("null_count").and_then(|v| v.as_u64()).ok_or("null_count")?
                as usize,
            sum: entry.get("sum").and_then(number),
        });
    }
    Ok(out)
}

fn encode_info(info: &[ColumnInfo]) -> String {
    let num = |n: &Option<Number>| match n {
        Some(n) => serde_json::Value::from(f64::from_bits(n.bits)),
        None => serde_json::Value::Null,
    };
    let mut list = Vec::new();
    for c in info {
        let mut object = serde_json::Map::new();
        object.insert("column".to_string(), serde_json::Value::from(c.column.clone()));
        object.insert("dtype".to_string(), serde_json::Value::from(c.dtype.clone()));
        object.insert("max".to_string(), num(&c.max));
        object.insert("mean".to_string(), num(&c.mean));
        object.insert("min".to_string(), num(&c.min));
        object.insert("null_count".to_string(), serde_json::Value::from(c.null_count as u64));
        object.insert("sum".to_string(), num(&c.sum));
        list.push(serde_json::Value::Object(object));
    }
    serde_json::Value::Array(list).to_string()
}

/// Two tables in memory, and a count of the engine's runs as seen from outside.
struct Tables {
    files: Vec<FileRecord>,
    analyses: Vec<(i64, i64, i64, String, String)>,
    loads: usize,
}

impl Tables {
    fn new() -> Self {
        Tables { files: Vec::new(), analyses: Vec::new(), loads: 0 }
    }

    fn joined(&self, uid: &str) -> Option<AnalysisRow> {
        let file = self.files.iter().find(|f| f.uid == uid)?;
        let analysis = self.analyses.iter().find(|a| a.0 == file.id);
        Some(AnalysisRow {
            filename: file.filename.clone(),
            upload_time: file.upload_time.clone(),
            uid: file.uid.clone(),
            rows_count: analysis.map(|a| a.1),
            columns_count: analysis.map(|a| a.2),
            column_names: analysis.map(|a| a.3.clone()),
            columns_info: analysis.map(|a| a.4.clone()),
        })
    }

    fn drive(&mut self, mut state: AnalysisState) -> Result<CsvAnalyzeResponse, AnalyzeError> {
        loop {
            let event = match &state {
                AnalysisState::Lookup { uid } => Event::Row(Ok(self.joined(uid))),
                AnalysisState::DecodeCached { cached } => {
                    Event::Columns(decode_info(&cached.columns_info))
                }
                AnalysisState::LoadFile { uid } => {
                    self.loads += 1;
                    Event::File(Ok(self.files.iter().find(|f| &f.uid == uid).cloned()))
                }
                AnalysisState::DecodeReport { pending } => {
                    Event::Columns(decode_info(&pending.report))
                }
                AnalysisState::StoreFile { content, response } => {
                    let id = self.files.len() as i64 + 1;
                    self.files.push(FileRecord {
                        id,
                        uid: response.uid.clone(),
                        filename: response.filename.clone(),
                        content: content.clone(),
                        upload_time: response.upload_datetime.clone(),
                    });
                    Event::FileStored(Ok(id))
                }
                AnalysisState::StoreAnalysis { insert, response } => {
                    self.analyses.push((
                        insert.file_id,
                        insert.rows_count,
                        insert.columns_count,
                        insert.column_names.clone(),
                        encode_info(&response.columns_info),
                    ));
                    Event::AnalysisStored(Ok(()))
                }
                AnalysisState::Done(_) => break,
            };
            state = step(state, event);
        }
        match state {
            AnalysisState::Done(outcome) => outcome,
            _ => unreachable!(),
        }
    }
}

fn decoded(state: &AnalysisState) -> Vec<ColumnInfo> {
    match state {
        AnalysisState::DecodeReport { pending } => decode_info(&pending.report).unwrap(),
        other => panic!("unexpected state: {:?}", other),
    }
}

fn text_column(name: &str) -> ColumnInfo {
    ColumnInfo {
        column: name.to_string(),
        dtype: "Str".to_string(),
        max: None,
        mean: None,
        min: None,
        null_count: 0,
        sum: None,
    }
}

fn stored_sample(tables: &mut Tables, uid: &str) {
    let id = tables.files.len() as i64 + 1;
    tables.files.push(FileRecord {
        id,
        uid: uid.to_string(),
        filename: "sample.csv".to_string(),
        content: SAMPLE.to_string(),
        upload_time: "2024-05-05 10:00:00 UTC".to_string(),
    });
}

#[test]
fn unknown_uid_is_not_found() {
    let mut tables = Tables::new();
    let out = tables.drive(analyze_csv_by_uid_handler("missing".to_string()));
    assert_eq!(out, Err(AnalyzeError::NotFound("CSV file not found".to_string())));
    assert_eq!(out.unwrap_err().status_code(), 404);
    assert!(tables.analyses.is_empty());
}

#[test]
fn failed_file_query_is_a_storage_failure() {
    let state = step(analyze_csv_by_uid_handler("u".to_string()), Event::Row(Ok(None)));
    assert_eq!(state, AnalysisState::LoadFile { uid: "u".to_string() });
    let end = step(state, Event::File(Err("connection closed".to_string())));
    assert_eq!(
        end,
        AnalysisState::Done(Err(AnalyzeError::Storage("connection closed".to_string())))
    );
}

#[test]
fn header_only_file_is_refused_before_anything_is_stored() {
    let mut tables = Tables::new();
    let out = tables.drive(begin_upload_analysis(
        "h.csv".to_string(),
        "a,b\n".to_string(),
        "u-h".to_string(),
        "t".to_string(),
    ));
    assert_eq!(
        out,
        Err(AnalyzeError::Input("CSV report does not match the header".to_string()))
    );
    assert!(tables.files.is_empty());
    assert!(tables.analyses.is_empty());
}

#[test]
fn inconsistent_stored_analysis_is_a_storage_failure() {
    let row = AnalysisRow {
        filename: "f".to_string(),
        upload_time: "t".to_string(),
        uid: "u".to_string(),
        rows_count: Some(1),
        columns_count: Some(2),
        column_names: Some("[\"a\",\"b\"]".to_string()),
        columns_info: Some("[]".to_string()),
    };
    let state = step(analyze_csv_by_uid_handler("u".to_string()), Event::Row(Ok(Some(row))));
    let end = step(state, Event::Columns(Ok(vec![])));
    assert_eq!(
        end,
        AnalysisState::Done(Err(AnalyzeError::Storage(
            "stored analysis does not match its columns".to_string()
        )))
    );
}

#[test]
fn first_request_computes_and_stores() {
    let mut tables = Tables::new();
    stored_sample(&mut tables, "u-1");
    let response = tables.drive(analyze_csv_by_uid_handler("u-1".to_string())).unwrap();
    assert_eq!(response.filename, "sample.csv");
    assert_eq!(response.upload_datetime, "2024-05-05 10:00:00 UTC");
    assert_eq!(response.uid, "u-1");
    assert_eq!(response.rows_count, 3);
    assert_eq!(response.columns_count, 2);
    assert_eq!(response.column_names, vec!["a".to_string(), "b".to_string()]);
    assert_eq!(response.columns_info.len(), 2);
    assert_eq!(response.columns_info[0].sum, Some(Number { bits: 6.0f64.to_bits() }));
    assert_eq!(response.columns_info[1].null_count, 1);
    assert!(response.is_well_formed());
    assert_eq!(tables.analyses.len(), 1);
    assert_eq!(tables.analyses[0].0, 1);
    assert_eq!(tables.analyses[0].1, 3);
    assert_eq!(tables.analyses[0].2, 2);
    assert_eq!(tables.analyses[0].3, "[\"a\",\"b\"]");
}

#[test]
fn later_requests_are_served_from_the_store() {
    let mut tables = Tables::new();
    stored_sample(&mut tables, "u-1");
    let first = tables.drive(analyze_csv_by_uid_handler("u-1".to_string())).unwrap();
    assert_eq!(tables.loads, 1);
    let second = tables.drive(analyze_csv_by_uid_handler("u-1".to_string())).unwrap();
    let third = tables.drive(analyze_csv_by_uid_handler("u-1".to_string())).unwrap();
    assert_eq!(first, second);
    assert_eq!(second, third);
    assert_eq!(tables.loads, 1);
    assert_eq!(tables.analyses.len(), 1);
}

#[test]
fn upload_then_lookup_gives_the_same_statistics() {
    let mut tables = Tables::new();
    let first = tables
        .drive(begin_upload_analysis(
            "up.csv".to_string(),
            SAMPLE.to_string(),
            "u-9".to_string(),
            "2024-06-01 00:00:00 UTC".to_string(),
        ))
        .unwrap();
    assert_eq!(first.uid, "u-9");
    assert_eq!(first.filename, "up.csv");
    assert_eq!(tables.files.len(), 1);
    assert_eq!(tables.files[0].content, SAMPLE);
    let second = tables.drive(analyze_csv_by_uid_handler("u-9".to_string())).unwrap();
    assert_eq!(first, second);
    assert_eq!(tables.loads, 0);
}

#[test]
fn upload_analysis_draws_fresh_identifiers() {
    let mut tables = Tables::new();
    let first = tables.drive(analyze_csv_handler("a.csv".to_string(), SAMPLE.to_string())).unwrap();
    let second =
        tables.drive(analyze_csv_handler("a.csv".to_string(), SAMPLE.to_string())).unwrap();
    assert_ne!(first.uid, second.uid);
    assert!(!first.uid.is_empty());
    assert!(!first.upload_datetime.is_empty());
    assert_eq!(first.columns_info, second.columns_info);
    let again = tables.drive(analyze_csv_by_uid_handler(first.uid.clone())).unwrap();
    assert_eq!(again, first);
}

#[test]
fn unparsable_upload_is_the_clients_mistake() {
    let mut tables = Tables::new();
    let out = tables.drive(analyze_csv_handler("bad.csv".to_string(), "a,b\n1\n".to_string()));
    match out {
        Err(AnalyzeError::Input(text)) => assert!(!text.is_empty()),
        other => panic!("unexpected outcome: {:?}", other),
    }
    assert!(tables.files.is_empty());
    assert!(tables.analyses.is_empty());
}

#[test]
fn unparsable_stored_file_is_the_clients_mistake() {
    let mut tables = Tables::new();
    tables.files.push(FileRecord {
        id: 1,
        uid: "u-2".to_string(),
        filename: "bad.csv".to_string(),
        content: "a,b\n1\n".to_string(),
        upload_time: "t".to_string(),
    });
    let out = tables.drive(analyze_csv_by_uid_handler("u-2".to_string()));
    assert!(matches!(out, Err(AnalyzeError::Input(_))));
    assert!(tables.analyses.is_empty());
}

#[test]
fn failed_lookup_is_a_storage_failure() {
    let state = analyze_csv_by_uid_handler("u".to_string());
    let next = step(state, Event::Row(Err("pool closed".to_string())));
    assert_eq!(next, AnalysisState::Done(Err(AnalyzeError::Storage("pool closed".to_string()))));
}

#[test]
fn corrupt_stored_statistics_are_a_storage_failure() {
    let row = AnalysisRow {
        filename: "f".to_string(),
        upload_time: "t".to_string(),
        uid: "u".to_string(),
        rows_count: Some(1),
        columns_count: Some(1),
        column_names: Some("[\"a\"]".to_string()),
        columns_info: Some("{".to_string()),
    };
    let state = step(analyze_csv_by_uid_handler("u".to_string()), Event::Row(Ok(Some(row))));
    assert!(matches!(state, AnalysisState::DecodeCached { .. }));
    let end = step(state, Event::Columns(Err("EOF".to_string())));
    assert_eq!(end, AnalysisState::Done(Err(AnalyzeError::Storage("EOF".to_string()))));
}

#[test]
fn corrupt_stored_names_are_a_storage_failure() {
    let row = AnalysisRow {
        filename: "f".to_string(),
        upload_time: "t".to_string(),
        uid: "u".to_string(),
        rows_count: Some(1),
        columns_count: Some(1),
        column_names: Some("oops".to_string()),
        columns_info: Some("[]".to_string()),
    };
    let state = step(analyze_csv_by_uid_handler("u".to_string()), Event::Row(Ok(Some(row))));
    let end = step(state, Event::Columns(Ok(vec![])));
    assert!(matches!(end, AnalysisState::Done(Err(AnalyzeError::Storage(_)))));
}

#[test]
fn partial_row_is_a_miss_that_loads_the_file() {
    let row = AnalysisRow {
        filename: "f".to_string(),
        upload_time: "t".to_string(),
        uid: "u".to_string(),
        rows_count: Some(1),
        columns_count: Some(1),
        column_names: Some(String::new()),
        columns_info: Some("[]".to_string()),
    };
    let state = step(analyze_csv_by_uid_handler("u".to_string()), Event::Row(Ok(Some(row))));
    assert_eq!(state, AnalysisState::LoadFile { uid: "u".to_string() });
}

#[test]
fn undecodable_report_is_the_clients_mistake() {
    let state = run_engine(
        Some(4),
        "f".to_string(),
        "u".to_string(),
        "t".to_string(),
        SAMPLE.to_string(),
    );
    let end = step(state, Event::Columns(Err("bad report".to_string())));
    assert_eq!(end, AnalysisState::Done(Err(AnalyzeError::Input("bad report".to_string()))));
}

#[test]
fn failed_inserts_are_storage_failures() {
    let state = begin_upload_analysis(
        "f".to_string(),
        SAMPLE.to_string(),
        "u".to_string(),
        "t".to_string(),
    );
    let info = decoded(&state);
    let state = step(state, Event::Columns(Ok(info)));
    assert!(matches!(state, AnalysisState::StoreFile { .. }));
    let end = step(state, Event::FileStored(Err("disk full".to_string())));
    assert_eq!(end, AnalysisState::Done(Err(AnalyzeError::Storage("disk full".to_string()))));

    let state = run_engine(
        Some(4),
        "f".to_string(),
        "u".to_string(),
        "t".to_string(),
        SAMPLE.to_string(),
    );
    let info = decoded(&state);
    let state = step(state, Event::Columns(Ok(info)));
    assert!(matches!(state, AnalysisState::StoreAnalysis { .. }));
    let end = step(state, Event::AnalysisStored(Err("locked".to_string())));
    assert_eq!(end, AnalysisState::Done(Err(AnalyzeError::Storage("locked".to_string()))));
}

#[test]
fn an_event_of_the_wrong_kind_changes_nothing() {
    let state = step(analyze_csv_by_uid_handler("u".to_string()), Event::AnalysisStored(Ok(())));
    assert_eq!(state, AnalysisState::Lookup { uid: "u".to_string() });
    let done = AnalysisState::Done(Err(AnalyzeError::NotFound("x".to_string())));
    let state = step(done, Event::Row(Ok(None)));
    assert_eq!(state, AnalysisState::Done(Err(AnalyzeError::NotFound("x".to_string()))));
}

#[test]
fn engine_outcome_decides_the_next_state() {
    let refused = after_engine(
        None,
        "f".to_string(),
        "u".to_string(),
        "t".to_string(),
        "c".to_string(),
        Err("CSV error".to_string()),
    );
    assert_eq!(refused, AnalysisState::Done(Err(AnalyzeError::Input("CSV error".to_string()))));

    let accepted = after_engine(
        Some(3),
        "f".to_string(),
        "u".to_string(),
        "t".to_string(),
        "c".to_string(),
        Ok(("[]".to_string(), 5, 1, vec!["h".to_string()])),
    );
    assert_eq!(
        accepted,
        AnalysisState::DecodeReport {
            pending: PendingAnalysis {
                file_id: Some(3),
                filename: "f".to_string(),
                uid: "u".to_string(),
                upload_datetime: "t".to_string(),
                content: "c".to_string(),
                report: "[]".to_string(),
                rows_count: 5,
                columns_count: 1,
                column_names: vec!["h".to_string()],
            },
        }
    );
}

fn pending_one_column(file_id: Option<i64>) -> PendingAnalysis {
    PendingAnalysis {
        file_id,
        filename: "f".to_string(),
        uid: "u".to_string(),
        upload_datetime: "t".to_string(),
        content: "h\n1\n".to_string(),
        report: "[]".to_string(),
        rows_count: 1,
        columns_count: 1,
        column_names: vec!["h".to_string()],
    }
}

#[test]
fn decoded_statistics_must_describe_the_reported_columns() {
    let refused = AnalysisState::Done(Err(AnalyzeError::Input(
        "CSV report does not match the header".to_string(),
    )));
    assert_eq!(after_report_decoded(pending_one_column(Some(3)), vec![]), refused);
    assert_eq!(after_report_decoded(pending_one_column(None), vec![text_column("x")]), refused);
    assert_eq!(
        after_report_decoded(
            pending_one_column(None),
            vec![text_column("h"), text_column("h")]
        ),
        refused
    );
    let mut miscounted = pending_one_column(None);
    miscounted.columns_count = 2;
    assert_eq!(after_report_decoded(miscounted, vec![text_column("h")]), refused);
}

#[test]
fn decoded_statistics_go_on_to_storing() {
    match after_report_decoded(pending_one_column(None), vec![text_column("h")]) {
        AnalysisState::StoreFile { content, response } => {
            assert_eq!(content, "h\n1\n");
            assert_eq!(response.uid, "u");
            assert!(response.is_well_formed());
        }
        other => panic!("unexpected state: {:?}", other),
    }
    match after_report_decoded(pending_one_column(Some(3)), vec![text_column("h")]) {
        AnalysisState::StoreAnalysis { insert, response } => {
            assert_eq!(insert.file_id, 3);
            assert_eq!(insert.rows_count, 1);
            assert_eq!(insert.columns_count, 1);
            assert_eq!(insert.column_names, "[\"h\"]");
            assert_eq!(response.column_names, vec!["h".to_string()]);
            assert_eq!(response.columns_info, vec![text_column("h")]);
        }
        other => panic!("unexpected state: {:?}", other),
    }
}

#[test]
fn prepared_save_holds_row_and_response() {
    let response = CsvAnalyzeResponse {
        filename: "f".to_string(),
        upload_datetime: "t".to_string(),
        uid: "u".to_string(),
        rows_count: 3_000_000_000,
        columns_count: 1,
        column_names: vec!["h".to_string()],
        columns_info: vec![text_column("h")],
    };
    match prepare_save(3, response.clone()) {
        AnalysisState::StoreAnalysis { insert, response: kept } => {
            assert_eq!(insert.file_id, 3);
            assert_eq!(insert.rows_count, 3_000_000_000);
            assert_eq!(insert.columns_count, 1);
            assert_eq!(insert.column_names, "[\"h\"]");
            assert_eq!(kept, response);
        }
        other => panic!("unexpected state: {:?}", other),
    }
    let mut too_wide = response;
    too_wide.rows_count = usize::MAX;
    assert_eq!(
        prepare_save(3, too_wide),
        AnalysisState::Done(Err(AnalyzeError::Storage("count out of range".to_string())))
    );
}

#[test]
fn listing_answers_with_the_fixed_description() {
    assert_eq!(
        csv_get_handler(),
        CsvModel { filename: "test.csv".to_string(), size: 100, upload_datetime: None, uid: None }
    );
}

#[test]
fn stamping_sets_identifier_and_time() {
    let model = CsvModel {
        filename: "m.csv".to_string(),
        size: 12,
        upload_datetime: Some("old".to_string()),
        uid: None,
    };
    let stamped = stamp_model(model, "id".to_string(), "now".to_string());
    assert_eq!(
        stamped,
        CsvModel {
            filename: "m.csv".to_string(),
            size: 12,
            upload_datetime: Some("now".to_string()),
            uid: Some("id".to_string()),
        }
    );
}

#[test]
fn posted_descriptions_get_fresh_stamps() {
    let model =
        CsvModel { filename: "m.csv".to_string(), size: 1, upload_datetime: None, uid: None };
    let one = csv_post_handler_with_json(model.clone());
    let two = csv_post_handler_with_query(model);
    assert_eq!(one.filename, "m.csv");
    assert_eq!(two.size, 1);
    assert_eq!(one.uid.as_ref().unwrap().len(), 36);
    assert_ne!(one.uid, two.uid);
    assert!(one.upload_datetime.unwrap().ends_with("UTC"));
}

#[test]
fn upload_needs_a_field_with_a_file_name() {
    assert_eq!(upload_filename(None), Err(AnalyzeError::Input("No file uploaded".to_string())));
    assert_eq!(
        upload_filename(Some(None)),
        Err(AnalyzeError::Input("Filename not found".to_string()))
    );
    assert_eq!(upload_filename(Some(Some("x.csv".to_string()))), Ok("x.csv".to_string()));
}

#[test]
fn upload_is_stamped_and_closed() {
    let upload = upload_csv_handler("x.csv".to_string(), "a\n1\n".to_string());
    assert_eq!(upload.filename, "x.csv");
    assert_eq!(upload.content, "a\n1\n");
    assert_eq!(upload.uid.len(), 36);
    let uid = upload.uid.clone();
    let time = upload.upload_datetime.clone();
    assert_eq!(
        finish_upload(upload, Ok(5)),
        Ok(CsvUploadResponse { uid, filename: "x.csv".to_string(), upload_datetime: time })
    );

    let upload = upload_csv_handler("x.csv".to_string(), String::new());
    assert_eq!(
        finish_upload(upload, Err("busy".to_string())),
        Err(AnalyzeError::Storage("busy".to_string()))
    );
}

#[test]
fn all_empty_column_answers_with_a_sum_alone() {
    let mut tables = Tables::new();
    tables.files.push(FileRecord {
        id: 1,
        uid: "u-e".to_string(),
        filename: "e.csv".to_string(),
        content: "a,b\n,x\n,y\n".to_string(),
        upload_time: "t".to_string(),
    });
    let response = tables.drive(analyze_csv_by_uid_handler("u-e".to_string())).unwrap();
    assert_eq!(response.rows_count, 2);
    assert_eq!(response.columns_count, 2);
    assert!(response.is_well_formed());
    let column = &response.columns_info[0];
    assert_eq!(column.column, "a");
    assert_eq!(column.dtype, "Integer");
    assert_eq!(column.null_count, 2);
    assert_eq!(column.min, None);
    assert_eq!(column.max, None);
    assert_eq!(column.mean, None);
    assert_eq!(column.sum, Some(Number { bits: 0.0f64.to_bits() }));
    assert!(!column.check_numeric_fields());
    let again = tables.drive(analyze_csv_by_uid_handler("u-e".to_string())).unwrap();
    assert_eq!(again, response);
}
