use sheets_link::container::{ContainerJob, ContainerStep};
use sheets_link::credential::Storage;
use sheets_link::error::{LinkError, ReplyField};
use sheets_link::sheets::{
    add_tab_request, create_spreadsheet_request, ensure_tab_result, get_spreadsheet_request,
    rename_first_tab_request, write_table_request, write_table_result, ApiRequest, HttpOutcome,
    Method,
};
use sheets_link::writer::{TableWrite, WriteStep};

fn answered(status: u16, body: &str) -> HttpOutcome {
    HttpOutcome::Answered { status, body: body.to_string() }
}

fn sent(step: ContainerStep) -> ApiRequest {
    match step {
        ContainerStep::Send(req) => req,
        ContainerStep::Finished(r) => panic!("finished early: {:?}", r),
    }
}

#[test]
fn request_shapes() {
    let get = get_spreadsheet_request("ID", "tok");
    assert_eq!(get.method, Method::Get);
    assert_eq!(get.url, "https://sheets.googleapis.com/v4/spreadsheets/ID");
    assert_eq!(get.bearer, "tok");
    assert_eq!(get.body, None);
    let create = create_spreadsheet_request("My \"Log\"", "tok");
    assert_eq!(create.method, Method::Post);
    assert_eq!(create.url, "https://sheets.googleapis.com/v4/spreadsheets");
    assert_eq!(create.body.as_deref(), Some(r#"{"properties":{"title":"My \"Log\""}}"#));
    let rename = rename_first_tab_request("ID", "SummaryByDate", "tok");
    assert_eq!(rename.url, "https://sheets.googleapis.com/v4/spreadsheets/ID:batchUpdate");
    assert_eq!(
        rename.body.as_deref(),
        Some(r#"{"requests":[{"updateSheetProperties":{"properties":{"sheetId":0,"title":"SummaryByDate"},"fields":"title"}}]}"#)
    );
    let add = add_tab_request("ID", "Tab", "tok");
    assert_eq!(add.body.as_deref(), Some(r#"{"requests":[{"addSheet":{"properties":{"title":"Tab"}}}]}"#));
}

#[test]
fn write_request_shape() {
    let rows = vec![vec!["a".to_string(), "b".to_string()], vec![], vec!["=1+1".to_string()]];
    let req = write_table_request("ID", "Sheet1", &rows, "tok");
    assert_eq!(req.method, Method::Put);
    assert_eq!(req.url, "https://sheets.googleapis.com/v4/spreadsheets/ID/values/Sheet1!A1?valueInputOption=USER_ENTERED");
    assert_eq!(req.body.as_deref(), Some(r#"{"values":[["a","b"],[],["=1+1"]]}"#));
    let empty = write_table_request("ID", "T", &vec![], "tok");
    assert_eq!(empty.body.as_deref(), Some(r#"{"values":[]}"#));
}

#[test]
fn ensure_tab_twice_succeeds() {
    assert_eq!(ensure_tab_result(answered(200, "{}")), Ok(()));
    let repeat = r#"{"error":{"code":400,"message":"Invalid requests[0].addSheet: A sheet with the name \"Tab\" already exists. Please enter another name."}}"#;
    assert_eq!(ensure_tab_result(answered(400, repeat)), Ok(()));
}

#[test]
fn ensure_tab_other_failures_propagate() {
    assert_eq!(
        ensure_tab_result(answered(403, "forbidden")),
        Err(LinkError::Status { status: 403, body: "forbidden".to_string() })
    );
    assert_eq!(
        ensure_tab_result(HttpOutcome::Unsent { detail: "dns".to_string() }),
        Err(LinkError::Transport { detail: "dns".to_string() })
    );
}

#[test]
fn write_result_by_status() {
    assert_eq!(write_table_result(answered(200, "")), Ok(()));
    assert_eq!(write_table_result(answered(299, "")), Ok(()));
    assert_eq!(
        write_table_result(answered(500, "oops")),
        Err(LinkError::Status { status: 500, body: "oops".to_string() })
    );
}

#[test]
fn container_bootstrap_survives_failed_tab() {
    let mut store = Storage::empty();
    let (mut job, first) = ContainerJob::start(&store, "Log".to_string(), "tok".to_string());
    assert_eq!(first.url, "https://sheets.googleapis.com/v4/spreadsheets");
    let rename = sent(job.advance(&mut store, answered(200, r#"{"spreadsheetId":"NEW"}"#)));
    assert_eq!(rename.url, "https://sheets.googleapis.com/v4/spreadsheets/NEW:batchUpdate");
    let tab1 = sent(job.advance(&mut store, answered(200, "{}")));
    assert!(tab1.body.unwrap().contains("SummaryBySession"));
    let tab2 = sent(job.advance(&mut store, answered(500, "internal")));
    assert!(tab2.body.unwrap().contains("DetailsSessions"));
    let tab3 = sent(job.advance(&mut store, answered(200, "{}")));
    assert!(tab3.body.unwrap().contains("DetailsSessionEvents"));
    assert_eq!(store.load_spreadsheet_id(), None);
    match job.advance(&mut store, answered(200, "{}")) {
        ContainerStep::Finished(r) => assert_eq!(r, Ok("NEW".to_string())),
        ContainerStep::Send(_) => panic!("more requests than tabs"),
    }
    assert!(job.is_done());
    assert_eq!(store.load_spreadsheet_id(), Some("NEW".to_string()));
}

#[test]
fn container_keeps_existing_spreadsheet() {
    let mut store = Storage::from_records(None, Some("OLD".to_string()));
    let (mut job, first) = ContainerJob::start(&store, "Log".to_string(), "tok".to_string());
    assert_eq!(first.method, Method::Get);
    assert_eq!(first.url, "https://sheets.googleapis.com/v4/spreadsheets/OLD");
    match job.advance(&mut store, answered(200, "{}")) {
        ContainerStep::Finished(r) => assert_eq!(r, Ok("OLD".to_string())),
        ContainerStep::Send(_) => panic!("recreated an existing spreadsheet"),
    }
}

#[test]
fn container_recreates_missing_spreadsheet() {
    let mut store = Storage::from_records(None, Some("GONE".to_string()));
    let (mut job, _) = ContainerJob::start(&store, "Log".to_string(), "tok".to_string());
    let create = sent(job.advance(&mut store, answered(404, "not found")));
    assert_eq!(create.method, Method::Post);
    assert_eq!(create.body.as_deref(), Some(r#"{"properties":{"title":"Log"}}"#));
}

#[test]
fn container_creation_failures() {
    let mut store = Storage::empty();
    let (mut job, _) = ContainerJob::start(&store, "Log".to_string(), "tok".to_string());
    match job.advance(&mut store, answered(200, r#"{"other":1}"#)) {
        ContainerStep::Finished(r) => assert_eq!(r, Err(LinkError::MissingField { field: ReplyField::SpreadsheetId })),
        ContainerStep::Send(_) => panic!("went on without an id"),
    }
    let (mut job, _) = ContainerJob::start(&store, "Log".to_string(), "tok".to_string());
    match job.advance(&mut store, answered(401, "denied")) {
        ContainerStep::Finished(r) => assert_eq!(r, Err(LinkError::Status { status: 401, body: "denied".to_string() })),
        ContainerStep::Send(_) => panic!("went on after a refusal"),
    }
    let (mut job, _) = ContainerJob::start(&store, "Log".to_string(), "tok".to_string());
    match job.advance(&mut store, HttpOutcome::Unsent { detail: "offline".to_string() }) {
        ContainerStep::Finished(r) => assert_eq!(r, Err(LinkError::Transport { detail: "offline".to_string() })),
        ContainerStep::Send(_) => panic!("went on after a transport failure"),
    }
    assert_eq!(store.load_spreadsheet_id(), None);
}

#[test]
fn table_write_stops_on_tab_failure() {
    let (mut w, first) = TableWrite::start("ID".to_string(), "T".to_string(), vec![], "tok".to_string());
    assert_eq!(first.url, "https://sheets.googleapis.com/v4/spreadsheets/ID:batchUpdate");
    match w.advance(answered(403, "no")) {
        WriteStep::Finished(r) => assert_eq!(r, Err(LinkError::Status { status: 403, body: "no".to_string() })),
        WriteStep::Send(_) => panic!("wrote after a refused tab"),
    }
}

#[test]
fn container_bootstrap_survives_unsent_rename_and_tab() {
    let mut store = Storage::empty();
    let (mut job, _) = ContainerJob::start(&store, "Log".to_string(), "tok".to_string());
    let _rename = sent(job.advance(&mut store, answered(200, r#"{"spreadsheetId":"S"}"#)));
    let tab1 = sent(job.advance(&mut store, HttpOutcome::Unsent { detail: "reset".to_string() }));
    assert!(tab1.body.unwrap().contains("SummaryBySession"));
    let tab2 = sent(job.advance(&mut store, HttpOutcome::Unsent { detail: "reset".to_string() }));
    assert!(tab2.body.unwrap().contains("DetailsSessions"));
    let tab3 = sent(job.advance(&mut store, answered(500, "internal")));
    assert!(tab3.body.unwrap().contains("DetailsSessionEvents"));
    match job.advance(&mut store, HttpOutcome::Unsent { detail: "timeout".to_string() }) {
        ContainerStep::Finished(r) => assert_eq!(r, Ok("S".to_string())),
        ContainerStep::Send(_) => panic!("more requests than tabs"),
    }
    assert_eq!(store.load_spreadsheet_id(), Some("S".to_string()));
}

#[test]
fn container_check_unsent_is_a_failure() {
    let mut store = Storage::from_records(None, Some("OLD".to_string()));
    let (mut job, _) = ContainerJob::start(&store, "Log".to_string(), "tok".to_string());
    match job.advance(&mut store, HttpOutcome::Unsent { detail: "dns".to_string() }) {
        ContainerStep::Finished(r) => assert_eq!(r, Err(LinkError::Transport { detail: "dns".to_string() })),
        ContainerStep::Send(_) => panic!("went on after a transport failure"),
    }
}

#[test]
fn titles_are_escaped_as_json() {
    let req = create_spreadsheet_request("a\tb\\c\u{1}é", "tok");
    assert_eq!(req.body.as_deref(), Some("{\"properties\":{\"title\":\"a\\tb\\\\c\\u0001é\"}}"));
}
