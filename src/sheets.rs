use vstd::prelude::*;
use crate::credential::option_view;
use crate::error::{ErrorModel, LinkError};
use crate::json::{json_string_literal, string_literal};
use crate::text::{contains, contains_text};

verus! {

/// The spreadsheet service's collection of spreadsheets.
pub const SHEETS_API: &'static str = "https://sheets.googleapis.com/v4/spreadsheets";

/// What the service's error body says when a tab of that name exists already.
pub const ALREADY_EXISTS: &'static str = "already exists";

/// The HTTP method of a request to the spreadsheet service.
#[derive(Debug, Clone, Copy, PartialEq, Eq, Structural)]
pub enum Method {
    Get,
    Post,
    Put,
}

/// A bearer-authenticated request to the spreadsheet service, with a JSON body
/// where it has one.
pub struct ApiRequest {
    pub method: Method,
    pub url: String,
    pub bearer: String,
    pub body: Option<String>,
}

/// The mathematical form of an [`ApiRequest`].
pub struct ApiRequestModel {
    pub method: Method,
    pub url: Seq<char>,
    pub bearer: Seq<char>,
    pub body: Option<Seq<char>>,
}

impl View for ApiRequest {
    type V = ApiRequestModel;

    open spec fn view(&self) -> ApiRequestModel {
        ApiRequestModel {
            method: self.method,
            url: self.url@,
            bearer: self.bearer@,
            body: option_view(self.body),
        }
    }
}

/// How a request ended: the service answered with a status and a body, or the
/// request could not be sent or its answer read.
pub enum HttpOutcome {
    Answered { status: u16, body: String },
    Unsent { detail: String },
}

/// The mathematical form of an [`HttpOutcome`].
pub enum OutcomeModel {
    Answered(u16, Seq<char>),
    Unsent(Seq<char>),
}

impl View for HttpOutcome {
    type V = OutcomeModel;

    open spec fn view(&self) -> OutcomeModel {
        match self {
            HttpOutcome::Answered { status, body } => OutcomeModel::Answered(*status, body@),
            HttpOutcome::Unsent { detail } => OutcomeModel::Unsent(detail@),
        }
    }
}

pub open spec fn is_success(status: u16) -> bool {
    200 <= status <= 299
}

pub open spec fn spreadsheet_url(id: Seq<char>) -> Seq<char> {
    SHEETS_API@ + "/"@ + id
}

pub open spec fn batch_update_url(id: Seq<char>) -> Seq<char> {
    SHEETS_API@ + "/"@ + id + ":batchUpdate"@
}

/// The range that starts at the top-left cell of `tab`, written with values
/// read as if a person had typed them.
pub open spec fn values_url(id: Seq<char>, tab: Seq<char>) -> Seq<char> {
    SHEETS_API@ + "/"@ + id + "/values/"@ + tab + "!A1?valueInputOption=USER_ENTERED"@
}

pub open spec fn create_body(title: Seq<char>) -> Seq<char> {
    "{\"properties\":{\"title\":"@ + json_string_literal(title) + "}}"@
}

/// Renames the tab with id 0, the one every new spreadsheet has.
pub open spec fn rename_first_tab_body(title: Seq<char>) -> Seq<char> {
    "{\"requests\":[{\"updateSheetProperties\":{\"properties\":{\"sheetId\":0,\"title\":"@
        + json_string_literal(title) + "},\"fields\":\"title\"}}]}"@
}

pub open spec fn add_tab_body(title: Seq<char>) -> Seq<char> {
    "{\"requests\":[{\"addSheet\":{\"properties\":{\"title\":"@ + json_string_literal(title)
        + "}}}]}"@
}

/// `items` one after another, with `sep` between each two.
pub open spec fn joined(items: Seq<Seq<char>>, sep: Seq<char>) -> Seq<char>
    decreases items.len(),
{
    if items.len() == 0 {
        Seq::empty()
    } else if items.len() == 1 {
        items[0]
    } else {
        joined(items.drop_last(), sep) + sep + items.last()
    }
}

/// A JSON array of the string literals of `cells`.
pub open spec fn row_json(cells: Seq<Seq<char>>) -> Seq<char> {
    "["@ + joined(cells.map_values(|c: Seq<char>| json_string_literal(c)), ","@) + "]"@
}

/// A JSON array of the rows of `rows`.
pub open spec fn rows_json(rows: Seq<Seq<Seq<char>>>) -> Seq<char> {
    "["@ + joined(rows.map_values(|r: Seq<Seq<char>>| row_json(r)), ","@) + "]"@
}

pub open spec fn values_body(rows: Seq<Seq<Seq<char>>>) -> Seq<char> {
    "{\"values\":"@ + rows_json(rows) + "}"@
}

pub open spec fn table_view(rows: Seq<Vec<String>>) -> Seq<Seq<Seq<char>>> {
    Seq::new(rows.len(), |i: int| Seq::new(rows[i]@.len(), |j: int| rows[i]@[j]@))
}

fn text_of(parts: &str) -> (r: String)
    ensures
        r@ == parts@,
{
    String::from_str(parts)
}

/// Appends `items` joined by `sep` to `out`.
fn append_joined(out: &mut String, items: &Vec<String>, sep: &str)
    ensures
        final(out)@ == old(out)@ + joined(Seq::new(items@.len(), |i: int| items@[i]@), sep@),
{
    let ghost start = out@;
    let ghost all = Seq::new(items@.len(), |i: int| items@[i]@);
    let mut i: usize = 0;
    while i < items.len()
        invariant
            i <= items@.len(),
            all == Seq::new(items@.len(), |k: int| items@[k]@),
            out@ == start + joined(all.subrange(0, i as int), sep@),
        decreases items@.len() - i,
    {
        proof {
            let next = all.subrange(0, i + 1);
            assert(next.drop_last() =~= all.subrange(0, i as int));
        }
        if i > 0 {
            out.append(sep);
        }
        out.append(items[i].as_str());
        i = i + 1;
        proof {
            let prev = all.subrange(0, i - 1);
            if i == 1 {
                assert(all.subrange(0, 1) =~= seq![all[0]]);
                assert(joined(prev, sep@) =~= Seq::empty());
                assert(out@ =~= start + joined(all.subrange(0, i as int), sep@));
            } else {
                assert(out@ =~= start + joined(all.subrange(0, i as int), sep@));
            }
        }
    }
    assert(all.subrange(0, i as int) =~= all);
}

fn row_text(cells: &Vec<String>) -> (r: String)
    ensures
        r@ == row_json(Seq::new(cells@.len(), |j: int| cells@[j]@)),
{
    let mut literals: Vec<String> = Vec::new();
    let mut j: usize = 0;
    while j < cells.len()
        invariant
            j <= cells@.len(),
            literals@.len() == j,
            forall|k: int| 0 <= k < j ==> #[trigger] literals@[k]@ == json_string_literal(cells@[k]@),
        decreases cells@.len() - j,
    {
        literals.push(string_literal(cells[j].as_str()));
        j = j + 1;
    }
    let mut out = text_of("[");
    append_joined(&mut out, &literals, ",");
    out.append("]");
    let ghost cells_view = Seq::new(cells@.len(), |j: int| cells@[j]@);
    assert(Seq::new(literals@.len(), |i: int| literals@[i]@) =~= cells_view.map_values(
        |c: Seq<char>| json_string_literal(c),
    ));
    out
}

fn rows_text(rows: &Vec<Vec<String>>) -> (r: String)
    ensures
        r@ == rows_json(table_view(rows@)),
{
    let mut row_texts: Vec<String> = Vec::new();
    let mut i: usize = 0;
    while i < rows.len()
        invariant
            i <= rows@.len(),
            row_texts@.len() == i,
            forall|k: int| 0 <= k < i ==> #[trigger] row_texts@[k]@ == row_json(table_view(rows@)[k]),
        decreases rows@.len() - i,
    {
        let t = row_text(&rows[i]);
        proof {
            assert(table_view(rows@)[i as int] =~= Seq::new(rows@[i as int]@.len(), |j: int| rows@[i as int]@[j]@));
        }
        row_texts.push(t);
        i = i + 1;
    }
    let mut out = text_of("[");
    append_joined(&mut out, &row_texts, ",");
    out.append("]");
    assert(Seq::new(row_texts@.len(), |k: int| row_texts@[k]@) =~= table_view(rows@).map_values(
        |r: Seq<Seq<char>>| row_json(r),
    ));
    out
}

/// The request that reads the spreadsheet `id`, to learn whether it still exists.
pub fn get_spreadsheet_request(id: &str, bearer: &str) -> (r: ApiRequest)
    ensures
        r@ == (ApiRequestModel { method: Method::Get, url: spreadsheet_url(id@), bearer: bearer@, body: None }),
{
    let mut url = text_of(SHEETS_API);
    url.append("/");
    url.append(id);
    ApiRequest { method: Method::Get, url, bearer: text_of(bearer), body: None }
}

/// The request that creates a spreadsheet named `title`.
pub fn create_spreadsheet_request(title: &str, bearer: &str) -> (r: ApiRequest)
    ensures
        r@ == (ApiRequestModel { method: Method::Post, url: SHEETS_API@, bearer: bearer@, body: Some(create_body(title@)) }),
{
    let mut body = text_of("{\"properties\":{\"title\":");
    body.append(string_literal(title).as_str());
    body.append("}}");
    ApiRequest { method: Method::Post, url: text_of(SHEETS_API), bearer: text_of(bearer), body: Some(body) }
}

fn batch_update_request(id: &str, bearer: &str, body: String) -> (r: ApiRequest)
    ensures
        r@ == (ApiRequestModel { method: Method::Post, url: batch_update_url(id@), bearer: bearer@, body: Some(body@) }),
{
    let mut url = text_of(SHEETS_API);
    url.append("/");
    url.append(id);
    url.append(":batchUpdate");
    ApiRequest { method: Method::Post, url, bearer: text_of(bearer), body: Some(body) }
}

/// The request that renames the first tab of spreadsheet `id` to `title`.
pub fn rename_first_tab_request(id: &str, title: &str, bearer: &str) -> (r: ApiRequest)
    ensures
        r@ == (ApiRequestModel { method: Method::Post, url: batch_update_url(id@), bearer: bearer@, body: Some(rename_first_tab_body(title@)) }),
{
    let mut body = text_of("{\"requests\":[{\"updateSheetProperties\":{\"properties\":{\"sheetId\":0,\"title\":");
    body.append(string_literal(title).as_str());
    body.append("},\"fields\":\"title\"}}]}");
    batch_update_request(id, bearer, body)
}

/// The request that adds a tab named `title` to spreadsheet `id`.
pub fn add_tab_request(id: &str, title: &str, bearer: &str) -> (r: ApiRequest)
    ensures
        r@ == (ApiRequestModel { method: Method::Post, url: batch_update_url(id@), bearer: bearer@, body: Some(add_tab_body(title@)) }),
{
    let mut body = text_of("{\"requests\":[{\"addSheet\":{\"properties\":{\"title\":");
    body.append(string_literal(title).as_str());
    body.append("}}}]}");
    batch_update_request(id, bearer, body)
}

/// The request that writes `rows` into tab `tab` of spreadsheet `id`, from its
/// top-left cell on, replacing what stands there.
pub fn write_table_request(id: &str, tab: &str, rows: &Vec<Vec<String>>, bearer: &str) -> (r: ApiRequest)
    ensures
        r@ == (ApiRequestModel { method: Method::Put, url: values_url(id@, tab@), bearer: bearer@, body: Some(values_body(table_view(rows@))) }),
{
    let mut url = text_of(SHEETS_API);
    url.append("/");
    url.append(id);
    url.append("/values/");
    url.append(tab);
    url.append("!A1?valueInputOption=USER_ENTERED");
    let mut body = text_of("{\"values\":");
    body.append(rows_text(rows).as_str());
    body.append("}");
    ApiRequest { method: Method::Put, url, bearer: text_of(bearer), body: Some(body) }
}

/// What creating a tab comes to: success where the service created it or
/// answers that it exists already, the failure otherwise.
pub open spec fn tab_outcome(o: OutcomeModel) -> Result<(), ErrorModel> {
    match o {
        OutcomeModel::Unsent(d) => Err(ErrorModel::Transport(d)),
        OutcomeModel::Answered(status, body) => if is_success(status) || contains_text(body, ALREADY_EXISTS@) {
            Ok(())
        } else {
            Err(ErrorModel::Status(status, body))
        },
    }
}

/// What writing a table comes to: success on a 2xx status, the failure otherwise.
pub open spec fn write_outcome(o: OutcomeModel) -> Result<(), ErrorModel> {
    match o {
        OutcomeModel::Unsent(d) => Err(ErrorModel::Transport(d)),
        OutcomeModel::Answered(status, body) => if is_success(status) {
            Ok(())
        } else {
            Err(ErrorModel::Status(status, body))
        },
    }
}

pub open spec fn unit_result_view(r: Result<(), LinkError>) -> Result<(), ErrorModel> {
    match r {
        Ok(_) => Ok(()),
        Err(e) => Err(e@),
    }
}

fn outcome_error(outcome: HttpOutcome) -> (r: LinkError)
    ensures
        r@ == match outcome@ {
            OutcomeModel::Unsent(d) => ErrorModel::Transport(d),
            OutcomeModel::Answered(status, body) => ErrorModel::Status(status, body),
        },
{
    match outcome {
        HttpOutcome::Unsent { detail } => LinkError::Transport { detail },
        HttpOutcome::Answered { status, body } => LinkError::Status { status, body },
    }
}

/// Judges the answer to a tab creation: a tab that exists already counts as
/// created, so that ensuring a tab twice succeeds twice.
pub fn ensure_tab_result(outcome: HttpOutcome) -> (r: Result<(), LinkError>)
    ensures
        unit_result_view(r) == tab_outcome(outcome@),
{
    let tolerated = match &outcome {
        HttpOutcome::Answered { status, body } => (200 <= *status && *status <= 299) || contains(body.as_str(), ALREADY_EXISTS),
        HttpOutcome::Unsent { .. } => false,
    };
    if tolerated {
        Ok(())
    } else {
        Err(outcome_error(outcome))
    }
}

/// Judges the answer to a table write.
pub fn write_table_result(outcome: HttpOutcome) -> (r: Result<(), LinkError>)
    ensures
        unit_result_view(r) == write_outcome(outcome@),
{
    let written = match &outcome {
        HttpOutcome::Answered { status, .. } => 200 <= *status && *status <= 299,
        HttpOutcome::Unsent { .. } => false,
    };
    if written {
        Ok(())
    } else {
        Err(outcome_error(outcome))
    }
}

/// Ensuring a tab is idempotent: where the first creation succeeds and the
/// service answers the repeated one that the tab exists already, with any
/// status, both count as success.
pub proof fn lemma_ensure_tab_twice(first_status: u16, first_body: Seq<char>, second_status: u16, second_body: Seq<char>)
    requires
        is_success(first_status),
        contains_text(second_body, ALREADY_EXISTS@),
    ensures
        tab_outcome(OutcomeModel::Answered(first_status, first_body)) is Ok,
        tab_outcome(OutcomeModel::Answered(second_status, second_body)) is Ok,
{
}

} // verus!
