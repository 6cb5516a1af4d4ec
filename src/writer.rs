use vstd::prelude::*;
use crate::error::LinkError;
use crate::sheets::{
    add_tab_body, batch_update_url, add_tab_request, ensure_tab_result, tab_outcome, table_view,
    unit_result_view, values_body, values_url, write_outcome, write_table_request,
    write_table_result, ApiRequest, ApiRequestModel, HttpOutcome, Method,
};

verus! {

/// Where a table write stands.
pub enum WriteStage {
    /// The tab is being created, or found to exist.
    EnsuringTab,
    /// The rows are being written.
    Writing,
    /// The write has finished.
    Done,
}

/// What a table write asks for next.
pub enum WriteStep {
    /// Send this request and hand its outcome to `advance`.
    Send(ApiRequest),
    /// The write has ended.
    Finished(Result<(), LinkError>),
}

pub open spec fn ensure_tab_model(id: Seq<char>, tab: Seq<char>, bearer: Seq<char>) -> ApiRequestModel {
    ApiRequestModel { method: Method::Post, url: batch_update_url(id), bearer, body: Some(add_tab_body(tab)) }
}

pub open spec fn write_model(id: Seq<char>, tab: Seq<char>, rows: Seq<Seq<Seq<char>>>, bearer: Seq<char>) -> ApiRequestModel {
    ApiRequestModel { method: Method::Put, url: values_url(id, tab), bearer, body: Some(values_body(rows)) }
}

/// The write of a table of strings into a named tab of a spreadsheet: the tab
/// is ensured first, then the rows replace what stands from its top-left cell on.
pub struct TableWrite {
    pub spreadsheet_id: String,
    pub tab: String,
    pub rows: Vec<Vec<String>>,
    pub bearer: String,
    pub stage: WriteStage,
}

impl TableWrite {
    /// Begins writing `rows` into tab `tab` of spreadsheet `spreadsheet_id`;
    /// the first request ensures the tab.
    pub fn start(spreadsheet_id: String, tab: String, rows: Vec<Vec<String>>, bearer: String) -> (r: (TableWrite, ApiRequest))
        ensures
            r.0.spreadsheet_id@ == spreadsheet_id@,
            r.0.tab@ == tab@,
            r.0.rows@ == rows@,
            r.0.bearer@ == bearer@,
            r.0.stage is EnsuringTab,
            r.1@ == ensure_tab_model(spreadsheet_id@, tab@, bearer@),
    {
        let req = add_tab_request(spreadsheet_id.as_str(), tab.as_str(), bearer.as_str());
        (TableWrite { spreadsheet_id, tab, rows, bearer, stage: WriteStage::EnsuringTab }, req)
    }

    /// Takes the outcome of the request last asked for and says what comes next.
    /// A tab that exists already counts as ensured; any other failure ends the
    /// write with it.
    pub fn advance(&mut self, outcome: HttpOutcome) -> (r: WriteStep)
        requires
            !(old(self).stage is Done),
        ensures
            final(self).spreadsheet_id@ == old(self).spreadsheet_id@,
            final(self).tab@ == old(self).tab@,
            final(self).rows@ == old(self).rows@,
            final(self).bearer@ == old(self).bearer@,
            old(self).stage is EnsuringTab ==> match tab_outcome(outcome@) {
                Ok(_) => final(self).stage is Writing && (r matches WriteStep::Send(req) && req@
                    == write_model(
                    old(self).spreadsheet_id@,
                    old(self).tab@,
                    table_view(old(self).rows@),
                    old(self).bearer@,
                )),
                Err(e) => final(self).stage is Done && (r matches WriteStep::Finished(Err(k)) && k@ == e),
            },
            old(self).stage is Writing ==> (final(self).stage is Done && (r matches WriteStep::Finished(res) && unit_result_view(res) == write_outcome(outcome@))),
    {
        match self.stage {
            WriteStage::EnsuringTab => {
                match ensure_tab_result(outcome) {
                    Ok(()) => {
                        self.stage = WriteStage::Writing;
                        WriteStep::Send(
                            write_table_request(
                                self.spreadsheet_id.as_str(),
                                self.tab.as_str(),
                                &self.rows,
                                self.bearer.as_str(),
                            ),
                        )
                    },
                    Err(e) => {
                        self.stage = WriteStage::Done;
                        WriteStep::Finished(Err(e))
                    },
                }
            },
            _ => {
                self.stage = WriteStage::Done;
                WriteStep::Finished(write_table_result(outcome))
            },
        }
    }
}

} // verus!
