use vstd::prelude::*;
use vstd::pervasive::{arbitrary, unreached};
use crate::credential::{with_spreadsheet_id, Storage};
use crate::error::{result_view, ErrorModel, LinkError, ReplyField};
use crate::json::{is_json, json_member_str, member_str, parses_as_json};
use crate::sheets::{
    add_tab_body, add_tab_request, batch_update_url, create_body, create_spreadsheet_request,
    get_spreadsheet_request, is_success, rename_first_tab_body, rename_first_tab_request,
    spreadsheet_url, ApiRequest, ApiRequestModel, HttpOutcome, Method, OutcomeModel, SHEETS_API,
};

verus! {

/// The name that the first tab of a new spreadsheet is given.
pub const FIRST_TAB: &'static str = "SummaryByDate";

/// The names of the tabs that are added to a new spreadsheet, in order.
pub const SECOND_TAB: &'static str = "SummaryBySession";
pub const THIRD_TAB: &'static str = "DetailsSessions";
pub const FOURTH_TAB: &'static str = "DetailsSessionEvents";

/// How many tabs are added to a new spreadsheet after the first.
pub const EXTRA_TAB_COUNT: usize = 3;

pub open spec fn extra_tab(i: nat) -> Seq<char> {
    if i == 0 {
        SECOND_TAB@
    } else if i == 1 {
        THIRD_TAB@
    } else {
        FOURTH_TAB@
    }
}

fn extra_tab_name(i: usize) -> (r: &'static str)
    requires
        i < EXTRA_TAB_COUNT,
    ensures
        r@ == extra_tab(i as nat),
{
    if i == 0 {
        SECOND_TAB
    } else if i == 1 {
        THIRD_TAB
    } else {
        FOURTH_TAB
    }
}

/// Where the provisioning of the spreadsheet stands: which request is out.
pub enum ContainerStage {
    /// The stored spreadsheet `id` is being read, to learn whether it still exists.
    Verifying { id: String },
    /// A new spreadsheet is being created.
    Creating,
    /// The first tab of the new spreadsheet `id` is being renamed.
    Renaming { id: String },
    /// Extra tab number `index` of the new spreadsheet `id` is being added.
    AddingTab { id: String, index: usize },
    /// Provisioning has finished.
    Done,
}

/// The mathematical form of a [`ContainerStage`].
pub enum StageModel {
    Verifying(Seq<char>),
    Creating,
    Renaming(Seq<char>),
    AddingTab(Seq<char>, nat),
    Done,
}

impl View for ContainerStage {
    type V = StageModel;

    open spec fn view(&self) -> StageModel {
        match self {
            ContainerStage::Verifying { id } => StageModel::Verifying(id@),
            ContainerStage::Creating => StageModel::Creating,
            ContainerStage::Renaming { id } => StageModel::Renaming(id@),
            ContainerStage::AddingTab { id, index } => StageModel::AddingTab(id@, *index as nat),
            ContainerStage::Done => StageModel::Done,
        }
    }
}

/// A stage is well formed where its tab number names one of the extra tabs.
pub open spec fn stage_wf(s: StageModel) -> bool {
    s matches StageModel::AddingTab(_, i) ==> i < EXTRA_TAB_COUNT
}

/// How many answers a stage can still wait for, at most.
pub open spec fn steps_left(s: StageModel) -> nat {
    match s {
        StageModel::Verifying(_) => 6,
        StageModel::Creating => 5,
        StageModel::Renaming(_) => 4,
        StageModel::AddingTab(_, i) => (3 - i) as nat,
        StageModel::Done => 0,
    }
}

/// What the provisioning asks for next.
pub enum ContainerStep {
    /// Send this request and hand its outcome to `advance`.
    Send(ApiRequest),
    /// Provisioning has ended: with the spreadsheet's id, or the failure.
    Finished(Result<String, LinkError>),
}

/// The mathematical form of a [`ContainerStep`].
pub enum StepModel {
    Send(ApiRequestModel),
    Finished(Result<Seq<char>, ErrorModel>),
}

impl View for ContainerStep {
    type V = StepModel;

    open spec fn view(&self) -> StepModel {
        match self {
            ContainerStep::Send(req) => StepModel::Send(req@),
            ContainerStep::Finished(r) => StepModel::Finished(result_view(*r)),
        }
    }
}

pub open spec fn create_step(title: Seq<char>, bearer: Seq<char>) -> StepModel {
    StepModel::Send(
        ApiRequestModel {
            method: Method::Post,
            url: SHEETS_API@,
            bearer,
            body: Some(create_body(title)),
        },
    )
}

pub open spec fn rename_step(id: Seq<char>, bearer: Seq<char>) -> StepModel {
    StepModel::Send(
        ApiRequestModel {
            method: Method::Post,
            url: batch_update_url(id),
            bearer,
            body: Some(rename_first_tab_body(FIRST_TAB@)),
        },
    )
}

pub open spec fn add_tab_step(id: Seq<char>, i: nat, bearer: Seq<char>) -> StepModel {
    StepModel::Send(
        ApiRequestModel {
            method: Method::Post,
            url: batch_update_url(id),
            bearer,
            body: Some(add_tab_body(extra_tab(i))),
        },
    )
}

pub open spec fn failed(e: ErrorModel) -> StepModel {
    StepModel::Finished(Err(e))
}

/// The first stage and request of provisioning a spreadsheet named `title`,
/// given the stored spreadsheet id: a stored id is checked first; without one a
/// spreadsheet is created.
pub open spec fn container_start(cached: Option<Seq<char>>, title: Seq<char>, bearer: Seq<char>) -> (StageModel, StepModel) {
    match cached {
        Some(id) => (
            StageModel::Verifying(id),
            StepModel::Send(
                ApiRequestModel { method: Method::Get, url: spreadsheet_url(id), bearer, body: None },
            ),
        ),
        None => (StageModel::Creating, create_step(title, bearer)),
    }
}

/// One transition of provisioning, on the outcome `o` of the request that
/// `stage` sent: the next stage, what to do next, and the spreadsheet id to save.
///
/// A stored spreadsheet that still exists is kept. Otherwise a new one is
/// created, its first tab renamed and the three extra tabs added, one at a
/// time. A rename or tab creation that fails, refused by the service or not
/// sent at all, is passed over: the spreadsheet counts as provisioned once its
/// creation has succeeded. The id of the new spreadsheet is returned and saved
/// once all its tabs have been asked for. A check or a creation that cannot be
/// sent ends provisioning with that failure.
pub open spec fn container_next(title: Seq<char>, bearer: Seq<char>, stage: StageModel, o: OutcomeModel) -> (StageModel, StepModel, Option<Seq<char>>) {
    match (stage, o) {
        (StageModel::Verifying(_), OutcomeModel::Unsent(d)) => (
            StageModel::Done,
            failed(ErrorModel::Transport(d)),
            None,
        ),
        (StageModel::Creating, OutcomeModel::Unsent(d)) => (
            StageModel::Done,
            failed(ErrorModel::Transport(d)),
            None,
        ),
        (StageModel::Verifying(id), OutcomeModel::Answered(status, _)) => if is_success(status) {
            (StageModel::Done, StepModel::Finished(Ok(id)), None)
        } else {
            (StageModel::Creating, create_step(title, bearer), None)
        },
        (StageModel::Creating, OutcomeModel::Answered(status, body)) => if !is_success(status) {
            (StageModel::Done, failed(ErrorModel::Status(status, body)), None)
        } else if !parses_as_json(body) {
            (StageModel::Done, failed(ErrorModel::NotJson), None)
        } else {
            match json_member_str(body, "spreadsheetId"@) {
                None => (
                    StageModel::Done,
                    failed(ErrorModel::MissingField(ReplyField::SpreadsheetId)),
                    None,
                ),
                Some(id) => (StageModel::Renaming(id), rename_step(id, bearer), None),
            }
        },
        (StageModel::Renaming(id), _) => (
            StageModel::AddingTab(id, 0),
            add_tab_step(id, 0, bearer),
            None,
        ),
        (StageModel::AddingTab(id, i), _) => if i + 1 < EXTRA_TAB_COUNT {
            (StageModel::AddingTab(id, i + 1), add_tab_step(id, i + 1, bearer), None)
        } else {
            (StageModel::Done, StepModel::Finished(Ok(id)), Some(id))
        },
        // A finished job is never advanced; `advance` requires an unfinished one.
        (StageModel::Done, _) => arbitrary(),
    }
}

/// The provisioning of the one spreadsheet that the tabs live in: a machine
/// that asks for one request at a time and is told how each ended.
pub struct ContainerJob {
    pub title: String,
    pub bearer: String,
    pub stage: ContainerStage,
}

impl ContainerJob {
    /// Begins provisioning a spreadsheet named `title`, with the access token
    /// `bearer`; returns the job and its first request.
    pub fn start(store: &Storage, title: String, bearer: String) -> (r: (ContainerJob, ApiRequest))
        ensures
            r.0.title@ == title@,
            r.0.bearer@ == bearer@,
            stage_wf(r.0.stage@),
            (r.0.stage@, StepModel::Send(r.1@)) == container_start(store@.spreadsheet_id, title@, bearer@),
    {
        match store.load_spreadsheet_id() {
            Some(id) => {
                let req = get_spreadsheet_request(id.as_str(), bearer.as_str());
                (ContainerJob { title, bearer, stage: ContainerStage::Verifying { id } }, req)
            },
            None => {
                let req = create_spreadsheet_request(title.as_str(), bearer.as_str());
                (ContainerJob { title, bearer, stage: ContainerStage::Creating }, req)
            },
        }
    }

    /// Whether provisioning has finished.
    pub fn is_done(&self) -> (r: bool)
        ensures
            r == (self.stage@ is Done),
    {
        match self.stage {
            ContainerStage::Done => true,
            _ => false,
        }
    }

    /// Takes the outcome of the request last asked for and says what comes
    /// next; saves the new spreadsheet's id in `store` when it is provisioned.
    pub fn advance(&mut self, store: &mut Storage, outcome: HttpOutcome) -> (r: ContainerStep)
        requires
            stage_wf(old(self).stage@),
            !(old(self).stage@ is Done),
        ensures
            final(self).title@ == old(self).title@,
            final(self).bearer@ == old(self).bearer@,
            stage_wf(final(self).stage@),
            final(self).stage@ is Done || steps_left(final(self).stage@) < steps_left(old(self).stage@),
            (final(self).stage@, r@) == ({
                let n = container_next(old(self).title@, old(self).bearer@, old(self).stage@, outcome@);
                (n.0, n.1)
            }),
            final(store)@ == match container_next(old(self).title@, old(self).bearer@, old(self).stage@, outcome@).2 {
                Some(id) => with_spreadsheet_id(old(store)@, id),
                None => old(store)@,
            },
    {
        let mut stage = ContainerStage::Done;
        std::mem::swap(&mut stage, &mut self.stage);
        match stage {
            ContainerStage::Verifying { id } => {
                let answered_ok = match outcome {
                    HttpOutcome::Unsent { detail } => {
                        return ContainerStep::Finished(Err(LinkError::Transport { detail }));
                    },
                    HttpOutcome::Answered { status, .. } => 200 <= status && status <= 299,
                };
                if answered_ok {
                    ContainerStep::Finished(Ok(id))
                } else {
                    self.stage = ContainerStage::Creating;
                    ContainerStep::Send(create_spreadsheet_request(self.title.as_str(), self.bearer.as_str()))
                }
            },
            ContainerStage::Creating => {
                let (status, body) = match outcome {
                    HttpOutcome::Unsent { detail } => {
                        return ContainerStep::Finished(Err(LinkError::Transport { detail }));
                    },
                    HttpOutcome::Answered { status, body } => (status, body),
                };
                if !(200 <= status && status <= 299) {
                    return ContainerStep::Finished(Err(LinkError::Status { status, body }));
                }
                if !is_json(body.as_str()) {
                    return ContainerStep::Finished(Err(LinkError::NotJson));
                }
                match member_str(body.as_str(), "spreadsheetId") {
                    None => ContainerStep::Finished(
                        Err(LinkError::MissingField { field: ReplyField::SpreadsheetId }),
                    ),
                    Some(id) => {
                        let req = rename_first_tab_request(id.as_str(), FIRST_TAB, self.bearer.as_str());
                        self.stage = ContainerStage::Renaming { id };
                        ContainerStep::Send(req)
                    },
                }
            },
            ContainerStage::Renaming { id } => {
                let req = add_tab_request(id.as_str(), extra_tab_name(0), self.bearer.as_str());
                self.stage = ContainerStage::AddingTab { id, index: 0 };
                ContainerStep::Send(req)
            },
            ContainerStage::AddingTab { id, index } => {
                if index + 1 < EXTRA_TAB_COUNT {
                    let req = add_tab_request(id.as_str(), extra_tab_name(index + 1), self.bearer.as_str());
                    self.stage = ContainerStage::AddingTab { id, index: index + 1 };
                    ContainerStep::Send(req)
                } else {
                    store.save_spreadsheet_id(id.clone());
                    ContainerStep::Finished(Ok(id))
                }
            },
            ContainerStage::Done => unreached(),
        }
    }
}

/// Provisioning does not stop at a failed rename or tab creation: once the
/// spreadsheet `id` is created, whatever comes of the rename and of each of the
/// three tab creations (any status, or no answer at all), the three tabs are
/// all asked for, and provisioning ends with `id` and saves it.
pub proof fn lemma_failed_tabs_do_not_abort(
    title: Seq<char>,
    bearer: Seq<char>,
    id: Seq<char>,
    outcomes: Seq<OutcomeModel>,
)
    requires
        outcomes.len() == 4,
    ensures
        ({
            let a = container_next(title, bearer, StageModel::Renaming(id), outcomes[0]);
            let b = container_next(title, bearer, a.0, outcomes[1]);
            let c = container_next(title, bearer, b.0, outcomes[2]);
            let d = container_next(title, bearer, c.0, outcomes[3]);
            &&& a.1 == add_tab_step(id, 0, bearer)
            &&& b.1 == add_tab_step(id, 1, bearer)
            &&& c.1 == add_tab_step(id, 2, bearer)
            &&& d.0 == StageModel::Done
            &&& d.1 == StepModel::Finished(Ok(id))
            &&& d.2 == Some(id)
        }),
{
}

} // verus!
