//! Jobs: the scans that the server runs on an upload.

use crate::request::{
    borrowed, owned_text_of, receive_response, received_response, Body, BodyView, Payload,
    Request, RequestView,
};
use crate::text::{decimal, decimal_i32};
use crate::{
    outcome, Failure, Fossology, FossologyError, FossologyResponse, FossologyView, InfoWithNumber,
};
use vstd::prelude::*;

verus! {

/// A job that the server has accepted.
#[derive(Debug)]
pub struct ScheduledJob {
    pub id: i32,
}

/// Which agents take part in the analysis of an upload.
#[derive(Debug)]
pub struct ScheduleAgents {
    pub analysis: Analysis,
    pub decider: Decider,
    pub reuse: Reuse,
}

/// The scanners to run.
#[derive(Debug)]
pub struct Analysis {
    pub bucket: bool,
    pub copyright_email_author: bool,
    pub ecc: bool,
    pub keyword: bool,
    pub mime: bool,
    pub monk: bool,
    pub nomos: bool,
    pub ojo: bool,
    pub package: bool,
}

/// The deciders to run on what the scanners find.
#[derive(Debug)]
pub struct Decider {
    pub nomos_monk: bool,
    /// The other deciders only work while this one is off, so it cannot be
    /// switched on.
    bulk_reused: bool,
    pub new_scanner: bool,
    pub ojo_decider: bool,
}

/// What to take over from an earlier upload.
#[derive(Debug)]
pub struct Reuse {
    pub reuse_upload: i32,
    pub reuse_group: String,
    pub reuse_main: bool,
    pub reuse_enhanced: bool,
    pub reuse_report: bool,
    pub reuse_copyright: bool,
}

impl Default for Analysis {
    /// No scanner.
    fn default() -> (r: Self)
        ensures
            r == (Analysis {
                bucket: false,
                copyright_email_author: false,
                ecc: false,
                keyword: false,
                mime: false,
                monk: false,
                nomos: false,
                ojo: false,
                package: false,
            }),
    {
        Analysis {
            bucket: false,
            copyright_email_author: false,
            ecc: false,
            keyword: false,
            mime: false,
            monk: false,
            nomos: false,
            ojo: false,
            package: false,
        }
    }
}

/// The deciders as the contracts speak of them.
pub struct DeciderView {
    pub nomos_monk: bool,
    pub bulk_reused: bool,
    pub new_scanner: bool,
    pub ojo_decider: bool,
}

impl View for Decider {
    type V = DeciderView;

    closed spec fn view(&self) -> DeciderView {
        DeciderView {
            nomos_monk: self.nomos_monk,
            bulk_reused: self.bulk_reused,
            new_scanner: self.new_scanner,
            ojo_decider: self.ojo_decider,
        }
    }
}

impl Decider {
    /// What the other deciders need in order to work: that decisions are not
    /// taken over in bulk.
    pub open spec fn wf(&self) -> bool {
        !self@.bulk_reused
    }

    /// Whether decisions are taken over in bulk.
    pub fn bulk_reused(&self) -> (r: bool)
        ensures
            r == self@.bulk_reused,
    {
        self.bulk_reused
    }
}

impl Default for Decider {
    /// No decider.
    fn default() -> (r: Self)
        ensures
            r.wf(),
            r@ == (DeciderView {
                nomos_monk: false,
                bulk_reused: false,
                new_scanner: false,
                ojo_decider: false,
            }),
    {
        Decider { nomos_monk: false, bulk_reused: false, new_scanner: false, ojo_decider: false }
    }
}

impl Default for Reuse {
    /// Nothing is taken over.
    fn default() -> (r: Self)
        ensures
            r.reuse_upload == 0,
            r.reuse_group@ == Seq::<char>::empty(),
            !r.reuse_main,
            !r.reuse_enhanced,
            !r.reuse_report,
            !r.reuse_copyright,
    {
        Reuse {
            reuse_upload: 0,
            reuse_group: String::new(),
            reuse_main: false,
            reuse_enhanced: false,
            reuse_report: false,
            reuse_copyright: false,
        }
    }
}

impl Default for ScheduleAgents {
    /// No agent at all.
    fn default() -> (r: Self)
        ensures
            r.analysis == (Analysis {
                bucket: false,
                copyright_email_author: false,
                ecc: false,
                keyword: false,
                mime: false,
                monk: false,
                nomos: false,
                ojo: false,
                package: false,
            }),
            r.decider.wf(),
            r.decider@ == (DeciderView {
                nomos_monk: false,
                bulk_reused: false,
                new_scanner: false,
                ojo_decider: false,
            }),
            r.reuse.reuse_upload == 0,
            r.reuse.reuse_group@ == Seq::<char>::empty(),
            !r.reuse.reuse_main,
            !r.reuse.reuse_enhanced,
            !r.reuse.reuse_report,
            !r.reuse.reuse_copyright,
    {
        ScheduleAgents {
            analysis: Analysis::default(),
            decider: Decider::default(),
            reuse: Reuse::default(),
        }
    }
}

/// A job as the server lists it.
#[derive(Debug)]
pub struct Job {
    pub id: i32,
    pub name: String,
    pub queue_date: String,
    pub upload_id: String,
    pub user_id: String,
    pub group_id: String,
    pub eta: i32,
    pub status: JobStatus,
}

/// How far a job has come.
#[derive(Debug, PartialEq, Eq, Structural)]
pub enum JobStatus {
    Completed,
    Failed,
    Queued,
    Processing,
}

/// How an optional number is written.
pub open spec fn decimal_of(value: Option<i32>) -> Option<Seq<char>> {
    match value {
        Some(value) => Some(decimal(value as int)),
        None => None,
    }
}

impl RequestView {
    /// This request with one more parameter in its query where there is a
    /// value for it.
    pub open spec fn query_if(self, name: Seq<char>, value: Option<Seq<char>>) -> RequestView {
        match value {
            Some(value) => self.query(name, value),
            None => self,
        }
    }
}

impl FossologyView {
    /// What is asked to have the jobs listed: those of one upload where
    /// `upload_id` names it, as one group sees them where `group_name` names
    /// it, and only the page `page` of pages of `limit` jobs where these are
    /// given.
    pub open spec fn jobs_request(
        self,
        upload_id: Option<i32>,
        group_name: Option<Seq<char>>,
        limit: Option<i32>,
        page: Option<i32>,
    ) -> RequestView {
        self.get_with_token("jobs"@).query_if("upload"@, decimal_of(upload_id)).header_if(
            "groupName"@,
            group_name,
        ).header_if("limit"@, decimal_of(limit)).header_if("page"@, decimal_of(page))
    }

    /// What is asked to have the upload `upload_id` in the folder
    /// `folder_id` analysed by `analysis`.
    pub open spec fn schedule_request(
        self,
        folder_id: int,
        upload_id: int,
        group_name: Option<Seq<char>>,
        analysis: ScheduleAgents,
    ) -> RequestView {
        self.post_with_token("jobs"@).body(BodyView::Agents(analysis)).header_if(
            "groupName"@,
            group_name,
        ).header("folderId"@, decimal(folder_id)).header("uploadId"@, decimal(upload_id))
    }
}

/// What to ask to have the jobs listed.
pub fn get_jobs<'a>(
    fossology: &Fossology,
    upload_id: Option<i32>,
    group_name: Option<String>,
    limit: Option<i32>,
    page: Option<i32>,
) -> (r: Request<'a>)
    ensures
        r@ == fossology@.jobs_request(upload_id, owned_text_of(group_name), limit, page),
{
    let mut request = fossology.init_get_with_token("jobs");
    request = match upload_id {
        Some(upload_id) => request.query("upload", decimal_i32(upload_id).as_str()),
        None => request,
    };
    request = request.header_if("groupName", borrowed(&group_name));
    request = match limit {
        Some(limit) => request.header("limit", decimal_i32(limit).as_str()),
        None => request,
    };
    request = match page {
        Some(page) => request.header("page", decimal_i32(page).as_str()),
        None => request,
    };
    request
}

/// The jobs in what came back, as the contracts speak of it. Where the
/// server reported an error there are none: the operation fails with the
/// report.
pub open spec fn jobs_listed(reply: Result<Payload<Vec<Job>>, FossologyError>) -> Result<
    FossologyResponse<Vec<Job>>,
    Failure,
> {
    match received_response(reply) {
        Ok(jobs) => Ok(FossologyResponse::Response(jobs)),
        Err(failure) => Err(failure),
    }
}

/// The jobs in what came back. What is returned in `Ok` is always a list of
/// jobs: where the server reported an error, the operation fails with the
/// report, as every other operation does.
pub fn jobs_reply(reply: Result<Payload<Vec<Job>>, FossologyError>) -> (r: Result<
    FossologyResponse<Vec<Job>>,
    FossologyError,
>)
    ensures
        outcome(r) == jobs_listed(reply),
{
    match receive_response(reply) {
        Ok(jobs) => Ok(FossologyResponse::Response(jobs)),
        Err(e) => Err(e),
    }
}

/// What to ask to have the upload `upload_id` in the folder `folder_id`
/// analysed by `analysis`.
pub fn schedule_analysis<'a>(
    fossology: &Fossology,
    folder_id: i32,
    upload_id: i32,
    group_name: Option<String>,
    analysis: &'a ScheduleAgents,
) -> (r: Request<'a>)
    ensures
        r@ == fossology@.schedule_request(
            folder_id as int,
            upload_id as int,
            owned_text_of(group_name),
            *analysis,
        ),
{
    fossology.init_post_with_token("jobs").body(Body::Agents(analysis)).header_if(
        "groupName",
        borrowed(&group_name),
    ).header("folderId", decimal_i32(folder_id).as_str()).header(
        "uploadId",
        decimal_i32(upload_id).as_str(),
    )
}

/// The job that the server made, as the contracts speak of it: its id is
/// the number in the message. Where the server reported an error there is
/// none: the operation fails with the report.
pub open spec fn scheduled(reply: Result<Payload<InfoWithNumber>, FossologyError>) -> Result<
    FossologyResponse<ScheduledJob>,
    Failure,
> {
    match received_response(reply) {
        Ok(info) => Ok(FossologyResponse::Response(ScheduledJob { id: info.message })),
        Err(failure) => Err(failure),
    }
}

/// The job that the server made. What is returned in `Ok` is always a job:
/// where the server reported an error, the operation fails with the report,
/// as every other operation does.
pub fn schedule_reply(reply: Result<Payload<InfoWithNumber>, FossologyError>) -> (r: Result<
    FossologyResponse<ScheduledJob>,
    FossologyError,
>)
    ensures
        outcome(r) == scheduled(reply),
{
    match receive_response(reply) {
        Ok(info) => Ok(FossologyResponse::Response(ScheduledJob { id: info.message })),
        Err(e) => Err(e),
    }
}

} // verus!
