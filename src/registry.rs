use crate::argo::{submission_matches, ArgoClient, SubmitResult, SubmitWorkflowTemplate};
use crate::config::{parameters_of, JobConfig};
use crate::ids::{ascii_alnum, uuid_text, Timestamp, SECRET_LEN};
use crate::s3::{ResultFiles, S3Handler, SignError};
use crate::sanitize::{sanitize_name, sanitized};
use crate::status::{client_status, FailedJobStatusEnum, JobStatusEnum, LifecycleStatus};
use crate::text::str_eq;
use std::collections::HashMap;
use vstd::prelude::*;

verus! {

broadcast use vstd::std_specs::hash::group_hash_axioms;

/// Why a lifecycle operation failed.
#[derive(Debug)]
pub enum JobError {
    /// No record holds the job id.
    NotFound,
    /// The secret does not match the record's (for a start: or no record).
    Unauthorized,
    /// Results were asked for before the job succeeded.
    NotReady,
    /// The orchestrator refused or failed a submission.
    Submit(String),
    /// A collaborator call (orchestrator or object store) failed.
    Collaborator(String),
    /// A download URL could not be presigned.
    Signing(SignError),
}

pub open spec fn error_message(e: JobError) -> Seq<char> {
    match e {
        JobError::NotFound => "Job not found"@,
        JobError::Unauthorized => "Unauthorized"@,
        JobError::NotReady => "Job not finished"@,
        JobError::Submit(m) => m@,
        JobError::Collaborator(m) => m@,
        JobError::Signing(_) => "Failed to sign URL"@,
    }
}

impl JobError {
    /// The caller-facing text of the error.
    pub fn message(&self) -> (r: String)
        ensures
            r@ == error_message(*self),
    {
        match self {
            JobError::NotFound => String::from_str("Job not found"),
            JobError::Unauthorized => String::from_str("Unauthorized"),
            JobError::NotReady => String::from_str("Job not finished"),
            JobError::Submit(m) => m.clone(),
            JobError::Collaborator(m) => m.clone(),
            JobError::Signing(_) => String::from_str("Failed to sign URL"),
        }
    }
}

/// A job id with the secret that authorises access to it.
pub struct Job {
    pub id: u128,
    pub secret: String,
}

pub open spec fn opt_view(o: Option<String>) -> Option<Seq<char>> {
    match o {
        Some(s) => Some(s@),
        None => None,
    }
}

pub fn clone_opt(o: &Option<String>) -> (r: Option<String>)
    ensures
        r == *o,
{
    match o {
        Some(s) => Some(s.clone()),
        None => None,
    }
}

/// Everything the registry knows of one job.
pub struct FullJobState {
    pub id: u128,
    pub argo_uid: Option<String>,
    pub argo_ressource_version: Option<String>,
    pub name: String,
    pub status: LifecycleStatus,
    pub started: Option<Timestamp>,
    pub updated: Option<Timestamp>,
    pub workflowname: Option<String>,
    pub secret: String,
    pub archived: bool,
}

/// A job record with its texts as character sequences.
pub struct FullJobStateView {
    pub id: u128,
    pub argo_uid: Option<Seq<char>>,
    pub argo_ressource_version: Option<Seq<char>>,
    pub name: Seq<char>,
    pub status: LifecycleStatus,
    pub started: Option<Timestamp>,
    pub updated: Option<Timestamp>,
    pub workflowname: Option<Seq<char>>,
    pub secret: Seq<char>,
    pub archived: bool,
}

impl View for FullJobState {
    type V = FullJobStateView;

    open spec fn view(&self) -> FullJobStateView {
        FullJobStateView {
            id: self.id,
            argo_uid: opt_view(self.argo_uid),
            argo_ressource_version: opt_view(self.argo_ressource_version),
            name: self.name@,
            status: self.status,
            started: self.started,
            updated: self.updated,
            workflowname: opt_view(self.workflowname),
            secret: self.secret@,
            archived: self.archived,
        }
    }
}

/// A record is well formed when it has an execution exactly when it left
/// `Uninitialized`, and then carries both timestamps.
pub open spec fn record_wf(r: FullJobStateView) -> bool {
    &&& (r.status is Uninitialized) == (r.workflowname is None)
    &&& !(r.status is Uninitialized) ==> r.started is Some && r.updated is Some
}

/// Every record is stored under its own id and is well formed.
pub open spec fn map_wf(m: Map<u128, FullJobStateView>) -> bool {
    forall|id: u128| #[trigger] m.contains_key(id) ==> m[id].id == id && record_wf(m[id])
}

/// The record of `id` when `secret` is its secret; else why not.
pub open spec fn access(m: Map<u128, FullJobStateView>, id: u128, secret: Seq<char>) -> Result<
    FullJobStateView,
    JobError,
> {
    if !m.contains_key(id) {
        Err(JobError::NotFound)
    } else if m[id].secret != secret {
        Err(JobError::Unauthorized)
    } else {
        Ok(m[id])
    }
}

/// A job's status as a listing shows it.
pub struct JobStatus {
    pub id: u128,
    pub status: JobStatusEnum,
    pub started: Option<Timestamp>,
    pub updated: Option<Timestamp>,
    pub name: String,
}

pub struct JobStatusView {
    pub id: u128,
    pub status: JobStatusEnum,
    pub started: Option<Timestamp>,
    pub updated: Option<Timestamp>,
    pub name: Seq<char>,
}

impl View for JobStatus {
    type V = JobStatusView;

    open spec fn view(&self) -> JobStatusView {
        JobStatusView {
            id: self.id,
            status: self.status,
            started: self.started,
            updated: self.updated,
            name: self.name@,
        }
    }
}

/// A requested job that the listing does not show, and why.
#[derive(Clone, Copy, Debug, PartialEq, Eq, Structural)]
pub struct FailedJobStatus {
    pub id: u128,
    pub status: FailedJobStatusEnum,
}

/// Answer to a listing request.
pub struct ListResponse {
    pub jobs: Vec<JobStatus>,
    pub failed: Vec<FailedJobStatus>,
}

/// The public projection of a record at time `now`: a job that has not
/// finished shows `now` as its update time.
pub open spec fn status_view(r: FullJobStateView, now: Timestamp) -> JobStatusView {
    JobStatusView {
        id: r.id,
        status: client_status(r.status),
        started: r.started,
        updated: if r.status.is_terminal() {
            r.updated
        } else {
            Some(now)
        },
        name: r.name,
    }
}

/// How a listing answers for one requested job.
pub open spec fn list_entry(
    m: Map<u128, FullJobStateView>,
    id: u128,
    secret: Seq<char>,
    now: Timestamp,
) -> Result<JobStatusView, FailedJobStatus> {
    match access(m, id, secret) {
        Ok(r) => Ok(status_view(r, now)),
        Err(JobError::Unauthorized) => Err(
            FailedJobStatus { id, status: FailedJobStatusEnum::Unauthorized },
        ),
        Err(_) => Err(FailedJobStatus { id, status: FailedJobStatusEnum::NotFound }),
    }
}

/// The shown jobs of a listing of `jobs`, in request order.
pub open spec fn listed_jobs(m: Map<u128, FullJobStateView>, jobs: Seq<Job>, now: Timestamp) -> Seq<
    JobStatusView,
>
    decreases jobs.len(),
{
    if jobs.len() == 0 {
        Seq::empty()
    } else {
        let prev = listed_jobs(m, jobs.drop_last(), now);
        match list_entry(m, jobs.last().id, jobs.last().secret@, now) {
            Ok(s) => prev.push(s),
            Err(_) => prev,
        }
    }
}

/// The failed entries of a listing of `jobs`, in request order.
pub open spec fn listed_failures(
    m: Map<u128, FullJobStateView>,
    jobs: Seq<Job>,
    now: Timestamp,
) -> Seq<FailedJobStatus>
    decreases jobs.len(),
{
    if jobs.len() == 0 {
        Seq::empty()
    } else {
        let prev = listed_failures(m, jobs.drop_last(), now);
        match list_entry(m, jobs.last().id, jobs.last().secret@, now) {
            Ok(_) => prev,
            Err(f) => prev.push(f),
        }
    }
}

pub open spec fn status_views(v: Seq<JobStatus>) -> Seq<JobStatusView> {
    v.map_values(|s: JobStatus| s@)
}

impl FullJobState {
    /// The record's public projection at time `now`.
    pub fn public_status(&self, now: Timestamp) -> (r: JobStatus)
        ensures
            r@ == status_view(self@, now),
    {
        JobStatus {
            id: self.id,
            status: self.status.to_client(),
            started: self.started,
            updated: if self.status.is_finished() {
                self.updated
            } else {
                Some(now)
            },
            name: self.name.clone(),
        }
    }
}

/// The in-memory registry of jobs, keyed by job id.
pub struct StateHandler {
    pub job_state: HashMap<u128, FullJobState>,
}

impl StateHandler {
    pub open spec fn records(&self) -> Map<u128, FullJobStateView> {
        self.job_state@.map_values(|r: FullJobState| r@)
    }

    pub open spec fn wf(&self) -> bool {
        map_wf(self.records())
    }

    /// An empty registry.
    pub fn new() -> (r: StateHandler)
        ensures
            r.records() == Map::<u128, FullJobStateView>::empty(),
            r.wf(),
    {
        let r = StateHandler { job_state: HashMap::new() };
        assert(r.records() =~= Map::<u128, FullJobStateView>::empty());
        r
    }

    /// The record of `id` when `secret` matches it.
    fn lookup(&self, id: u128, secret: &str) -> (r: Result<&FullJobState, JobError>)
        ensures
            match access(self.records(), id, secret@) {
                Ok(v) => r matches Ok(s) && s@ == v,
                Err(e) => r matches Err(e2) && e2 == e,
            },
    {
        match self.job_state.get(&id) {
            Some(state) => {
                if str_eq(state.secret.as_str(), secret) {
                    Ok(state)
                } else {
                    Err(JobError::Unauthorized)
                }
            },
            None => Err(JobError::NotFound),
        }
    }

    /// Lists the requested jobs at the current time.
    pub fn get_job_states(&self, request_jobs: Vec<Job>) -> (r: ListResponse)
        ensures
            exists|now: Timestamp|
                status_views(r.jobs@) == listed_jobs(self.records(), request_jobs@, now)
                    && r.failed@ == listed_failures(self.records(), request_jobs@, now),
    {
        let now = crate::ids::now();
        self.job_states_at(&request_jobs, now)
    }

    /// Lists the requested jobs at time `now`: each request is either shown
    /// (secret matches) or reported as unauthorised or not found, in
    /// request order.
    pub fn job_states_at(&self, request_jobs: &Vec<Job>, now: Timestamp) -> (r: ListResponse)
        ensures
            status_views(r.jobs@) == listed_jobs(self.records(), request_jobs@, now),
            r.failed@ == listed_failures(self.records(), request_jobs@, now),
    {
        let mut jobs: Vec<JobStatus> = Vec::new();
        let mut failed: Vec<FailedJobStatus> = Vec::new();
        let mut i: usize = 0;
        while i < request_jobs.len()
            invariant
                i <= request_jobs.len(),
                status_views(jobs@) == listed_jobs(
                    self.records(),
                    request_jobs@.subrange(0, i as int),
                    now,
                ),
                failed@ == listed_failures(self.records(), request_jobs@.subrange(0, i as int), now),
            decreases request_jobs.len() - i,
        {
            let job = &request_jobs[i];
            let ghost prefix = request_jobs@.subrange(0, i + 1);
            assert(prefix.drop_last() =~= request_jobs@.subrange(0, i as int));
            assert(prefix.last() == request_jobs@[i as int]);
            let ghost before = status_views(jobs@);
            match self.lookup(job.id, job.secret.as_str()) {
                Ok(state) => {
                    jobs.push(state.public_status(now));
                    assert(status_views(jobs@) =~= before.push(status_view(state@, now)));
                },
                Err(JobError::Unauthorized) => {
                    failed.push(FailedJobStatus { id: job.id, status: FailedJobStatusEnum::Unauthorized });
                },
                Err(_) => {
                    failed.push(FailedJobStatus { id: job.id, status: FailedJobStatusEnum::NotFound });
                },
            }
            i = i + 1;
        }
        assert(request_jobs@.subrange(0, request_jobs.len() as int) =~= request_jobs@);
        ListResponse { jobs, failed }
    }
}

/// A finished job's metadata with download URLs of its results.
pub struct ResultResponse {
    pub id: u128,
    pub started: Timestamp,
    pub updated: Timestamp,
    pub name: String,
    pub files: ResultFiles,
}

/// The record of `id` when `secret` matches it and the job succeeded; else
/// why its results cannot be had.
pub open spec fn results_gate(m: Map<u128, FullJobStateView>, id: u128, secret: Seq<char>) -> Result<
    FullJobStateView,
    JobError,
> {
    match access(m, id, secret) {
        Ok(r) => if r.status is Succeeded {
            Ok(r)
        } else {
            Err(JobError::NotReady)
        },
        Err(e) => Err(e),
    }
}

/// A record just created by `init` for `id`.
pub open spec fn is_fresh_record(r: FullJobStateView, id: u128, name: Seq<char>, secret: Seq<
    char,
>) -> bool {
    r == FullJobStateView {
        id,
        argo_uid: None,
        argo_ressource_version: None,
        name,
        status: LifecycleStatus::Uninitialized,
        started: None,
        updated: None,
        workflowname: None,
        secret,
        archived: false,
    }
}

/// A start request: the job with its secret and the annotation settings.
pub struct StartRequest {
    pub job: Job,
    pub config: JobConfig,
}

/// The `origin` label of a submission.
pub open spec fn origin_label(origin: Option<String>) -> Seq<char> {
    match origin {
        Some(o) => o@,
        None => "Unknown"@,
    }
}

/// Labels attached to the execution of job `r`.
pub open spec fn start_labels(r: FullJobStateView, origin: Option<String>) -> Seq<
    (Seq<char>, Seq<char>),
> {
    seq![
        ("jobid"@, uuid_text(r.id)),
        ("name"@, r.name),
        ("secret"@, r.secret),
        ("origin"@, origin_label(origin)),
    ]
}

/// Parameters of the execution of job `r`.
pub open spec fn start_parameters(r: FullJobStateView, config: JobConfig) -> Seq<
    (Seq<char>, Seq<char>),
> {
    seq![("parameter"@, parameters_of(config)), ("jobid"@, uuid_text(r.id))]
}

/// The submission that starts job `r` with `config`.
pub open spec fn start_submission(
    t: SubmitWorkflowTemplate,
    namespace: Seq<char>,
    r: FullJobStateView,
    config: JobConfig,
    bakta_version: Seq<char>,
    origin: Option<String>,
) -> bool {
    submission_matches(
        t,
        namespace,
        "bakta-job-"@ + bakta_version,
        Some(start_labels(r, origin)),
        Some(start_parameters(r, config)),
        None,
        Some("bakta-job-"@ + uuid_text(r.id) + "-"@),
    )
}

/// Job `r` once the orchestrator accepted a submission as `res` at `now`.
pub open spec fn started_record(r: FullJobStateView, res: SubmitResult, now: Timestamp) -> FullJobStateView {
    FullJobStateView {
        workflowname: Some(res.metadata.name@),
        status: LifecycleStatus::Pending,
        started: Some(res.metadata.creation_timestamp),
        updated: Some(now),
        ..r
    }
}

/// The registry after the orchestrator answered a submission for `id`.
pub open spec fn start_effect(
    m: Map<u128, FullJobStateView>,
    id: u128,
    outcome: Result<SubmitResult, String>,
    now: Timestamp,
) -> Map<u128, FullJobStateView> {
    match outcome {
        Ok(res) => if m.contains_key(id) {
            m.insert(id, started_record(m[id], res, now))
        } else {
            m
        },
        Err(_) => m,
    }
}

/// What recording the orchestrator's answer to a submission returns.
pub open spec fn start_answer(
    m: Map<u128, FullJobStateView>,
    id: u128,
    outcome: Result<SubmitResult, String>,
) -> Result<(), JobError> {
    match outcome {
        Ok(_) => if m.contains_key(id) {
            Ok(())
        } else {
            Err(JobError::NotFound)
        },
        Err(e) => Err(JobError::Submit(e)),
    }
}

/// Where the orchestrator deletes the execution of `r`: an archived one by
/// its uid, a live one by its name; `None` when there is none to delete.
pub open spec fn delete_target(url: Seq<char>, namespace: Seq<char>, r: FullJobStateView) -> Option<
    Seq<char>,
> {
    if r.archived {
        match r.argo_uid {
            Some(u) => Some(url + "/api/v1/archived-workflows/"@ + u),
            None => None,
        }
    } else {
        match r.workflowname {
            Some(w) => Some(url + "/api/v1/workflows/"@ + namespace + "/"@ + w),
            None => None,
        }
    }
}

/// Where the log of a job comes from.
pub enum LogSource {
    /// The job has no execution whose log can be read: the log is empty.
    Empty,
    /// The stored log of an archived execution, returned as it is.
    Archived(String),
    /// The live log stream of an execution, one JSON object per line.
    Running(String),
}

/// `source` is where the log of `r` comes from.
pub open spec fn log_source_of(
    source: LogSource,
    url: Seq<char>,
    namespace: Seq<char>,
    r: FullJobStateView,
) -> bool {
    if r.archived {
        match r.argo_uid {
            Some(u) => source matches LogSource::Archived(x) && x@ == url + "/artifact-files/"@
                + namespace + "/archived-workflows/"@ + u + "/"@ + match r.workflowname {
                Some(w) => w,
                None => Seq::empty(),
            } + "/outputs/main-logs"@,
            None => source is Empty,
        }
    } else {
        match r.workflowname {
            Some(w) => source matches LogSource::Running(x) && x@ == url + "/api/v1/workflows/"@
                + namespace + "/"@ + w + "/log?logOptions.container=main"@,
            None => source is Empty,
        }
    }
}

impl StateHandler {
    /// The results of a job: the secret must match an existing record whose
    /// status is `Succeeded`; then its metadata and, for every output kind,
    /// a presigned download URL of that result file of the job, unless the
    /// signer cannot take the object URLs.
    pub fn get_results(&self, job: Job, s3_handler: &S3Handler) -> (r: Result<ResultResponse, JobError>)
        requires
            self.wf(),
        ensures
            match results_gate(self.records(), job.id, job.secret@) {
                Ok(rec) => (r is Ok <==> s3_handler.bundle_signable(uuid_text(job.id))) && match r {
                    Ok(resp) => resp.id == job.id && resp.name@ == rec.name && Some(resp.started)
                        == rec.started && Some(resp.updated) == rec.updated
                        && s3_handler.bundle_for(resp.files, uuid_text(job.id)),
                    Err(e) => e == JobError::Signing(SignError::InvalidUrl),
                },
                Err(e) => r matches Err(e2) && e2 == e,
            },
    {
        let state = match self.lookup(job.id, job.secret.as_str()) {
            Ok(s) => s,
            Err(e) => {
                return Err(e);
            },
        };
        if state.status != LifecycleStatus::Succeeded {
            return Err(JobError::NotReady);
        }
        let id_text = crate::ids::job_id_string(job.id);
        let files = match s3_handler.sign_download_urls(id_text.as_str()) {
            Ok(f) => f,
            Err(e) => {
                return Err(JobError::Signing(e));
            },
        };
        let started = match state.started {
            Some(t) => t,
            None => Timestamp::epoch(),
        };
        let updated = match state.updated {
            Some(t) => t,
            None => Timestamp::epoch(),
        };
        Ok(ResultResponse { id: job.id, started, updated, name: state.name.clone(), files })
    }

    /// Records the orchestrator's answer to a submission for `id` at the
    /// current time.
    pub fn finish_start(&mut self, id: u128, outcome: Result<SubmitResult, String>) -> (r: Result<
        (),
        JobError,
    >)
        requires
            old(self).wf(),
        ensures
            final(self).wf(),
            exists|now: Timestamp|
                final(self).records() == start_effect(old(self).records(), id, outcome, now),
            r == start_answer(old(self).records(), id, outcome),
    {
        let now = crate::ids::now();
        self.record_start(id, outcome, now)
    }

    /// Decides a deletion: the secret must match an existing record, and
    /// then gives the orchestrator URL that deletes its execution, if any.
    pub fn delete_job(&self, job_id: u128, secret: &str, argo: &ArgoClient) -> (r: Result<
        Option<String>,
        JobError,
    >)
        ensures
            match access(self.records(), job_id, secret@) {
                Ok(rec) => r matches Ok(u) && opt_view(u) == delete_target(
                    argo.url@,
                    argo.namespace@,
                    rec,
                ),
                Err(e) => r matches Err(e2) && e2 == e,
            },
    {
        match self.lookup(job_id, secret) {
            Ok(state) => Ok(argo.delete_url(state)),
            Err(e) => Err(e),
        }
    }

    /// Removes `job_id` once its execution is gone upstream; when the
    /// orchestrator failed to delete it, the record stays.
    pub fn record_delete(&mut self, job_id: u128, upstream: Result<(), String>) -> (r: Result<
        (),
        JobError,
    >)
        requires
            old(self).wf(),
        ensures
            final(self).wf(),
            match upstream {
                Ok(_) => r is Ok && final(self).records() == old(self).records().remove(job_id),
                Err(e) => r == Err::<(), JobError>(JobError::Collaborator(e))
                    && final(self).records() == old(self).records(),
            },
    {
        match upstream {
            Ok(_) => {
                let ghost before = self.records();
                self.job_state.remove(&job_id);
                assert(self.records() =~= before.remove(job_id));
                Ok(())
            },
            Err(e) => Err(JobError::Collaborator(e)),
        }
    }

    /// Decides a log request: the secret must match an existing record, and
    /// then gives where its log comes from.
    pub fn get_logs(&self, job_id: u128, secret: &str, argo: &ArgoClient) -> (r: Result<
        LogSource,
        JobError,
    >)
        ensures
            match access(self.records(), job_id, secret@) {
                Ok(rec) => r matches Ok(s) && log_source_of(s, argo.url@, argo.namespace@, rec),
                Err(e) => r matches Err(e2) && e2 == e,
            },
    {
        match self.lookup(job_id, secret) {
            Ok(state) => Ok(argo.log_source(state)),
            Err(e) => Err(e),
        }
    }

    /// Adds an uninitialised job `id` with the sanitised `name` and `secret`.
    pub fn insert_new_job(&mut self, name: &str, id: u128, secret: String)
        requires
            old(self).wf(),
        ensures
            final(self).wf(),
            final(self).records().contains_key(id),
            is_fresh_record(final(self).records()[id], id, sanitized(name@), secret@),
            final(self).records() == old(self).records().insert(id, final(self).records()[id]),
    {
        let ghost before = self.records();
        let state = FullJobState {
            id,
            argo_uid: None,
            argo_ressource_version: None,
            name: sanitize_name(name),
            status: LifecycleStatus::Uninitialized,
            started: None,
            updated: None,
            workflowname: None,
            secret,
            archived: false,
        };
        let ghost v = state@;
        self.job_state.insert(id, state);
        assert(self.records() =~= before.insert(id, v));
    }

    /// `drawn` when no job holds it, else the smallest id no job holds.
    fn free_id(&self, drawn: u128) -> (r: u128)
        ensures
            !self.records().contains_key(r),
            !self.records().contains_key(drawn) ==> r == drawn,
    {
        if !self.job_state.contains_key(&drawn) {
            return drawn;
        }
        let ghost dom = self.job_state@.dom();
        let ghost len = self.job_state.len();
        assert(dom.finite());
        assert(dom.len() == len);
        let mut c: u128 = 0;
        let ghost mut seen: Set<u128> = Set::empty();
        while self.job_state.contains_key(&c)
            invariant
                dom == self.job_state@.dom(),
                dom.finite(),
                dom.len() == len,
                len <= usize::MAX,
                seen.finite(),
                seen.len() == c,
                c <= len,
                forall|x: u128| #[trigger] seen.contains(x) ==> x < c && dom.contains(x),
            decreases len - c,
        {
            proof {
                seen = seen.insert(c);
                assert(seen.subset_of(dom));
                vstd::set_lib::lemma_len_subset(seen, dom);
            }
            c = c + 1;
        }
        assert(!dom.contains(c));
        c
    }

    /// Creates a job: sanitises `name`, draws a random id (taking a free one
    /// should the draw hit a job that exists) and a random 32-character
    /// alphanumeric secret, and stores an uninitialised record.
    pub fn init_job(&mut self, name: String) -> (r: (u128, String))
        requires
            old(self).wf(),
        ensures
            final(self).wf(),
            !old(self).records().contains_key(r.0),
            final(self).records().contains_key(r.0),
            is_fresh_record(final(self).records()[r.0], r.0, sanitized(name@), r.1@),
            final(self).records() == old(self).records().insert(r.0, final(self).records()[r.0]),
            r.1@.len() == SECRET_LEN,
            forall|i: int| 0 <= i < r.1@.len() ==> ascii_alnum(#[trigger] r.1@[i]),
    {
        let job_id = self.free_id(crate::ids::new_job_id());
        let secret = crate::ids::new_secret();
        self.insert_new_job(name.as_str(), job_id, secret.clone());
        (job_id, secret)
    }

    /// Decides a start: the secret must match an existing record (an
    /// absent record is reported as unauthorised), and then gives the
    /// submission to send to the orchestrator, carrying the job id, its
    /// sanitised name, its secret, the origin and the derived parameters.
    pub fn start_job(
        &self,
        start_settings: StartRequest,
        argo: &ArgoClient,
        bakta_version: &str,
        origin: Option<String>,
    ) -> (r: Result<SubmitWorkflowTemplate, JobError>)
        requires
            self.wf(),
        ensures
            match access(self.records(), start_settings.job.id, start_settings.job.secret@) {
                Ok(rec) => r matches Ok(t) && start_submission(
                    t,
                    argo.namespace@,
                    rec,
                    start_settings.config,
                    bakta_version@,
                    origin,
                ),
                Err(_) => r matches Err(JobError::Unauthorized),
            },
    {
        let ghost config = start_settings.config;
        let StartRequest { job, config: job_config } = start_settings;
        let state = match self.lookup(job.id, job.secret.as_str()) {
            Ok(s) => s,
            Err(_) => {
                return Err(JobError::Unauthorized);
            },
        };
        let parameters = job_config.into_parameters();
        let id_text = crate::ids::job_id_string(job.id);
        let origin_text = match origin {
            Some(o) => o,
            None => String::from_str("Unknown"),
        };
        assert(origin_text@ == origin_label(origin));
        let mut labels: Vec<(String, String)> = Vec::new();
        labels.push((String::from_str("jobid"), id_text.clone()));
        labels.push((String::from_str("name"), state.name.clone()));
        labels.push((String::from_str("secret"), state.secret.clone()));
        labels.push((String::from_str("origin"), origin_text));
        let mut params: Vec<(String, String)> = Vec::new();
        params.push((String::from_str("parameter"), parameters));
        params.push((String::from_str("jobid"), id_text.clone()));
        let template = String::from_str("bakta-job-").concat(bakta_version);
        let generate_name = String::from_str("bakta-job-").concat(id_text.as_str()).concat("-");
        let ghost lv = labels@;
        let ghost pv = params@;
        proof {
            reveal_strlit("jobid");
            reveal_strlit("name");
            reveal_strlit("secret");
            reveal_strlit("origin");
            reveal_strlit("parameter");
            let rec = state@;
            assert(crate::argo::pair_views(lv) =~= start_labels(rec, origin));
            assert(crate::argo::pair_views(pv) =~= start_parameters(rec, config));
            let keys = seq!["jobid"@, "name"@, "secret"@, "origin"@];
            assert("jobid"@.len() == 5 && "name"@.len() == 4 && "secret"@.len() == 6);
            assert("origin"@.len() == 6 && "parameter"@.len() == 9);
            assert("secret"@[0] != "origin"@[0]);
            let sl = start_labels(rec, origin);
            assert forall|i: int, j: int| 0 <= i < j < sl.len() implies sl[i].0 != sl[j].0 by {
                assert(sl[i].0 == keys[i] && sl[j].0 == keys[j]);
                if i == 2 && j == 3 {
                    assert(keys[i][0] != keys[j][0]);
                }
            }
            let sp = start_parameters(rec, config);
            assert forall|i: int, j: int| 0 <= i < j < sp.len() implies sp[i].0 != sp[j].0 by {}
        }
        let t = argo.submit_template(
            template.as_str(),
            Some(labels),
            Some(params),
            None,
            Some(generate_name),
        );
        proof {
            let rec = state@;
            assert(crate::argo::pair_views(lv) =~= start_labels(rec, origin));
            assert(crate::argo::pair_views(pv) =~= start_parameters(rec, config));
        }
        Ok(t)
    }

    /// Records the orchestrator's answer to a submission for `id` at `now`:
    /// an accepted submission sets the execution name, `Pending`, the
    /// creation time and `now`; a refused one changes nothing.
    pub fn record_start(
        &mut self,
        id: u128,
        outcome: Result<SubmitResult, String>,
        now: Timestamp,
    ) -> (r: Result<(), JobError>)
        requires
            old(self).wf(),
        ensures
            final(self).wf(),
            final(self).records() == start_effect(old(self).records(), id, outcome, now),
            r == start_answer(old(self).records(), id, outcome),
    {
        let ghost before = self.records();
        match outcome {
            Err(e) => Err(JobError::Submit(e)),
            Ok(res) => {
                match self.job_state.remove(&id) {
                    Some(mut state) => {
                        let ghost old_v = state@;
                        assert(old_v == before[id]);
                        state.workflowname = Some(res.metadata.name);
                        state.status = LifecycleStatus::Pending;
                        state.started = Some(res.metadata.creation_timestamp);
                        state.updated = Some(now);
                        let ghost v = state@;
                        assert(v == started_record(old_v, res, now));
                        self.job_state.insert(id, state);
                        assert(self.records() =~= before.insert(id, v));
                        Ok(())
                    },
                    None => {
                        assert(self.records() =~= before);
                        Err(JobError::NotFound)
                    },
                }
            },
        }
    }
}

/// A job id the registry does not hold is reported as not found by a
/// listing, a deletion, a log request and a result query, whatever secret
/// comes with it.
pub proof fn lemma_unknown_job_not_found(
    m: Map<u128, FullJobStateView>,
    id: u128,
    secret: Seq<char>,
    now: Timestamp,
)
    requires
        !m.contains_key(id),
    ensures
        list_entry(m, id, secret, now) == Err::<JobStatusView, FailedJobStatus>(
            FailedJobStatus { id, status: FailedJobStatusEnum::NotFound },
        ),
        access(m, id, secret) == Err::<FullJobStateView, JobError>(JobError::NotFound),
        results_gate(m, id, secret) == Err::<FullJobStateView, JobError>(JobError::NotFound),
{
}

proof fn lemma_listing_shape(m: Map<u128, FullJobStateView>, jobs: Seq<Job>, now: Timestamp)
    requires
        map_wf(m),
    ensures
        forall|i: int|
            0 <= i < listed_jobs(m, jobs, now).len() ==> m.contains_key(
                #[trigger] listed_jobs(m, jobs, now)[i].id,
            ),
        forall|i: int|
            0 <= i < listed_failures(m, jobs, now).len() ==> ((
            #[trigger] listed_failures(m, jobs, now)[i]).status is NotFound) == !m.contains_key(
                listed_failures(m, jobs, now)[i].id,
            ),
    decreases jobs.len(),
{
    if jobs.len() > 0 {
        lemma_listing_shape(m, jobs.drop_last(), now);
    }
}

/// A request, anywhere in a listing, for a job the registry does not hold
/// is answered not found and never shown: the failures report its id as not
/// found, and no shown job carries that id.
pub proof fn lemma_listing_unknown_job(
    m: Map<u128, FullJobStateView>,
    jobs: Seq<Job>,
    now: Timestamp,
    k: int,
)
    requires
        map_wf(m),
        0 <= k < jobs.len(),
        !m.contains_key(jobs[k].id),
    ensures
        listed_failures(m, jobs, now).contains(
            FailedJobStatus { id: jobs[k].id, status: FailedJobStatusEnum::NotFound },
        ),
        forall|i: int|
            0 <= i < listed_jobs(m, jobs, now).len() ==> (#[trigger] listed_jobs(m, jobs, now)[i]).id
                != jobs[k].id,
    decreases jobs.len(),
{
    lemma_listing_shape(m, jobs, now);
    let f = FailedJobStatus { id: jobs[k].id, status: FailedJobStatusEnum::NotFound };
    let init = jobs.drop_last();
    let prev = listed_failures(m, init, now);
    if k == jobs.len() - 1 {
        assert(listed_failures(m, jobs, now) == prev.push(f));
        assert(listed_failures(m, jobs, now)[prev.len() as int] == f);
    } else {
        assert(init[k] == jobs[k]);
        lemma_listing_unknown_job(m, init, now, k);
        let w = choose|w: int| 0 <= w < prev.len() && prev[w] == f;
        assert(listed_failures(m, jobs, now)[w] == f);
    }
}

/// A request, anywhere in a listing, whose secret is not its job's is
/// reported unauthorised, and its job is not reported as not found.
pub proof fn lemma_listing_wrong_secret(
    m: Map<u128, FullJobStateView>,
    jobs: Seq<Job>,
    now: Timestamp,
    k: int,
)
    requires
        map_wf(m),
        0 <= k < jobs.len(),
        m.contains_key(jobs[k].id),
        m[jobs[k].id].secret != jobs[k].secret@,
    ensures
        listed_failures(m, jobs, now).contains(
            FailedJobStatus { id: jobs[k].id, status: FailedJobStatusEnum::Unauthorized },
        ),
        !listed_failures(m, jobs, now).contains(
            FailedJobStatus { id: jobs[k].id, status: FailedJobStatusEnum::NotFound },
        ),
    decreases jobs.len(),
{
    lemma_listing_shape(m, jobs, now);
    let f = FailedJobStatus { id: jobs[k].id, status: FailedJobStatusEnum::Unauthorized };
    let init = jobs.drop_last();
    let prev = listed_failures(m, init, now);
    if k == jobs.len() - 1 {
        assert(listed_failures(m, jobs, now) == prev.push(f));
        assert(listed_failures(m, jobs, now)[prev.len() as int] == f);
    } else {
        assert(init[k] == jobs[k]);
        lemma_listing_wrong_secret(m, init, now, k);
        let w = choose|w: int| 0 <= w < prev.len() && prev[w] == f;
        assert(listed_failures(m, jobs, now)[w] == f);
    }
}

/// A secret other than a job's own is refused by every operation on that
/// job: a listing reports it unauthorised, and a start, a deletion, a log
/// request and a result query fail with `Unauthorized`.
pub proof fn lemma_wrong_secret_unauthorized(
    m: Map<u128, FullJobStateView>,
    id: u128,
    secret: Seq<char>,
    now: Timestamp,
)
    requires
        m.contains_key(id),
        m[id].secret != secret,
    ensures
        list_entry(m, id, secret, now) == Err::<JobStatusView, FailedJobStatus>(
            FailedJobStatus { id, status: FailedJobStatusEnum::Unauthorized },
        ),
        access(m, id, secret) == Err::<FullJobStateView, JobError>(JobError::Unauthorized),
        results_gate(m, id, secret) == Err::<FullJobStateView, JobError>(JobError::Unauthorized),
{
}

/// Results are only handed out for a job that succeeded: with the right
/// secret, a job that is uninitialised, pending, running or failed gives
/// `NotReady`, and a succeeded job passes.
pub proof fn lemma_results_need_success(m: Map<u128, FullJobStateView>, id: u128, secret: Seq<char>)
    requires
        m.contains_key(id),
        m[id].secret == secret,
    ensures
        !(m[id].status is Succeeded) ==> results_gate(m, id, secret) == Err::<
            FullJobStateView,
            JobError,
        >(JobError::NotReady),
        m[id].status is Succeeded ==> results_gate(m, id, secret) == Ok::<FullJobStateView, JobError>(
            m[id],
        ),
{
}

/// Starting a job twice keeps the registry consistent: other jobs are
/// untouched, the job keeps its id, name and secret, and its execution is
/// the one of the last submission the orchestrator accepted (or the one it
/// had, when both were refused); after any accepted submission it is
/// pending, and two refusals change nothing.
pub proof fn lemma_start_twice(
    m: Map<u128, FullJobStateView>,
    id: u128,
    first: Result<SubmitResult, String>,
    second: Result<SubmitResult, String>,
    t1: Timestamp,
    t2: Timestamp,
)
    requires
        map_wf(m),
        m.contains_key(id),
    ensures
        map_wf(start_effect(start_effect(m, id, first, t1), id, second, t2)),
        start_effect(start_effect(m, id, first, t1), id, second, t2).dom() == m.dom(),
        forall|k: u128|
            k != id && m.contains_key(k) ==> #[trigger] start_effect(
                start_effect(m, id, first, t1),
                id,
                second,
                t2,
            )[k] == m[k],
        start_effect(start_effect(m, id, first, t1), id, second, t2)[id].id == id,
        start_effect(start_effect(m, id, first, t1), id, second, t2)[id].name == m[id].name,
        start_effect(start_effect(m, id, first, t1), id, second, t2)[id].secret == m[id].secret,
        start_effect(start_effect(m, id, first, t1), id, second, t2)[id].workflowname == match second {
            Ok(res) => Some(res.metadata.name@),
            Err(_) => match first {
                Ok(res) => Some(res.metadata.name@),
                Err(_) => m[id].workflowname,
            },
        },
        (first is Ok || second is Ok) ==> start_effect(
            start_effect(m, id, first, t1),
            id,
            second,
            t2,
        )[id].status == LifecycleStatus::Pending,
        (first is Err && second is Err) ==> start_effect(
            start_effect(m, id, first, t1),
            id,
            second,
            t2,
        ) == m,
{
    let m1 = start_effect(m, id, first, t1);
    let m2 = start_effect(m1, id, second, t2);
    assert(m1.dom() =~= m.dom());
    assert(m2.dom() =~= m.dom());
}

} // verus!
