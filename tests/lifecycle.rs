use bakta_web_backend::argo::{
    ArgoClient, SimpleStatus, SimpleStatusStatus, StatusMetadata, SubmitResult,
    SubmitResultMetadata,
};
use bakta_web_backend::config::{DermType, JobConfig};
use bakta_web_backend::ids::{parse_job_id, Timestamp};
use bakta_web_backend::registry::{
    FailedJobStatus, Job, JobError, LogSource, StartRequest, StateHandler,
};
use bakta_web_backend::s3::{HttpMethod, S3Handler};
use bakta_web_backend::status::{FailedJobStatusEnum, JobStatusEnum, LifecycleStatus};

fn argo() -> ArgoClient {
    ArgoClient::new("token".to_string(), "http://argo".to_string(), "bakta".to_string())
}

fn s3() -> S3Handler {
    S3Handler::new(
        "access".to_string(),
        "secret-key".to_string(),
        "bucket".to_string(),
        "https://s3.example.org".to_string(),
    )
}

fn ts(seconds: i64) -> Timestamp {
    Timestamp { seconds, nanos: 0 }
}

fn submitted(name: &str, at: i64) -> SubmitResult {
    SubmitResult {
        metadata: SubmitResultMetadata { name: name.to_string(), creation_timestamp: ts(at) },
    }
}

fn execution(job: &str, name: &str, phase: &str) -> SimpleStatus {
    SimpleStatus {
        metadata: StatusMetadata {
            name: name.to_string(),
            uid: Some(format!("uid-{name}")),
            resource_version: Some("7".to_string()),
            labels: vec![
                ("jobid".to_string(), job.to_string()),
                ("name".to_string(), "remote".to_string()),
                ("secret".to_string(), "remote-secret".to_string()),
            ],
        },
        status: SimpleStatusStatus {
            phase: phase.to_string(),
            started_at: ts(100),
            finished_at: Some(ts(200)),
        },
    }
}

fn text_of(id: u128) -> String {
    uuid::Uuid::from_u128(id).to_string()
}

fn request(id: u128, secret: &str) -> Job {
    Job { id, secret: secret.to_string() }
}

#[test]
fn init_creates_uninitialized_record() {
    let mut h = StateHandler::new();
    let (id, secret) = h.init_job("My Genome #1!!".to_string());
    assert_eq!(secret.len(), 32);
    assert!(secret.chars().all(|c| c.is_ascii_alphanumeric()));
    assert_eq!((id >> 76) & 0xf, 4);
    let rec = h.job_state.get(&id).unwrap();
    assert_eq!(rec.name, "My_Genome_1");
    assert_eq!(rec.status, LifecycleStatus::Uninitialized);
    assert!(rec.workflowname.is_none());
    let (id2, secret2) = h.init_job("x".to_string());
    assert_ne!(id, id2);
    assert_ne!(secret, secret2);
}

#[test]
fn list_classifies_each_request() {
    let mut h = StateHandler::new();
    h.insert_new_job("first", 1, "s1".to_string());
    h.insert_new_job("second", 2, "s2".to_string());
    let now = ts(5000);
    let r = h.job_states_at(
        &vec![request(1, "s1"), request(2, "wrong"), request(3, "s1"), request(2, "s2")],
        now,
    );
    assert_eq!(r.jobs.len(), 2);
    assert_eq!(r.jobs[0].id, 1);
    assert_eq!(r.jobs[0].status, JobStatusEnum::INIT);
    assert_eq!(r.jobs[0].updated, Some(now));
    assert_eq!(r.jobs[0].started, None);
    assert_eq!(r.jobs[0].name, "first");
    assert_eq!(r.jobs[1].id, 2);
    assert_eq!(
        r.failed,
        vec![
            FailedJobStatus { id: 2, status: FailedJobStatusEnum::Unauthorized },
            FailedJobStatus { id: 3, status: FailedJobStatusEnum::NotFound },
        ]
    );
}

#[test]
fn unknown_job_is_not_found_everywhere() {
    let mut h = StateHandler::new();
    h.insert_new_job("known", 1, "s".to_string());
    let r = h.get_job_states(vec![request(99, "s")]);
    assert_eq!(r.failed, vec![FailedJobStatus { id: 99, status: FailedJobStatusEnum::NotFound }]);
    assert!(matches!(h.delete_job(99, "s", &argo()), Err(JobError::NotFound)));
    assert!(matches!(h.get_logs(99, "s", &argo()), Err(JobError::NotFound)));
    assert!(matches!(h.get_results(request(99, "s"), &s3()), Err(JobError::NotFound)));
    let start = StartRequest { job: request(99, "s"), config: JobConfig::default() };
    assert!(matches!(h.start_job(start, &argo(), "1.9", None), Err(JobError::Unauthorized)));
}

#[test]
fn wrong_secret_is_unauthorized_everywhere() {
    let mut h = StateHandler::new();
    h.insert_new_job("known", 1, "right".to_string());
    assert!(matches!(h.delete_job(1, "wrong", &argo()), Err(JobError::Unauthorized)));
    assert!(matches!(h.get_logs(1, "wrong", &argo()), Err(JobError::Unauthorized)));
    assert!(matches!(h.get_results(request(1, "wrong"), &s3()), Err(JobError::Unauthorized)));
    let start = StartRequest { job: request(1, "wrong"), config: JobConfig::default() };
    assert!(matches!(h.start_job(start, &argo(), "1.9", None), Err(JobError::Unauthorized)));
    let r = h.job_states_at(&vec![request(1, "wrong")], ts(1));
    assert!(r.jobs.is_empty());
    assert_eq!(r.failed[0].status, FailedJobStatusEnum::Unauthorized);
}

#[test]
fn start_builds_submission() {
    let mut h = StateHandler::new();
    let id: u128 = 0x0123_4567_89ab_4def_8123_4567_89ab_cdef;
    h.insert_new_job("Acme Corp's Sample!", id, "sec".to_string());
    let config = JobConfig { complete: true, ..JobConfig::default() };
    let start = StartRequest { job: request(id, "sec"), config };
    let t = h.start_job(start, &argo(), "1.9", Some("bakta.example.org".to_string())).unwrap();
    let id_text = "01234567-89ab-4def-8123-456789abcdef";
    assert_eq!(text_of(id), id_text);
    assert_eq!(t.namespace, "bakta");
    assert_eq!(t.resource_kind, "WorkflowTemplate");
    assert_eq!(t.resource_name, "bakta-job-1.9");
    assert_eq!(
        t.submit_options.labels.as_deref(),
        Some(format!(
            "jobid={id_text},name=Acme_Corp_s_Sample,secret=sec,origin=bakta.example.org"
        ))
        .as_deref()
    );
    assert_eq!(
        t.submit_options.parameters,
        Some(vec![
            "parameter=--complete --gram ?".to_string(),
            format!("jobid={id_text}"),
        ])
    );
    assert_eq!(t.submit_options.generate_name, Some(format!("bakta-job-{id_text}-")));
    let start = StartRequest { job: request(id, "sec"), config: JobConfig::default() };
    let t = h.start_job(start, &argo(), "1.9", None).unwrap();
    assert!(t.submit_options.labels.unwrap().ends_with("origin=Unknown"));
}

#[test]
fn start_twice_keeps_record_consistent() {
    let mut h = StateHandler::new();
    h.insert_new_job("job", 7, "s".to_string());
    assert!(h.record_start(7, Ok(submitted("wf-a", 10)), ts(11)).is_ok());
    let rec = h.job_state.get(&7).unwrap();
    assert_eq!(rec.workflowname.as_deref(), Some("wf-a"));
    assert_eq!(rec.status, LifecycleStatus::Pending);
    assert_eq!(rec.started, Some(ts(10)));
    assert_eq!(rec.updated, Some(ts(11)));
    let refused = h.record_start(7, Err("busy".to_string()), ts(12));
    assert!(matches!(refused, Err(JobError::Submit(ref m)) if m == "busy"));
    assert_eq!(h.job_state.get(&7).unwrap().workflowname.as_deref(), Some("wf-a"));
    assert!(h.finish_start(7, Ok(submitted("wf-b", 20))).is_ok());
    let rec = h.job_state.get(&7).unwrap();
    assert_eq!(rec.workflowname.as_deref(), Some("wf-b"));
    assert_eq!(rec.secret, "s");
    assert_eq!(rec.name, "job");
    assert!(matches!(h.record_start(8, Ok(submitted("wf-c", 1)), ts(1)), Err(JobError::NotFound)));
}

#[test]
fn results_need_success() {
    let mut h = StateHandler::new();
    h.insert_new_job("job", 7, "s".to_string());
    assert!(matches!(h.get_results(request(7, "s"), &s3()), Err(JobError::NotReady)));
    h.record_start(7, Ok(submitted("wf-a", 10)), ts(11)).unwrap();
    assert!(matches!(h.get_results(request(7, "s"), &s3()), Err(JobError::NotReady)));
    let running = execution(&text_of(7), "wf-a", "Running");
    h.reconcile(&vec![running], ts(300));
    assert!(matches!(h.get_results(request(7, "s"), &s3()), Err(JobError::NotReady)));
    let done = execution(&text_of(7), "wf-a", "Succeeded");
    h.reconcile(&vec![done], ts(300));
    let res = h.get_results(request(7, "s"), &s3()).unwrap();
    assert_eq!(res.id, 7);
    assert_eq!(res.name, "job");
    assert_eq!(res.started, ts(100));
    assert_eq!(res.updated, ts(200));
    let key = format!("jobs/{}/results/result.", text_of(7));
    let files = [
        (&res.files.embl, "embl"),
        (&res.files.faa, "faa"),
        (&res.files.faa_hypothetical, "hypotheticals.faa"),
        (&res.files.ffn, "ffn"),
        (&res.files.fna, "fna"),
        (&res.files.gbff, "gbff"),
        (&res.files.gff3, "gff"),
        (&res.files.json, "json"),
        (&res.files.tsv, "tsv"),
        (&res.files.tsv_hypothetical, "hypotheticals.tsv"),
    ];
    for (file, suffix) in files {
        assert_eq!(file.method, HttpMethod::Get);
        let url = &file.url;
        assert!(url.starts_with(&format!("http://bucket.s3.example.org/{key}{suffix}?")));
        assert!(url.contains("X-Amz-Signature="));
    }
}

#[test]
fn failed_job_has_no_results() {
    let mut h = StateHandler::new();
    h.insert_new_job("job", 7, "s".to_string());
    h.reconcile(&vec![execution(&text_of(7), "wf", "Error")], ts(1));
    assert_eq!(h.job_state.get(&7).unwrap().status, LifecycleStatus::Failed);
    assert!(matches!(h.get_results(request(7, "s"), &s3()), Err(JobError::NotReady)));
}

#[test]
fn delete_removes_record_after_upstream() {
    let mut h = StateHandler::new();
    h.insert_new_job("job", 7, "s".to_string());
    assert_eq!(h.delete_job(7, "s", &argo()).unwrap(), None);
    h.record_start(7, Ok(submitted("wf-a", 10)), ts(11)).unwrap();
    assert_eq!(
        h.delete_job(7, "s", &argo()).unwrap().as_deref(),
        Some("http://argo/api/v1/workflows/bakta/wf-a")
    );
    let kept = h.record_delete(7, Err("timeout".to_string()));
    assert!(matches!(kept, Err(JobError::Collaborator(ref m)) if m == "timeout"));
    assert!(h.job_state.contains_key(&7));
    assert!(h.record_delete(7, Ok(())).is_ok());
    assert!(!h.job_state.contains_key(&7));
    assert!(matches!(h.delete_job(7, "s", &argo()), Err(JobError::NotFound)));
}

#[test]
fn archived_execution_paths() {
    let mut h = StateHandler::new();
    let mut item = execution(&text_of(5), "wf-old", "Succeeded");
    item.metadata.labels.push((
        "workflows.argoproj.io/workflow-archiving-status".to_string(),
        "Archived".to_string(),
    ));
    h.reconcile(&vec![item], ts(1));
    let rec = h.job_state.get(&5).unwrap();
    assert!(rec.archived);
    assert_eq!(
        h.delete_job(5, "remote-secret", &argo()).unwrap().as_deref(),
        Some("http://argo/api/v1/archived-workflows/uid-wf-old")
    );
    match h.get_logs(5, "remote-secret", &argo()).unwrap() {
        LogSource::Archived(url) => assert_eq!(
            url,
            "http://argo/artifact-files/bakta/archived-workflows/uid-wf-old/wf-old/outputs/main-logs"
        ),
        _ => panic!("expected the archived log"),
    }
}

#[test]
fn log_sources() {
    let mut h = StateHandler::new();
    h.insert_new_job("job", 7, "s".to_string());
    assert!(matches!(h.get_logs(7, "s", &argo()), Ok(LogSource::Empty)));
    h.record_start(7, Ok(submitted("wf-a", 10)), ts(11)).unwrap();
    match h.get_logs(7, "s", &argo()).unwrap() {
        LogSource::Running(url) => {
            assert_eq!(url, "http://argo/api/v1/workflows/bakta/wf-a/log?logOptions.container=main")
        }
        _ => panic!("expected the live log"),
    }
}

#[test]
fn error_messages() {
    assert_eq!(JobError::NotFound.message(), "Job not found");
    assert_eq!(JobError::Unauthorized.message(), "Unauthorized");
    assert_eq!(JobError::NotReady.message(), "Job not finished");
    assert_eq!(JobError::Submit("x".to_string()).message(), "x");
}

#[test]
fn job_ids_parse_from_text() {
    assert_eq!(parse_job_id("01234567-89ab-4def-8123-456789abcdef"), Some(0x0123_4567_89ab_4def_8123_4567_89ab_cdef));
    assert_eq!(parse_job_id("0123456789ab4def8123456789abcdef"), Some(0x0123_4567_89ab_4def_8123_4567_89ab_cdef));
    assert_eq!(parse_job_id("not a uuid"), None);
}

#[test]
fn end_to_end_scenario() {
    let mut h = StateHandler::new();
    let (id, secret) = h.init_job("Acme Corp's Sample!".to_string());
    let rec = h.job_state.get(&id).unwrap();
    assert_eq!(rec.name, "Acme_Corp_s_Sample");
    assert_eq!(rec.status, LifecycleStatus::Uninitialized);

    let config = JobConfig { complete: true, derm: Some(DermType::DIDERM), ..JobConfig::default() };
    let start = StartRequest { job: request(id, &secret), config };
    let submission = h.start_job(start, &argo(), "1.9", None).unwrap();
    assert!(submission.submit_options.labels.unwrap().contains(&format!("jobid={}", text_of(id))));
    h.finish_start(id, Ok(submitted("bakta-job-x", 10))).unwrap();
    let rec = h.job_state.get(&id).unwrap();
    assert_eq!(rec.status, LifecycleStatus::Pending);
    assert_eq!(rec.workflowname.as_deref(), Some("bakta-job-x"));

    let errors = h.update_from_orchestrator(&vec![execution(&text_of(id), "bakta-job-x", "Succeeded")]);
    assert!(errors.is_empty());
    let rec = h.job_state.get(&id).unwrap();
    assert_eq!(rec.status, LifecycleStatus::Succeeded);
    assert_eq!(rec.secret, secret);
    assert_eq!(rec.name, "Acme_Corp_s_Sample");

    let res = h.get_results(request(id, &secret), &s3()).unwrap();
    assert!(!res.files.embl.url.is_empty());
    assert!(!res.files.tsv_hypothetical.url.is_empty());

    let target = h.delete_job(id, &secret, &argo()).unwrap();
    assert!(target.is_some());
    h.record_delete(id, Ok(())).unwrap();
    let listed = h.get_job_states(vec![request(id, &secret)]);
    assert!(listed.jobs.is_empty());
    assert_eq!(listed.failed, vec![FailedJobStatus { id, status: FailedJobStatusEnum::NotFound }]);
}

#[test]
fn job_id_text_reads_back() {
    for id in [0u128, 7, u128::MAX, 0x0123_4567_89ab_4def_8123_4567_89ab_cdef] {
        let text = bakta_web_backend::ids::job_id_string(id);
        assert_eq!(text, text_of(id));
        assert_eq!(parse_job_id(&text), Some(id));
    }
}

#[test]
fn init_never_reuses_an_id() {
    let mut h = StateHandler::new();
    let mut ids = std::collections::HashSet::new();
    for k in 0..50 {
        let (id, _) = h.init_job(format!("job {k}"));
        assert!(ids.insert(id));
    }
    assert_eq!(h.job_state.len(), 50);
}
