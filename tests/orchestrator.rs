use bakta_web_backend::argo::{
    get_delete_url_archived, get_delete_url_running, get_logs_archived_url,
    get_logs_running_url, get_status_url_bakta, get_submit_url, ArgoClient,
};
use bakta_web_backend::status::{parse_phase, InvalidJobStatus, JobStatusEnum, LifecycleStatus};

#[test]
fn url_builders() {
    assert_eq!(
        get_status_url_bakta("http://argo", "bakta"),
        "http://argo/api/v1/workflows/bakta?fields=items.status.finishedAt,items.status.startedAt,items.metadata.name,items.metadata.uid,items.metadata.resourceVersion,items.status.phase,items.metadata.labels"
    );
    assert_eq!(get_submit_url("http://argo", "bakta"), "http://argo/api/v1/workflows/bakta/submit");
    assert_eq!(
        get_logs_archived_url("http://argo", "bakta", "uid-1", "wf-1"),
        "http://argo/artifact-files/bakta/archived-workflows/uid-1/wf-1/outputs/main-logs"
    );
    assert_eq!(
        get_logs_running_url("http://argo", "bakta", "wf-1"),
        "http://argo/api/v1/workflows/bakta/wf-1/log?logOptions.container=main"
    );
    assert_eq!(
        get_delete_url_archived("http://argo", "uid-1"),
        "http://argo/api/v1/archived-workflows/uid-1"
    );
    assert_eq!(
        get_delete_url_running("http://argo", "bakta", "wf-1"),
        "http://argo/api/v1/workflows/bakta/wf-1"
    );
}

#[test]
fn submit_template_joins_labels_and_parameters() {
    let client = ArgoClient::new("token".to_string(), "http://argo".to_string(), "bakta".to_string());
    assert_eq!(client.submit_url(), "http://argo/api/v1/workflows/bakta/submit");
    let t = client.submit_template(
        "bakta-job-1.9",
        Some(vec![
            ("a".to_string(), "1".to_string()),
            ("b".to_string(), "2".to_string()),
        ]),
        Some(vec![("parameter".to_string(), "--gram ?".to_string())]),
        None,
        Some("prefix-".to_string()),
    );
    assert_eq!(t.namespace, "bakta");
    assert_eq!(t.resource_kind, "WorkflowTemplate");
    assert_eq!(t.resource_name, "bakta-job-1.9");
    assert_eq!(t.submit_options.labels.as_deref(), Some("a=1,b=2"));
    assert_eq!(t.submit_options.parameters, Some(vec!["parameter=--gram ?".to_string()]));
    assert_eq!(t.submit_options.service_account, None);
    assert_eq!(t.submit_options.generate_name.as_deref(), Some("prefix-"));
    let bare = client.submit_template("x", None, None, None, None);
    assert_eq!(bare.submit_options.labels, None);
    assert_eq!(bare.submit_options.parameters, None);
}

#[test]
fn phase_vocabulary() {
    assert_eq!(parse_phase("Init"), Some(LifecycleStatus::Pending));
    assert_eq!(parse_phase("Pending"), Some(LifecycleStatus::Pending));
    assert_eq!(parse_phase("Running"), Some(LifecycleStatus::Running));
    assert_eq!(parse_phase("Succeeded"), Some(LifecycleStatus::Succeeded));
    assert_eq!(parse_phase("Failed"), Some(LifecycleStatus::Failed));
    assert_eq!(parse_phase("Error"), Some(LifecycleStatus::Failed));
    assert_eq!(parse_phase("Skipped"), None);
    assert_eq!(parse_phase("running"), None);
    assert_eq!(parse_phase(""), None);
}

#[test]
fn client_status_from_phase() {
    assert_eq!(JobStatusEnum::try_from("Init".to_string()), Ok(JobStatusEnum::INIT));
    assert_eq!(JobStatusEnum::try_from("Running".to_string()), Ok(JobStatusEnum::RUNNING));
    assert_eq!(JobStatusEnum::try_from("Succeeded".to_string()), Ok(JobStatusEnum::SUCCESSFULL));
    assert_eq!(JobStatusEnum::try_from("Error".to_string()), Ok(JobStatusEnum::ERROR));
    assert_eq!(JobStatusEnum::try_from("Omitted".to_string()), Err(InvalidJobStatus));
    assert_eq!(LifecycleStatus::Uninitialized.to_client(), JobStatusEnum::INIT);
    assert!(LifecycleStatus::Failed.is_finished());
    assert!(!LifecycleStatus::Running.is_finished());
}
