use bakta_web_backend::argo::{SimpleStatus, SimpleStatusStatus, StatusMetadata};
use bakta_web_backend::ids::Timestamp;
use bakta_web_backend::reconcile::{parse_execution, record_from_execution, ItemError};
use bakta_web_backend::registry::StateHandler;
use bakta_web_backend::status::LifecycleStatus;

fn ts(seconds: i64) -> Timestamp {
    Timestamp { seconds, nanos: 0 }
}

fn id_text(id: u128) -> String {
    uuid::Uuid::from_u128(id).to_string()
}

fn item(labels: Vec<(&str, &str)>, name: &str, phase: &str, finished: Option<i64>) -> SimpleStatus {
    SimpleStatus {
        metadata: StatusMetadata {
            name: name.to_string(),
            uid: None,
            resource_version: None,
            labels: labels.into_iter().map(|(k, v)| (k.to_string(), v.to_string())).collect(),
        },
        status: SimpleStatusStatus {
            phase: phase.to_string(),
            started_at: ts(10),
            finished_at: finished.map(ts),
        },
    }
}

#[test]
fn nine_readable_items_and_one_unreadable() {
    let mut h = StateHandler::new();
    let mut items = Vec::new();
    let texts: Vec<String> = (1..=10u128).map(id_text).collect();
    for (k, t) in texts.iter().enumerate() {
        let phase = if k == 4 { "Mystery" } else { "Running" };
        items.push(item(vec![("jobid", t.as_str()), ("secret", "s")], "wf", phase, None));
    }
    let errors = h.reconcile(&items, ts(50));
    assert_eq!(errors, vec![ItemError::UnknownPhase]);
    assert_eq!(h.job_state.len(), 9);
    assert!(!h.job_state.contains_key(&5));
    for id in (1..=10u128).filter(|i| *i != 5) {
        let rec = h.job_state.get(&id).unwrap();
        assert_eq!(rec.status, LifecycleStatus::Running);
        assert_eq!(rec.updated, Some(ts(50)));
        assert_eq!(rec.name, "Unknown name");
        assert_eq!(rec.secret, "s");
    }
}

#[test]
fn unreadable_item_leaves_record_unchanged() {
    let mut h = StateHandler::new();
    h.insert_new_job("local", 3, "mine".to_string());
    let t = id_text(3);
    let errors = h.reconcile(&vec![item(vec![("jobid", t.as_str())], "wf", "Weird", None)], ts(1));
    assert_eq!(errors, vec![ItemError::UnknownPhase]);
    assert_eq!(h.job_state.get(&3).unwrap().status, LifecycleStatus::Uninitialized);
}

#[test]
fn local_name_and_secret_survive_reconciliation() {
    let mut h = StateHandler::new();
    h.insert_new_job("local name", 3, "mine".to_string());
    let t = id_text(3);
    let labels = vec![("jobid", t.as_str()), ("name", "other"), ("secret", "theirs")];
    h.reconcile(&vec![item(labels, "wf-3", "Pending", Some(99))], ts(1));
    let rec = h.job_state.get(&3).unwrap();
    assert_eq!(rec.secret, "mine");
    assert_eq!(rec.name, "local_name");
    assert_eq!(rec.status, LifecycleStatus::Pending);
    assert_eq!(rec.workflowname.as_deref(), Some("wf-3"));
    assert_eq!(rec.updated, Some(ts(99)));
}

#[test]
fn terminal_status_does_not_regress() {
    let mut h = StateHandler::new();
    let t = id_text(3);
    h.reconcile(&vec![item(vec![("jobid", t.as_str())], "wf", "Succeeded", Some(5))], ts(1));
    h.reconcile(&vec![item(vec![("jobid", t.as_str())], "wf", "Running", None)], ts(2));
    let rec = h.job_state.get(&3).unwrap();
    assert_eq!(rec.status, LifecycleStatus::Succeeded);
    assert_eq!(rec.updated, Some(ts(5)));
    assert_eq!(rec.secret, "Unknown");
}

#[test]
fn item_errors() {
    let missing = item(vec![("name", "x")], "wf", "Running", None);
    assert!(matches!(parse_execution(&missing, ts(1)), Err(ItemError::MissingJobId)));
    let bad = item(vec![("jobid", "12")], "wf", "Running", None);
    assert!(matches!(parse_execution(&bad, ts(1)), Err(ItemError::InvalidJobId)));
    let t = id_text(9);
    let ok = item(
        vec![("jobid", t.as_str()), ("workflows.argoproj.io/workflow-archiving-status", "Archived")],
        "wf-9",
        "Init",
        None,
    );
    let rec = parse_execution(&ok, ts(4)).unwrap();
    assert_eq!(rec.id, 9);
    assert!(rec.archived);
    assert_eq!(rec.status, LifecycleStatus::Pending);
    assert_eq!(rec.started, Some(ts(10)));
    assert_eq!(rec.updated, Some(ts(4)));
    let direct = record_from_execution(&ok, 42, ts(4)).unwrap();
    assert_eq!(direct.id, 42);
    let unknown = item(vec![], "wf", "Nope", None);
    assert!(matches!(record_from_execution(&unknown, 1, ts(1)), Err(ItemError::UnknownPhase)));
}

#[test]
fn repeated_label_key_is_refused() {
    let t = id_text(4);
    let dup = item(vec![("jobid", t.as_str()), ("secret", "a"), ("secret", "b")], "wf", "Running", None);
    assert!(matches!(parse_execution(&dup, ts(1)), Err(ItemError::DuplicateLabel)));
    let mut h = StateHandler::new();
    assert_eq!(h.reconcile(&vec![dup], ts(1)), vec![ItemError::DuplicateLabel]);
    assert!(h.job_state.is_empty());
    let keys = vec![("a".to_string(), "1".to_string()), ("b".to_string(), "1".to_string())];
    assert!(bakta_web_backend::argo::has_distinct_keys(&keys));
    let same = vec![("a".to_string(), "1".to_string()), ("a".to_string(), "2".to_string())];
    assert!(!bakta_web_backend::argo::has_distinct_keys(&same));
}
