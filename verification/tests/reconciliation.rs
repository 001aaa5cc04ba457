use lambda_operator::error::OperatorError;
use lambda_operator::reconcile::{
    error_policy, reconcile_task, Action, ERROR_RETRY_SECONDS, RECONCILE_INTERVAL_SECONDS,
};
use lambda_operator::types::{Task, TaskResources, TaskSpec, TaskStatus};

fn task(status: Option<TaskStatus>) -> Task {
    Task {
        name: "echo".to_string(),
        namespace: Some("ns1".to_string()),
        spec: TaskSpec {
            image: "busybox".to_string(),
            image_pull_policy: "Always".to_string(),
            resources: TaskResources::default(),
            env: Vec::new(),
            handler: "h".to_string(),
            timeout: 60,
        },
        status,
    }
}

#[test]
fn a_reconciled_task_is_looked_at_again_in_five_minutes() {
    let action = reconcile_task(&task(None)).expect("reconciliation does not fail");
    assert_eq!(action, Action::requeue(300));
    assert_eq!(action.requeue_after, Some(300));
    assert_eq!(RECONCILE_INTERVAL_SECONDS, 300);
}

#[test]
fn reconciliation_leaves_the_status_alone() {
    let observed = task(Some(TaskStatus { executions: 3, last_execution: Some("t".to_string()) }));
    let action = reconcile_task(&observed).expect("reconciliation does not fail");
    assert_eq!(action.requeue_after, Some(300));
    let status = observed.status.expect("the status is still there");
    assert_eq!(status.executions, 3);
    assert_eq!(status.last_execution.as_deref(), Some("t"));
}

#[test]
fn a_failed_reconciliation_is_retried_in_one_minute() {
    let observed = task(None);
    for failure in [
        OperatorError::KubeError("down".to_string()),
        OperatorError::TaskNotFound("echo".to_string()),
        OperatorError::ConfigError("bad".to_string()),
        OperatorError::InvalidRequest("bad".to_string()),
    ] {
        assert_eq!(error_policy(&observed, &failure), Action::requeue(60));
    }
    assert_eq!(ERROR_RETRY_SECONDS, 60);
}

#[test]
fn requeue_holds_the_delay() {
    assert_eq!(Action::requeue(0).requeue_after, Some(0));
    assert_eq!(Action::requeue(u64::MAX).requeue_after, Some(u64::MAX));
}
