use lambda_operator::types::{
    env_names_unique, ResourceList, TaskEnvVar, TaskResources, TaskSpec, TaskStatus,
};

fn var(name: &str, value: &str) -> TaskEnvVar {
    TaskEnvVar { name: name.to_string(), value: value.to_string() }
}

fn spec(image: &str, timeout: i64, env: Vec<TaskEnvVar>) -> TaskSpec {
    TaskSpec {
        image: image.to_string(),
        image_pull_policy: "IfNotPresent".to_string(),
        resources: TaskResources::default(),
        env,
        handler: "handler".to_string(),
        timeout,
    }
}

#[test]
fn a_plain_definition_is_well_formed() {
    assert!(spec("busybox", 300, Vec::new()).is_well_formed());
    assert!(spec("busybox", 1, vec![var("A", "1"), var("B", "1")]).is_well_formed());
}

#[test]
fn a_definition_without_image_is_not_well_formed() {
    assert!(!spec("", 300, Vec::new()).is_well_formed());
}

#[test]
fn a_definition_without_positive_timeout_is_not_well_formed() {
    assert!(!spec("busybox", 0, Vec::new()).is_well_formed());
    assert!(!spec("busybox", -1, Vec::new()).is_well_formed());
    assert!(!spec("busybox", i64::MIN, Vec::new()).is_well_formed());
}

#[test]
fn a_definition_with_a_repeated_variable_is_not_well_formed() {
    assert!(!spec("busybox", 300, vec![var("A", "1"), var("B", "2"), var("A", "3")])
        .is_well_formed());
}

#[test]
fn names_are_unique_when_none_repeats() {
    assert!(env_names_unique(&Vec::new()));
    assert!(env_names_unique(&vec![var("A", "1")]));
    assert!(env_names_unique(&vec![var("A", "1"), var("a", "1"), var("", "1")]));
    assert!(!env_names_unique(&vec![var("A", "1"), var("A", "1")]));
    assert!(!env_names_unique(&vec![var("A", "1"), var("B", "2"), var("C", "3"), var("B", "4")]));
}

#[test]
fn default_resources_declare_nothing() {
    let resources = TaskResources::default();
    assert!(resources.limits.cpu.is_none());
    assert!(resources.limits.memory.is_none());
    assert!(resources.requests.cpu.is_none());
    assert!(resources.requests.memory.is_none());
    let list = ResourceList::default();
    assert!(list.cpu.is_none() && list.memory.is_none());
}

#[test]
fn a_clone_holds_the_same_values() {
    let list = ResourceList { cpu: Some("1".to_string()), memory: None };
    let copy = list.clone();
    assert_eq!(copy.cpu.as_deref(), Some("1"));
    assert!(copy.memory.is_none());
    let resources = TaskResources { limits: list, requests: ResourceList::default() }.clone();
    assert_eq!(resources.limits.cpu.as_deref(), Some("1"));
    let entry = var("A", "1").clone();
    assert_eq!(entry.name, "A");
    assert_eq!(entry.value, "1");
    let status = TaskStatus { executions: 2, last_execution: Some("now".to_string()) }.clone();
    assert_eq!(status.executions, 2);
    assert_eq!(status.last_execution.as_deref(), Some("now"));
}
