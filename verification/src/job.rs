//! From a task and one invocation to the manifest of the job that runs it.
//!
//! The manifest is written once and handed to the cluster; nothing here
//! reads it back. Each part of it has a spec function that says what it
//! holds, and the builders are proved to produce exactly that.

use crate::decimal::{decimal_text, lemma_decimal_text_injective, push_decimal};
use crate::error::OperatorError;
use crate::outside::{encode_json, is_hyphenated_uuid, json_text, random_uuid, unix_seconds_now};
use crate::string_map::StringMap;
use crate::types::{
    opt_text, InvokeRequest, ResourceList, ResourceListView, Task, TaskEnvVarView, TaskResources,
    TaskResourcesView, TaskView,
};
use vstd::prelude::*;

verus! {

/// Seconds a finished job is kept before the cluster removes it.
pub const RETENTION_SECONDS: i32 = 3600;

/// How often the cluster may retry a failed job: never.
pub const BACKOFF_LIMIT: i32 = 0;

/// One environment variable of the job's container.
#[derive(Debug)]
pub struct EnvVar {
    pub name: String,
    pub value: String,
}

/// What an `EnvVar` holds.
pub struct EnvVarView {
    pub name: Seq<char>,
    pub value: Seq<char>,
}

impl View for EnvVar {
    type V = EnvVarView;

    open spec fn view(&self) -> EnvVarView {
        EnvVarView { name: self.name@, value: self.value@ }
    }
}

/// The environment of a container, entry by entry and in order.
pub open spec fn env_var_views(env: Seq<EnvVar>) -> Seq<EnvVarView> {
    Seq::new(env.len(), |i: int| env[i]@)
}

/// The resource requirements of a container. A side without any quantity
/// is absent, not an empty map.
#[derive(Debug)]
pub struct ResourceRequirements {
    pub limits: Option<StringMap>,
    pub requests: Option<StringMap>,
}

/// What a `ResourceRequirements` holds.
pub struct ResourceRequirementsView {
    pub limits: Option<Map<Seq<char>, Seq<char>>>,
    pub requests: Option<Map<Seq<char>, Seq<char>>>,
}

/// The map of an optional `StringMap`.
pub open spec fn opt_map(m: Option<StringMap>) -> Option<Map<Seq<char>, Seq<char>>> {
    match m {
        Some(map) => Some(map@),
        None => None,
    }
}

impl View for ResourceRequirements {
    type V = ResourceRequirementsView;

    open spec fn view(&self) -> ResourceRequirementsView {
        ResourceRequirementsView {
            limits: opt_map(self.limits),
            requests: opt_map(self.requests),
        }
    }
}

/// The quantities that one side declares, by resource name: `cpu` and
/// `memory`, each only where it is declared, each with its text unchanged.
pub open spec fn quantities(list: ResourceListView) -> Map<Seq<char>, Seq<char>> {
    let cpu_only = match list.cpu {
        Some(cpu) => Map::<Seq<char>, Seq<char>>::empty().insert("cpu"@, cpu),
        None => Map::<Seq<char>, Seq<char>>::empty(),
    };
    match list.memory {
        Some(memory) => cpu_only.insert("memory"@, memory),
        None => cpu_only,
    }
}

/// One side of the requirements: absent where nothing is declared.
pub open spec fn side_requirements(list: ResourceListView) -> Option<Map<Seq<char>, Seq<char>>> {
    if list.is_empty() {
        None
    } else {
        Some(quantities(list))
    }
}

/// The requirements that a task's resources map to: none at all where the
/// task declares no quantity, else each side that declares one.
pub open spec fn resource_requirements(resources: TaskResourcesView) -> Option<
    ResourceRequirementsView,
> {
    if resources.is_empty() {
        None
    } else {
        Some(
            ResourceRequirementsView {
                limits: side_requirements(resources.limits),
                requests: side_requirements(resources.requests),
            },
        )
    }
}

/// Maps one side of a task's resources to the quantities of the manifest.
pub fn map_resource_list(list: &ResourceList) -> (side: Option<StringMap>)
    ensures
        opt_map(side) == side_requirements(list@),
{
    let mut map = StringMap::new();
    if let Some(cpu) = &list.cpu {
        map.insert(String::from_str("cpu"), cpu.clone());
    }
    if let Some(memory) = &list.memory {
        map.insert(String::from_str("memory"), memory.clone());
    }
    if list.cpu.is_none() && list.memory.is_none() {
        None
    } else {
        Some(map)
    }
}

/// Maps a task's declared resources to the requirements of its container.
/// Quantities are passed through as they are written.
pub fn map_resources(resources: &TaskResources) -> (requirements: Option<ResourceRequirements>)
    ensures
        match requirements {
            Some(r) => resource_requirements(resources@) == Some(r@),
            None => resource_requirements(resources@).is_none(),
        },
{
    let limits = map_resource_list(&resources.limits);
    let requests = map_resource_list(&resources.requests);
    if limits.is_none() && requests.is_none() {
        None
    } else {
        Some(ResourceRequirements { limits, requests })
    }
}

/// The one container of a job.
#[derive(Debug)]
pub struct Container {
    pub name: String,
    pub image: String,
    pub image_pull_policy: String,
    pub env: Vec<EnvVar>,
    pub resources: Option<ResourceRequirements>,
}

/// What a `Container` holds.
pub struct ContainerView {
    pub name: Seq<char>,
    pub image: Seq<char>,
    pub image_pull_policy: Seq<char>,
    pub env: Seq<EnvVarView>,
    pub resources: Option<ResourceRequirementsView>,
}

impl View for Container {
    type V = ContainerView;

    open spec fn view(&self) -> ContainerView {
        ContainerView {
            name: self.name@,
            image: self.image@,
            image_pull_policy: self.image_pull_policy@,
            env: env_var_views(self.env@),
            resources: match self.resources {
                Some(r) => Some(r@),
                None => None,
            },
        }
    }
}

/// The manifest of the job that runs one invocation.
#[derive(Debug)]
pub struct JobManifest {
    /// Name of the job: its identity in the namespace.
    pub name: String,
    pub namespace: String,
    /// Labels of the job itself.
    pub labels: StringMap,
    /// Labels of the pod that the job starts.
    pub pod_labels: StringMap,
    pub container: Container,
    /// Whether the cluster restarts the container when it exits.
    pub restart_policy: String,
    /// Seconds after which the cluster ends a run that is still active.
    pub active_deadline_seconds: i64,
    /// How often the cluster retries a failed run.
    pub backoff_limit: i32,
    /// Seconds for which the cluster keeps the job once it has finished.
    pub ttl_seconds_after_finished: i32,
}

/// What a `JobManifest` holds.
pub struct JobManifestView {
    pub name: Seq<char>,
    pub namespace: Seq<char>,
    pub labels: Map<Seq<char>, Seq<char>>,
    pub pod_labels: Map<Seq<char>, Seq<char>>,
    pub container: ContainerView,
    pub restart_policy: Seq<char>,
    pub active_deadline_seconds: int,
    pub backoff_limit: int,
    pub ttl_seconds_after_finished: int,
}

impl View for JobManifest {
    type V = JobManifestView;

    open spec fn view(&self) -> JobManifestView {
        JobManifestView {
            name: self.name@,
            namespace: self.namespace@,
            labels: self.labels@,
            pod_labels: self.pod_labels@,
            container: self.container@,
            restart_policy: self.restart_policy@,
            active_deadline_seconds: self.active_deadline_seconds as int,
            backoff_limit: self.backoff_limit as int,
            ttl_seconds_after_finished: self.ttl_seconds_after_finished as int,
        }
    }
}

/// The name of a job: the task's name, a hyphen, and the second of
/// submission in decimal.
pub open spec fn job_name_text(task_name: Seq<char>, timestamp: int) -> Seq<char> {
    task_name + seq!['-'] + decimal_text(timestamp)
}

/// The four variables that every job carries, in their fixed order: the
/// handler, the task's name, the request's identifier, the arguments.
pub open spec fn fixed_env(task: TaskView, request_id: Seq<char>, kwargs: Seq<char>) -> Seq<
    EnvVarView,
> {
    seq![
        EnvVarView { name: "LAMBDA_HANDLER"@, value: task.spec.handler },
        EnvVarView { name: "LAMBDA_TASK_NAME"@, value: task.name },
        EnvVarView { name: "LAMBDA_REQUEST_ID"@, value: request_id },
        EnvVarView { name: "LAMBDA_KWARGS"@, value: kwargs },
    ]
}

/// A declared variable as it stands in the job's environment.
pub open spec fn declared_env_var(declared: TaskEnvVarView) -> EnvVarView {
    EnvVarView { name: declared.name, value: declared.value }
}

/// The environment of a job: the four fixed variables, then every variable
/// that the task declares, in declaration order. A declared name that
/// repeats a fixed or an earlier one stays as it is.
pub open spec fn job_env(task: TaskView, request_id: Seq<char>, kwargs: Seq<char>) -> Seq<
    EnvVarView,
> {
    fixed_env(task, request_id, kwargs) + task.spec.env.map_values(
        |declared: TaskEnvVarView| declared_env_var(declared),
    )
}

/// The labels of a job and of its pod: the marker of this operator, the
/// task's name, the request's identifier.
pub open spec fn job_labels(task_name: Seq<char>, request_id: Seq<char>) -> Map<
    Seq<char>,
    Seq<char>,
> {
    Map::<Seq<char>, Seq<char>>::empty().insert("app"@, "lambda-task"@).insert(
        "task"@,
        task_name,
    ).insert("request-id"@, request_id)
}

/// The manifest for one invocation of a task: what `build_job` returns.
pub open spec fn job_manifest(
    task: TaskView,
    namespace: Seq<char>,
    request_id: Seq<char>,
    timestamp: int,
    kwargs: Seq<char>,
) -> JobManifestView {
    JobManifestView {
        name: job_name_text(task.name, timestamp),
        namespace: namespace,
        labels: job_labels(task.name, request_id),
        pod_labels: job_labels(task.name, request_id),
        container: ContainerView {
            name: "task"@,
            image: task.spec.image,
            image_pull_policy: task.spec.image_pull_policy,
            env: job_env(task, request_id, kwargs),
            resources: resource_requirements(task.spec.resources),
        },
        restart_policy: "Never"@,
        active_deadline_seconds: task.spec.timeout,
        backoff_limit: 0,
        ttl_seconds_after_finished: 3600,
    }
}

/// The quantity that one side of the requirements holds under a resource
/// name, if it holds one.
pub open spec fn quantity_of(side: Option<Map<Seq<char>, Seq<char>>>, resource: Seq<char>) -> Option<
    Seq<char>,
> {
    match side {
        Some(map) => if map.contains_key(resource) {
            Some(map[resource])
        } else {
            None
        },
        None => None,
    }
}

/// The only resource names that a side of the requirements may hold.
pub open spec fn only_cpu_and_memory(side: Option<Map<Seq<char>, Seq<char>>>) -> bool {
    match side {
        Some(map) => forall|resource: Seq<char>| #[trigger]
            map.contains_key(resource) ==> resource == "cpu"@ || resource == "memory"@,
        None => true,
    }
}

/// A task that declares no quantity gets a manifest without resource
/// requirements: they are absent, not present and empty.
pub proof fn lemma_no_resources_no_requirements(
    task: TaskView,
    namespace: Seq<char>,
    request_id: Seq<char>,
    timestamp: int,
    kwargs: Seq<char>,
)
    requires
        task.spec.resources.is_empty(),
    ensures
        job_manifest(task, namespace, request_id, timestamp, kwargs).container.resources.is_none(),
{
}

/// A task that declares at least one quantity gets a manifest whose
/// requirements hold exactly the declared quantities, each under its own
/// name and with its text unchanged, and nothing else.
pub proof fn lemma_declared_resources_kept(
    task: TaskView,
    namespace: Seq<char>,
    request_id: Seq<char>,
    timestamp: int,
    kwargs: Seq<char>,
)
    requires
        !task.spec.resources.is_empty(),
    ensures
        job_manifest(task, namespace, request_id, timestamp, kwargs).container.resources.is_some(),
        ({
            let built = job_manifest(
                task,
                namespace,
                request_id,
                timestamp,
                kwargs,
            ).container.resources.unwrap();
            let declared = task.spec.resources;
            &&& quantity_of(built.limits, "cpu"@) == declared.limits.cpu
            &&& quantity_of(built.limits, "memory"@) == declared.limits.memory
            &&& quantity_of(built.requests, "cpu"@) == declared.requests.cpu
            &&& quantity_of(built.requests, "memory"@) == declared.requests.memory
            &&& only_cpu_and_memory(built.limits)
            &&& only_cpu_and_memory(built.requests)
        }),
{
    reveal_strlit("cpu");
    reveal_strlit("memory");
    assert("cpu"@.len() != "memory"@.len());
}

/// The environment of a job has four entries more than the task declares:
/// the four fixed ones come first, in their fixed order, and the declared
/// ones follow in declaration order.
pub proof fn lemma_job_env_layout(task: TaskView, request_id: Seq<char>, kwargs: Seq<char>)
    ensures
        job_env(task, request_id, kwargs).len() == 4 + task.spec.env.len(),
        job_env(task, request_id, kwargs)[0] == (EnvVarView {
            name: "LAMBDA_HANDLER"@,
            value: task.spec.handler,
        }),
        job_env(task, request_id, kwargs)[1] == (EnvVarView {
            name: "LAMBDA_TASK_NAME"@,
            value: task.name,
        }),
        job_env(task, request_id, kwargs)[2] == (EnvVarView {
            name: "LAMBDA_REQUEST_ID"@,
            value: request_id,
        }),
        job_env(task, request_id, kwargs)[3] == (EnvVarView {
            name: "LAMBDA_KWARGS"@,
            value: kwargs,
        }),
        forall|i: int|
            0 <= i < task.spec.env.len() ==> #[trigger] job_env(task, request_id, kwargs)[4 + i]
                == declared_env_var(task.spec.env[i]),
{
}

/// A job carries three labels and no other: the marker of this operator
/// under `app`, the task's name under `task`, and the request's identifier
/// under `request-id`.
pub proof fn lemma_job_labels(task_name: Seq<char>, request_id: Seq<char>)
    ensures
        job_labels(task_name, request_id).dom() =~= set!["app"@, "task"@, "request-id"@],
        job_labels(task_name, request_id)["app"@] == "lambda-task"@,
        job_labels(task_name, request_id)["task"@] == task_name,
        job_labels(task_name, request_id)["request-id"@] == request_id,
{
    reveal_strlit("app");
    reveal_strlit("task");
    reveal_strlit("request-id");
    assert("app"@.len() == 3 && "task"@.len() == 4 && "request-id"@.len() == 10);
}

/// Jobs of one task that are submitted in different seconds have different
/// names; jobs submitted in the same second share their name.
pub proof fn lemma_job_name_tells_seconds_apart(task_name: Seq<char>, first: int, second: int)
    ensures
        job_name_text(task_name, first) == job_name_text(task_name, second) <==> first == second,
{
    if job_name_text(task_name, first) == job_name_text(task_name, second) {
        let prefix = task_name + seq!['-'];
        let a = decimal_text(first);
        let b = decimal_text(second);
        assert((prefix + a).subrange(prefix.len() as int, (prefix + a).len() as int) =~= a);
        assert((prefix + b).subrange(prefix.len() as int, (prefix + b).len() as int) =~= b);
        lemma_decimal_text_injective(first, second);
    }
}

/// Derives the name of a job from the task's name and the second of
/// submission.
pub fn job_name(task_name: &str, timestamp: i64) -> (name: String)
    ensures
        name@ == job_name_text(task_name@, timestamp as int),
{
    proof {
        reveal_strlit("-");
    }
    let mut name = String::from_str(task_name);
    name.append("-");
    push_decimal(&mut name, timestamp);
    assert("-"@ =~= seq!['-']);
    name
}

/// Builds the environment of a job.
pub fn build_env(task: &Task, request_id: &str, kwargs: String) -> (env: Vec<EnvVar>)
    ensures
        env_var_views(env@) == job_env(task@, request_id@, kwargs@),
        env@.len() == 4 + task.spec.env@.len(),
{
    let ghost expected = job_env(task@, request_id@, kwargs@);
    let mut env: Vec<EnvVar> = Vec::new();
    env.push(EnvVar { name: String::from_str("LAMBDA_HANDLER"), value: task.spec.handler.clone() });
    env.push(EnvVar { name: String::from_str("LAMBDA_TASK_NAME"), value: task.name.clone() });
    env.push(
        EnvVar { name: String::from_str("LAMBDA_REQUEST_ID"), value: String::from_str(request_id) },
    );
    env.push(EnvVar { name: String::from_str("LAMBDA_KWARGS"), value: kwargs });
    let mut i: usize = 0;
    while i < task.spec.env.len()
        invariant
            i <= task.spec.env@.len(),
            expected == job_env(task@, request_id@, kwargs@),
            env@.len() == 4 + i,
            forall|j: int| 0 <= j < env@.len() ==> (#[trigger] env@[j])@ == expected[j],
        decreases task.spec.env@.len() - i,
    {
        let declared = &task.spec.env[i];
        env.push(EnvVar { name: declared.name.clone(), value: declared.value.clone() });
        i += 1;
    }
    assert(env_var_views(env@) =~= expected);
    env
}

/// Builds the labels of a job.
pub fn build_labels(task_name: &str, request_id: &str) -> (labels: StringMap)
    ensures
        labels@ == job_labels(task_name@, request_id@),
{
    let mut labels = StringMap::new();
    labels.insert(String::from_str("app"), String::from_str("lambda-task"));
    labels.insert(String::from_str("task"), String::from_str(task_name));
    labels.insert(String::from_str("request-id"), String::from_str(request_id));
    labels
}

/// Builds the manifest of the job for one invocation of `task`, from the
/// identifier resolved for the request, the second of submission, and the
/// text that the arguments were encoded to.
///
/// The job runs one container with the task's image, is never restarted or
/// retried, is ended after the task's timeout, and is removed an hour after
/// it has finished.
pub fn build_job(
    task: &Task,
    namespace: &str,
    request_id: &str,
    timestamp: i64,
    kwargs: String,
) -> (job: JobManifest)
    ensures
        job@ == job_manifest(task@, namespace@, request_id@, timestamp as int, kwargs@),
{
    let container = Container {
        name: String::from_str("task"),
        image: task.spec.image.clone(),
        image_pull_policy: task.spec.image_pull_policy.clone(),
        env: build_env(task, request_id, kwargs),
        resources: map_resources(&task.spec.resources),
    };
    JobManifest {
        name: job_name(task.name.as_str(), timestamp),
        namespace: String::from_str(namespace),
        labels: build_labels(task.name.as_str(), request_id),
        pod_labels: build_labels(task.name.as_str(), request_id),
        container,
        restart_policy: String::from_str("Never"),
        active_deadline_seconds: task.spec.timeout,
        backoff_limit: BACKOFF_LIMIT,
        ttl_seconds_after_finished: RETENTION_SECONDS,
    }
}

/// Whether `resolved` may stand for a request that asked for `requested`:
/// an identifier that the caller chose is kept as it is; where the caller
/// chose none, the identifier is a freshly drawn UUID in hyphenated form.
pub open spec fn request_id_resolves(requested: Option<Seq<char>>, resolved: Seq<char>) -> bool {
    match requested {
        Some(id) => resolved == id,
        None => is_hyphenated_uuid(resolved),
    }
}

/// Resolves the identifier of a request: the caller's, or a random one.
pub fn resolve_request_id(requested: &Option<String>) -> (resolved: String)
    ensures
        request_id_resolves(opt_text(*requested), resolved@),
{
    match requested {
        Some(id) => id.clone(),
        None => random_uuid(),
    }
}

/// Whether `job` is a manifest for one invocation of `task` in `namespace`
/// whose arguments were encoded to `kwargs`: the one that `job_manifest`
/// describes for some identifier that resolves the requested one and for
/// some second since the epoch.
pub open spec fn is_job_for(
    job: JobManifestView,
    task: TaskView,
    namespace: Seq<char>,
    requested_id: Option<Seq<char>>,
    kwargs: Seq<char>,
) -> bool {
    exists|request_id: Seq<char>, timestamp: int|
        {
            &&& request_id_resolves(requested_id, request_id)
            &&& 0 <= timestamp <= i64::MAX
            &&& job == #[trigger] job_manifest(task, namespace, request_id, timestamp, kwargs)
        }
}

/// Creates the manifest of the job for one invocation of `task` in
/// `namespace`.
///
/// The request's identifier is resolved, the clock is read for the job's
/// name, and the arguments are encoded as JSON text. The call fails exactly
/// when the arguments cannot be encoded; otherwise the manifest is the one
/// that `job_manifest` describes for the resolved identifier, the second
/// read, and the encoded text.
pub fn create_job_for_task(task: &Task, request: &InvokeRequest, namespace: &str) -> (created:
    Result<JobManifest, OperatorError>)
    ensures
        match created {
            Ok(job) => json_text(request.kwargs).is_some() && is_job_for(
                job@,
                task@,
                namespace@,
                opt_text(request.request_id),
                json_text(request.kwargs).unwrap(),
            ),
            Err(failure) => json_text(request.kwargs).is_none() && failure is SerdeError,
        },
{
    let request_id = resolve_request_id(&request.request_id);
    let timestamp = unix_seconds_now();
    match encode_json(&request.kwargs) {
        Ok(kwargs) => {
            let job = build_job(task, namespace, request_id.as_str(), timestamp, kwargs);
            assert(job@ == job_manifest(
                task@,
                namespace@,
                request_id@,
                timestamp as int,
                json_text(request.kwargs).unwrap(),
            ));
            Ok(job)
        },
        Err(error) => Err(OperatorError::from(error)),
    }
}

} // verus!
