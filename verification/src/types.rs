//! The task data model and the bodies exchanged over the HTTP surface.

use vstd::prelude::*;

verus! {

/// The text of an optional string, as a plain value.
pub open spec fn opt_text(s: Option<String>) -> Option<Seq<char>> {
    match s {
        Some(t) => Some(t@),
        None => None,
    }
}

/// The pull policy of a task that declares none.
pub fn default_pull_policy() -> (policy: String)
    ensures
        policy@ == "IfNotPresent"@,
{
    String::from_str("IfNotPresent")
}

/// The handler name of a task that declares none.
pub fn default_handler() -> (handler: String)
    ensures
        handler@ == "handler"@,
{
    String::from_str("handler")
}

/// The number of seconds one execution may run when a task declares no
/// timeout.
pub fn default_timeout() -> (seconds: i64)
    ensures
        seconds == 300,
{
    300
}

/// One `{cpu, memory}` pair of quantities. A quantity is text in the
/// cluster's own unit grammar; it is carried through and never interpreted.
#[derive(Debug)]
pub struct ResourceList {
    pub cpu: Option<String>,
    pub memory: Option<String>,
}

/// What a `ResourceList` holds.
pub struct ResourceListView {
    pub cpu: Option<Seq<char>>,
    pub memory: Option<Seq<char>>,
}

impl ResourceListView {
    /// Neither quantity is declared.
    pub open spec fn is_empty(self) -> bool {
        self.cpu.is_none() && self.memory.is_none()
    }
}

impl View for ResourceList {
    type V = ResourceListView;

    open spec fn view(&self) -> ResourceListView {
        ResourceListView { cpu: opt_text(self.cpu), memory: opt_text(self.memory) }
    }
}

impl Clone for ResourceList {
    fn clone(&self) -> (copy: Self)
        ensures
            copy == *self,
    {
        ResourceList { cpu: self.cpu.clone(), memory: self.memory.clone() }
    }
}

impl Default for ResourceList {
    fn default() -> (list: Self)
        ensures
            list.cpu.is_none(),
            list.memory.is_none(),
    {
        ResourceList { cpu: None, memory: None }
    }
}

/// The resources a task asks for: hard limits and scheduling requests.
#[derive(Debug)]
pub struct TaskResources {
    pub limits: ResourceList,
    pub requests: ResourceList,
}

/// What a `TaskResources` holds.
pub struct TaskResourcesView {
    pub limits: ResourceListView,
    pub requests: ResourceListView,
}

impl TaskResourcesView {
    /// None of the four quantities is declared.
    pub open spec fn is_empty(self) -> bool {
        self.limits.is_empty() && self.requests.is_empty()
    }
}

impl View for TaskResources {
    type V = TaskResourcesView;

    open spec fn view(&self) -> TaskResourcesView {
        TaskResourcesView { limits: self.limits@, requests: self.requests@ }
    }
}

impl Clone for TaskResources {
    fn clone(&self) -> (copy: Self)
        ensures
            copy == *self,
    {
        TaskResources { limits: self.limits.clone(), requests: self.requests.clone() }
    }
}

impl Default for TaskResources {
    fn default() -> (resources: Self)
        ensures
            resources@.is_empty(),
    {
        TaskResources { limits: ResourceList::default(), requests: ResourceList::default() }
    }
}

/// One environment variable that a task declares for its container.
#[derive(Debug)]
pub struct TaskEnvVar {
    pub name: String,
    pub value: String,
}

/// What a `TaskEnvVar` holds.
pub struct TaskEnvVarView {
    pub name: Seq<char>,
    pub value: Seq<char>,
}

impl View for TaskEnvVar {
    type V = TaskEnvVarView;

    open spec fn view(&self) -> TaskEnvVarView {
        TaskEnvVarView { name: self.name@, value: self.value@ }
    }
}

impl Clone for TaskEnvVar {
    fn clone(&self) -> (copy: Self)
        ensures
            copy == *self,
    {
        TaskEnvVar { name: self.name.clone(), value: self.value.clone() }
    }
}

/// The declared environment of a task, entry by entry and in order.
pub open spec fn env_views(env: Seq<TaskEnvVar>) -> Seq<TaskEnvVarView> {
    Seq::new(env.len(), |i: int| env[i]@)
}

/// The observed state of a task: how often it ran, and when last.
#[derive(Debug)]
pub struct TaskStatus {
    pub executions: i64,
    pub last_execution: Option<String>,
}

/// What a `TaskStatus` holds.
pub struct TaskStatusView {
    pub executions: int,
    pub last_execution: Option<Seq<char>>,
}

impl View for TaskStatus {
    type V = TaskStatusView;

    open spec fn view(&self) -> TaskStatusView {
        TaskStatusView {
            executions: self.executions as int,
            last_execution: opt_text(self.last_execution),
        }
    }
}

impl Clone for TaskStatus {
    fn clone(&self) -> (copy: Self)
        ensures
            copy == *self,
    {
        TaskStatus {
            executions: self.executions,
            last_execution: self.last_execution.clone(),
        }
    }
}

/// The declarative definition of a task: which container to run, how to
/// call into it, and within which bounds.
#[derive(Debug)]
pub struct TaskSpec {
    /// Container image to run.
    pub image: String,
    /// When the image is pulled.
    pub image_pull_policy: String,
    /// Resource limits and requests of the container.
    pub resources: TaskResources,
    /// Environment variables handed to the container, in declaration order.
    pub env: Vec<TaskEnvVar>,
    /// Logical entry point inside the container.
    pub handler: String,
    /// Seconds one execution may take.
    pub timeout: i64,
}

/// What a `TaskSpec` holds.
pub struct TaskSpecView {
    pub image: Seq<char>,
    pub image_pull_policy: Seq<char>,
    pub resources: TaskResourcesView,
    pub env: Seq<TaskEnvVarView>,
    pub handler: Seq<char>,
    pub timeout: int,
}

impl TaskSpecView {
    /// No two declared environment variables share a name.
    pub open spec fn env_names_unique(self) -> bool {
        forall|i: int, j: int|
            0 <= i < j < self.env.len() ==> self.env[i].name != self.env[j].name
    }

    /// The definition names an image, allots a positive time, and declares
    /// each environment variable once.
    pub open spec fn well_formed(self) -> bool {
        &&& self.image.len() > 0
        &&& self.timeout > 0
        &&& self.env_names_unique()
    }
}

impl View for TaskSpec {
    type V = TaskSpecView;

    open spec fn view(&self) -> TaskSpecView {
        TaskSpecView {
            image: self.image@,
            image_pull_policy: self.image_pull_policy@,
            resources: self.resources@,
            env: env_views(self.env@),
            handler: self.handler@,
            timeout: self.timeout as int,
        }
    }
}

/// Whether no two of the declared variables share a name.
pub fn env_names_unique(env: &Vec<TaskEnvVar>) -> (unique: bool)
    ensures
        unique == (forall|i: int, j: int|
            0 <= i < j < env@.len() ==> env@[i].name@ != env@[j].name@),
{
    let mut j: usize = 0;
    while j < env.len()
        invariant
            j <= env@.len(),
            forall|a: int, b: int| 0 <= a < b < j ==> env@[a].name@ != env@[b].name@,
        decreases env@.len() - j,
    {
        let mut i: usize = 0;
        while i < j
            invariant
                i <= j < env@.len(),
                forall|a: int| 0 <= a < i ==> env@[a].name@ != env@[j as int].name@,
            decreases j - i,
        {
            if env[i].name == env[j].name {
                return false;
            }
            i += 1;
        }
        j += 1;
    }
    true
}

impl TaskSpec {
    /// Whether the definition names an image, allots a positive time, and
    /// declares each environment variable once. The store does not
    /// enforce this, and a job is built for a definition that does not
    /// meet it.
    pub fn is_well_formed(&self) -> (ok: bool)
        ensures
            ok == self@.well_formed(),
    {
        let unique = env_names_unique(&self.env);
        proof {
            let declared = self.env@;
            let views = self@.env;
            if unique {
                assert forall|i: int, j: int| 0 <= i < j < views.len() implies views[i].name
                    != views[j].name by {
                    assert(declared[i].name@ != declared[j].name@);
                }
            }
            if self@.env_names_unique() {
                assert forall|i: int, j: int| 0 <= i < j < declared.len() implies declared[i].name@
                    != declared[j].name@ by {
                    assert(views[i].name != views[j].name);
                }
            }
        }
        !self.image.as_str().is_empty() && self.timeout > 0 && unique
    }
}

/// A task as the definition store holds it: identity, definition, status.
#[derive(Debug)]
pub struct Task {
    /// Name of the task within its namespace.
    pub name: String,
    /// Namespace of the task, where the store reports one.
    pub namespace: Option<String>,
    pub spec: TaskSpec,
    pub status: Option<TaskStatus>,
}

/// What a `Task` holds.
pub struct TaskView {
    pub name: Seq<char>,
    pub namespace: Option<Seq<char>>,
    pub spec: TaskSpecView,
    pub status: Option<TaskStatusView>,
}

impl View for Task {
    type V = TaskView;

    open spec fn view(&self) -> TaskView {
        TaskView {
            name: self.name@,
            namespace: opt_text(self.namespace),
            spec: self.spec@,
            status: match self.status {
                Some(status) => Some(status@),
                None => None,
            },
        }
    }
}

/// The body of an invocation call. It lives for one call and is never
/// stored.
#[derive(Debug)]
pub struct InvokeRequest {
    /// Arguments for the handler: any JSON document.
    pub kwargs: serde_json::Value,
    /// Identifier chosen by the caller; one is drawn where it is absent.
    pub request_id: Option<String>,
    /// Accepted and not acted upon: every invocation is answered at once.
    pub async_mode: Option<bool>,
}

/// The acknowledgement that a job was submitted. It says nothing of whether
/// the job was scheduled or has run.
#[derive(Debug)]
pub struct InvokeResponse {
    pub request_id: String,
    pub job_name: String,
    pub status: String,
    pub namespace: String,
    pub task_name: String,
}

/// What an `InvokeResponse` holds.
pub struct InvokeResponseView {
    pub request_id: Seq<char>,
    pub job_name: Seq<char>,
    pub status: Seq<char>,
    pub namespace: Seq<char>,
    pub task_name: Seq<char>,
}

impl View for InvokeResponse {
    type V = InvokeResponseView;

    open spec fn view(&self) -> InvokeResponseView {
        InvokeResponseView {
            request_id: self.request_id@,
            job_name: self.job_name@,
            status: self.status@,
            namespace: self.namespace@,
            task_name: self.task_name@,
        }
    }
}

/// The body of every failed call.
#[derive(Debug)]
pub struct ErrorResponse {
    pub error: String,
    pub details: Option<String>,
}

/// What an `ErrorResponse` holds.
pub struct ErrorResponseView {
    pub error: Seq<char>,
    pub details: Option<Seq<char>>,
}

impl View for ErrorResponse {
    type V = ErrorResponseView;

    open spec fn view(&self) -> ErrorResponseView {
        ErrorResponseView { error: self.error@, details: opt_text(self.details) }
    }
}

/// The body of the health probe.
#[derive(Debug)]
pub struct HealthResponse {
    pub status: String,
    pub version: String,
}

/// What a `HealthResponse` holds.
pub struct HealthResponseView {
    pub status: Seq<char>,
    pub version: Seq<char>,
}

impl View for HealthResponse {
    type V = HealthResponseView;

    open spec fn view(&self) -> HealthResponseView {
        HealthResponseView { status: self.status@, version: self.version@ }
    }
}

/// The summary of one task in a listing.
#[derive(Debug)]
pub struct TaskInfo {
    pub name: String,
    pub namespace: String,
    pub image: String,
    pub handler: String,
}

/// What a `TaskInfo` holds.
pub struct TaskInfoView {
    pub name: Seq<char>,
    pub namespace: Seq<char>,
    pub image: Seq<char>,
    pub handler: Seq<char>,
}

impl View for TaskInfo {
    type V = TaskInfoView;

    open spec fn view(&self) -> TaskInfoView {
        TaskInfoView {
            name: self.name@,
            namespace: self.namespace@,
            image: self.image@,
            handler: self.handler@,
        }
    }
}

/// The body of a task listing.
#[derive(Debug)]
pub struct TaskListResponse {
    pub tasks: Vec<TaskInfo>,
}

impl View for TaskListResponse {
    type V = Seq<TaskInfoView>;

    open spec fn view(&self) -> Seq<TaskInfoView> {
        Seq::new(self.tasks@.len(), |i: int| self.tasks@[i]@)
    }
}

} // verus!
