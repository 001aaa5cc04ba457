//! The operations behind the HTTP surface.
//!
//! The program around the library asks the task store and the cluster; the
//! functions here decide, from what came back, what is done next and what
//! the caller is told.

use crate::config::OperatorConfig;
use crate::error::OperatorError;
use crate::job::{create_job_for_task, is_job_for, request_id_resolves, resolve_request_id, JobManifest};
use crate::outside::json_text;
use crate::types::{
    opt_text, HealthResponse, HealthResponseView, InvokeRequest, InvokeResponse,
    InvokeResponseView, Task, TaskInfo, TaskInfoView, TaskListResponse, TaskView,
};
use vstd::prelude::*;

verus! {

/// An invocation whose job is ready to be handed to the cluster.
#[derive(Debug)]
pub struct PendingInvocation {
    /// The job to submit.
    pub job: JobManifest,
    /// Namespace of the call.
    pub namespace: String,
    /// Name of the task as the caller gave it.
    pub task_name: String,
    /// Identifier that the caller chose, if any.
    pub requested_id: Option<String>,
}

/// What follows the lookup of the task: a job for the cluster, or the
/// failure that ends the call.
#[derive(Debug)]
pub enum InvokeStep {
    /// Submit the job, then `complete` the invocation with the outcome.
    Submit(PendingInvocation),
    /// Answer with the failure. Nothing is submitted.
    Reject(OperatorError),
}

/// Starts an invocation of the task `task_name` in `namespace`, given what
/// the task store found under that name.
///
/// Where the store found no task, the call is rejected with `TaskNotFound`
/// and no job is made. Where it found one, the job for it is created; the
/// call is rejected only if the arguments cannot be encoded.
pub fn invoke_task(
    namespace: &str,
    task_name: &str,
    found: Option<Task>,
    request: &InvokeRequest,
) -> (step: InvokeStep)
    ensures
        match step {
            InvokeStep::Submit(pending) => {
                &&& found is Some
                &&& json_text(request.kwargs) is Some
                &&& is_job_for(
                    pending.job@,
                    found->0@,
                    namespace@,
                    opt_text(request.request_id),
                    json_text(request.kwargs)->0,
                )
                &&& pending.namespace@ == namespace@
                &&& pending.task_name@ == task_name@
                &&& opt_text(pending.requested_id) == opt_text(request.request_id)
            },
            InvokeStep::Reject(failure) => match found {
                None => failure is TaskNotFound && failure->TaskNotFound_0@ == task_name@,
                Some(_) => json_text(request.kwargs) is None && failure is SerdeError,
            },
        },
{
    match found {
        None => InvokeStep::Reject(OperatorError::TaskNotFound(String::from_str(task_name))),
        Some(task) => match create_job_for_task(&task, request, namespace) {
            Ok(job) => InvokeStep::Submit(
                PendingInvocation {
                    job,
                    namespace: String::from_str(namespace),
                    task_name: String::from_str(task_name),
                    requested_id: request.request_id.clone(),
                },
            ),
            Err(failure) => InvokeStep::Reject(failure),
        },
    }
}

/// Starts an invocation in the namespace that the configuration names for
/// calls that give none.
pub fn invoke_task_default_namespace(
    config: &OperatorConfig,
    task_name: &str,
    found: Option<Task>,
    request: &InvokeRequest,
) -> (step: InvokeStep)
    ensures
        match step {
            InvokeStep::Submit(pending) => {
                &&& found is Some
                &&& json_text(request.kwargs) is Some
                &&& is_job_for(
                    pending.job@,
                    found->0@,
                    config.default_namespace@,
                    opt_text(request.request_id),
                    json_text(request.kwargs)->0,
                )
                &&& pending.namespace@ == config.default_namespace@
                &&& pending.task_name@ == task_name@
                &&& opt_text(pending.requested_id) == opt_text(request.request_id)
            },
            InvokeStep::Reject(failure) => match found {
                None => failure is TaskNotFound && failure->TaskNotFound_0@ == task_name@,
                Some(_) => json_text(request.kwargs) is None && failure is SerdeError,
            },
        },
{
    invoke_task(config.default_namespace.as_str(), task_name, found, request)
}

/// The acknowledgement of a submitted job.
pub open spec fn acknowledgement(
    request_id: Seq<char>,
    job_name: Seq<char>,
    namespace: Seq<char>,
    task_name: Seq<char>,
) -> InvokeResponseView {
    InvokeResponseView {
        request_id: request_id,
        job_name: job_name,
        status: "accepted"@,
        namespace: namespace,
        task_name: task_name,
    }
}

/// Builds the acknowledgement of a submitted job.
pub fn accepted(request_id: String, job_name: String, namespace: String, task_name: String) -> (response:
    InvokeResponse)
    ensures
        response@ == acknowledgement(request_id@, job_name@, namespace@, task_name@),
{
    InvokeResponse {
        request_id,
        job_name,
        status: String::from_str("accepted"),
        namespace,
        task_name,
    }
}

impl PendingInvocation {
    /// Ends the invocation with the outcome of the submission: `Ok` where
    /// the cluster took the job, else the cluster's message.
    ///
    /// A job that was taken is acknowledged at once, under its name, with an
    /// identifier that resolves the one the caller asked for. Where the
    /// caller chose none, the identifier of the acknowledgement is drawn
    /// here, apart from the one that the job carries. A refusal is passed on
    /// with the cluster's message unchanged; nothing is tried again.
    pub fn complete(self, outcome: Result<(), String>) -> (answer: Result<
        InvokeResponse,
        OperatorError,
    >)
        ensures
            match outcome {
                Ok(_) => {
                    &&& answer is Ok
                    &&& request_id_resolves(
                        opt_text(self.requested_id),
                        answer->Ok_0.request_id@,
                    )
                    &&& answer->Ok_0@ == acknowledgement(
                        answer->Ok_0.request_id@,
                        self.job.name@,
                        self.namespace@,
                        self.task_name@,
                    )
                },
                Err(message) => {
                    &&& answer is Err
                    &&& answer->Err_0 is KubeError
                    &&& answer->Err_0->KubeError_0@ == message@
                },
            },
    {
        match outcome {
            Ok(_) => {
                let request_id = resolve_request_id(&self.requested_id);
                Ok(accepted(request_id, self.job.name, self.namespace, self.task_name))
            },
            Err(message) => Err(OperatorError::KubeError(message)),
        }
    }
}

/// The summary of a task in a listing. A task without a namespace is
/// listed under the empty one.
pub open spec fn task_info(task: TaskView) -> TaskInfoView {
    TaskInfoView {
        name: task.name,
        namespace: match task.namespace {
            Some(namespace) => namespace,
            None => Seq::<char>::empty(),
        },
        image: task.spec.image,
        handler: task.spec.handler,
    }
}

/// Summarises one task.
pub fn summarize(task: &Task) -> (info: TaskInfo)
    ensures
        info@ == task_info(task@),
{
    TaskInfo {
        name: task.name.clone(),
        namespace: match &task.namespace {
            Some(namespace) => namespace.clone(),
            None => String::new(),
        },
        image: task.spec.image.clone(),
        handler: task.spec.handler.clone(),
    }
}

/// The summaries of the stored tasks, one for each and in their order.
pub open spec fn task_infos(tasks: Seq<Task>) -> Seq<TaskInfoView> {
    Seq::new(tasks.len(), |i: int| task_info(tasks[i]@))
}

/// Lists the tasks that the store holds over all namespaces: one summary
/// for each, in the store's order. An empty store gives an empty listing.
pub fn list_tasks(tasks: &Vec<Task>) -> (listing: TaskListResponse)
    ensures
        listing@ == task_infos(tasks@),
        listing.tasks@.len() == tasks@.len(),
        tasks@.len() == 0 ==> listing.tasks@.len() == 0,
{
    let mut infos: Vec<TaskInfo> = Vec::new();
    let mut i: usize = 0;
    while i < tasks.len()
        invariant
            i <= tasks@.len(),
            infos@.len() == i,
            forall|j: int| 0 <= j < i ==> (#[trigger] infos@[j])@ == task_info(tasks@[j]@),
        decreases tasks@.len() - i,
    {
        infos.push(summarize(&tasks[i]));
        i += 1;
    }
    let listing = TaskListResponse { tasks: infos };
    assert(listing@ =~= task_infos(tasks@));
    listing
}

/// Answers the request for one task with what the store found under its
/// name: the task itself, or `TaskNotFound` with the name asked for.
pub fn get_task(found: Option<Task>, task_name: &str) -> (answer: Result<Task, OperatorError>)
    ensures
        match found {
            Some(task) => answer == Ok::<Task, OperatorError>(task),
            None => {
                &&& answer is Err
                &&& answer->Err_0 is TaskNotFound
                &&& answer->Err_0->TaskNotFound_0@ == task_name@
            },
        },
{
    match found {
        Some(task) => Ok(task),
        None => Err(OperatorError::TaskNotFound(String::from_str(task_name))),
    }
}

/// Answers the health probe: the operator is healthy, and runs `version`.
pub fn health_check(version: &str) -> (health: HealthResponse)
    ensures
        health@ == (HealthResponseView { status: "healthy"@, version: version@ }),
{
    HealthResponse { status: String::from_str("healthy"), version: String::from_str(version) }
}

} // verus!
