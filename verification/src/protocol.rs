//! The exchange between the engine and its environment: requests that the
//! engine makes, responses that it is handed, and the flow that records how
//! far a call has come while a request is outstanding.
use crate::delegation::{params_view, Ids, OperationParams, OperationParamsView};
use crate::executor::{
    ExecutionProcessType, ExecutionType, ExecutorConfig, ExecutorType, ExecutorTypeView,
};
use crate::records::{
    process_views, CreateExecutionProcess, CreateExecutionProcessView, CreateExecutorSession,
    CreateExecutorSessionView, ExecutionProcess, ExecutionProcessView, ExecutorSession,
    ExecutorSessionView, Project, ProjectView, Task, TaskAttempt, TaskAttemptError,
    TaskAttemptErrorView, TaskAttemptView, TaskView,
};
use crate::text::option_text;
use vstd::prelude::*;

verus! {

/// Why a worktree is asked for.
#[derive(Clone, Copy, Debug, PartialEq, Eq, Structural)]
pub enum WorktreeReason {
    DevServer,
    Followup,
}

/// Which backend starts a process, and with what.
#[derive(Clone, Debug, PartialEq, Eq)]
pub enum Invocation {
    SetupScript { script: String },
    CleanupScript { script: String },
    DevServer { script: String },
    /// A coding agent that starts a new session.
    Agent { config: ExecutorConfig },
    /// A coding agent that resumes a session with a new prompt.
    AgentFollowUp { config: ExecutorConfig, session_id: String, prompt: String },
}

pub enum InvocationView {
    SetupScript { script: Seq<char> },
    CleanupScript { script: Seq<char> },
    DevServer { script: Seq<char> },
    Agent { config: ExecutorConfig },
    AgentFollowUp { config: ExecutorConfig, session_id: Seq<char>, prompt: Seq<char> },
}

impl View for Invocation {
    type V = InvocationView;

    open spec fn view(&self) -> InvocationView {
        match self {
            Invocation::SetupScript { script } => InvocationView::SetupScript { script: script@ },
            Invocation::CleanupScript { script } => InvocationView::CleanupScript {
                script: script@,
            },
            Invocation::DevServer { script } => InvocationView::DevServer { script: script@ },
            Invocation::Agent { config } => InvocationView::Agent { config: *config },
            Invocation::AgentFollowUp { config, session_id, prompt } => {
                InvocationView::AgentFollowUp {
                    config: *config,
                    session_id: session_id@,
                    prompt: prompt@,
                }
            },
        }
    }
}

/// What the engine asks of its environment.
#[derive(Clone, Debug, PartialEq, Eq)]
pub enum Request {
    FindProject { project_id: u128 },
    FindTaskAttempt { attempt_id: u128 },
    FindTask { task_id: u128 },
    IsSetupCompleted { attempt_id: u128 },
    MarkTaskInProgress { task_id: u128, project_id: u128 },
    EnsureWorktree { attempt_id: u128, project_id: u128, reason: WorktreeReason },
    /// The attempt's execution processes, oldest first.
    FindExecutionProcesses { attempt_id: u128 },
    FindExecutorSession { execution_process_id: u128 },
    CreateExecutionProcess { process_id: u128, record: CreateExecutionProcess },
    CreateExecutorSession { session_id: u128, record: CreateExecutorSession },
    Launch {
        invocation: Invocation,
        task_id: u128,
        attempt_id: u128,
        process_id: u128,
        worktree_path: String,
    },
    /// Files the process that was just launched with the monitoring registry.
    Register { process_id: u128, attempt_id: u128, execution_type: ExecutionType },
}

pub enum RequestView {
    FindProject { project_id: u128 },
    FindTaskAttempt { attempt_id: u128 },
    FindTask { task_id: u128 },
    IsSetupCompleted { attempt_id: u128 },
    MarkTaskInProgress { task_id: u128, project_id: u128 },
    EnsureWorktree { attempt_id: u128, project_id: u128, reason: WorktreeReason },
    FindExecutionProcesses { attempt_id: u128 },
    FindExecutorSession { execution_process_id: u128 },
    CreateExecutionProcess { process_id: u128, record: CreateExecutionProcessView },
    CreateExecutorSession { session_id: u128, record: CreateExecutorSessionView },
    Launch {
        invocation: InvocationView,
        task_id: u128,
        attempt_id: u128,
        process_id: u128,
        worktree_path: Seq<char>,
    },
    Register { process_id: u128, attempt_id: u128, execution_type: ExecutionType },
}

impl View for Request {
    type V = RequestView;

    open spec fn view(&self) -> RequestView {
        match self {
            Request::FindProject { project_id } => RequestView::FindProject {
                project_id: *project_id,
            },
            Request::FindTaskAttempt { attempt_id } => RequestView::FindTaskAttempt {
                attempt_id: *attempt_id,
            },
            Request::FindTask { task_id } => RequestView::FindTask { task_id: *task_id },
            Request::IsSetupCompleted { attempt_id } => RequestView::IsSetupCompleted {
                attempt_id: *attempt_id,
            },
            Request::MarkTaskInProgress { task_id, project_id } => {
                RequestView::MarkTaskInProgress { task_id: *task_id, project_id: *project_id }
            },
            Request::EnsureWorktree { attempt_id, project_id, reason } => {
                RequestView::EnsureWorktree {
                    attempt_id: *attempt_id,
                    project_id: *project_id,
                    reason: *reason,
                }
            },
            Request::FindExecutionProcesses { attempt_id } => RequestView::FindExecutionProcesses {
                attempt_id: *attempt_id,
            },
            Request::FindExecutorSession { execution_process_id } => {
                RequestView::FindExecutorSession { execution_process_id: *execution_process_id }
            },
            Request::CreateExecutionProcess { process_id, record } => {
                RequestView::CreateExecutionProcess { process_id: *process_id, record: record@ }
            },
            Request::CreateExecutorSession { session_id, record } => {
                RequestView::CreateExecutorSession { session_id: *session_id, record: record@ }
            },
            Request::Launch { invocation, task_id, attempt_id, process_id, worktree_path } => {
                RequestView::Launch {
                    invocation: invocation@,
                    task_id: *task_id,
                    attempt_id: *attempt_id,
                    process_id: *process_id,
                    worktree_path: worktree_path@,
                }
            },
            Request::Register { process_id, attempt_id, execution_type } => {
                RequestView::Register {
                    process_id: *process_id,
                    attempt_id: *attempt_id,
                    execution_type: *execution_type,
                }
            },
        }
    }
}

/// What the environment answers.
#[derive(Clone, Debug, PartialEq, Eq)]
pub enum Response {
    Project(Option<Project>),
    TaskAttempt(Option<TaskAttempt>),
    Task(Option<Task>),
    SetupCompleted(bool),
    /// The path of the worktree, which now exists.
    Worktree(String),
    ExecutionProcesses(Vec<ExecutionProcess>),
    ExecutorSession(Option<ExecutorSession>),
    /// A record was written, or a process was registered.
    Done,
    Launched,
    /// The backend did not start the process.
    LaunchFailed(String),
    /// A record could not be read or written, or the worktree not provided.
    Failed(TaskAttemptError),
}

pub enum ResponseView {
    Project(Option<ProjectView>),
    TaskAttempt(Option<TaskAttemptView>),
    Task(Option<TaskView>),
    SetupCompleted(bool),
    Worktree(Seq<char>),
    ExecutionProcesses(Seq<ExecutionProcessView>),
    ExecutorSession(Option<ExecutorSessionView>),
    Done,
    Launched,
    LaunchFailed(Seq<char>),
    Failed(TaskAttemptErrorView),
}

impl View for Response {
    type V = ResponseView;

    open spec fn view(&self) -> ResponseView {
        match self {
            Response::Project(p) => ResponseView::Project(
                match p {
                    Some(x) => Some(x@),
                    None => None,
                },
            ),
            Response::TaskAttempt(a) => ResponseView::TaskAttempt(
                match a {
                    Some(x) => Some(x@),
                    None => None,
                },
            ),
            Response::Task(t) => ResponseView::Task(
                match t {
                    Some(x) => Some(x@),
                    None => None,
                },
            ),
            Response::SetupCompleted(b) => ResponseView::SetupCompleted(*b),
            Response::Worktree(path) => ResponseView::Worktree(path@),
            Response::ExecutionProcesses(list) => ResponseView::ExecutionProcesses(
                process_views(list@),
            ),
            Response::ExecutorSession(s) => ResponseView::ExecutorSession(
                match s {
                    Some(x) => Some(x@),
                    None => None,
                },
            ),
            Response::Done => ResponseView::Done,
            Response::Launched => ResponseView::Launched,
            Response::LaunchFailed(m) => ResponseView::LaunchFailed(m@),
            Response::Failed(e) => ResponseView::Failed(e@),
        }
    }
}

/// One process on its way from record to registry.
#[derive(Clone, Debug, PartialEq, Eq)]
pub struct Job {
    pub process_id: u128,
    pub attempt_id: u128,
    pub task_id: u128,
    pub executor: ExecutorType,
    pub process_type: ExecutionProcessType,
    pub worktree_path: String,
}

pub struct JobView {
    pub process_id: u128,
    pub attempt_id: u128,
    pub task_id: u128,
    pub executor: ExecutorTypeView,
    pub process_type: ExecutionProcessType,
    pub worktree_path: Seq<char>,
}

impl View for Job {
    type V = JobView;

    open spec fn view(&self) -> JobView {
        JobView {
            process_id: self.process_id,
            attempt_id: self.attempt_id,
            task_id: self.task_id,
            executor: self.executor@,
            process_type: self.process_type,
            worktree_path: self.worktree_path@,
        }
    }
}

/// How far a job has come: which answer is outstanding.
#[derive(Clone, Copy, Debug, PartialEq, Eq, Structural)]
pub enum Phase {
    /// The process record is being written.
    Record,
    /// The task is being read, for the prompt of a new session.
    Prompt,
    /// The session record is being written.
    Session,
    /// The backend is starting the process.
    Spawn,
    /// The process is being registered for monitoring.
    Registry,
}

/// What follows a job.
#[derive(Clone, Copy, Debug, PartialEq, Eq, Structural)]
pub struct After {
    /// What the call yields when the job has succeeded: the attempt, for a
    /// follow-up.
    pub report: Option<u128>,
    /// The backend to start a new session with, once, if the job fails.
    pub fallback: Option<ExecutorConfig>,
}

/// Why an attempt and its project are loaded together.
#[derive(Clone, Debug, PartialEq, Eq)]
pub enum Purpose {
    /// To start the attempt's execution.
    Execution,
    /// To run the setup script first, and the named operation after it.
    Delegation { delegate_to: String, params: Option<OperationParams> },
}

pub enum PurposeView {
    Execution,
    Delegation { delegate_to: Seq<char>, params: Option<OperationParamsView> },
}

impl View for Purpose {
    type V = PurposeView;

    open spec fn view(&self) -> PurposeView {
        match self {
            Purpose::Execution => PurposeView::Execution,
            Purpose::Delegation { delegate_to, params } => PurposeView::Delegation {
                delegate_to: delegate_to@,
                params: params_view(*params),
            },
        }
    }
}

/// Where a call stands while a request is outstanding. Each variant is named
/// after the answer it waits for and holds what the rest of the call needs.
#[derive(Clone, Debug, PartialEq, Eq)]
pub enum Flow {
    /// Cleanup: the project is being read.
    CleanupProject { ids: Ids },
    /// Cleanup: the attempt is being read.
    CleanupAttempt { ids: Ids, script: String },
    /// Setup gate: whether setup was completed is being read.
    GateCompleted {
        ids: Ids,
        operation: String,
        params: Option<OperationParams>,
        report: Option<u128>,
    },
    /// Setup gate: the project is being read.
    GateProject {
        ids: Ids,
        operation: String,
        params: Option<OperationParams>,
        report: Option<u128>,
        setup_completed: bool,
    },
    /// Execution context: the attempt is being read.
    ContextAttempt { ids: Ids, purpose: Purpose, report: Option<u128> },
    /// Execution context: the project is being read.
    ContextProject { ids: Ids, purpose: Purpose, report: Option<u128>, worktree_path: String },
    /// Execution: the task is being marked as in progress.
    ExecutionMarked {
        ids: Ids,
        report: Option<u128>,
        setup_script: Option<String>,
        worktree_path: String,
    },
    /// Coding agent: the attempt is being read.
    AgentAttempt { ids: Ids, report: Option<u128> },
    /// Dev server: the worktree is being provided, before the setup gate.
    DevServerWorktree { ids: Ids },
    /// Dev server, direct: the worktree is being provided.
    DevDirectWorktree { ids: Ids, report: Option<u128> },
    /// Dev server, direct: the project is being read.
    DevDirectProject { ids: Ids, report: Option<u128>, worktree_path: String },
    /// Follow-up: the attempt is being read.
    FollowupAttempt { ids: Ids, prompt: String },
    /// Follow-up: the task is being marked as in progress.
    FollowupMarked { ids: Ids, prompt: String },
    /// Follow-up: the worktree is being provided, before the setup gate.
    FollowupWorktree { ids: Ids, prompt: String },
    /// Follow-up, direct: the worktree is being provided.
    DirectWorktree { ids: Ids, prompt: String, report: Option<u128> },
    /// Follow-up, direct: the attempt's processes are being read.
    DirectProcesses { ids: Ids, prompt: String, report: Option<u128>, worktree_path: String },
    /// Follow-up, direct: the session of the latest agent process is being
    /// read.
    DirectSession {
        ids: Ids,
        prompt: String,
        report: Option<u128>,
        worktree_path: String,
        executor_type: Option<String>,
    },
    /// A process is on its way from record to registry.
    Launching { phase: Phase, job: Job, after: After },
}

pub enum FlowView {
    CleanupProject { ids: Ids },
    CleanupAttempt { ids: Ids, script: Seq<char> },
    GateCompleted {
        ids: Ids,
        operation: Seq<char>,
        params: Option<OperationParamsView>,
        report: Option<u128>,
    },
    GateProject {
        ids: Ids,
        operation: Seq<char>,
        params: Option<OperationParamsView>,
        report: Option<u128>,
        setup_completed: bool,
    },
    ContextAttempt { ids: Ids, purpose: PurposeView, report: Option<u128> },
    ContextProject {
        ids: Ids,
        purpose: PurposeView,
        report: Option<u128>,
        worktree_path: Seq<char>,
    },
    ExecutionMarked {
        ids: Ids,
        report: Option<u128>,
        setup_script: Option<Seq<char>>,
        worktree_path: Seq<char>,
    },
    AgentAttempt { ids: Ids, report: Option<u128> },
    DevServerWorktree { ids: Ids },
    DevDirectWorktree { ids: Ids, report: Option<u128> },
    DevDirectProject { ids: Ids, report: Option<u128>, worktree_path: Seq<char> },
    FollowupAttempt { ids: Ids, prompt: Seq<char> },
    FollowupMarked { ids: Ids, prompt: Seq<char> },
    FollowupWorktree { ids: Ids, prompt: Seq<char> },
    DirectWorktree { ids: Ids, prompt: Seq<char>, report: Option<u128> },
    DirectProcesses { ids: Ids, prompt: Seq<char>, report: Option<u128>, worktree_path: Seq<char> },
    DirectSession {
        ids: Ids,
        prompt: Seq<char>,
        report: Option<u128>,
        worktree_path: Seq<char>,
        executor_type: Option<Seq<char>>,
    },
    Launching { phase: Phase, job: JobView, after: After },
}

impl View for Flow {
    type V = FlowView;

    open spec fn view(&self) -> FlowView {
        match self {
            Flow::CleanupProject { ids } => FlowView::CleanupProject { ids: *ids },
            Flow::CleanupAttempt { ids, script } => FlowView::CleanupAttempt {
                ids: *ids,
                script: script@,
            },
            Flow::GateCompleted { ids, operation, params, report } => FlowView::GateCompleted {
                ids: *ids,
                operation: operation@,
                params: params_view(*params),
                report: *report,
            },
            Flow::GateProject { ids, operation, params, report, setup_completed } => {
                FlowView::GateProject {
                    ids: *ids,
                    operation: operation@,
                    params: params_view(*params),
                    report: *report,
                    setup_completed: *setup_completed,
                }
            },
            Flow::ContextAttempt { ids, purpose, report } => FlowView::ContextAttempt {
                ids: *ids,
                purpose: purpose@,
                report: *report,
            },
            Flow::ContextProject { ids, purpose, report, worktree_path } => {
                FlowView::ContextProject {
                    ids: *ids,
                    purpose: purpose@,
                    report: *report,
                    worktree_path: worktree_path@,
                }
            },
            Flow::ExecutionMarked { ids, report, setup_script, worktree_path } => {
                FlowView::ExecutionMarked {
                    ids: *ids,
                    report: *report,
                    setup_script: option_text(*setup_script),
                    worktree_path: worktree_path@,
                }
            },
            Flow::AgentAttempt { ids, report } => FlowView::AgentAttempt {
                ids: *ids,
                report: *report,
            },
            Flow::DevServerWorktree { ids } => FlowView::DevServerWorktree { ids: *ids },
            Flow::DevDirectWorktree { ids, report } => FlowView::DevDirectWorktree {
                ids: *ids,
                report: *report,
            },
            Flow::DevDirectProject { ids, report, worktree_path } => FlowView::DevDirectProject {
                ids: *ids,
                report: *report,
                worktree_path: worktree_path@,
            },
            Flow::FollowupAttempt { ids, prompt } => FlowView::FollowupAttempt {
                ids: *ids,
                prompt: prompt@,
            },
            Flow::FollowupMarked { ids, prompt } => FlowView::FollowupMarked {
                ids: *ids,
                prompt: prompt@,
            },
            Flow::FollowupWorktree { ids, prompt } => FlowView::FollowupWorktree {
                ids: *ids,
                prompt: prompt@,
            },
            Flow::DirectWorktree { ids, prompt, report } => FlowView::DirectWorktree {
                ids: *ids,
                prompt: prompt@,
                report: *report,
            },
            Flow::DirectProcesses { ids, prompt, report, worktree_path } => {
                FlowView::DirectProcesses {
                    ids: *ids,
                    prompt: prompt@,
                    report: *report,
                    worktree_path: worktree_path@,
                }
            },
            Flow::DirectSession { ids, prompt, report, worktree_path, executor_type } => {
                FlowView::DirectSession {
                    ids: *ids,
                    prompt: prompt@,
                    report: *report,
                    worktree_path: worktree_path@,
                    executor_type: option_text(*executor_type),
                }
            },
            Flow::Launching { phase, job, after } => FlowView::Launching {
                phase: *phase,
                job: job@,
                after: *after,
            },
        }
    }
}

/// What a call has come to: a request to carry out before it can go on, or
/// its outcome.
#[derive(Debug, PartialEq, Eq)]
pub enum Step {
    /// Carry out `request` and hand the response to `resume` with `flow`.
    Await { flow: Flow, request: Request },
    /// The call is over. Success yields the attempt, where the call was a
    /// follow-up, and nothing otherwise.
    Finished(Result<Option<u128>, TaskAttemptError>),
}

pub enum StepView {
    Await { flow: FlowView, request: RequestView },
    Finished(Result<Option<u128>, TaskAttemptErrorView>),
}

impl View for Step {
    type V = StepView;

    open spec fn view(&self) -> StepView {
        match self {
            Step::Await { flow, request } => StepView::Await { flow: flow@, request: request@ },
            Step::Finished(outcome) => StepView::Finished(
                match outcome {
                    Ok(attempt) => Ok(*attempt),
                    Err(e) => Err(e@),
                },
            ),
        }
    }
}

} // verus!
