//! The persisted records that the engine reads, and those it asks to be
//! created. Each has a view that holds its strings as sequences of
//! characters; contracts speak of the views.
use crate::executor::ExecutionProcessType;
use crate::text::option_text;
use vstd::prelude::*;

verus! {

/// A project: its three optional scripts.
#[derive(Clone, Debug, PartialEq, Eq)]
pub struct Project {
    pub id: u128,
    pub setup_script: Option<String>,
    pub dev_script: Option<String>,
    pub cleanup_script: Option<String>,
}

pub struct ProjectView {
    pub id: u128,
    pub setup_script: Option<Seq<char>>,
    pub dev_script: Option<Seq<char>>,
    pub cleanup_script: Option<Seq<char>>,
}

impl View for Project {
    type V = ProjectView;

    open spec fn view(&self) -> ProjectView {
        ProjectView {
            id: self.id,
            setup_script: option_text(self.setup_script),
            dev_script: option_text(self.dev_script),
            cleanup_script: option_text(self.cleanup_script),
        }
    }
}

/// A task: what a fresh coding-agent session is prompted with.
#[derive(Clone, Debug, PartialEq, Eq)]
pub struct Task {
    pub id: u128,
    pub title: String,
    pub description: Option<String>,
}

pub struct TaskView {
    pub id: u128,
    pub title: Seq<char>,
    pub description: Option<Seq<char>>,
}

impl View for Task {
    type V = TaskView;

    open spec fn view(&self) -> TaskView {
        TaskView { id: self.id, title: self.title@, description: option_text(self.description) }
    }
}

/// One attempt at a task, bound to a working directory and a branch.
#[derive(Clone, Debug, PartialEq, Eq)]
pub struct TaskAttempt {
    pub id: u128,
    pub worktree_path: String,
    pub branch: String,
    pub worktree_deleted: bool,
    pub executor: Option<String>,
}

pub struct TaskAttemptView {
    pub id: u128,
    pub worktree_path: Seq<char>,
    pub branch: Seq<char>,
    pub worktree_deleted: bool,
    pub executor: Option<Seq<char>>,
}

impl View for TaskAttempt {
    type V = TaskAttemptView;

    open spec fn view(&self) -> TaskAttemptView {
        TaskAttemptView {
            id: self.id,
            worktree_path: self.worktree_path@,
            branch: self.branch@,
            worktree_deleted: self.worktree_deleted,
            executor: option_text(self.executor),
        }
    }
}

/// The record of one spawned process.
#[derive(Clone, Debug, PartialEq, Eq)]
pub struct ExecutionProcess {
    pub id: u128,
    pub task_attempt_id: u128,
    pub process_type: ExecutionProcessType,
    pub executor_type: Option<String>,
    pub command: String,
    pub args: Option<String>,
    pub working_directory: String,
}

pub struct ExecutionProcessView {
    pub id: u128,
    pub task_attempt_id: u128,
    pub process_type: ExecutionProcessType,
    pub executor_type: Option<Seq<char>>,
    pub command: Seq<char>,
    pub args: Option<Seq<char>>,
    pub working_directory: Seq<char>,
}

impl View for ExecutionProcess {
    type V = ExecutionProcessView;

    open spec fn view(&self) -> ExecutionProcessView {
        ExecutionProcessView {
            id: self.id,
            task_attempt_id: self.task_attempt_id,
            process_type: self.process_type,
            executor_type: option_text(self.executor_type),
            command: self.command@,
            args: option_text(self.args),
            working_directory: self.working_directory@,
        }
    }
}

/// The views of a list of execution processes, in the list's order.
pub open spec fn process_views(processes: Seq<ExecutionProcess>) -> Seq<ExecutionProcessView> {
    Seq::new(processes.len(), |i: int| processes[i]@)
}

/// The session that belongs to one coding-agent process. The backend fills
/// in `session_id` after its first turn.
#[derive(Clone, Debug, PartialEq, Eq)]
pub struct ExecutorSession {
    pub id: u128,
    pub task_attempt_id: u128,
    pub execution_process_id: u128,
    pub session_id: Option<String>,
    pub prompt: Option<String>,
}

pub struct ExecutorSessionView {
    pub id: u128,
    pub task_attempt_id: u128,
    pub execution_process_id: u128,
    pub session_id: Option<Seq<char>>,
    pub prompt: Option<Seq<char>>,
}

impl View for ExecutorSession {
    type V = ExecutorSessionView;

    open spec fn view(&self) -> ExecutorSessionView {
        ExecutorSessionView {
            id: self.id,
            task_attempt_id: self.task_attempt_id,
            execution_process_id: self.execution_process_id,
            session_id: option_text(self.session_id),
            prompt: option_text(self.prompt),
        }
    }
}

/// What is persisted of a process before it is launched.
#[derive(Clone, Debug, PartialEq, Eq)]
pub struct CreateExecutionProcess {
    pub task_attempt_id: u128,
    pub process_type: ExecutionProcessType,
    pub executor_type: Option<String>,
    pub command: String,
    pub args: Option<String>,
    pub working_directory: String,
}

pub struct CreateExecutionProcessView {
    pub task_attempt_id: u128,
    pub process_type: ExecutionProcessType,
    pub executor_type: Option<Seq<char>>,
    pub command: Seq<char>,
    pub args: Option<Seq<char>>,
    pub working_directory: Seq<char>,
}

impl View for CreateExecutionProcess {
    type V = CreateExecutionProcessView;

    open spec fn view(&self) -> CreateExecutionProcessView {
        CreateExecutionProcessView {
            task_attempt_id: self.task_attempt_id,
            process_type: self.process_type,
            executor_type: option_text(self.executor_type),
            command: self.command@,
            args: option_text(self.args),
            working_directory: self.working_directory@,
        }
    }
}

/// What is persisted of a coding-agent session before its process is
/// launched: the prompt, and no backend session yet.
#[derive(Clone, Debug, PartialEq, Eq)]
pub struct CreateExecutorSession {
    pub task_attempt_id: u128,
    pub execution_process_id: u128,
    pub prompt: Option<String>,
}

pub struct CreateExecutorSessionView {
    pub task_attempt_id: u128,
    pub execution_process_id: u128,
    pub prompt: Option<Seq<char>>,
}

impl View for CreateExecutorSession {
    type V = CreateExecutorSessionView;

    open spec fn view(&self) -> CreateExecutorSessionView {
        CreateExecutorSessionView {
            task_attempt_id: self.task_attempt_id,
            execution_process_id: self.execution_process_id,
            prompt: option_text(self.prompt),
        }
    }
}

/// Why an orchestration call did not start its process.
#[derive(Clone, Debug, PartialEq, Eq)]
pub enum TaskAttemptError {
    ProjectNotFound,
    TaskNotFound,
    /// The request cannot be carried out as it stands; the message says why.
    ValidationError(String),
    /// The worktree could not be provided; the message is the manager's.
    Worktree(String),
    /// The backend did not start the process; the message is the backend's.
    Launch(String),
    /// A record could not be read or written; the message is the store's.
    Storage(String),
}

pub enum TaskAttemptErrorView {
    ProjectNotFound,
    TaskNotFound,
    ValidationError(Seq<char>),
    Worktree(Seq<char>),
    Launch(Seq<char>),
    Storage(Seq<char>),
}

impl View for TaskAttemptError {
    type V = TaskAttemptErrorView;

    open spec fn view(&self) -> TaskAttemptErrorView {
        match self {
            TaskAttemptError::ProjectNotFound => TaskAttemptErrorView::ProjectNotFound,
            TaskAttemptError::TaskNotFound => TaskAttemptErrorView::TaskNotFound,
            TaskAttemptError::ValidationError(m) => TaskAttemptErrorView::ValidationError(m@),
            TaskAttemptError::Worktree(m) => TaskAttemptErrorView::Worktree(m@),
            TaskAttemptError::Launch(m) => TaskAttemptErrorView::Launch(m@),
            TaskAttemptError::Storage(m) => TaskAttemptErrorView::Storage(m@),
        }
    }
}

/// The shell that runs scripts: its program, and the flag that makes it read
/// a command from its next argument.
#[derive(Clone, Debug, PartialEq, Eq)]
pub struct ShellCommand {
    pub program: String,
    pub flag: String,
}

pub struct ShellCommandView {
    pub program: Seq<char>,
    pub flag: Seq<char>,
}

impl View for ShellCommand {
    type V = ShellCommandView;

    open spec fn view(&self) -> ShellCommandView {
        ShellCommandView { program: self.program@, flag: self.flag@ }
    }
}

} // verus!
