//! The records and requests that belong to one process: what is persisted
//! before its launch, which backend launches it, and how it is registered.
use crate::delegation::DelegationContext;
use crate::executor::{ExecutionProcessType, ExecutionType, ExecutorType, FollowUpInfo};
use crate::model;
use crate::protocol::{Invocation, Job, Request};
use crate::records::{CreateExecutionProcess, CreateExecutorSession, Task};
use crate::service::ProcessService;
use crate::text::{json_array, option_text};
use vstd::prelude::*;
use vstd::string::StringExecFns;

verus! {

/// A copy of an optional string.
pub fn copy_option(s: &Option<String>) -> (r: Option<String>)
    ensures
        option_text(r) == option_text(*s),
{
    match s {
        Some(t) => Some(t.clone()),
        None => None,
    }
}

impl ExecutorType {
    /// A copy of the descriptor.
    pub fn duplicate(&self) -> (r: ExecutorType)
        ensures
            r@ == self@,
    {
        match self {
            ExecutorType::SetupScript(s) => ExecutorType::SetupScript(s.clone()),
            ExecutorType::CleanupScript(s) => ExecutorType::CleanupScript(s.clone()),
            ExecutorType::DevServer(s) => ExecutorType::DevServer(s.clone()),
            ExecutorType::CodingAgent { config, follow_up } => ExecutorType::CodingAgent {
                config: *config,
                follow_up: match follow_up {
                    Some(info) => Some(
                        FollowUpInfo {
                            session_id: info.session_id.clone(),
                            prompt: info.prompt.clone(),
                        },
                    ),
                    None => None,
                },
            },
        }
    }
}

impl Job {
    /// A copy of the job.
    pub fn duplicate(&self) -> (r: Job)
        ensures
            r@ == self@,
    {
        Job {
            process_id: self.process_id,
            attempt_id: self.attempt_id,
            task_id: self.task_id,
            executor: self.executor.duplicate(),
            process_type: self.process_type,
            worktree_path: self.worktree_path.clone(),
        }
    }
}

impl ProcessService {
    /// The stored arguments of a script process.
    fn script_args(&self, tag: &str) -> (args: String)
        ensures
            args@ == model::script_args(self.shell@, tag@),
    {
        let mut items: Vec<String> = Vec::new();
        items.push(self.shell.flag.clone());
        items.push(tag.to_owned());
        assert(items.deep_view() =~= seq![self.shell.flag@, tag@]);
        json_array(&items)
    }

    /// The record of a process, by the kind of its descriptor.
    pub fn create_execution_process_record(
        &self,
        attempt_id: u128,
        executor_type: &ExecutorType,
        process_type: ExecutionProcessType,
        worktree_path: &str,
    ) -> (record: CreateExecutionProcess)
        ensures
            record@ == model::process_record(
                self.shell@,
                attempt_id,
                executor_type@,
                process_type,
                worktree_path@,
            ),
    {
        match executor_type {
            ExecutorType::SetupScript(_) => CreateExecutionProcess {
                task_attempt_id: attempt_id,
                process_type,
                executor_type: Some("setup-script".to_owned()),
                command: self.shell.program.clone(),
                args: Some(self.script_args("setup-script")),
                working_directory: worktree_path.to_owned(),
            },
            ExecutorType::CleanupScript(_) => CreateExecutionProcess {
                task_attempt_id: attempt_id,
                process_type,
                executor_type: Some("cleanup-script".to_owned()),
                command: self.shell.program.clone(),
                args: Some(self.script_args("cleanup-script")),
                working_directory: worktree_path.to_owned(),
            },
            ExecutorType::DevServer(_) => CreateExecutionProcess {
                task_attempt_id: attempt_id,
                process_type,
                executor_type: None,
                command: self.shell.program.clone(),
                args: Some(self.script_args("dev_server")),
                working_directory: worktree_path.to_owned(),
            },
            ExecutorType::CodingAgent { config, follow_up } => {
                let command = if follow_up.is_some() {
                    "followup_executor".to_owned()
                } else {
                    "executor".to_owned()
                };
                CreateExecutionProcess {
                    task_attempt_id: attempt_id,
                    process_type,
                    executor_type: Some(config.name().to_owned()),
                    command,
                    args: None,
                    working_directory: worktree_path.to_owned(),
                }
            },
        }
    }

    /// The record of a setup script that carries a delegation context: the
    /// context stands, as JSON, behind the flag `--delegation-context` in the
    /// stored arguments.
    pub fn create_execution_process_record_with_delegation(
        &self,
        context: &DelegationContext,
        worktree_path: &str,
    ) -> (record: CreateExecutionProcess)
        ensures
            record@ == model::delegated_record(self.shell@, context@, worktree_path@),
    {
        let mut items: Vec<String> = Vec::new();
        items.push(self.shell.flag.clone());
        items.push("setup-script".to_owned());
        items.push("--delegation-context".to_owned());
        items.push(context.to_json());
        assert(items.deep_view() =~= seq![
            self.shell.flag@,
            "setup-script"@,
            "--delegation-context"@,
            crate::delegation::context_text(context@),
        ]);
        CreateExecutionProcess {
            task_attempt_id: context.ids.attempt_id,
            process_type: ExecutionProcessType::SetupScript,
            executor_type: Some("setup-script".to_owned()),
            command: self.shell.program.clone(),
            args: Some(json_array(&items)),
            working_directory: worktree_path.to_owned(),
        }
    }

    /// The prompt of a fresh session: the task's title, an empty line, and
    /// its description, if it has one.
    pub fn task_prompt(task: &Task) -> (prompt: String)
        ensures
            prompt@ == model::task_prompt(task@),
    {
        let mut prompt = task.title.clone();
        prompt.append("\n\n");
        match &task.description {
            Some(d) => {
                prompt.append(d.as_str());
            },
            None => {
                assert(prompt@ + Seq::<char>::empty() =~= prompt@);
            },
        }
        prompt
    }

    /// The session record of a job: its prompt, and no backend session yet.
    pub fn create_executor_session_record(job: &Job, prompt: String) -> (record:
        CreateExecutorSession)
        ensures
            record@ == model::session_record(job@, prompt@),
    {
        CreateExecutorSession {
            task_attempt_id: job.attempt_id,
            execution_process_id: job.process_id,
            prompt: Some(prompt),
        }
    }

    /// The request that launches a job's process: which backend, and for a
    /// coding agent whether it resumes a session or starts one.
    pub fn execute_process(job: &Job) -> (request: Request)
        ensures
            request@ == model::launch_request(job@),
    {
        let invocation = match &job.executor {
            ExecutorType::SetupScript(script) => Invocation::SetupScript { script: script.clone() },
            ExecutorType::CleanupScript(script) => Invocation::CleanupScript {
                script: script.clone(),
            },
            ExecutorType::DevServer(script) => Invocation::DevServer { script: script.clone() },
            ExecutorType::CodingAgent { config, follow_up } => match follow_up {
                Some(info) => Invocation::AgentFollowUp {
                    config: *config,
                    session_id: info.session_id.clone(),
                    prompt: info.prompt.clone(),
                },
                None => Invocation::Agent { config: *config },
            },
        };
        Request::Launch {
            invocation,
            task_id: job.task_id,
            attempt_id: job.attempt_id,
            process_id: job.process_id,
            worktree_path: job.worktree_path.clone(),
        }
    }

    /// The registry's kind for a process type.
    pub fn execution_type(process_type: ExecutionProcessType) -> (r: ExecutionType)
        ensures
            r == model::execution_type(process_type),
    {
        match process_type {
            ExecutionProcessType::SetupScript => ExecutionType::SetupScript,
            ExecutionProcessType::CleanupScript => ExecutionType::CleanupScript,
            ExecutionProcessType::CodingAgent => ExecutionType::CodingAgent,
            ExecutionProcessType::DevServer => ExecutionType::DevServer,
        }
    }

    /// The request that registers a job's launched process for monitoring.
    pub fn register_for_monitoring(job: &Job) -> (request: Request)
        ensures
            request@ == model::register_request(job@),
    {
        Request::Register {
            process_id: job.process_id,
            attempt_id: job.attempt_id,
            execution_type: Self::execution_type(job.process_type),
        }
    }
}

} // verus!
