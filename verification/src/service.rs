//! The process service: what decides which process an attempt runs next.
use crate::delegation::{params_view, Ids, OperationParams};
use crate::engine::fail;
use crate::executor::{ExecutionProcessType, ExecutorConfig, ExecutorType};
use crate::ids::{fresh_id, is_random_id};
use crate::model;
use crate::protocol::{Flow, Job, Response, Step};
use crate::records::{Project, ShellCommand};
use crate::text::{is_configured, option_text};
use vstd::prelude::*;

verus! {

/// The orchestration engine. It holds the shell that scripts are run with,
/// which the platform decides.
#[derive(Clone, Debug, PartialEq, Eq)]
pub struct ProcessService {
    pub shell: ShellCommand,
}

impl ProcessService {
    /// An engine whose scripts run with the given shell.
    pub fn new(shell: ShellCommand) -> (service: ProcessService)
        ensures
            service.shell == shell,
    {
        ProcessService { shell }
    }

    /// Whether the project's setup script is to run: it is present and not
    /// blank.
    pub fn should_run_setup_script(project: &Project) -> (r: bool)
        ensures
            r == crate::text::configured(project@.setup_script),
    {
        is_configured(&project.setup_script)
    }

    /// Whether the project's cleanup script is to run: it is present and not
    /// blank.
    pub fn should_run_cleanup_script(project: &Project) -> (r: bool)
        ensures
            r == crate::text::configured(project@.cleanup_script),
    {
        is_configured(&project.cleanup_script)
    }

    /// The backend for a fresh coding-agent start: the one that the attempt's
    /// executor names, and the echo backend where the name is absent or names
    /// none.
    pub fn resolve_executor_config(executor_name: &Option<String>) -> (config: ExecutorConfig)
        ensures
            config == model::resolve_executor_config(option_text(*executor_name)),
    {
        match executor_name {
            Some(name) => match ExecutorConfig::parse(name.as_str()) {
                Some(config) => config,
                None => ExecutorConfig::Echo,
            },
            None => ExecutorConfig::Echo,
        }
    }

    /// Runs the project's cleanup script in the attempt's worktree, if the
    /// project has one; the call is over at once, with nothing done, if it
    /// has none. First the project is read.
    pub fn run_cleanup_script_if_configured(
        attempt_id: u128,
        task_id: u128,
        project_id: u128,
    ) -> (step: Step)
        ensures
            step@ == model::run_cleanup_script_if_configured(
                Ids { attempt_id, task_id, project_id },
            ),
    {
        let ids = Ids { attempt_id, task_id, project_id };
        crate::engine::wait(
            Flow::CleanupProject { ids },
            crate::protocol::Request::FindProject { project_id },
        )
    }

    /// Starts the named operation, after the setup script where the project
    /// has one that the attempt has not completed. First the attempt's
    /// completion flag is read.
    pub fn auto_setup_and_execute(
        attempt_id: u128,
        task_id: u128,
        project_id: u128,
        operation: &str,
        operation_params: Option<OperationParams>,
    ) -> (step: Step)
        ensures
            step@ == model::auto_setup_and_execute(
                Ids { attempt_id, task_id, project_id },
                operation@,
                params_view(operation_params),
                None,
            ),
    {
        Self::gate(
            Ids { attempt_id, task_id, project_id },
            operation.to_owned(),
            operation_params,
            None,
        )
    }

    /// Starts an attempt's execution: its setup script where the project has
    /// one, else its coding agent. First the attempt is read.
    pub fn start_execution(attempt_id: u128, task_id: u128, project_id: u128) -> (step: Step)
        ensures
            step@ == model::start_execution(Ids { attempt_id, task_id, project_id }),
    {
        let ids = Ids { attempt_id, task_id, project_id };
        crate::engine::wait(
            Flow::ContextAttempt {
                ids,
                purpose: crate::protocol::Purpose::Execution,
                report: None,
            },
            crate::protocol::Request::FindTaskAttempt { attempt_id },
        )
    }

    /// Starts a new session of the attempt's coding agent. First the attempt
    /// is read.
    pub fn start_coding_agent(attempt_id: u128, task_id: u128, project_id: u128) -> (step: Step)
        ensures
            step@ == model::start_coding_agent(Ids { attempt_id, task_id, project_id }, None),
    {
        Self::coding_agent(Ids { attempt_id, task_id, project_id }, None)
    }

    /// Starts the project's dev server behind the setup gate. First the
    /// worktree is provided.
    pub fn start_dev_server(attempt_id: u128, task_id: u128, project_id: u128) -> (step: Step)
        ensures
            step@ == model::start_dev_server(Ids { attempt_id, task_id, project_id }),
    {
        Self::dev_server(Ids { attempt_id, task_id, project_id })
    }

    /// Starts the project's dev server without looking at setup. First the
    /// worktree is provided.
    pub fn start_dev_server_direct(attempt_id: u128, task_id: u128, project_id: u128) -> (step:
        Step)
        ensures
            step@ == model::start_dev_server_direct(Ids { attempt_id, task_id, project_id }, None),
    {
        Self::dev_server_direct(Ids { attempt_id, task_id, project_id }, None)
    }

    /// Starts a follow-up behind the setup gate; success yields the attempt.
    /// First the attempt is read.
    pub fn start_followup_execution(
        attempt_id: u128,
        task_id: u128,
        project_id: u128,
        prompt: &str,
    ) -> (step: Step)
        ensures
            step@ == model::start_followup_execution(
                Ids { attempt_id, task_id, project_id },
                prompt@,
            ),
    {
        let ids = Ids { attempt_id, task_id, project_id };
        crate::engine::wait(
            Flow::FollowupAttempt { ids, prompt: prompt.to_owned() },
            crate::protocol::Request::FindTaskAttempt { attempt_id },
        )
    }

    /// Starts a follow-up without looking at setup; success yields the
    /// attempt. First the worktree is provided.
    pub fn start_followup_execution_direct(
        attempt_id: u128,
        task_id: u128,
        project_id: u128,
        prompt: &str,
    ) -> (step: Step)
        ensures
            step@ == model::start_followup_execution_direct(
                Ids { attempt_id, task_id, project_id },
                prompt@,
                Some(attempt_id),
            ),
    {
        Self::followup_direct(
            Ids { attempt_id, task_id, project_id },
            prompt.to_owned(),
            Some(attempt_id),
        )
    }

    /// Starts one process under the given identifier. First its record is
    /// written.
    pub fn start_process_execution_as(
        &self,
        process_id: u128,
        attempt_id: u128,
        task_id: u128,
        executor_type: ExecutorType,
        process_type: ExecutionProcessType,
        worktree_path: &str,
    ) -> (step: Step)
        ensures
            step@ == model::start_process_execution(
                self.shell@,
                attempt_id,
                task_id,
                executor_type@,
                process_type,
                worktree_path@,
                process_id,
            ),
    {
        self.begin_job(
            Job {
                process_id,
                attempt_id,
                task_id,
                executor: executor_type,
                process_type,
                worktree_path: worktree_path.to_owned(),
            },
            crate::engine::plain(),
        )
    }

    /// Starts one process under a new random identifier. First its record is
    /// written.
    pub fn start_process_execution(
        &self,
        attempt_id: u128,
        task_id: u128,
        executor_type: ExecutorType,
        process_type: ExecutionProcessType,
        worktree_path: &str,
    ) -> (step: Step)
        ensures
            exists|process_id: u128|
                is_random_id(process_id) && step@ == #[trigger] model::start_process_execution(
                    self.shell@,
                    attempt_id,
                    task_id,
                    executor_type@,
                    process_type,
                    worktree_path@,
                    process_id,
                ),
    {
        let process_id = fresh_id();
        self.start_process_execution_as(
            process_id,
            attempt_id,
            task_id,
            executor_type,
            process_type,
            worktree_path,
        )
    }

    /// Goes on with a call: what it makes of the response to its outstanding
    /// request, where a record that this step creates gets the identifier
    /// `fresh`.
    pub fn resume_as(&self, flow: Flow, response: Response, fresh: u128) -> (step: Step)
        ensures
            step@ == model::resume(self.shell@, flow@, response@, fresh),
    {
        match response {
            Response::Failed(e) => fail(e),
            response => {
                match flow {
                    Flow::CleanupProject { ids } => Self::on_cleanup_project(ids, response),
                    Flow::CleanupAttempt { ids, script } => self.on_cleanup_attempt(
                        ids,
                        script,
                        response,
                        fresh,
                    ),
                    Flow::GateCompleted { ids, operation, params, report } => {
                        Self::on_gate_completed(ids, operation, params, report, response)
                    },
                    Flow::GateProject { ids, operation, params, report, setup_completed } => {
                        Self::on_gate_project(
                            ids,
                            operation,
                            params,
                            report,
                            setup_completed,
                            response,
                        )
                    },
                    Flow::ContextAttempt { ids, purpose, report } => Self::on_context_attempt(
                        ids,
                        purpose,
                        report,
                        response,
                    ),
                    Flow::ContextProject { ids, purpose, report, worktree_path } => {
                        self.on_context_project(
                            ids,
                            purpose,
                            report,
                            worktree_path,
                            response,
                            fresh,
                        )
                    },
                    Flow::ExecutionMarked { ids, report, setup_script, worktree_path } => {
                        self.on_execution_marked(
                            ids,
                            report,
                            setup_script,
                            worktree_path,
                            response,
                            fresh,
                        )
                    },
                    Flow::AgentAttempt { ids, report } => self.on_agent_attempt(
                        ids,
                        report,
                        response,
                        fresh,
                    ),
                    Flow::DevServerWorktree { ids } => Self::on_dev_server_worktree(ids, response),
                    Flow::DevDirectWorktree { ids, report } => Self::on_dev_direct_worktree(
                        ids,
                        report,
                        response,
                    ),
                    Flow::DevDirectProject { ids, report, worktree_path } => {
                        self.on_dev_direct_project(ids, report, worktree_path, response, fresh)
                    },
                    Flow::FollowupAttempt { ids, prompt } => Self::on_followup_attempt(
                        ids,
                        prompt,
                        response,
                    ),
                    Flow::FollowupMarked { ids, prompt } => Self::on_followup_marked(
                        ids,
                        prompt,
                        response,
                    ),
                    Flow::FollowupWorktree { ids, prompt } => Self::on_followup_worktree(
                        ids,
                        prompt,
                        response,
                    ),
                    Flow::DirectWorktree { ids, prompt, report } => Self::on_direct_worktree(
                        ids,
                        prompt,
                        report,
                        response,
                    ),
                    Flow::DirectProcesses { ids, prompt, report, worktree_path } => {
                        Self::on_direct_processes(ids, prompt, report, worktree_path, response)
                    },
                    Flow::DirectSession { ids, prompt, report, worktree_path, executor_type } => {
                        self.on_direct_session(
                            ids,
                            prompt,
                            report,
                            worktree_path,
                            executor_type,
                            response,
                            fresh,
                        )
                    },
                    Flow::Launching { phase, job, after } => self.on_launching(
                        phase,
                        job,
                        after,
                        response,
                        fresh,
                    ),
                }
            },
        }
    }

    /// Goes on with a call: what it makes of the response to its outstanding
    /// request. A record that this step creates gets a new random
    /// identifier, which is drawn only where the step may create one; any
    /// other step is the same for every identifier, so it is stated for zero.
    pub fn resume(&self, flow: Flow, response: Response) -> (step: Step)
        ensures
            model::creates_record(flow@) ==> exists|fresh: u128|
                is_random_id(fresh) && step@ == #[trigger] model::resume(
                    self.shell@,
                    flow@,
                    response@,
                    fresh,
                ),
            !model::creates_record(flow@) ==> step@ == model::resume(
                self.shell@,
                flow@,
                response@,
                0,
            ),
    {
        if flow.creates_record() {
            let fresh = fresh_id();
            self.resume_as(flow, response, fresh)
        } else {
            self.resume_as(flow, response, 0)
        }
    }
}

} // verus!
