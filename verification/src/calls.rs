//! What each call makes of the answer it waited for.
use crate::builder::copy_option;
use crate::delegation::{DelegationContext, Ids, OperationParams};
use crate::engine::{fail, invalid, new_job, plain, unexpected, wait};
use crate::executor::{ExecutionProcessType, ExecutorConfig, ExecutorType, FollowUpInfo};
use crate::model;
use crate::protocol::{After, Flow, Phase, Purpose, Request, Response, Step, WorktreeReason};
use crate::records::{process_views, ExecutionProcess, ExecutionProcessView, TaskAttemptError};
use crate::service::ProcessService;
use crate::text::{is_configured, same_text};
use vstd::prelude::*;
use vstd::string::StringExecFns;

verus! {

/// A list has at most one latest coding agent.
pub proof fn lemma_latest_coding_agent_is_unique(
    processes: Seq<ExecutionProcessView>,
    i: int,
    j: int,
)
    requires
        model::is_latest_coding_agent(processes, i),
        model::is_latest_coding_agent(processes, j),
    ensures
        i == j,
{
    if i < j {
        assert(processes[j].process_type != ExecutionProcessType::CodingAgent);
    } else if j < i {
        assert(processes[i].process_type != ExecutionProcessType::CodingAgent);
    }
}

/// The request for a worktree.
fn ensure_worktree(ids: Ids, reason: WorktreeReason) -> (request: Request)
    ensures
        request@ == model::ensure_worktree(ids, reason),
{
    Request::EnsureWorktree { attempt_id: ids.attempt_id, project_id: ids.project_id, reason }
}

impl ProcessService {
    /// The place of the most recent coding-agent process in a list that is
    /// ordered oldest first: a coding agent stands there and none after it.
    /// `None` exactly when the list holds no coding agent.
    pub fn most_recent_coding_agent(processes: &Vec<ExecutionProcess>) -> (r: Option<usize>)
        ensures
            match r {
                Some(i) => model::is_latest_coding_agent(process_views(processes@), i as int),
                None => forall|j: int|
                    0 <= j < processes.len() ==> (#[trigger] processes[j]).process_type
                        != ExecutionProcessType::CodingAgent,
            },
            model::latest_coding_agent(process_views(processes@)) == match r {
                Some(i) => Some(i as int),
                None => None,
            },
    {
        let ghost views = process_views(processes@);
        let mut i: usize = processes.len();
        while i > 0
            invariant
                i <= processes.len(),
                views == process_views(processes@),
                forall|j: int|
                    i <= j < processes.len() ==> (#[trigger] views[j]).process_type
                        != ExecutionProcessType::CodingAgent,
            decreases i,
        {
            i -= 1;
            if processes[i].process_type == ExecutionProcessType::CodingAgent {
                proof {
                    assert(views[i as int] == processes[i as int]@);
                    assert(model::is_latest_coding_agent(views, i as int));
                    let k = choose|k: int| model::is_latest_coding_agent(views, k);
                    lemma_latest_coding_agent_is_unique(views, k, i as int);
                }
                return Some(i);
            }
            assert(views[i as int] == processes[i as int]@);
        }
        proof {
            assert forall|k: int| !model::is_latest_coding_agent(views, k) by {
                if 0 <= k < views.len() {
                    assert(views[k].process_type != ExecutionProcessType::CodingAgent);
                }
            }
            assert forall|j: int| 0 <= j < processes.len() implies (#[trigger] processes[j])
                .process_type != ExecutionProcessType::CodingAgent by {
                assert(views[j] == processes[j]@);
            }
        }
        None
    }

    /// Cleanup, with the project.
    pub(crate) fn on_cleanup_project(ids: Ids, response: Response) -> (step: Step)
        ensures
            step@ == model::on_cleanup_project(ids, response@),
    {
        match response {
            Response::Project(Some(project)) => {
                if Self::should_run_cleanup_script(&project) {
                    let script = project.cleanup_script.unwrap();
                    wait(
                        Flow::CleanupAttempt { ids, script },
                        Request::FindTaskAttempt { attempt_id: ids.attempt_id },
                    )
                } else {
                    Step::Finished(Ok(None))
                }
            },
            Response::Project(None) => fail(TaskAttemptError::ProjectNotFound),
            _ => unexpected(),
        }
    }

    /// Cleanup, with the attempt.
    pub(crate) fn on_cleanup_attempt(
        &self,
        ids: Ids,
        script: String,
        response: Response,
        fresh: u128,
    ) -> (step: Step)
        ensures
            step@ == model::on_cleanup_attempt(self.shell@, ids, script@, response@, fresh),
    {
        match response {
            Response::TaskAttempt(Some(attempt)) => self.begin_job(
                new_job(
                    ids,
                    fresh,
                    ExecutorType::CleanupScript(script),
                    ExecutionProcessType::CleanupScript,
                    attempt.worktree_path,
                ),
                plain(),
            ),
            Response::TaskAttempt(None) => fail(TaskAttemptError::TaskNotFound),
            _ => unexpected(),
        }
    }

    /// Setup gate, with the completion flag.
    pub(crate) fn on_gate_completed(
        ids: Ids,
        operation: String,
        params: Option<OperationParams>,
        report: Option<u128>,
        response: Response,
    ) -> (step: Step)
        ensures
            step@ == model::on_gate_completed(
                ids,
                operation@,
                crate::delegation::params_view(params),
                report,
                response@,
            ),
    {
        match response {
            Response::SetupCompleted(setup_completed) => wait(
                Flow::GateProject { ids, operation, params, report, setup_completed },
                Request::FindProject { project_id: ids.project_id },
            ),
            _ => unexpected(),
        }
    }

    /// The first step of the named operation, started directly. An operation
    /// that is none of `dev_server`, `coding_agent` and `followup` is an
    /// error of validation.
    pub(crate) fn dispatch(
        ids: Ids,
        operation: String,
        params: Option<OperationParams>,
        report: Option<u128>,
    ) -> (step: Step)
        ensures
            step@ == model::dispatch(
                ids,
                operation@,
                crate::delegation::params_view(params),
                report,
            ),
    {
        if same_text(operation.as_str(), "dev_server") {
            Self::dev_server_direct(ids, report)
        } else if same_text(operation.as_str(), "coding_agent") {
            Self::coding_agent(ids, report)
        } else if same_text(operation.as_str(), "followup") {
            let prompt = match params {
                Some(OperationParams { prompt: Some(prompt), .. }) => prompt,
                _ => String::new(),
            };
            Self::followup_direct(ids, prompt, report)
        } else {
            let mut message = "Unknown operation: ".to_owned();
            message.append(operation.as_str());
            invalid(message)
        }
    }

    /// Setup gate, with the project.
    pub(crate) fn on_gate_project(
        ids: Ids,
        operation: String,
        params: Option<OperationParams>,
        report: Option<u128>,
        setup_completed: bool,
        response: Response,
    ) -> (step: Step)
        ensures
            step@ == model::on_gate_project(
                ids,
                operation@,
                crate::delegation::params_view(params),
                report,
                setup_completed,
                response@,
            ),
    {
        match response {
            Response::Project(Some(project)) => {
                let needs_setup = Self::should_run_setup_script(&project) && !setup_completed;
                if needs_setup {
                    Self::execute_setup_with_delegation(ids, operation, params, report)
                } else {
                    Self::dispatch(ids, operation, params, report)
                }
            },
            Response::Project(None) => fail(TaskAttemptError::ProjectNotFound),
            _ => unexpected(),
        }
    }

    /// The first step of a delegated setup: the attempt is to be read.
    pub(crate) fn execute_setup_with_delegation(
        ids: Ids,
        delegate_to: String,
        params: Option<OperationParams>,
        report: Option<u128>,
    ) -> (step: Step)
        ensures
            step@ == model::execute_setup_with_delegation(
                ids,
                delegate_to@,
                crate::delegation::params_view(params),
                report,
            ),
    {
        wait(
            Flow::ContextAttempt {
                ids,
                purpose: Purpose::Delegation { delegate_to, params },
                report,
            },
            Request::FindTaskAttempt { attempt_id: ids.attempt_id },
        )
    }

    /// Execution context, with the attempt.
    pub(crate) fn on_context_attempt(
        ids: Ids,
        purpose: Purpose,
        report: Option<u128>,
        response: Response,
    ) -> (step: Step)
        ensures
            step@ == model::on_context_attempt(ids, purpose@, report, response@),
    {
        match response {
            Response::TaskAttempt(Some(attempt)) => wait(
                Flow::ContextProject { ids, purpose, report, worktree_path: attempt.worktree_path },
                Request::FindProject { project_id: ids.project_id },
            ),
            Response::TaskAttempt(None) => fail(TaskAttemptError::TaskNotFound),
            _ => unexpected(),
        }
    }

    /// The first step of a setup script that carries a delegation context.
    pub(crate) fn begin_delegated_setup(
        &self,
        context: DelegationContext,
        report: Option<u128>,
        script: String,
        worktree_path: String,
        process_id: u128,
    ) -> (step: Step)
        ensures
            step@ == model::begin_delegated_setup(
                self.shell@,
                context.ids,
                context.delegate_to@,
                crate::delegation::params_view(context.additional),
                report,
                script@,
                worktree_path@,
                process_id,
            ),
    {
        let record = self.create_execution_process_record_with_delegation(
            &context,
            worktree_path.as_str(),
        );
        let job = new_job(
            context.ids,
            process_id,
            ExecutorType::SetupScript(script),
            ExecutionProcessType::SetupScript,
            worktree_path,
        );
        Step::Await {
            flow: Flow::Launching {
                phase: Phase::Record,
                job,
                after: After { report, fallback: None },
            },
            request: Request::CreateExecutionProcess { process_id, record },
        }
    }

    /// Execution context, with the project.
    pub(crate) fn on_context_project(
        &self,
        ids: Ids,
        purpose: Purpose,
        report: Option<u128>,
        worktree_path: String,
        response: Response,
        fresh: u128,
    ) -> (step: Step)
        ensures
            step@ == model::on_context_project(
                self.shell@,
                ids,
                purpose@,
                report,
                worktree_path@,
                response@,
                fresh,
            ),
    {
        match response {
            Response::Project(Some(project)) => match purpose {
                Purpose::Execution => {
                    let setup_script = if Self::should_run_setup_script(&project) {
                        project.setup_script
                    } else {
                        None
                    };
                    wait(
                        Flow::ExecutionMarked { ids, report, setup_script, worktree_path },
                        Request::MarkTaskInProgress {
                            task_id: ids.task_id,
                            project_id: ids.project_id,
                        },
                    )
                },
                Purpose::Delegation { delegate_to, params } => {
                    if Self::should_run_setup_script(&project) {
                        let script = project.setup_script.unwrap();
                        self.begin_delegated_setup(
                            DelegationContext { delegate_to, ids, additional: params },
                            report,
                            script,
                            worktree_path,
                            fresh,
                        )
                    } else {
                        invalid("no setup script configured".to_owned())
                    }
                },
            },
            Response::Project(None) => fail(TaskAttemptError::ProjectNotFound),
            _ => unexpected(),
        }
    }

    /// Execution, with the task marked.
    pub(crate) fn on_execution_marked(
        &self,
        ids: Ids,
        report: Option<u128>,
        setup_script: Option<String>,
        worktree_path: String,
        response: Response,
        fresh: u128,
    ) -> (step: Step)
        ensures
            step@ == model::on_execution_marked(
                self.shell@,
                ids,
                report,
                crate::text::option_text(setup_script),
                worktree_path@,
                response@,
                fresh,
            ),
    {
        match response {
            Response::Done => match setup_script {
                Some(script) => self.begin_job(
                    new_job(
                        ids,
                        fresh,
                        ExecutorType::SetupScript(script),
                        ExecutionProcessType::SetupScript,
                        worktree_path,
                    ),
                    After { report, fallback: None },
                ),
                None => Self::coding_agent(ids, report),
            },
            _ => unexpected(),
        }
    }

    /// The first step of the coding agent: the attempt is to be read.
    pub(crate) fn coding_agent(ids: Ids, report: Option<u128>) -> (step: Step)
        ensures
            step@ == model::start_coding_agent(ids, report),
    {
        wait(
            Flow::AgentAttempt { ids, report },
            Request::FindTaskAttempt { attempt_id: ids.attempt_id },
        )
    }

    /// Coding agent, with the attempt.
    pub(crate) fn on_agent_attempt(
        &self,
        ids: Ids,
        report: Option<u128>,
        response: Response,
        fresh: u128,
    ) -> (step: Step)
        ensures
            step@ == model::on_agent_attempt(self.shell@, ids, report, response@, fresh),
    {
        match response {
            Response::TaskAttempt(Some(attempt)) => {
                let config = Self::resolve_executor_config(&attempt.executor);
                self.begin_job(
                    new_job(
                        ids,
                        fresh,
                        ExecutorType::CodingAgent { config, follow_up: None },
                        ExecutionProcessType::CodingAgent,
                        attempt.worktree_path,
                    ),
                    After { report, fallback: None },
                )
            },
            Response::TaskAttempt(None) => fail(TaskAttemptError::TaskNotFound),
            _ => unexpected(),
        }
    }

    /// The first step of the setup gate.
    pub(crate) fn gate(
        ids: Ids,
        operation: String,
        params: Option<OperationParams>,
        report: Option<u128>,
    ) -> (step: Step)
        ensures
            step@ == model::auto_setup_and_execute(
                ids,
                operation@,
                crate::delegation::params_view(params),
                report,
            ),
    {
        wait(
            Flow::GateCompleted { ids, operation, params, report },
            Request::IsSetupCompleted { attempt_id: ids.attempt_id },
        )
    }

    /// Dev server, with the worktree.
    pub(crate) fn on_dev_server_worktree(ids: Ids, response: Response) -> (step: Step)
        ensures
            step@ == model::on_dev_server_worktree(ids, response@),
    {
        match response {
            Response::Worktree(_) => Self::gate(ids, "dev_server".to_owned(), None, None),
            _ => unexpected(),
        }
    }

    /// The first step of the dev server, started directly.
    pub(crate) fn dev_server_direct(ids: Ids, report: Option<u128>) -> (step: Step)
        ensures
            step@ == model::start_dev_server_direct(ids, report),
    {
        wait(
            Flow::DevDirectWorktree { ids, report },
            ensure_worktree(ids, WorktreeReason::DevServer),
        )
    }

    /// The first step of the dev server behind the setup gate.
    pub(crate) fn dev_server(ids: Ids) -> (step: Step)
        ensures
            step@ == model::start_dev_server(ids),
    {
        wait(Flow::DevServerWorktree { ids }, ensure_worktree(ids, WorktreeReason::DevServer))
    }

    /// Dev server, direct, with the worktree.
    pub(crate) fn on_dev_direct_worktree(
        ids: Ids,
        report: Option<u128>,
        response: Response,
    ) -> (step: Step)
        ensures
            step@ == model::on_dev_direct_worktree(ids, report, response@),
    {
        match response {
            Response::Worktree(worktree_path) => wait(
                Flow::DevDirectProject { ids, report, worktree_path },
                Request::FindProject { project_id: ids.project_id },
            ),
            _ => unexpected(),
        }
    }

    /// Dev server, direct, with the project.
    pub(crate) fn on_dev_direct_project(
        &self,
        ids: Ids,
        report: Option<u128>,
        worktree_path: String,
        response: Response,
        fresh: u128,
    ) -> (step: Step)
        ensures
            step@ == model::on_dev_direct_project(
                self.shell@,
                ids,
                report,
                worktree_path@,
                response@,
                fresh,
            ),
    {
        match response {
            Response::Project(Some(project)) => {
                if is_configured(&project.dev_script) {
                    let script = project.dev_script.unwrap();
                    self.begin_job(
                        new_job(
                            ids,
                            fresh,
                            ExecutorType::DevServer(script),
                            ExecutionProcessType::DevServer,
                            worktree_path,
                        ),
                        After { report, fallback: None },
                    )
                } else {
                    invalid("no dev script configured".to_owned())
                }
            },
            Response::Project(None) => fail(TaskAttemptError::ProjectNotFound),
            _ => unexpected(),
        }
    }

    /// Follow-up, with the attempt.
    pub(crate) fn on_followup_attempt(ids: Ids, prompt: String, response: Response) -> (step: Step)
        ensures
            step@ == model::on_followup_attempt(ids, prompt@, response@),
    {
        match response {
            Response::TaskAttempt(Some(_)) => wait(
                Flow::FollowupMarked { ids, prompt },
                Request::MarkTaskInProgress { task_id: ids.task_id, project_id: ids.project_id },
            ),
            Response::TaskAttempt(None) => fail(TaskAttemptError::TaskNotFound),
            _ => unexpected(),
        }
    }

    /// Follow-up, with the task marked.
    pub(crate) fn on_followup_marked(ids: Ids, prompt: String, response: Response) -> (step: Step)
        ensures
            step@ == model::on_followup_marked(ids, prompt@, response@),
    {
        match response {
            Response::Done => wait(
                Flow::FollowupWorktree { ids, prompt },
                ensure_worktree(ids, WorktreeReason::Followup),
            ),
            _ => unexpected(),
        }
    }

    /// Follow-up, with the worktree.
    pub(crate) fn on_followup_worktree(ids: Ids, prompt: String, response: Response) -> (step: Step)
        ensures
            step@ == model::on_followup_worktree(ids, prompt@, response@),
    {
        match response {
            Response::Worktree(_) => Self::gate(
                ids,
                "followup".to_owned(),
                Some(OperationParams::for_prompt(prompt.as_str())),
                Some(ids.attempt_id),
            ),
            _ => unexpected(),
        }
    }

    /// The first step of a follow-up, started directly.
    pub(crate) fn followup_direct(ids: Ids, prompt: String, report: Option<u128>) -> (step: Step)
        ensures
            step@ == model::start_followup_execution_direct(ids, prompt@, report),
    {
        wait(
            Flow::DirectWorktree { ids, prompt, report },
            ensure_worktree(ids, WorktreeReason::Followup),
        )
    }

    /// Follow-up, direct, with the worktree.
    pub(crate) fn on_direct_worktree(
        ids: Ids,
        prompt: String,
        report: Option<u128>,
        response: Response,
    ) -> (step: Step)
        ensures
            step@ == model::on_direct_worktree(ids, prompt@, report, response@),
    {
        match response {
            Response::Worktree(worktree_path) => wait(
                Flow::DirectProcesses { ids, prompt, report, worktree_path },
                Request::FindExecutionProcesses { attempt_id: ids.attempt_id },
            ),
            _ => unexpected(),
        }
    }

    /// Follow-up, direct, with the processes.
    pub(crate) fn on_direct_processes(
        ids: Ids,
        prompt: String,
        report: Option<u128>,
        worktree_path: String,
        response: Response,
    ) -> (step: Step)
        ensures
            step@ == model::on_direct_processes(ids, prompt@, report, worktree_path@, response@),
    {
        match response {
            Response::ExecutionProcesses(processes) => {
                match Self::most_recent_coding_agent(&processes) {
                    Some(i) => {
                        let latest = &processes[i];
                        assert(process_views(processes@)[i as int] == latest@);
                        wait(
                            Flow::DirectSession {
                                ids,
                                prompt,
                                report,
                                worktree_path,
                                executor_type: copy_option(&latest.executor_type),
                            },
                            Request::FindExecutorSession { execution_process_id: latest.id },
                        )
                    },
                    None => invalid("no previous coding agent execution found".to_owned()),
                }
            },
            _ => unexpected(),
        }
    }

    /// The descriptor of a follow-up: it resumes the session whose
    /// identifier the backend has recorded, if that is not empty, and starts
    /// a new session otherwise. Only a job that resumes has a fallback.
    pub fn followup_executor(
        config: ExecutorConfig,
        session_id: Option<String>,
        prompt: String,
        report: Option<u128>,
    ) -> (r: (ExecutorType, After))
        ensures
            r.0@ == model::followup_executor(config, crate::text::option_text(session_id), prompt@),
            r.1 == model::followup_after(config, crate::text::option_text(session_id), report),
    {
        match session_id {
            Some(id) => {
                if !id.as_str().is_empty() {
                    (
                        ExecutorType::CodingAgent {
                            config,
                            follow_up: Some(FollowUpInfo { session_id: id, prompt }),
                        },
                        After { report, fallback: Some(config) },
                    )
                } else {
                    (
                        ExecutorType::CodingAgent { config, follow_up: None },
                        After { report, fallback: None },
                    )
                }
            },
            None => (
                ExecutorType::CodingAgent { config, follow_up: None },
                After { report, fallback: None },
            ),
        }
    }

    /// Follow-up, direct, with the session.
    pub(crate) fn on_direct_session(
        &self,
        ids: Ids,
        prompt: String,
        report: Option<u128>,
        worktree_path: String,
        executor_type: Option<String>,
        response: Response,
        fresh: u128,
    ) -> (step: Step)
        ensures
            step@ == model::on_direct_session(
                self.shell@,
                ids,
                prompt@,
                report,
                worktree_path@,
                crate::text::option_text(executor_type),
                response@,
                fresh,
            ),
    {
        match response {
            Response::ExecutorSession(Some(session)) => {
                let stored = match &executor_type {
                    Some(name) => ExecutorConfig::parse(name.as_str()),
                    None => None,
                };
                match stored {
                    Some(config) => {
                        let (executor, after) = Self::followup_executor(
                            config,
                            session.session_id,
                            prompt,
                            report,
                        );
                        self.begin_job(
                            new_job(
                                ids,
                                fresh,
                                executor,
                                ExecutionProcessType::CodingAgent,
                                worktree_path,
                            ),
                            after,
                        )
                    },
                    None => {
                        let mut message = "Invalid executor type for follow-up: ".to_owned();
                        match &executor_type {
                            Some(name) => {
                                message.append(name.as_str());
                            },
                            None => {
                                message.append("None");
                            },
                        }
                        invalid(message)
                    },
                }
            },
            Response::ExecutorSession(None) => invalid("no executor session found".to_owned()),
            _ => unexpected(),
        }
    }
}

} // verus!
