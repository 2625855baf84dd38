//! The engine as mathematics: what each entry point asks first, and what
//! `resume` makes of each flow and response, over the views of the exchanged
//! values. The executable engine is proved equal to these functions.
use crate::delegation::{
    context_text, prompt_params, DelegationContextView, Ids, OperationParamsView,
};
use crate::executor::{
    ExecutionProcessType, ExecutionType, ExecutorConfig, ExecutorTypeView, FollowUpInfoView,
};
use crate::protocol::{
    After, FlowView, InvocationView, JobView, Phase, PurposeView, RequestView, ResponseView,
    StepView, WorktreeReason,
};
use crate::records::{
    CreateExecutionProcessView, CreateExecutorSessionView, ExecutionProcessView, ProjectView,
    ShellCommandView, TaskAttemptErrorView, TaskView,
};
use crate::text::{configured, json_array_text};
use vstd::prelude::*;

verus! {

// ---------------------------------------------------------------- records

/// The backend that a task attempt's executor name stands for: the one it
/// names, and the echo backend where it names none or is absent.
pub open spec fn resolve_executor_config(name: Option<Seq<char>>) -> ExecutorConfig {
    match name {
        Some(s) => match ExecutorConfig::spec_parse(s) {
            Some(config) => config,
            None => ExecutorConfig::Echo,
        },
        None => ExecutorConfig::Echo,
    }
}

/// The stored arguments of a script process: the shell's flag and the kind's
/// tag, as a JSON array.
pub open spec fn script_args(shell: ShellCommandView, tag: Seq<char>) -> Seq<char> {
    json_array_text(seq![shell.flag, tag])
}

/// The record of a process, by the kind of its descriptor. Scripts and dev
/// servers store the shell and a tag; coding agents store a command that
/// tells a follow-up from a fresh start, and the backend's name.
pub open spec fn process_record(
    shell: ShellCommandView,
    attempt_id: u128,
    executor: ExecutorTypeView,
    process_type: ExecutionProcessType,
    worktree_path: Seq<char>,
) -> CreateExecutionProcessView {
    match executor {
        ExecutorTypeView::SetupScript(_) => CreateExecutionProcessView {
            task_attempt_id: attempt_id,
            process_type,
            executor_type: Some("setup-script"@),
            command: shell.program,
            args: Some(script_args(shell, "setup-script"@)),
            working_directory: worktree_path,
        },
        ExecutorTypeView::CleanupScript(_) => CreateExecutionProcessView {
            task_attempt_id: attempt_id,
            process_type,
            executor_type: Some("cleanup-script"@),
            command: shell.program,
            args: Some(script_args(shell, "cleanup-script"@)),
            working_directory: worktree_path,
        },
        ExecutorTypeView::DevServer(_) => CreateExecutionProcessView {
            task_attempt_id: attempt_id,
            process_type,
            executor_type: None,
            command: shell.program,
            args: Some(script_args(shell, "dev_server"@)),
            working_directory: worktree_path,
        },
        ExecutorTypeView::CodingAgent { config, follow_up } => CreateExecutionProcessView {
            task_attempt_id: attempt_id,
            process_type,
            executor_type: Some(config.spec_name()),
            command: if follow_up is Some {
                "followup_executor"@
            } else {
                "executor"@
            },
            args: None,
            working_directory: worktree_path,
        },
    }
}

/// The stored arguments of a delegated setup script: those of a setup
/// script, then the flag `--delegation-context` and the context as JSON.
pub open spec fn delegated_args(shell: ShellCommandView, context: DelegationContextView) -> Seq<
    char,
> {
    json_array_text(
        seq![shell.flag, "setup-script"@, "--delegation-context"@, context_text(context)],
    )
}

/// The record of a setup script that carries a delegation context.
pub open spec fn delegated_record(
    shell: ShellCommandView,
    context: DelegationContextView,
    worktree_path: Seq<char>,
) -> CreateExecutionProcessView {
    CreateExecutionProcessView {
        task_attempt_id: context.ids.attempt_id,
        process_type: ExecutionProcessType::SetupScript,
        executor_type: Some("setup-script"@),
        command: shell.program,
        args: Some(delegated_args(shell, context)),
        working_directory: worktree_path,
    }
}

/// The prompt of a fresh session: the task's title, an empty line, and its
/// description, if it has one.
pub open spec fn task_prompt(task: TaskView) -> Seq<char> {
    task.title + "\n\n"@ + match task.description {
        Some(d) => d,
        None => Seq::<char>::empty(),
    }
}

/// The prompt that a descriptor brings along: that of its follow-up.
pub open spec fn followup_prompt(executor: ExecutorTypeView) -> Option<Seq<char>> {
    match executor {
        ExecutorTypeView::CodingAgent { config, follow_up: Some(info) } => Some(info.prompt),
        _ => None,
    }
}

/// The session record of a job.
pub open spec fn session_record(job: JobView, prompt: Seq<char>) -> CreateExecutorSessionView {
    CreateExecutorSessionView {
        task_attempt_id: job.attempt_id,
        execution_process_id: job.process_id,
        prompt: Some(prompt),
    }
}

/// Which backend starts a descriptor's process. A coding agent resumes a
/// session where the descriptor has follow-up information, and starts a new
/// one where it has none.
pub open spec fn invocation(executor: ExecutorTypeView) -> InvocationView {
    match executor {
        ExecutorTypeView::SetupScript(script) => InvocationView::SetupScript { script },
        ExecutorTypeView::CleanupScript(script) => InvocationView::CleanupScript { script },
        ExecutorTypeView::DevServer(script) => InvocationView::DevServer { script },
        ExecutorTypeView::CodingAgent { config, follow_up } => match follow_up {
            Some(info) => InvocationView::AgentFollowUp {
                config,
                session_id: info.session_id,
                prompt: info.prompt,
            },
            None => InvocationView::Agent { config },
        },
    }
}

/// The request that launches a job's process.
pub open spec fn launch_request(job: JobView) -> RequestView {
    RequestView::Launch {
        invocation: invocation(job.executor),
        task_id: job.task_id,
        attempt_id: job.attempt_id,
        process_id: job.process_id,
        worktree_path: job.worktree_path,
    }
}

/// The registry's kind for a process type.
pub open spec fn execution_type(process_type: ExecutionProcessType) -> ExecutionType {
    match process_type {
        ExecutionProcessType::SetupScript => ExecutionType::SetupScript,
        ExecutionProcessType::CleanupScript => ExecutionType::CleanupScript,
        ExecutionProcessType::CodingAgent => ExecutionType::CodingAgent,
        ExecutionProcessType::DevServer => ExecutionType::DevServer,
    }
}

/// The request that registers a job's launched process.
pub open spec fn register_request(job: JobView) -> RequestView {
    RequestView::Register {
        process_id: job.process_id,
        attempt_id: job.attempt_id,
        execution_type: execution_type(job.process_type),
    }
}

// ------------------------------------------------------------------- jobs

/// A call that ends with an error of validation.
pub open spec fn invalid(message: Seq<char>) -> StepView {
    StepView::Finished(Err(TaskAttemptErrorView::ValidationError(message)))
}

/// The end of a call whose environment answered something that the
/// outstanding request does not ask for.
pub open spec fn unexpected() -> StepView {
    invalid("Response does not answer the request"@)
}

/// A job on its way, waiting for `request` in `phase`.
pub open spec fn job_step(
    phase: Phase,
    job: JobView,
    after: After,
    request: RequestView,
) -> StepView {
    StepView::Await { flow: FlowView::Launching { phase, job, after }, request }
}

/// The first step of a job: its process record is written.
pub open spec fn begin_job(shell: ShellCommandView, job: JobView, after: After) -> StepView {
    job_step(
        Phase::Record,
        job,
        after,
        RequestView::CreateExecutionProcess {
            process_id: job.process_id,
            record: process_record(
                shell,
                job.attempt_id,
                job.executor,
                job.process_type,
                job.worktree_path,
            ),
        },
    )
}

/// The job that replaces a failed follow-up: a new session of the same
/// backend, for the same attempt and task, in the same worktree.
pub open spec fn fallback_job(job: JobView, config: ExecutorConfig, process_id: u128) -> JobView {
    JobView {
        process_id,
        attempt_id: job.attempt_id,
        task_id: job.task_id,
        executor: ExecutorTypeView::CodingAgent { config, follow_up: None },
        process_type: ExecutionProcessType::CodingAgent,
        worktree_path: job.worktree_path,
    }
}

/// A job whose launch failed. The call ends with the launch error, unless
/// the job has a fallback: then the fallback job begins, and it has none
/// itself.
pub open spec fn launch_failed(
    shell: ShellCommandView,
    job: JobView,
    after: After,
    message: Seq<char>,
    fresh: u128,
) -> StepView {
    match after.fallback {
        Some(config) => begin_job(
            shell,
            fallback_job(job, config, fresh),
            After { report: after.report, fallback: None },
        ),
        None => fail(TaskAttemptErrorView::Launch(message)),
    }
}

/// The step after the process record: the session record for a coding
/// agent, with the follow-up's prompt or, after the task is read, the
/// task's; the launch for everything else.
pub open spec fn after_record(job: JobView, after: After, fresh: u128) -> StepView {
    if job.process_type == ExecutionProcessType::CodingAgent {
        match followup_prompt(job.executor) {
            Some(prompt) => job_step(
                Phase::Session,
                job,
                after,
                RequestView::CreateExecutorSession {
                    session_id: fresh,
                    record: session_record(job, prompt),
                },
            ),
            None => job_step(
                Phase::Prompt,
                job,
                after,
                RequestView::FindTask { task_id: job.task_id },
            ),
        }
    } else {
        job_step(Phase::Spawn, job, after, launch_request(job))
    }
}

/// What a job makes of a response. Its records are written first, then the
/// process is launched, then registered; with that the call is over and
/// yields what the job was to report.
pub open spec fn on_launching(
    shell: ShellCommandView,
    phase: Phase,
    job: JobView,
    after: After,
    response: ResponseView,
    fresh: u128,
) -> StepView {
    match phase {
        Phase::Record => match response {
            ResponseView::Done => after_record(job, after, fresh),
            _ => unexpected(),
        },
        Phase::Prompt => match response {
            ResponseView::Task(Some(task)) => job_step(
                Phase::Session,
                job,
                after,
                RequestView::CreateExecutorSession {
                    session_id: fresh,
                    record: session_record(job, task_prompt(task)),
                },
            ),
            ResponseView::Task(None) => fail(TaskAttemptErrorView::TaskNotFound),
            _ => unexpected(),
        },
        Phase::Session => match response {
            ResponseView::Done => job_step(Phase::Spawn, job, after, launch_request(job)),
            _ => unexpected(),
        },
        Phase::Spawn => match response {
            ResponseView::Launched => job_step(Phase::Registry, job, after, register_request(job)),
            ResponseView::LaunchFailed(message) => launch_failed(shell, job, after, message, fresh),
            _ => unexpected(),
        },
        Phase::Registry => match response {
            ResponseView::Done => StepView::Finished(Ok(after.report)),
            _ => unexpected(),
        },
    }
}

/// A job with nothing to report and no fallback.
pub open spec fn plain() -> After {
    After { report: None, fallback: None }
}

/// The first step of starting one process.
pub open spec fn start_process_execution(
    shell: ShellCommandView,
    attempt_id: u128,
    task_id: u128,
    executor: ExecutorTypeView,
    process_type: ExecutionProcessType,
    worktree_path: Seq<char>,
    process_id: u128,
) -> StepView {
    begin_job(
        shell,
        JobView { process_id, attempt_id, task_id, executor, process_type, worktree_path },
        plain(),
    )
}

// ------------------------------------------------------------------ calls

/// A call that waits for an answer.
pub open spec fn wait(flow: FlowView, request: RequestView) -> StepView {
    StepView::Await { flow, request }
}

/// A call that ends with an error.
pub open spec fn fail(e: TaskAttemptErrorView) -> StepView {
    StepView::Finished(Err(e))
}

/// A new job for the call's attempt and task.
pub open spec fn new_job(
    ids: Ids,
    process_id: u128,
    executor: ExecutorTypeView,
    process_type: ExecutionProcessType,
    worktree_path: Seq<char>,
) -> JobView {
    JobView {
        process_id,
        attempt_id: ids.attempt_id,
        task_id: ids.task_id,
        executor,
        process_type,
        worktree_path,
    }
}

/// The first step of the cleanup: the project is read.
pub open spec fn run_cleanup_script_if_configured(ids: Ids) -> StepView {
    wait(FlowView::CleanupProject { ids }, RequestView::FindProject { project_id: ids.project_id })
}

/// Cleanup, with the project: the attempt is read where the project has a
/// cleanup script; else the call is over, with nothing done.
pub open spec fn on_cleanup_project(ids: Ids, response: ResponseView) -> StepView {
    match response {
        ResponseView::Project(Some(project)) => if configured(project.cleanup_script) {
            wait(
                FlowView::CleanupAttempt { ids, script: project.cleanup_script->0 },
                RequestView::FindTaskAttempt { attempt_id: ids.attempt_id },
            )
        } else {
            StepView::Finished(Ok(None))
        },
        ResponseView::Project(None) => fail(TaskAttemptErrorView::ProjectNotFound),
        _ => unexpected(),
    }
}

/// Cleanup, with the attempt: the script is started in its worktree.
pub open spec fn on_cleanup_attempt(
    shell: ShellCommandView,
    ids: Ids,
    script: Seq<char>,
    response: ResponseView,
    fresh: u128,
) -> StepView {
    match response {
        ResponseView::TaskAttempt(Some(attempt)) => begin_job(
            shell,
            new_job(
                ids,
                fresh,
                ExecutorTypeView::CleanupScript(script),
                ExecutionProcessType::CleanupScript,
                attempt.worktree_path,
            ),
            plain(),
        ),
        ResponseView::TaskAttempt(None) => fail(TaskAttemptErrorView::TaskNotFound),
        _ => unexpected(),
    }
}

/// The first step of the setup gate: whether the attempt's setup was
/// completed is read.
pub open spec fn auto_setup_and_execute(
    ids: Ids,
    operation: Seq<char>,
    params: Option<OperationParamsView>,
    report: Option<u128>,
) -> StepView {
    wait(
        FlowView::GateCompleted { ids, operation, params, report },
        RequestView::IsSetupCompleted { attempt_id: ids.attempt_id },
    )
}

/// Setup gate, with the completion flag: the project is read.
pub open spec fn on_gate_completed(
    ids: Ids,
    operation: Seq<char>,
    params: Option<OperationParamsView>,
    report: Option<u128>,
    response: ResponseView,
) -> StepView {
    match response {
        ResponseView::SetupCompleted(setup_completed) => wait(
            FlowView::GateProject { ids, operation, params, report, setup_completed },
            RequestView::FindProject { project_id: ids.project_id },
        ),
        _ => unexpected(),
    }
}

/// Whether setup has to run before an operation: the project has a setup
/// script, and the attempt's setup was not completed.
pub open spec fn needs_setup(project: ProjectView, setup_completed: bool) -> bool {
    configured(project.setup_script) && !setup_completed
}

/// The prompt among an operation's parameters, and the empty text where
/// there is none.
pub open spec fn prompt_of(params: Option<OperationParamsView>) -> Seq<char> {
    match params {
        Some(OperationParamsView { prompt: Some(prompt), .. }) => prompt,
        _ => Seq::<char>::empty(),
    }
}

/// The first step of the named operation, started directly.
pub open spec fn dispatch(
    ids: Ids,
    operation: Seq<char>,
    params: Option<OperationParamsView>,
    report: Option<u128>,
) -> StepView {
    if operation == "dev_server"@ {
        start_dev_server_direct(ids, report)
    } else if operation == "coding_agent"@ {
        start_coding_agent(ids, report)
    } else if operation == "followup"@ {
        start_followup_execution_direct(ids, prompt_of(params), report)
    } else {
        invalid("Unknown operation: "@ + operation)
    }
}

/// Setup gate, with the project: setup is run first, with the operation
/// delegated to it, where it is needed; else the operation is started
/// directly.
pub open spec fn on_gate_project(
    ids: Ids,
    operation: Seq<char>,
    params: Option<OperationParamsView>,
    report: Option<u128>,
    setup_completed: bool,
    response: ResponseView,
) -> StepView {
    match response {
        ResponseView::Project(Some(project)) => if needs_setup(project, setup_completed) {
            execute_setup_with_delegation(ids, operation, params, report)
        } else {
            dispatch(ids, operation, params, report)
        },
        ResponseView::Project(None) => fail(TaskAttemptErrorView::ProjectNotFound),
        _ => unexpected(),
    }
}

/// The first step of a delegated setup: the attempt is read.
pub open spec fn execute_setup_with_delegation(
    ids: Ids,
    delegate_to: Seq<char>,
    params: Option<OperationParamsView>,
    report: Option<u128>,
) -> StepView {
    wait(
        FlowView::ContextAttempt {
            ids,
            purpose: PurposeView::Delegation { delegate_to, params },
            report,
        },
        RequestView::FindTaskAttempt { attempt_id: ids.attempt_id },
    )
}

/// The first step of an attempt's execution: the attempt is read.
pub open spec fn start_execution(ids: Ids) -> StepView {
    wait(
        FlowView::ContextAttempt { ids, purpose: PurposeView::Execution, report: None },
        RequestView::FindTaskAttempt { attempt_id: ids.attempt_id },
    )
}

/// Execution context, with the attempt: the project is read.
pub open spec fn on_context_attempt(
    ids: Ids,
    purpose: PurposeView,
    report: Option<u128>,
    response: ResponseView,
) -> StepView {
    match response {
        ResponseView::TaskAttempt(Some(attempt)) => wait(
            FlowView::ContextProject { ids, purpose, report, worktree_path: attempt.worktree_path },
            RequestView::FindProject { project_id: ids.project_id },
        ),
        ResponseView::TaskAttempt(None) => fail(TaskAttemptErrorView::TaskNotFound),
        _ => unexpected(),
    }
}

/// The delegation context of a call.
pub open spec fn delegation_context(
    ids: Ids,
    delegate_to: Seq<char>,
    params: Option<OperationParamsView>,
) -> DelegationContextView {
    DelegationContextView { delegate_to, ids, additional: params }
}

/// The first step of a setup script that carries a delegation context: as
/// that of any setup script, but for the record's arguments.
pub open spec fn begin_delegated_setup(
    shell: ShellCommandView,
    ids: Ids,
    delegate_to: Seq<char>,
    params: Option<OperationParamsView>,
    report: Option<u128>,
    script: Seq<char>,
    worktree_path: Seq<char>,
    process_id: u128,
) -> StepView {
    job_step(
        Phase::Record,
        new_job(
            ids,
            process_id,
            ExecutorTypeView::SetupScript(script),
            ExecutionProcessType::SetupScript,
            worktree_path,
        ),
        After { report, fallback: None },
        RequestView::CreateExecutionProcess {
            process_id,
            record: delegated_record(
                shell,
                delegation_context(ids, delegate_to, params),
                worktree_path,
            ),
        },
    )
}

/// Execution context, with the project. For an execution, the task is
/// marked as in progress, and the setup script is kept if it is configured.
/// For a delegation, the setup script is started with the context in its
/// record; if the project has by now no setup script configured, that is an
/// error of validation.
pub open spec fn on_context_project(
    shell: ShellCommandView,
    ids: Ids,
    purpose: PurposeView,
    report: Option<u128>,
    worktree_path: Seq<char>,
    response: ResponseView,
    fresh: u128,
) -> StepView {
    match response {
        ResponseView::Project(Some(project)) => match purpose {
            PurposeView::Execution => wait(
                FlowView::ExecutionMarked {
                    ids,
                    report,
                    setup_script: if configured(project.setup_script) {
                        project.setup_script
                    } else {
                        None
                    },
                    worktree_path,
                },
                RequestView::MarkTaskInProgress {
                    task_id: ids.task_id,
                    project_id: ids.project_id,
                },
            ),
            PurposeView::Delegation { delegate_to, params } => if configured(
                project.setup_script,
            ) {
                begin_delegated_setup(
                    shell,
                    ids,
                    delegate_to,
                    params,
                    report,
                    project.setup_script->0,
                    worktree_path,
                    fresh,
                )
            } else {
                invalid("no setup script configured"@)
            },
        },
        ResponseView::Project(None) => fail(TaskAttemptErrorView::ProjectNotFound),
        _ => unexpected(),
    }
}

/// Execution, with the task marked: the setup script is started, or, where
/// the project has none, the coding agent.
pub open spec fn on_execution_marked(
    shell: ShellCommandView,
    ids: Ids,
    report: Option<u128>,
    setup_script: Option<Seq<char>>,
    worktree_path: Seq<char>,
    response: ResponseView,
    fresh: u128,
) -> StepView {
    match response {
        ResponseView::Done => match setup_script {
            Some(script) => begin_job(
                shell,
                new_job(
                    ids,
                    fresh,
                    ExecutorTypeView::SetupScript(script),
                    ExecutionProcessType::SetupScript,
                    worktree_path,
                ),
                After { report, fallback: None },
            ),
            None => start_coding_agent(ids, report),
        },
        _ => unexpected(),
    }
}

/// The first step of the coding agent: the attempt is read.
pub open spec fn start_coding_agent(ids: Ids, report: Option<u128>) -> StepView {
    wait(
        FlowView::AgentAttempt { ids, report },
        RequestView::FindTaskAttempt { attempt_id: ids.attempt_id },
    )
}

/// Coding agent, with the attempt: a new session of the attempt's backend
/// is started in its worktree.
pub open spec fn on_agent_attempt(
    shell: ShellCommandView,
    ids: Ids,
    report: Option<u128>,
    response: ResponseView,
    fresh: u128,
) -> StepView {
    match response {
        ResponseView::TaskAttempt(Some(attempt)) => begin_job(
            shell,
            new_job(
                ids,
                fresh,
                ExecutorTypeView::CodingAgent {
                    config: resolve_executor_config(attempt.executor),
                    follow_up: None,
                },
                ExecutionProcessType::CodingAgent,
                attempt.worktree_path,
            ),
            After { report, fallback: None },
        ),
        ResponseView::TaskAttempt(None) => fail(TaskAttemptErrorView::TaskNotFound),
        _ => unexpected(),
    }
}

/// The request for a worktree.
pub open spec fn ensure_worktree(ids: Ids, reason: WorktreeReason) -> RequestView {
    RequestView::EnsureWorktree {
        attempt_id: ids.attempt_id,
        project_id: ids.project_id,
        reason,
    }
}

/// The first step of the dev server: its worktree is provided.
pub open spec fn start_dev_server(ids: Ids) -> StepView {
    wait(FlowView::DevServerWorktree { ids }, ensure_worktree(ids, WorktreeReason::DevServer))
}

/// Dev server, with the worktree: the setup gate, for the operation
/// `dev_server` without parameters.
pub open spec fn on_dev_server_worktree(ids: Ids, response: ResponseView) -> StepView {
    match response {
        ResponseView::Worktree(_) => auto_setup_and_execute(ids, "dev_server"@, None, None),
        _ => unexpected(),
    }
}

/// The first step of the dev server, started directly: its worktree is
/// provided.
pub open spec fn start_dev_server_direct(ids: Ids, report: Option<u128>) -> StepView {
    wait(
        FlowView::DevDirectWorktree { ids, report },
        ensure_worktree(ids, WorktreeReason::DevServer),
    )
}

/// Dev server, direct, with the worktree: the project is read.
pub open spec fn on_dev_direct_worktree(
    ids: Ids,
    report: Option<u128>,
    response: ResponseView,
) -> StepView {
    match response {
        ResponseView::Worktree(worktree_path) => wait(
            FlowView::DevDirectProject { ids, report, worktree_path },
            RequestView::FindProject { project_id: ids.project_id },
        ),
        _ => unexpected(),
    }
}

/// Dev server, direct, with the project: the dev script is started, if the
/// project has one configured; a dev script that is absent or blank is an
/// error of validation.
pub open spec fn on_dev_direct_project(
    shell: ShellCommandView,
    ids: Ids,
    report: Option<u128>,
    worktree_path: Seq<char>,
    response: ResponseView,
    fresh: u128,
) -> StepView {
    match response {
        ResponseView::Project(Some(project)) => if configured(project.dev_script) {
            begin_job(
                shell,
                new_job(
                    ids,
                    fresh,
                    ExecutorTypeView::DevServer(project.dev_script->0),
                    ExecutionProcessType::DevServer,
                    worktree_path,
                ),
                After { report, fallback: None },
            )
        } else {
            invalid("no dev script configured"@)
        },
        ResponseView::Project(None) => fail(TaskAttemptErrorView::ProjectNotFound),
        _ => unexpected(),
    }
}

/// The first step of a follow-up: the attempt is read.
pub open spec fn start_followup_execution(ids: Ids, prompt: Seq<char>) -> StepView {
    wait(
        FlowView::FollowupAttempt { ids, prompt },
        RequestView::FindTaskAttempt { attempt_id: ids.attempt_id },
    )
}

/// Follow-up, with the attempt: the task is marked as in progress.
pub open spec fn on_followup_attempt(
    ids: Ids,
    prompt: Seq<char>,
    response: ResponseView,
) -> StepView {
    match response {
        ResponseView::TaskAttempt(Some(_)) => wait(
            FlowView::FollowupMarked { ids, prompt },
            RequestView::MarkTaskInProgress { task_id: ids.task_id, project_id: ids.project_id },
        ),
        ResponseView::TaskAttempt(None) => fail(TaskAttemptErrorView::TaskNotFound),
        _ => unexpected(),
    }
}

/// Follow-up, with the task marked: the worktree is provided.
pub open spec fn on_followup_marked(
    ids: Ids,
    prompt: Seq<char>,
    response: ResponseView,
) -> StepView {
    match response {
        ResponseView::Done => wait(
            FlowView::FollowupWorktree { ids, prompt },
            ensure_worktree(ids, WorktreeReason::Followup),
        ),
        _ => unexpected(),
    }
}

/// The parameters of the operation `followup`.
pub open spec fn followup_params(prompt: Seq<char>) -> Option<OperationParamsView> {
    Some(prompt_params(prompt))
}

/// Follow-up, with the worktree: the setup gate, for the operation
/// `followup` with the prompt. The call will yield the attempt.
pub open spec fn on_followup_worktree(
    ids: Ids,
    prompt: Seq<char>,
    response: ResponseView,
) -> StepView {
    match response {
        ResponseView::Worktree(_) => auto_setup_and_execute(
            ids,
            "followup"@,
            followup_params(prompt),
            Some(ids.attempt_id),
        ),
        _ => unexpected(),
    }
}

/// The first step of a follow-up, started directly: the worktree is
/// provided.
pub open spec fn start_followup_execution_direct(
    ids: Ids,
    prompt: Seq<char>,
    report: Option<u128>,
) -> StepView {
    wait(
        FlowView::DirectWorktree { ids, prompt, report },
        ensure_worktree(ids, WorktreeReason::Followup),
    )
}

/// Follow-up, direct, with the worktree: the attempt's processes are read.
pub open spec fn on_direct_worktree(
    ids: Ids,
    prompt: Seq<char>,
    report: Option<u128>,
    response: ResponseView,
) -> StepView {
    match response {
        ResponseView::Worktree(worktree_path) => wait(
            FlowView::DirectProcesses { ids, prompt, report, worktree_path },
            RequestView::FindExecutionProcesses { attempt_id: ids.attempt_id },
        ),
        _ => unexpected(),
    }
}

/// Whether `i` is the place of the latest coding-agent process of a list
/// that is ordered oldest first: a coding agent stands there, and none
/// after it.
pub open spec fn is_latest_coding_agent(processes: Seq<ExecutionProcessView>, i: int) -> bool {
    &&& 0 <= i < processes.len()
    &&& processes[i].process_type == ExecutionProcessType::CodingAgent
    &&& forall|j: int|
        i < j < processes.len() ==> (#[trigger] processes[j]).process_type
            != ExecutionProcessType::CodingAgent
}

/// The place of the latest coding-agent process, if the list has one.
pub open spec fn latest_coding_agent(processes: Seq<ExecutionProcessView>) -> Option<int> {
    if exists|i: int| is_latest_coding_agent(processes, i) {
        Some(choose|i: int| is_latest_coding_agent(processes, i))
    } else {
        None
    }
}

/// Follow-up, direct, with the processes: the session of the latest coding
/// agent is read.
pub open spec fn on_direct_processes(
    ids: Ids,
    prompt: Seq<char>,
    report: Option<u128>,
    worktree_path: Seq<char>,
    response: ResponseView,
) -> StepView {
    match response {
        ResponseView::ExecutionProcesses(processes) => match latest_coding_agent(processes) {
            Some(i) => wait(
                FlowView::DirectSession {
                    ids,
                    prompt,
                    report,
                    worktree_path,
                    executor_type: processes[i].executor_type,
                },
                RequestView::FindExecutorSession { execution_process_id: processes[i].id },
            ),
            None => invalid("no previous coding agent execution found"@),
        },
        _ => unexpected(),
    }
}

/// The backend that a process record names, if it names one.
pub open spec fn stored_config(executor_type: Option<Seq<char>>) -> Option<ExecutorConfig> {
    match executor_type {
        Some(name) => ExecutorConfig::spec_parse(name),
        None => None,
    }
}

/// The session that a follow-up can resume: the one whose identifier the
/// backend has recorded, and that is not empty.
pub open spec fn resumable(session_id: Option<Seq<char>>) -> Option<Seq<char>> {
    match session_id {
        Some(id) => if id.len() > 0 {
            Some(id)
        } else {
            None
        },
        None => None,
    }
}

/// The descriptor of a follow-up: it resumes the session if there is one to
/// resume, and starts a new one otherwise.
pub open spec fn followup_executor(
    config: ExecutorConfig,
    session_id: Option<Seq<char>>,
    prompt: Seq<char>,
) -> ExecutorTypeView {
    ExecutorTypeView::CodingAgent {
        config,
        follow_up: match resumable(session_id) {
            Some(id) => Some(FollowUpInfoView { session_id: id, prompt }),
            None => None,
        },
    }
}

/// What follows a follow-up's job: the call yields `report`, and only a job
/// that resumes a session has a fallback.
pub open spec fn followup_after(
    config: ExecutorConfig,
    session_id: Option<Seq<char>>,
    report: Option<u128>,
) -> After {
    After {
        report,
        fallback: if resumable(session_id) is Some {
            Some(config)
        } else {
            None
        },
    }
}

/// The message for a process record that names no backend.
pub open spec fn invalid_executor_message(executor_type: Option<Seq<char>>) -> Seq<char> {
    "Invalid executor type for follow-up: "@ + match executor_type {
        Some(name) => name,
        None => "None"@,
    }
}

/// Follow-up, direct, with the session: the agent is started with the
/// backend that the latest process names.
pub open spec fn on_direct_session(
    shell: ShellCommandView,
    ids: Ids,
    prompt: Seq<char>,
    report: Option<u128>,
    worktree_path: Seq<char>,
    executor_type: Option<Seq<char>>,
    response: ResponseView,
    fresh: u128,
) -> StepView {
    match response {
        ResponseView::ExecutorSession(Some(session)) => match stored_config(executor_type) {
            Some(config) => begin_job(
                shell,
                new_job(
                    ids,
                    fresh,
                    followup_executor(config, session.session_id, prompt),
                    ExecutionProcessType::CodingAgent,
                    worktree_path,
                ),
                followup_after(config, session.session_id, report),
            ),
            None => invalid(invalid_executor_message(executor_type)),
        },
        ResponseView::ExecutorSession(None) => invalid("no executor session found"@),
        _ => unexpected(),
    }
}

// ----------------------------------------------------------------- resume

/// Whether a step from this flow may create a record, and so may use the
/// identifier that is drawn for it.
pub open spec fn creates_record(flow: FlowView) -> bool {
    match flow {
        FlowView::CleanupAttempt { .. } => true,
        FlowView::ContextProject { .. } => true,
        FlowView::ExecutionMarked { .. } => true,
        FlowView::AgentAttempt { .. } => true,
        FlowView::DevDirectProject { .. } => true,
        FlowView::DirectSession { .. } => true,
        FlowView::Launching { phase, .. } => phase == Phase::Record || phase == Phase::Prompt
            || phase == Phase::Spawn,
        _ => false,
    }
}

/// What a call makes of the response to its outstanding request. `fresh` is
/// the identifier for a record that this step may create. A failure that the
/// environment reports ends the call with that failure.
pub open spec fn resume(
    shell: ShellCommandView,
    flow: FlowView,
    response: ResponseView,
    fresh: u128,
) -> StepView {
    match response {
        ResponseView::Failed(e) => fail(e),
        _ => {
            match flow {
                FlowView::CleanupProject { ids } => on_cleanup_project(ids, response),
                FlowView::CleanupAttempt { ids, script } => on_cleanup_attempt(
                    shell,
                    ids,
                    script,
                    response,
                    fresh,
                ),
                FlowView::GateCompleted { ids, operation, params, report } => on_gate_completed(
                    ids,
                    operation,
                    params,
                    report,
                    response,
                ),
                FlowView::GateProject { ids, operation, params, report, setup_completed } => {
                    on_gate_project(ids, operation, params, report, setup_completed, response)
                },
                FlowView::ContextAttempt { ids, purpose, report } => on_context_attempt(
                    ids,
                    purpose,
                    report,
                    response,
                ),
                FlowView::ContextProject { ids, purpose, report, worktree_path } => {
                    on_context_project(shell, ids, purpose, report, worktree_path, response, fresh)
                },
                FlowView::ExecutionMarked { ids, report, setup_script, worktree_path } => {
                    on_execution_marked(
                        shell,
                        ids,
                        report,
                        setup_script,
                        worktree_path,
                        response,
                        fresh,
                    )
                },
                FlowView::AgentAttempt { ids, report } => on_agent_attempt(
                    shell,
                    ids,
                    report,
                    response,
                    fresh,
                ),
                FlowView::DevServerWorktree { ids } => on_dev_server_worktree(ids, response),
                FlowView::DevDirectWorktree { ids, report } => on_dev_direct_worktree(
                    ids,
                    report,
                    response,
                ),
                FlowView::DevDirectProject { ids, report, worktree_path } => {
                    on_dev_direct_project(shell, ids, report, worktree_path, response, fresh)
                },
                FlowView::FollowupAttempt { ids, prompt } => on_followup_attempt(
                    ids,
                    prompt,
                    response,
                ),
                FlowView::FollowupMarked { ids, prompt } => on_followup_marked(
                    ids,
                    prompt,
                    response,
                ),
                FlowView::FollowupWorktree { ids, prompt } => on_followup_worktree(
                    ids,
                    prompt,
                    response,
                ),
                FlowView::DirectWorktree { ids, prompt, report } => on_direct_worktree(
                    ids,
                    prompt,
                    report,
                    response,
                ),
                FlowView::DirectProcesses { ids, prompt, report, worktree_path } => {
                    on_direct_processes(ids, prompt, report, worktree_path, response)
                },
                FlowView::DirectSession { ids, prompt, report, worktree_path, executor_type } => {
                    on_direct_session(
                        shell,
                        ids,
                        prompt,
                        report,
                        worktree_path,
                        executor_type,
                        response,
                        fresh,
                    )
                },
                FlowView::Launching { phase, job, after } => on_launching(
                    shell,
                    phase,
                    job,
                    after,
                    response,
                    fresh,
                ),
            }
        },
    }
}

} // verus!
