//! What holds of every call: stated over the model that the engine is proved
//! equal to, and over runs of it against any environment.
use crate::delegation::{DelegationContextView, Ids, OperationParamsView};
use crate::executor::{ExecutionProcessType, ExecutorConfig, ExecutorTypeView};
use crate::model::{
    begin_job, delegated_record, dispatch, fallback_job, followup_after,
    followup_executor, is_latest_coding_agent, latest_coding_agent, needs_setup, new_job,
    on_direct_processes, on_direct_session, resume, stored_config,
};
use crate::protocol::{After, FlowView, JobView, Phase, RequestView, ResponseView, StepView};
use crate::records::{
    ExecutionProcessView, ExecutorSessionView, ProjectView, ShellCommandView, TaskAttemptErrorView,
    TaskAttemptView,
};
use crate::text::configured;
use vstd::prelude::*;

verus! {

/// The identifier that is drawn for a step is used only where the step may
/// create a record: elsewhere the step is the same for every identifier.
pub proof fn law_identifier_is_for_records(
    shell: ShellCommandView,
    flow: FlowView,
    response: ResponseView,
    a: u128,
    b: u128,
)
    requires
        !crate::model::creates_record(flow),
    ensures
        resume(shell, flow, response, a) == resume(shell, flow, response, b),
{
}

/// One exchange with the environment: its response, and the identifier that
/// the engine drew for the step.
pub struct Exchange {
    pub response: ResponseView,
    pub fresh: u128,
}

/// Where a call stands after a run of exchanges. A call that is over stays
/// over.
pub open spec fn advance(shell: ShellCommandView, step: StepView, run: Seq<Exchange>) -> StepView
    decreases run.len(),
{
    if run.len() == 0 {
        step
    } else {
        match advance(shell, step, run.drop_last()) {
            StepView::Await { flow, request } => resume(
                shell,
                flow,
                run.last().response,
                run.last().fresh,
            ),
            over => over,
        }
    }
}

/// Whether a request creates the record of a setup-script process.
pub open spec fn creates_setup_record(request: RequestView) -> bool {
    request matches RequestView::CreateExecutionProcess { process_id, record }
        && record.process_type == ExecutionProcessType::SetupScript
}

/// The flows of the operations that are started directly, and of jobs that
/// are no setup script.
pub open spec fn past_setup(flow: FlowView) -> bool {
    match flow {
        FlowView::AgentAttempt { .. } => true,
        FlowView::DevDirectWorktree { .. } => true,
        FlowView::DevDirectProject { .. } => true,
        FlowView::DirectWorktree { .. } => true,
        FlowView::DirectProcesses { .. } => true,
        FlowView::DirectSession { .. } => true,
        FlowView::Launching { phase, job, after } => job.process_type
            != ExecutionProcessType::SetupScript,
        _ => false,
    }
}

/// A step that neither creates a setup-script record nor leads to one.
pub open spec fn setup_free(step: StepView) -> bool {
    match step {
        StepView::Await { flow, request } => past_setup(flow) && !creates_setup_record(request),
        StepView::Finished(_) => true,
    }
}

/// The flow of the setup gate that waits for the project.
pub open spec fn gate_project(
    ids: Ids,
    operation: Seq<char>,
    params: Option<OperationParamsView>,
    report: Option<u128>,
    setup_completed: bool,
) -> FlowView {
    FlowView::GateProject { ids, operation, params, report, setup_completed }
}

/// A step of a call that is past setup is setup-free.
pub proof fn lemma_past_setup_is_kept(
    shell: ShellCommandView,
    flow: FlowView,
    response: ResponseView,
    fresh: u128,
)
    requires
        past_setup(flow),
    ensures
        setup_free(resume(shell, flow, response, fresh)),
{
}

/// A run that starts setup-free stays setup-free.
pub proof fn lemma_setup_free_run(shell: ShellCommandView, step: StepView, run: Seq<Exchange>)
    requires
        setup_free(step),
    ensures
        setup_free(advance(shell, step, run)),
    decreases run.len(),
{
    if run.len() > 0 {
        lemma_setup_free_run(shell, step, run.drop_last());
        match advance(shell, step, run.drop_last()) {
            StepView::Await { flow, request } => {
                lemma_past_setup_is_kept(shell, flow, run.last().response, run.last().fresh);
            },
            _ => {},
        }
    }
}

/// The operation that is started directly is started setup-free.
pub proof fn lemma_dispatch_is_setup_free(
    ids: Ids,
    operation: Seq<char>,
    params: Option<OperationParamsView>,
    report: Option<u128>,
)
    ensures
        setup_free(dispatch(ids, operation, params, report)),
{
}

/// Where the project has no configured setup script, absent or blank, the
/// setup gate starts the operation directly, and however the environment
/// answers from there on, no record of a setup-script process is created.
pub proof fn law_no_setup_script_dispatches_directly(
    shell: ShellCommandView,
    ids: Ids,
    operation: Seq<char>,
    params: Option<OperationParamsView>,
    report: Option<u128>,
    setup_completed: bool,
    project: ProjectView,
    fresh: u128,
    run: Seq<Exchange>,
)
    requires
        !configured(project.setup_script),
    ensures
        resume(
            shell,
            gate_project(ids, operation, params, report, setup_completed),
            ResponseView::Project(Some(project)),
            fresh,
        ) == dispatch(ids, operation, params, report),
        setup_free(advance(shell, dispatch(ids, operation, params, report), run)),
{
    lemma_dispatch_is_setup_free(ids, operation, params, report);
    lemma_setup_free_run(shell, dispatch(ids, operation, params, report), run);
}

/// Where the attempt's setup was completed, the setup gate starts the
/// operation directly, whatever scripts the project has, and however the
/// environment answers from there on, no record of a setup-script process is
/// created.
pub proof fn law_completed_setup_dispatches_directly(
    shell: ShellCommandView,
    ids: Ids,
    operation: Seq<char>,
    params: Option<OperationParamsView>,
    report: Option<u128>,
    project: ProjectView,
    fresh: u128,
    run: Seq<Exchange>,
)
    ensures
        resume(
            shell,
            gate_project(ids, operation, params, report, true),
            ResponseView::Project(Some(project)),
            fresh,
        ) == dispatch(ids, operation, params, report),
        setup_free(advance(shell, dispatch(ids, operation, params, report), run)),
{
    lemma_dispatch_is_setup_free(ids, operation, params, report);
    lemma_setup_free_run(shell, dispatch(ids, operation, params, report), run);
}

/// The three answers that lead a gated call to its delegated setup script:
/// the project of the setup check, then the attempt and the project of the
/// execution context.
pub open spec fn delegation_run(
    project: ProjectView,
    attempt: TaskAttemptView,
    reloaded: ProjectView,
    fresh: u128,
) -> Seq<Exchange> {
    seq![
        Exchange { response: ResponseView::Project(Some(project)), fresh },
        Exchange { response: ResponseView::TaskAttempt(Some(attempt)), fresh },
        Exchange { response: ResponseView::Project(Some(reloaded)), fresh },
    ]
}

/// Where setup is needed, the record of the setup script carries a
/// delegation context with the call's operation, its parameters, and
/// exactly its attempt, task and project.
pub proof fn law_delegated_setup_carries_the_call(
    shell: ShellCommandView,
    ids: Ids,
    operation: Seq<char>,
    params: Option<OperationParamsView>,
    report: Option<u128>,
    project: ProjectView,
    attempt: TaskAttemptView,
    reloaded: ProjectView,
    fresh: u128,
)
    requires
        needs_setup(project, false),
        configured(reloaded.setup_script),
    ensures
        advance(
            shell,
            StepView::Await {
                flow: gate_project(ids, operation, params, report, false),
                request: RequestView::FindProject { project_id: ids.project_id },
            },
            delegation_run(project, attempt, reloaded, fresh),
        ) matches StepView::Await { flow, request } && request
            == (RequestView::CreateExecutionProcess {
            process_id: fresh,
            record: delegated_record(
                shell,
                DelegationContextView { delegate_to: operation, ids, additional: params },
                attempt.worktree_path,
            ),
        }) && flow == (FlowView::Launching {
            phase: Phase::Record,
            job: new_job(
                ids,
                fresh,
                ExecutorTypeView::SetupScript(reloaded.setup_script->0),
                ExecutionProcessType::SetupScript,
                attempt.worktree_path,
            ),
            after: After { report, fallback: None },
        }),
{
    let run = delegation_run(project, attempt, reloaded, fresh);
    let start = StepView::Await {
        flow: gate_project(ids, operation, params, report, false),
        request: RequestView::FindProject { project_id: ids.project_id },
    };
    let r0 = run.drop_last().drop_last().drop_last();
    let r1 = run.drop_last().drop_last();
    let r2 = run.drop_last();
    assert(r0.len() == 0);
    assert(advance(shell, start, r0) == start);
    assert(r1.last() == run[0]);
    assert(r1.drop_last() == r0);
    let s1 = advance(shell, start, r1);
    assert(s1 == resume(
        shell,
        gate_project(ids, operation, params, report, false),
        run[0].response,
        fresh,
    ));
    assert(r2.last() == run[1]);
    assert(r2.drop_last() == r1);
    let s2 = advance(shell, start, r2);
    assert(run.last() == run[2]);
}

/// A follow-up that resumes a session and whose launch fails starts, under
/// the identifier drawn for that step, one job in its place: a coding agent
/// of the same backend without follow-up information, for the same attempt
/// and task in the same worktree. That job has no fallback: if its launch
/// fails too, the call ends with that failure.
pub proof fn law_failed_resumption_falls_back_once(
    shell: ShellCommandView,
    job: JobView,
    config: ExecutorConfig,
    report: Option<u128>,
    message: Seq<char>,
    fresh: u128,
    second_message: Seq<char>,
    second_fresh: u128,
)
    ensures
        resume(
            shell,
            FlowView::Launching {
                phase: Phase::Spawn,
                job,
                after: After { report, fallback: Some(config) },
            },
            ResponseView::LaunchFailed(message),
            fresh,
        ) == begin_job(
            shell,
            fallback_job(job, config, fresh),
            After { report, fallback: None },
        ),
        fallback_job(job, config, fresh).executor == (ExecutorTypeView::CodingAgent {
            config,
            follow_up: None,
        }),
        resume(
            shell,
            FlowView::Launching {
                phase: Phase::Spawn,
                job: fallback_job(job, config, fresh),
                after: After { report, fallback: None },
            },
            ResponseView::LaunchFailed(second_message),
            second_fresh,
        ) == StepView::Finished(Err(TaskAttemptErrorView::Launch(second_message))),
{
}

/// A follow-up's job has a fallback exactly when it resumes a session, and
/// the fallback is the backend of the job itself.
pub proof fn law_fallback_only_for_resumption(
    config: ExecutorConfig,
    session_id: Option<Seq<char>>,
    prompt: Seq<char>,
    report: Option<u128>,
)
    ensures
        followup_after(config, session_id, report).report == report,
        followup_after(config, session_id, report).fallback is Some <==> followup_executor(
            config,
            session_id,
            prompt,
        ) matches ExecutorTypeView::CodingAgent { follow_up: Some(_), .. },
        followup_after(config, session_id, report).fallback matches Some(c) ==> c == config,
        session_id is None ==> followup_after(config, session_id, report).fallback is None,
{
}

/// A job without a fallback ends the call with its launch failure: a
/// follow-up that resumes no session is never started a second time.
pub proof fn law_no_fallback_without_session(
    shell: ShellCommandView,
    job: JobView,
    report: Option<u128>,
    message: Seq<char>,
    fresh: u128,
)
    ensures
        resume(
            shell,
            FlowView::Launching {
                phase: Phase::Spawn,
                job,
                after: After { report, fallback: None },
            },
            ResponseView::LaunchFailed(message),
            fresh,
        ) == StepView::Finished(Err(TaskAttemptErrorView::Launch(message))),
{
}

/// A follow-up asks for the session of the latest coding-agent process of
/// the attempt, and of no older one, whatever other processes were created
/// after it.
pub proof fn law_followup_targets_latest_coding_agent(
    ids: Ids,
    prompt: Seq<char>,
    report: Option<u128>,
    worktree_path: Seq<char>,
    processes: Seq<ExecutionProcessView>,
    i: int,
)
    requires
        0 <= i < processes.len(),
        processes[i].process_type == ExecutionProcessType::CodingAgent,
        forall|j: int|
            i < j < processes.len() ==> (#[trigger] processes[j]).process_type
                != ExecutionProcessType::CodingAgent,
    ensures
        latest_coding_agent(processes) == Some(i),
        on_direct_processes(
            ids,
            prompt,
            report,
            worktree_path,
            ResponseView::ExecutionProcesses(processes),
        ) == (StepView::Await {
            flow: FlowView::DirectSession {
                ids,
                prompt,
                report,
                worktree_path,
                executor_type: processes[i].executor_type,
            },
            request: RequestView::FindExecutorSession { execution_process_id: processes[i].id },
        }),
{
    assert(is_latest_coding_agent(processes, i));
    let k = choose|k: int| is_latest_coding_agent(processes, k);
    crate::calls::lemma_latest_coding_agent_is_unique(processes, k, i);
}

/// A process is registered only once its launch has succeeded, and launched
/// only once its records are written.
pub proof fn law_record_then_launch_then_registry(
    shell: ShellCommandView,
    flow: FlowView,
    response: ResponseView,
    fresh: u128,
)
    ensures
        resume(shell, flow, response, fresh) matches StepView::Await {
            request: RequestView::Register { .. },
            ..
        } ==> flow matches FlowView::Launching { phase: Phase::Spawn, .. } && response
            == ResponseView::Launched,
        resume(shell, flow, response, fresh) matches StepView::Await {
            request: RequestView::Launch { .. },
            ..
        } ==> flow matches FlowView::Launching { phase, .. } && (phase == Phase::Record || phase
            == Phase::Session) && response == ResponseView::Done,
{
}

/// What a call that waits in this flow yields when it succeeds.
pub open spec fn report_of(flow: FlowView) -> Option<u128> {
    match flow {
        FlowView::CleanupProject { .. } => None,
        FlowView::CleanupAttempt { .. } => None,
        FlowView::GateCompleted { report, .. } => report,
        FlowView::GateProject { report, .. } => report,
        FlowView::ContextAttempt { report, .. } => report,
        FlowView::ContextProject { report, .. } => report,
        FlowView::ExecutionMarked { report, .. } => report,
        FlowView::AgentAttempt { report, .. } => report,
        FlowView::DevServerWorktree { .. } => None,
        FlowView::DevDirectWorktree { report, .. } => report,
        FlowView::DevDirectProject { report, .. } => report,
        FlowView::FollowupAttempt { ids, .. } => Some(ids.attempt_id),
        FlowView::FollowupMarked { ids, .. } => Some(ids.attempt_id),
        FlowView::FollowupWorktree { ids, .. } => Some(ids.attempt_id),
        FlowView::DirectWorktree { report, .. } => report,
        FlowView::DirectProcesses { report, .. } => report,
        FlowView::DirectSession { report, .. } => report,
        FlowView::Launching { after, .. } => after.report,
    }
}

/// A step that yields `report` if the call succeeds, now or later.
pub open spec fn yields(step: StepView, report: Option<u128>) -> bool {
    match step {
        StepView::Await { flow, request } => report_of(flow) == report,
        StepView::Finished(Ok(attempt)) => attempt == report,
        StepView::Finished(Err(_)) => true,
    }
}

/// No step changes what the call yields.
pub proof fn lemma_report_is_kept(
    shell: ShellCommandView,
    flow: FlowView,
    response: ResponseView,
    fresh: u128,
)
    ensures
        yields(resume(shell, flow, response, fresh), report_of(flow)),
{
}

/// No run changes what the call yields.
pub proof fn lemma_report_is_kept_by_runs(
    shell: ShellCommandView,
    step: StepView,
    report: Option<u128>,
    run: Seq<Exchange>,
)
    requires
        yields(step, report),
    ensures
        yields(advance(shell, step, run), report),
    decreases run.len(),
{
    if run.len() > 0 {
        lemma_report_is_kept_by_runs(shell, step, report, run.drop_last());
        match advance(shell, step, run.drop_last()) {
            StepView::Await { flow, request } => {
                lemma_report_is_kept(shell, flow, run.last().response, run.last().fresh);
            },
            _ => {},
        }
    }
}

/// A follow-up that succeeds yields the attempt it was started for,
/// whether it went through setup, resumed a session, started a new one or
/// fell back; and every other call that succeeds yields nothing.
pub proof fn law_followup_yields_its_attempt(
    shell: ShellCommandView,
    ids: Ids,
    prompt: Seq<char>,
    operation: Seq<char>,
    params: Option<OperationParamsView>,
    run: Seq<Exchange>,
)
    ensures
        yields(
            advance(shell, crate::model::start_followup_execution(ids, prompt), run),
            Some(ids.attempt_id),
        ),
        yields(
            advance(
                shell,
                crate::model::start_followup_execution_direct(ids, prompt, Some(ids.attempt_id)),
                run,
            ),
            Some(ids.attempt_id),
        ),
        yields(advance(shell, crate::model::start_execution(ids), run), None),
        yields(advance(shell, crate::model::start_coding_agent(ids, None), run), None),
        yields(advance(shell, crate::model::start_dev_server(ids), run), None),
        yields(advance(shell, crate::model::start_dev_server_direct(ids, None), run), None),
        yields(advance(shell, crate::model::run_cleanup_script_if_configured(ids), run), None),
        yields(
            advance(shell, crate::model::auto_setup_and_execute(ids, operation, params, None), run),
            None,
        ),
{
    lemma_report_is_kept_by_runs(
        shell,
        crate::model::start_followup_execution(ids, prompt),
        Some(ids.attempt_id),
        run,
    );
    lemma_report_is_kept_by_runs(
        shell,
        crate::model::start_followup_execution_direct(ids, prompt, Some(ids.attempt_id)),
        Some(ids.attempt_id),
        run,
    );
    lemma_report_is_kept_by_runs(shell, crate::model::start_execution(ids), None, run);
    lemma_report_is_kept_by_runs(shell, crate::model::start_coding_agent(ids, None), None, run);
    lemma_report_is_kept_by_runs(shell, crate::model::start_dev_server(ids), None, run);
    lemma_report_is_kept_by_runs(
        shell,
        crate::model::start_dev_server_direct(ids, None),
        None,
        run,
    );
    lemma_report_is_kept_by_runs(
        shell,
        crate::model::run_cleanup_script_if_configured(ids),
        None,
        run,
    );
    lemma_report_is_kept_by_runs(
        shell,
        crate::model::auto_setup_and_execute(ids, operation, params, None),
        None,
        run,
    );
}

/// A follow-up runs in the worktree that was provided for it: the path that
/// the worktree manager answered with is the working directory of the
/// follow-up's record and the place of its launch.
pub proof fn law_followup_runs_in_the_provided_worktree(
    shell: ShellCommandView,
    ids: Ids,
    prompt: Seq<char>,
    report: Option<u128>,
    worktree_path: Seq<char>,
    executor_type: Option<Seq<char>>,
    session: ExecutorSessionView,
    fresh: u128,
)
    requires
        stored_config(executor_type) is Some,
    ensures
        resume(
            shell,
            FlowView::DirectWorktree { ids, prompt, report },
            ResponseView::Worktree(worktree_path),
            fresh,
        ) == (StepView::Await {
            flow: FlowView::DirectProcesses { ids, prompt, report, worktree_path },
            request: RequestView::FindExecutionProcesses { attempt_id: ids.attempt_id },
        }),
        on_direct_session(
            shell,
            ids,
            prompt,
            report,
            worktree_path,
            executor_type,
            ResponseView::ExecutorSession(Some(session)),
            fresh,
        ) matches StepView::Await {
            flow: FlowView::Launching { job, .. },
            request: RequestView::CreateExecutionProcess { record, .. },
        } && job.worktree_path == worktree_path && record.working_directory == worktree_path
            && crate::model::launch_request(job) == (RequestView::Launch {
            invocation: crate::model::invocation(job.executor),
            task_id: ids.task_id,
            attempt_id: ids.attempt_id,
            process_id: fresh,
            worktree_path,
        }),
{
}

/// An upper bound on the exchanges that a call in this flow still makes.
pub open spec fn rank(flow: FlowView) -> nat {
    match flow {
        FlowView::Launching { phase, job, after } => {
            let steps: nat = match phase {
                Phase::Record => 5,
                Phase::Prompt => 4,
                Phase::Session => 3,
                Phase::Spawn => 2,
                Phase::Registry => 1,
            };
            if after.fallback is Some {
                steps + 5
            } else {
                steps
            }
        },
        FlowView::AgentAttempt { .. } => 11,
        FlowView::CleanupAttempt { .. } => 11,
        FlowView::DevDirectProject { .. } => 11,
        FlowView::DirectSession { .. } => 11,
        FlowView::CleanupProject { .. } => 12,
        FlowView::DevDirectWorktree { .. } => 12,
        FlowView::DirectProcesses { .. } => 12,
        FlowView::ExecutionMarked { .. } => 12,
        FlowView::ContextProject { .. } => 13,
        FlowView::DirectWorktree { .. } => 13,
        FlowView::ContextAttempt { .. } => 14,
        FlowView::GateProject { .. } => 15,
        FlowView::GateCompleted { .. } => 16,
        FlowView::DevServerWorktree { .. } => 17,
        FlowView::FollowupWorktree { .. } => 17,
        FlowView::FollowupMarked { .. } => 18,
        FlowView::FollowupAttempt { .. } => 19,
    }
}

/// The rank of a step: that of its flow, and zero once the call is over.
pub open spec fn step_rank(step: StepView) -> nat {
    match step {
        StepView::Await { flow, request } => rank(flow),
        StepView::Finished(_) => 0,
    }
}

/// Every exchange brings a call nearer to its end: nothing is ever asked
/// twice, but for the one fallback of a follow-up.
pub proof fn law_every_exchange_makes_progress(
    shell: ShellCommandView,
    flow: FlowView,
    response: ResponseView,
    fresh: u128,
)
    ensures
        step_rank(resume(shell, flow, response, fresh)) < rank(flow),
{
}

/// A run of exchanges lowers the rank of a call by its length at least.
pub proof fn lemma_runs_make_progress(shell: ShellCommandView, step: StepView, run: Seq<Exchange>)
    ensures
        advance(shell, step, run) is Finished || step_rank(advance(shell, step, run)) + run.len()
            <= step_rank(step),
    decreases run.len(),
{
    if run.len() > 0 {
        lemma_runs_make_progress(shell, step, run.drop_last());
        match advance(shell, step, run.drop_last()) {
            StepView::Await { flow, request } => {
                law_every_exchange_makes_progress(
                    shell,
                    flow,
                    run.last().response,
                    run.last().fresh,
                );
            },
            _ => {},
        }
    }
}

/// Every call is over after nineteen exchanges at most, whatever the
/// environment answers: the engine waits for answers to its requests, never
/// for a process to complete.
pub proof fn law_every_call_ends(
    shell: ShellCommandView,
    flow: FlowView,
    request: RequestView,
    run: Seq<Exchange>,
)
    requires
        run.len() >= 19,
    ensures
        advance(shell, StepView::Await { flow, request }, run) is Finished,
{
    lemma_runs_make_progress(shell, StepView::Await { flow, request }, run);
}

} // verus!
