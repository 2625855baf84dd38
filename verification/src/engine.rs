//! The engine's steps: how a job proceeds from record to registry, and what
//! each call makes of the answer it waited for.
use crate::delegation::Ids;
use crate::executor::{ExecutionProcessType, ExecutorType};
use crate::model;
use crate::protocol::{After, Flow, Job, Phase, Request, Response, Step};
use crate::records::TaskAttemptError;
use crate::service::ProcessService;
use vstd::prelude::*;

verus! {

/// A call that waits for an answer.
pub(crate) fn wait(flow: Flow, request: Request) -> (step: Step)
    ensures
        step@ == model::wait(flow@, request@),
{
    Step::Await { flow, request }
}

/// A call that ends with an error.
pub(crate) fn fail(e: TaskAttemptError) -> (step: Step)
    ensures
        step@ == model::fail(e@),
{
    Step::Finished(Err(e))
}

/// A call that ends with an error of validation.
pub(crate) fn invalid(message: String) -> (step: Step)
    ensures
        step@ == model::invalid(message@),
{
    Step::Finished(Err(TaskAttemptError::ValidationError(message)))
}

/// The end of a call whose environment answered something that the
/// outstanding request does not ask for.
pub(crate) fn unexpected() -> (step: Step)
    ensures
        step@ == model::unexpected(),
{
    invalid("Response does not answer the request".to_owned())
}

/// A job with nothing to report and no fallback.
pub(crate) fn plain() -> (after: After)
    ensures
        after == model::plain(),
{
    After { report: None, fallback: None }
}

/// A new job for the call's attempt and task.
pub(crate) fn new_job(
    ids: Ids,
    process_id: u128,
    executor: ExecutorType,
    process_type: ExecutionProcessType,
    worktree_path: String,
) -> (job: Job)
    ensures
        job@ == model::new_job(ids, process_id, executor@, process_type, worktree_path@),
{
    Job {
        process_id,
        attempt_id: ids.attempt_id,
        task_id: ids.task_id,
        executor,
        process_type,
        worktree_path,
    }
}

impl Flow {
    /// Whether a step from this flow may create a record, and so may use the
    /// identifier that is drawn for it.
    pub fn creates_record(&self) -> (r: bool)
        ensures
            r == model::creates_record(self@),
    {
        match self {
            Flow::CleanupAttempt { .. } => true,
            Flow::ContextProject { .. } => true,
            Flow::ExecutionMarked { .. } => true,
            Flow::AgentAttempt { .. } => true,
            Flow::DevDirectProject { .. } => true,
            Flow::DirectSession { .. } => true,
            Flow::Launching { phase, .. } => match phase {
                Phase::Record => true,
                Phase::Prompt => true,
                Phase::Spawn => true,
                _ => false,
            },
            _ => false,
        }
    }
}

impl ProcessService {
    /// The first step of a job: its process record is to be written.
    pub(crate) fn begin_job(&self, job: Job, after: After) -> (step: Step)
        ensures
            step@ == model::begin_job(self.shell@, job@, after),
    {
        let record = self.create_execution_process_record(
            job.attempt_id,
            &job.executor,
            job.process_type,
            job.worktree_path.as_str(),
        );
        let request = Request::CreateExecutionProcess { process_id: job.process_id, record };
        Step::Await { flow: Flow::Launching { phase: Phase::Record, job, after }, request }
    }

    /// A job whose launch failed. The call ends with the launch error, unless
    /// the job has a fallback: then a new session of the same backend is
    /// started once, under the identifier `fresh`.
    pub(crate) fn launch_failed(
        &self,
        job: Job,
        after: After,
        message: String,
        fresh: u128,
    ) -> (step: Step)
        ensures
            step@ == model::launch_failed(self.shell@, job@, after, message@, fresh),
    {
        match after.fallback {
            Some(config) => {
                let next = Job {
                    process_id: fresh,
                    attempt_id: job.attempt_id,
                    task_id: job.task_id,
                    executor: ExecutorType::CodingAgent { config, follow_up: None },
                    process_type: ExecutionProcessType::CodingAgent,
                    worktree_path: job.worktree_path,
                };
                self.begin_job(next, After { report: after.report, fallback: None })
            },
            None => fail(TaskAttemptError::Launch(message)),
        }
    }

    /// A job that waits for `request` in `phase`.
    fn job_step(phase: Phase, job: Job, after: After, request: Request) -> (step: Step)
        ensures
            step@ == model::job_step(phase, job@, after, request@),
    {
        Step::Await { flow: Flow::Launching { phase, job, after }, request }
    }

    /// The step after the process record.
    fn after_record(job: Job, after: After, fresh: u128) -> (step: Step)
        ensures
            step@ == model::after_record(job@, after, fresh),
    {
        if job.process_type == ExecutionProcessType::CodingAgent {
            let prompt = match &job.executor {
                ExecutorType::CodingAgent { config: _, follow_up: Some(info) } => Some(
                    info.prompt.clone(),
                ),
                _ => None,
            };
            match prompt {
                Some(prompt) => {
                    let record = Self::create_executor_session_record(&job, prompt);
                    let request = Request::CreateExecutorSession { session_id: fresh, record };
                    Self::job_step(Phase::Session, job, after, request)
                },
                None => {
                    let request = Request::FindTask { task_id: job.task_id };
                    Self::job_step(Phase::Prompt, job, after, request)
                },
            }
        } else {
            let request = Self::execute_process(&job);
            Self::job_step(Phase::Spawn, job, after, request)
        }
    }

    /// What a job makes of a response.
    pub(crate) fn on_launching(
        &self,
        phase: Phase,
        job: Job,
        after: After,
        response: Response,
        fresh: u128,
    ) -> (step: Step)
        ensures
            step@ == model::on_launching(self.shell@, phase, job@, after, response@, fresh),
    {
        match phase {
            Phase::Record => match response {
                Response::Done => Self::after_record(job, after, fresh),
                _ => unexpected(),
            },
            Phase::Prompt => match response {
                Response::Task(Some(task)) => {
                    let prompt = Self::task_prompt(&task);
                    let record = Self::create_executor_session_record(&job, prompt);
                    let request = Request::CreateExecutorSession { session_id: fresh, record };
                    Self::job_step(Phase::Session, job, after, request)
                },
                Response::Task(None) => fail(TaskAttemptError::TaskNotFound),
                _ => unexpected(),
            },
            Phase::Session => match response {
                Response::Done => {
                    let request = Self::execute_process(&job);
                    Self::job_step(Phase::Spawn, job, after, request)
                },
                _ => unexpected(),
            },
            Phase::Spawn => match response {
                Response::Launched => {
                    let request = Self::register_for_monitoring(&job);
                    Self::job_step(Phase::Registry, job, after, request)
                },
                Response::LaunchFailed(message) => self.launch_failed(job, after, message, fresh),
                _ => unexpected(),
            },
            Phase::Registry => match response {
                Response::Done => Step::Finished(Ok(after.report)),
                _ => unexpected(),
            },
        }
    }
}

} // verus!
