use task_orchestrator::delegation::OperationParams;
use task_orchestrator::executor::{
    ExecutionProcessType, ExecutionType, ExecutorConfig, ExecutorType, FollowUpInfo,
};
use task_orchestrator::protocol::{Invocation, Request, Response, Step, WorktreeReason};
use task_orchestrator::records::{
    ExecutionProcess, ExecutorSession, Project, ShellCommand, Task, TaskAttempt, TaskAttemptError,
};
use task_orchestrator::service::ProcessService;

const ATTEMPT: u128 = 0x1111_1111_2222_4333_8444_5555_5555_5555;
const TASK: u128 = 0xaaaa_aaaa_bbbb_4ccc_8ddd_eeee_eeee_eeee;
const PROJECT: u128 = 0x0123_4567_89ab_4def_8123_4567_89ab_cdef;

/// An environment held in memory: the records, the registry, and which
/// launches fail.
struct World {
    project: Option<Project>,
    attempt: Option<TaskAttempt>,
    task: Option<Task>,
    setup_completed: bool,
    worktree: Result<String, TaskAttemptError>,
    processes: Vec<ExecutionProcess>,
    sessions: Vec<ExecutorSession>,
    registry: Vec<(u128, u128, ExecutionType)>,
    launches: Vec<Invocation>,
    worktree_requests: Vec<WorktreeReason>,
    marked_in_progress: usize,
    fail_followup_launch: bool,
    fail_fresh_launch: bool,
    fail_record_creation: bool,
}

fn new_world() -> World {
    World {
        project: Some(Project {
            id: PROJECT,
            setup_script: None,
            dev_script: None,
            cleanup_script: None,
        }),
        attempt: Some(TaskAttempt {
            id: ATTEMPT,
            worktree_path: "/tmp/worktree".to_string(),
            branch: "attempt-branch".to_string(),
            worktree_deleted: false,
            executor: Some("amp".to_string()),
        }),
        task: Some(Task {
            id: TASK,
            title: "Fix the bug".to_string(),
            description: Some("It crashes".to_string()),
        }),
        setup_completed: false,
        worktree: Ok("/tmp/worktree".to_string()),
        processes: Vec::new(),
        sessions: Vec::new(),
        registry: Vec::new(),
        launches: Vec::new(),
        worktree_requests: Vec::new(),
        marked_in_progress: 0,
        fail_followup_launch: false,
        fail_fresh_launch: false,
        fail_record_creation: false,
    }
}

fn agent_process(id: u128, executor_type: Option<&str>) -> ExecutionProcess {
    ExecutionProcess {
        id,
        task_attempt_id: ATTEMPT,
        process_type: ExecutionProcessType::CodingAgent,
        executor_type: executor_type.map(|s| s.to_string()),
        command: "executor".to_string(),
        args: None,
        working_directory: "/tmp/worktree".to_string(),
    }
}

fn other_process(id: u128, process_type: ExecutionProcessType) -> ExecutionProcess {
    ExecutionProcess {
        id,
        task_attempt_id: ATTEMPT,
        process_type,
        executor_type: None,
        command: "sh".to_string(),
        args: None,
        working_directory: "/tmp/worktree".to_string(),
    }
}

fn session_of(process_id: u128, session_id: Option<&str>) -> ExecutorSession {
    ExecutorSession {
        id: process_id + 1000,
        task_attempt_id: ATTEMPT,
        execution_process_id: process_id,
        session_id: session_id.map(|s| s.to_string()),
        prompt: Some("first prompt".to_string()),
    }
}

fn answer(world: &mut World, request: Request) -> Response {
    match request {
        Request::FindProject { project_id } => {
            assert_eq!(project_id, PROJECT);
            Response::Project(world.project.clone())
        }
        Request::FindTaskAttempt { attempt_id } => {
            assert_eq!(attempt_id, ATTEMPT);
            Response::TaskAttempt(world.attempt.clone())
        }
        Request::FindTask { task_id } => {
            assert_eq!(task_id, TASK);
            Response::Task(world.task.clone())
        }
        Request::IsSetupCompleted { attempt_id } => {
            assert_eq!(attempt_id, ATTEMPT);
            Response::SetupCompleted(world.setup_completed)
        }
        Request::MarkTaskInProgress { task_id, project_id } => {
            assert_eq!((task_id, project_id), (TASK, PROJECT));
            world.marked_in_progress += 1;
            Response::Done
        }
        Request::EnsureWorktree { attempt_id, project_id, reason } => {
            assert_eq!((attempt_id, project_id), (ATTEMPT, PROJECT));
            world.worktree_requests.push(reason);
            match world.worktree.clone() {
                Ok(path) => Response::Worktree(path),
                Err(e) => Response::Failed(e),
            }
        }
        Request::FindExecutionProcesses { attempt_id } => {
            assert_eq!(attempt_id, ATTEMPT);
            Response::ExecutionProcesses(world.processes.clone())
        }
        Request::FindExecutorSession { execution_process_id } => Response::ExecutorSession(
            world
                .sessions
                .iter()
                .find(|s| s.execution_process_id == execution_process_id)
                .cloned(),
        ),
        Request::CreateExecutionProcess { process_id, record } => {
            if world.fail_record_creation {
                return Response::Failed(TaskAttemptError::Storage("disk full".to_string()));
            }
            world.processes.push(ExecutionProcess {
                id: process_id,
                task_attempt_id: record.task_attempt_id,
                process_type: record.process_type,
                executor_type: record.executor_type,
                command: record.command,
                args: record.args,
                working_directory: record.working_directory,
            });
            Response::Done
        }
        Request::CreateExecutorSession { session_id, record } => {
            world.sessions.push(ExecutorSession {
                id: session_id,
                task_attempt_id: record.task_attempt_id,
                execution_process_id: record.execution_process_id,
                session_id: None,
                prompt: record.prompt,
            });
            Response::Done
        }
        Request::Launch { invocation, task_id, attempt_id, process_id, worktree_path } => {
            assert_eq!((task_id, attempt_id), (TASK, ATTEMPT));
            assert_eq!(worktree_path, "/tmp/worktree");
            assert!(world.processes.iter().any(|p| p.id == process_id));
            let is_followup = matches!(invocation, Invocation::AgentFollowUp { .. });
            world.launches.push(invocation);
            if (is_followup && world.fail_followup_launch)
                || (!is_followup && world.fail_fresh_launch)
            {
                Response::LaunchFailed("spawn failed".to_string())
            } else {
                Response::Launched
            }
        }
        Request::Register { process_id, attempt_id, execution_type } => {
            world.registry.push((process_id, attempt_id, execution_type));
            Response::Done
        }
    }
}

fn service() -> ProcessService {
    ProcessService::new(ShellCommand { program: "sh".to_string(), flag: "-c".to_string() })
}

fn drive(world: &mut World, first: Step) -> Result<Option<u128>, TaskAttemptError> {
    let engine = service();
    let mut step = first;
    for _ in 0..64 {
        match step {
            Step::Finished(outcome) => return outcome,
            Step::Await { flow, request } => {
                let response = answer(world, request);
                step = engine.resume(flow, response);
            }
        }
    }
    panic!("the call did not come to an end");
}

fn validation(message: &str) -> Result<Option<u128>, TaskAttemptError> {
    Err(TaskAttemptError::ValidationError(message.to_string()))
}

fn setup_records(world: &World) -> usize {
    world.processes.iter().filter(|p| p.process_type == ExecutionProcessType::SetupScript).count()
}

// ---------------------------------------------------------------- follow-up

#[test]
fn followup_without_any_process_fails() {
    let mut world = new_world();
    let outcome = drive(
        &mut world,
        ProcessService::start_followup_execution_direct(ATTEMPT, TASK, PROJECT, "go on"),
    );
    assert_eq!(outcome, validation("no previous coding agent execution found"));
    assert!(world.processes.is_empty());
    assert!(world.launches.is_empty());
    assert_eq!(world.worktree_requests, vec![WorktreeReason::Followup]);
}

#[test]
fn followup_with_only_script_processes_fails() {
    let mut world = new_world();
    world.processes.push(other_process(1, ExecutionProcessType::SetupScript));
    world.processes.push(other_process(2, ExecutionProcessType::DevServer));
    let outcome = drive(
        &mut world,
        ProcessService::start_followup_execution_direct(ATTEMPT, TASK, PROJECT, "go on"),
    );
    assert_eq!(outcome, validation("no previous coding agent execution found"));
}

#[test]
fn followup_without_session_id_starts_a_fresh_session() {
    let mut world = new_world();
    world.processes.push(agent_process(7, Some("gemini")));
    world.sessions.push(session_of(7, None));
    let outcome = drive(
        &mut world,
        ProcessService::start_followup_execution_direct(ATTEMPT, TASK, PROJECT, "go on"),
    );
    assert_eq!(outcome, Ok(Some(ATTEMPT)));
    assert_eq!(world.launches, vec![Invocation::Agent { config: ExecutorConfig::Gemini }]);
    assert_eq!(world.processes.len(), 2);
    assert_eq!(world.processes[1].command, "executor");
    assert_eq!(world.processes[1].executor_type, Some("gemini".to_string()));
    assert_eq!(world.processes[1].args, None);
    assert_eq!(world.registry.len(), 1);
    assert_eq!(world.registry[0].2, ExecutionType::CodingAgent);
    // The new session is prompted with the task, as any fresh start.
    assert_eq!(world.sessions[1].prompt, Some("Fix the bug\n\nIt crashes".to_string()));
}

#[test]
fn followup_without_session_id_does_not_fall_back() {
    let mut world = new_world();
    world.processes.push(agent_process(7, Some("gemini")));
    world.sessions.push(session_of(7, None));
    world.fail_fresh_launch = true;
    let outcome = drive(
        &mut world,
        ProcessService::start_followup_execution_direct(ATTEMPT, TASK, PROJECT, "go on"),
    );
    assert_eq!(outcome, Err(TaskAttemptError::Launch("spawn failed".to_string())));
    assert_eq!(world.launches.len(), 1);
    assert_eq!(world.processes.len(), 2);
    assert!(world.registry.is_empty());
}

#[test]
fn followup_with_empty_session_id_starts_a_fresh_session() {
    let mut world = new_world();
    world.processes.push(agent_process(7, Some("amp")));
    world.sessions.push(session_of(7, Some("")));
    let outcome = drive(
        &mut world,
        ProcessService::start_followup_execution_direct(ATTEMPT, TASK, PROJECT, "go on"),
    );
    assert_eq!(outcome, Ok(Some(ATTEMPT)));
    assert_eq!(world.launches, vec![Invocation::Agent { config: ExecutorConfig::Amp }]);
}

#[test]
fn followup_with_session_id_resumes_the_session() {
    let mut world = new_world();
    world.processes.push(agent_process(7, Some("amp")));
    world.sessions.push(session_of(7, Some("abc")));
    let outcome = drive(
        &mut world,
        ProcessService::start_followup_execution_direct(ATTEMPT, TASK, PROJECT, "go on"),
    );
    assert_eq!(outcome, Ok(Some(ATTEMPT)));
    assert_eq!(
        world.launches,
        vec![Invocation::AgentFollowUp {
            config: ExecutorConfig::Amp,
            session_id: "abc".to_string(),
            prompt: "go on".to_string(),
        }]
    );
    assert_eq!(world.processes.len(), 2);
    assert_eq!(world.processes[1].command, "followup_executor");
    assert_eq!(world.processes[1].process_type, ExecutionProcessType::CodingAgent);
    assert_eq!(world.processes[1].working_directory, "/tmp/worktree");
    // The session of a follow-up is prompted with the follow-up's prompt.
    assert_eq!(world.sessions[1].prompt, Some("go on".to_string()));
    assert_eq!(world.sessions[1].session_id, None);
    assert_eq!(world.sessions[1].execution_process_id, world.processes[1].id);
    assert_eq!(world.registry, vec![(world.processes[1].id, ATTEMPT, ExecutionType::CodingAgent)]);
}

#[test]
fn followup_falls_back_to_a_new_session_when_resuming_fails() {
    let mut world = new_world();
    world.processes.push(agent_process(7, Some("amp")));
    world.sessions.push(session_of(7, Some("abc")));
    world.fail_followup_launch = true;
    let outcome = drive(
        &mut world,
        ProcessService::start_followup_execution_direct(ATTEMPT, TASK, PROJECT, "go on"),
    );
    assert_eq!(outcome, Ok(Some(ATTEMPT)));
    assert_eq!(
        world.launches,
        vec![
            Invocation::AgentFollowUp {
                config: ExecutorConfig::Amp,
                session_id: "abc".to_string(),
                prompt: "go on".to_string(),
            },
            Invocation::Agent { config: ExecutorConfig::Amp },
        ]
    );
    // The record of the failed attempt stays, beside that of the fallback.
    let created: Vec<&ExecutionProcess> = world.processes.iter().skip(1).collect();
    assert_eq!(created.len(), 2);
    assert_eq!(created[0].command, "followup_executor");
    assert_eq!(created[1].command, "executor");
    assert_ne!(created[0].id, created[1].id);
    // Only the process that was launched is registered.
    assert_eq!(world.registry, vec![(created[1].id, ATTEMPT, ExecutionType::CodingAgent)]);
}

#[test]
fn followup_surfaces_the_fallback_error_when_it_fails_too() {
    let mut world = new_world();
    world.processes.push(agent_process(7, Some("amp")));
    world.sessions.push(session_of(7, Some("abc")));
    world.fail_followup_launch = true;
    world.fail_fresh_launch = true;
    let outcome = drive(
        &mut world,
        ProcessService::start_followup_execution_direct(ATTEMPT, TASK, PROJECT, "go on"),
    );
    assert_eq!(outcome, Err(TaskAttemptError::Launch("spawn failed".to_string())));
    assert_eq!(world.launches.len(), 2);
    assert!(world.registry.is_empty());
}

#[test]
fn followup_does_not_fall_back_when_the_record_cannot_be_written() {
    let mut world = new_world();
    world.processes.push(agent_process(7, Some("amp")));
    world.sessions.push(session_of(7, Some("abc")));
    world.fail_record_creation = true;
    let outcome = drive(
        &mut world,
        ProcessService::start_followup_execution_direct(ATTEMPT, TASK, PROJECT, "go on"),
    );
    assert_eq!(outcome, Err(TaskAttemptError::Storage("disk full".to_string())));
    assert!(world.launches.is_empty());
}

#[test]
fn followup_targets_the_latest_coding_agent() {
    let mut world = new_world();
    world.processes.push(other_process(1, ExecutionProcessType::SetupScript));
    world.processes.push(agent_process(2, Some("amp")));
    world.processes.push(agent_process(3, Some("gemini")));
    world.processes.push(other_process(4, ExecutionProcessType::CleanupScript));
    world.processes.push(other_process(5, ExecutionProcessType::DevServer));
    world.sessions.push(session_of(2, Some("old")));
    world.sessions.push(session_of(3, Some("new")));
    let outcome = drive(
        &mut world,
        ProcessService::start_followup_execution_direct(ATTEMPT, TASK, PROJECT, "go on"),
    );
    assert_eq!(outcome, Ok(Some(ATTEMPT)));
    assert_eq!(
        world.launches,
        vec![Invocation::AgentFollowUp {
            config: ExecutorConfig::Gemini,
            session_id: "new".to_string(),
            prompt: "go on".to_string(),
        }]
    );
}

#[test]
fn most_recent_coding_agent_is_the_last_one() {
    let list = vec![
        agent_process(1, Some("amp")),
        other_process(2, ExecutionProcessType::DevServer),
        agent_process(3, Some("amp")),
        other_process(4, ExecutionProcessType::CleanupScript),
    ];
    assert_eq!(ProcessService::most_recent_coding_agent(&list), Some(2));
    assert_eq!(ProcessService::most_recent_coding_agent(&list[..1].to_vec()), Some(0));
    assert_eq!(ProcessService::most_recent_coding_agent(&list[1..2].to_vec()), None);
    assert_eq!(ProcessService::most_recent_coding_agent(&Vec::new()), None);
}

#[test]
fn followup_without_session_record_fails() {
    let mut world = new_world();
    world.processes.push(agent_process(7, Some("amp")));
    let outcome = drive(
        &mut world,
        ProcessService::start_followup_execution_direct(ATTEMPT, TASK, PROJECT, "go on"),
    );
    assert_eq!(outcome, validation("no executor session found"));
}

#[test]
fn followup_with_unknown_backend_fails() {
    let mut world = new_world();
    world.processes.push(agent_process(7, Some("abacus")));
    world.sessions.push(session_of(7, Some("abc")));
    let outcome = drive(
        &mut world,
        ProcessService::start_followup_execution_direct(ATTEMPT, TASK, PROJECT, "go on"),
    );
    assert_eq!(outcome, validation("Invalid executor type for follow-up: abacus"));
    assert!(world.launches.is_empty());
}

#[test]
fn followup_with_missing_backend_fails() {
    let mut world = new_world();
    world.processes.push(agent_process(7, None));
    world.sessions.push(session_of(7, Some("abc")));
    let outcome = drive(
        &mut world,
        ProcessService::start_followup_execution_direct(ATTEMPT, TASK, PROJECT, "go on"),
    );
    assert_eq!(outcome, validation("Invalid executor type for follow-up: None"));
}

#[test]
fn followup_fails_when_the_worktree_cannot_be_provided() {
    let mut world = new_world();
    world.worktree = Err(TaskAttemptError::ValidationError("branch is gone".to_string()));
    let outcome = drive(
        &mut world,
        ProcessService::start_followup_execution_direct(ATTEMPT, TASK, PROJECT, "go on"),
    );
    assert_eq!(outcome, validation("branch is gone"));
}

#[test]
fn gated_followup_marks_the_task_and_yields_the_attempt() {
    let mut world = new_world();
    world.processes.push(agent_process(7, Some("amp")));
    world.sessions.push(session_of(7, Some("abc")));
    let outcome =
        drive(&mut world, ProcessService::start_followup_execution(ATTEMPT, TASK, PROJECT, "more"));
    assert_eq!(outcome, Ok(Some(ATTEMPT)));
    assert_eq!(world.marked_in_progress, 1);
    // Once before the setup check, once in the direct path.
    assert_eq!(world.worktree_requests, vec![WorktreeReason::Followup, WorktreeReason::Followup]);
    assert_eq!(
        world.launches,
        vec![Invocation::AgentFollowUp {
            config: ExecutorConfig::Amp,
            session_id: "abc".to_string(),
            prompt: "more".to_string(),
        }]
    );
}

#[test]
fn gated_followup_without_attempt_fails() {
    let mut world = new_world();
    world.attempt = None;
    let outcome =
        drive(&mut world, ProcessService::start_followup_execution(ATTEMPT, TASK, PROJECT, "more"));
    assert_eq!(outcome, Err(TaskAttemptError::TaskNotFound));
    assert_eq!(world.marked_in_progress, 0);
}

#[test]
fn gated_followup_runs_setup_first_and_still_yields_the_attempt() {
    let mut world = new_world();
    world.project.as_mut().unwrap().setup_script = Some("echo hi".to_string());
    world.processes.push(agent_process(7, Some("amp")));
    world.sessions.push(session_of(7, Some("abc")));
    let outcome =
        drive(&mut world, ProcessService::start_followup_execution(ATTEMPT, TASK, PROJECT, "more"));
    assert_eq!(outcome, Ok(Some(ATTEMPT)));
    assert_eq!(world.launches, vec![Invocation::SetupScript { script: "echo hi".to_string() }]);
    let record = world.processes.last().unwrap();
    assert_eq!(record.process_type, ExecutionProcessType::SetupScript);
    let args: Vec<String> = serde_json::from_str(record.args.as_ref().unwrap()).unwrap();
    assert_eq!(&args[..3], &["-c", "setup-script", "--delegation-context"]);
    let context: serde_json::Value = serde_json::from_str(&args[3]).unwrap();
    assert_eq!(context["delegate_to"], "followup");
    assert_eq!(context["operation_params"]["additional"]["prompt"], "more");
}

// --------------------------------------------------------------- setup gate

#[test]
fn gate_dispatches_directly_without_setup_script() {
    for script in [None, Some(""), Some("   \n\t")] {
        let mut world = new_world();
        world.project.as_mut().unwrap().setup_script = script.map(|s| s.to_string());
        let outcome = drive(
            &mut world,
            ProcessService::auto_setup_and_execute(ATTEMPT, TASK, PROJECT, "coding_agent", None),
        );
        assert_eq!(outcome, Ok(None));
        assert_eq!(setup_records(&world), 0);
        assert_eq!(world.launches, vec![Invocation::Agent { config: ExecutorConfig::Amp }]);
    }
}

#[test]
fn gate_dispatches_directly_when_setup_is_completed() {
    let mut world = new_world();
    world.project.as_mut().unwrap().setup_script = Some("echo hi".to_string());
    world.project.as_mut().unwrap().dev_script = Some("npm run dev".to_string());
    world.setup_completed = true;
    let outcome = drive(
        &mut world,
        ProcessService::auto_setup_and_execute(ATTEMPT, TASK, PROJECT, "dev_server", None),
    );
    assert_eq!(outcome, Ok(None));
    assert_eq!(setup_records(&world), 0);
    assert_eq!(world.launches, vec![Invocation::DevServer { script: "npm run dev".to_string() }]);
    assert_eq!(world.registry[0].2, ExecutionType::DevServer);
}

#[test]
fn gate_delegates_to_setup_when_needed() {
    let mut world = new_world();
    world.project.as_mut().unwrap().setup_script = Some("echo hi".to_string());
    let outcome = drive(
        &mut world,
        ProcessService::auto_setup_and_execute(ATTEMPT, TASK, PROJECT, "dev_server", None),
    );
    assert_eq!(outcome, Ok(None));
    assert_eq!(world.launches, vec![Invocation::SetupScript { script: "echo hi".to_string() }]);
    assert_eq!(world.processes.len(), 1);
    let record = &world.processes[0];
    assert_eq!(record.process_type, ExecutionProcessType::SetupScript);
    assert_eq!(record.executor_type, Some("setup-script".to_string()));
    assert_eq!(record.command, "sh");
    assert_eq!(record.task_attempt_id, ATTEMPT);
    assert_eq!(record.working_directory, "/tmp/worktree");
    assert_eq!(
        record.args,
        Some(
            "[\"-c\",\"setup-script\",\"--delegation-context\",\"{\\\"delegate_to\\\":\\\"dev_server\\\",\\\"operation_params\\\":{\\\"additional\\\":null,\\\"attempt_id\\\":\\\"11111111-2222-4333-8444-555555555555\\\",\\\"project_id\\\":\\\"01234567-89ab-4def-8123-456789abcdef\\\",\\\"task_id\\\":\\\"aaaaaaaa-bbbb-4ccc-8ddd-eeeeeeeeeeee\\\"}}\"]"
                .to_string()
        )
    );
    assert_eq!(world.registry, vec![(record.id, ATTEMPT, ExecutionType::SetupScript)]);
    // No session belongs to a setup script, and the dev server is not started.
    assert!(world.sessions.is_empty());
}

#[test]
fn delegation_context_matches_the_call() {
    let mut world = new_world();
    world.project.as_mut().unwrap().setup_script = Some("make deps".to_string());
    let params = OperationParams::for_prompt("say \"hi\"\n");
    let outcome = drive(
        &mut world,
        ProcessService::auto_setup_and_execute(ATTEMPT, TASK, PROJECT, "followup", Some(params)),
    );
    assert_eq!(outcome, Ok(None));
    let args: Vec<String> =
        serde_json::from_str(world.processes[0].args.as_ref().unwrap()).unwrap();
    assert_eq!(args.len(), 4);
    let context: serde_json::Value = serde_json::from_str(&args[3]).unwrap();
    let expected_ids = [
        ("attempt_id", uuid::Uuid::from_u128(ATTEMPT)),
        ("task_id", uuid::Uuid::from_u128(TASK)),
        ("project_id", uuid::Uuid::from_u128(PROJECT)),
    ];
    for (key, id) in expected_ids {
        let text = context["operation_params"][key].as_str().unwrap();
        assert_eq!(uuid::Uuid::parse_str(text).unwrap(), id);
    }
    assert_eq!(context["delegate_to"], "followup");
    assert_eq!(context["operation_params"]["additional"]["prompt"], "say \"hi\"\n");
}

#[test]
fn gate_rejects_an_unknown_operation() {
    let mut world = new_world();
    let outcome = drive(
        &mut world,
        ProcessService::auto_setup_and_execute(ATTEMPT, TASK, PROJECT, "deploy", None),
    );
    assert_eq!(outcome, validation("Unknown operation: deploy"));
    assert!(world.processes.is_empty());
}

#[test]
fn gate_without_project_fails() {
    let mut world = new_world();
    world.project = None;
    let outcome = drive(
        &mut world,
        ProcessService::auto_setup_and_execute(ATTEMPT, TASK, PROJECT, "dev_server", None),
    );
    assert_eq!(outcome, Err(TaskAttemptError::ProjectNotFound));
}

#[test]
fn gate_followup_without_prompt_uses_the_empty_prompt() {
    let mut world = new_world();
    world.processes.push(agent_process(7, Some("amp")));
    world.sessions.push(session_of(7, Some("abc")));
    let outcome = drive(
        &mut world,
        ProcessService::auto_setup_and_execute(ATTEMPT, TASK, PROJECT, "followup", None),
    );
    assert_eq!(outcome, Ok(None));
    assert_eq!(
        world.launches,
        vec![Invocation::AgentFollowUp {
            config: ExecutorConfig::Amp,
            session_id: "abc".to_string(),
            prompt: String::new(),
        }]
    );
}

// --------------------------------------------------------------- dev server

#[test]
fn dev_server_without_dev_script_fails_in_the_direct_path() {
    let mut world = new_world();
    world.project.as_mut().unwrap().setup_script = Some("echo hi".to_string());
    world.setup_completed = true;
    let outcome = drive(&mut world, ProcessService::start_dev_server(ATTEMPT, TASK, PROJECT));
    assert_eq!(outcome, validation("no dev script configured"));
    assert!(world.processes.is_empty());
    assert_eq!(world.worktree_requests, vec![WorktreeReason::DevServer, WorktreeReason::DevServer]);
}

#[test]
fn dev_server_with_blank_dev_script_fails_in_the_direct_path() {
    let mut world = new_world();
    world.project.as_mut().unwrap().setup_script = Some("echo hi".to_string());
    for script in ["", " \t\n"] {
        world.project.as_mut().unwrap().dev_script = Some(script.to_string());
        world.setup_completed = true;
        let outcome = drive(&mut world, ProcessService::start_dev_server(ATTEMPT, TASK, PROJECT));
        assert_eq!(outcome, validation("no dev script configured"));
        assert!(world.processes.is_empty());
        assert!(world.launches.is_empty());
        assert!(world.registry.is_empty());
    }
}

#[test]
fn dev_server_is_not_checked_while_setup_is_pending() {
    let mut world = new_world();
    world.project.as_mut().unwrap().setup_script = Some("echo hi".to_string());
    let outcome = drive(&mut world, ProcessService::start_dev_server(ATTEMPT, TASK, PROJECT));
    assert_eq!(outcome, Ok(None));
    assert_eq!(setup_records(&world), 1);
    assert_eq!(world.launches, vec![Invocation::SetupScript { script: "echo hi".to_string() }]);
}

#[test]
fn dev_server_direct_starts_the_dev_script() {
    let mut world = new_world();
    world.project.as_mut().unwrap().dev_script = Some("npm run dev".to_string());
    let outcome =
        drive(&mut world, ProcessService::start_dev_server_direct(ATTEMPT, TASK, PROJECT));
    assert_eq!(outcome, Ok(None));
    assert_eq!(world.processes[0].args, Some("[\"-c\",\"dev_server\"]".to_string()));
    assert_eq!(world.processes[0].executor_type, None);
    assert_eq!(world.processes[0].process_type, ExecutionProcessType::DevServer);
}

#[test]
fn dev_server_direct_without_project_fails() {
    let mut world = new_world();
    world.project = None;
    let outcome =
        drive(&mut world, ProcessService::start_dev_server_direct(ATTEMPT, TASK, PROJECT));
    assert_eq!(outcome, Err(TaskAttemptError::ProjectNotFound));
    assert!(world.processes.is_empty());
    assert!(world.launches.is_empty());
}

// ---------------------------------------------------------------- execution

#[test]
fn execution_starts_the_setup_script_without_delegation() {
    let mut world = new_world();
    world.project.as_mut().unwrap().setup_script = Some("echo hi".to_string());
    let outcome = drive(&mut world, ProcessService::start_execution(ATTEMPT, TASK, PROJECT));
    assert_eq!(outcome, Ok(None));
    assert_eq!(world.marked_in_progress, 1);
    assert_eq!(world.processes[0].args, Some("[\"-c\",\"setup-script\"]".to_string()));
    assert_eq!(world.processes[0].process_type, ExecutionProcessType::SetupScript);
    assert_eq!(world.launches, vec![Invocation::SetupScript { script: "echo hi".to_string() }]);
    assert!(world.sessions.is_empty());
}

#[test]
fn execution_starts_the_coding_agent_without_setup_script() {
    let mut world = new_world();
    let outcome = drive(&mut world, ProcessService::start_execution(ATTEMPT, TASK, PROJECT));
    assert_eq!(outcome, Ok(None));
    assert_eq!(world.marked_in_progress, 1);
    assert_eq!(world.launches, vec![Invocation::Agent { config: ExecutorConfig::Amp }]);
    assert_eq!(world.sessions.len(), 1);
    assert_eq!(world.sessions[0].prompt, Some("Fix the bug\n\nIt crashes".to_string()));
}

#[test]
fn execution_without_attempt_or_project_fails() {
    let mut world = new_world();
    world.attempt = None;
    let outcome = drive(&mut world, ProcessService::start_execution(ATTEMPT, TASK, PROJECT));
    assert_eq!(outcome, Err(TaskAttemptError::TaskNotFound));
    let mut world = new_world();
    world.project = None;
    let outcome = drive(&mut world, ProcessService::start_execution(ATTEMPT, TASK, PROJECT));
    assert_eq!(outcome, Err(TaskAttemptError::ProjectNotFound));
    assert_eq!(world.marked_in_progress, 0);
}

#[test]
fn coding_agent_defaults_to_echo_for_an_unknown_executor() {
    for name in [None, Some("abacus")] {
        let mut world = new_world();
        world.attempt.as_mut().unwrap().executor = name.map(|s| s.to_string());
        let outcome = drive(&mut world, ProcessService::start_coding_agent(ATTEMPT, TASK, PROJECT));
        assert_eq!(outcome, Ok(None));
        assert_eq!(world.launches, vec![Invocation::Agent { config: ExecutorConfig::Echo }]);
        assert_eq!(world.processes[0].executor_type, Some("echo".to_string()));
    }
}

#[test]
fn coding_agent_without_task_leaves_the_process_record() {
    let mut world = new_world();
    world.task = None;
    let outcome = drive(&mut world, ProcessService::start_coding_agent(ATTEMPT, TASK, PROJECT));
    assert_eq!(outcome, Err(TaskAttemptError::TaskNotFound));
    assert_eq!(world.processes.len(), 1);
    assert!(world.sessions.is_empty());
    assert!(world.launches.is_empty());
}

#[test]
fn failed_launch_leaves_the_records_and_registers_nothing() {
    let mut world = new_world();
    world.fail_fresh_launch = true;
    let outcome = drive(&mut world, ProcessService::start_coding_agent(ATTEMPT, TASK, PROJECT));
    assert_eq!(outcome, Err(TaskAttemptError::Launch("spawn failed".to_string())));
    assert_eq!(world.processes.len(), 1);
    assert_eq!(world.sessions.len(), 1);
    assert!(world.registry.is_empty());
}

#[test]
fn task_without_description_prompts_with_the_title() {
    let mut world = new_world();
    world.task.as_mut().unwrap().description = None;
    let outcome = drive(&mut world, ProcessService::start_coding_agent(ATTEMPT, TASK, PROJECT));
    assert_eq!(outcome, Ok(None));
    assert_eq!(world.sessions[0].prompt, Some("Fix the bug\n\n".to_string()));
}

// ------------------------------------------------------------------ cleanup

#[test]
fn cleanup_runs_the_configured_script() {
    let mut world = new_world();
    world.project.as_mut().unwrap().cleanup_script = Some("rm -rf tmp".to_string());
    let outcome =
        drive(&mut world, ProcessService::run_cleanup_script_if_configured(ATTEMPT, TASK, PROJECT));
    assert_eq!(outcome, Ok(None));
    assert_eq!(world.launches, vec![Invocation::CleanupScript { script: "rm -rf tmp".to_string() }]);
    assert_eq!(world.processes[0].args, Some("[\"-c\",\"cleanup-script\"]".to_string()));
    assert_eq!(world.processes[0].executor_type, Some("cleanup-script".to_string()));
    assert_eq!(world.registry[0].2, ExecutionType::CleanupScript);
}

#[test]
fn cleanup_without_script_does_nothing() {
    for script in [None, Some("  ")] {
        let mut world = new_world();
        world.project.as_mut().unwrap().cleanup_script = script.map(|s| s.to_string());
        world.attempt = None;
        let outcome = drive(
            &mut world,
            ProcessService::run_cleanup_script_if_configured(ATTEMPT, TASK, PROJECT),
        );
        assert_eq!(outcome, Ok(None));
        assert!(world.processes.is_empty());
        assert!(world.launches.is_empty());
    }
}

#[test]
fn cleanup_without_attempt_or_project_fails() {
    let mut world = new_world();
    world.project.as_mut().unwrap().cleanup_script = Some("rm -rf tmp".to_string());
    world.attempt = None;
    let outcome =
        drive(&mut world, ProcessService::run_cleanup_script_if_configured(ATTEMPT, TASK, PROJECT));
    assert_eq!(outcome, Err(TaskAttemptError::TaskNotFound));
    assert!(world.processes.is_empty());
    assert!(world.launches.is_empty());
    let mut world = new_world();
    world.project = None;
    let outcome =
        drive(&mut world, ProcessService::run_cleanup_script_if_configured(ATTEMPT, TASK, PROJECT));
    assert_eq!(outcome, Err(TaskAttemptError::ProjectNotFound));
}

// ------------------------------------------------------------ one process

#[test]
fn process_execution_draws_a_random_identifier() {
    let engine = service();
    let mut seen = Vec::new();
    for _ in 0..2 {
        let step = engine.start_process_execution(
            ATTEMPT,
            TASK,
            ExecutorType::DevServer("npm run dev".to_string()),
            ExecutionProcessType::DevServer,
            "/tmp/worktree",
        );
        match step {
            Step::Await { request: Request::CreateExecutionProcess { process_id, .. }, .. } => {
                assert_eq!(uuid::Uuid::from_u128(process_id).get_version_num(), 4);
                seen.push(process_id);
            }
            other => panic!("unexpected step {:?}", other),
        }
    }
    assert_ne!(seen[0], seen[1]);
}

#[test]
fn process_execution_follows_record_launch_registry() {
    let engine = service();
    let executor = ExecutorType::CodingAgent {
        config: ExecutorConfig::Gemini,
        follow_up: Some(FollowUpInfo { session_id: "s1".to_string(), prompt: "p".to_string() }),
    };
    let step = engine.start_process_execution_as(
        42,
        ATTEMPT,
        TASK,
        executor,
        ExecutionProcessType::CodingAgent,
        "/tmp/worktree",
    );
    let mut kinds = Vec::new();
    let mut step = step;
    let mut fresh = 100;
    let outcome = loop {
        match step {
            Step::Finished(outcome) => break outcome,
            Step::Await { flow, request } => {
                kinds.push(match &request {
                    Request::CreateExecutionProcess { process_id, .. } => {
                        assert_eq!(*process_id, 42);
                        "record"
                    }
                    Request::CreateExecutorSession { session_id, record } => {
                        assert_eq!(*session_id, 101);
                        assert_eq!(record.execution_process_id, 42);
                        "session"
                    }
                    Request::Launch { process_id, .. } => {
                        assert_eq!(*process_id, 42);
                        "launch"
                    }
                    Request::Register { process_id, .. } => {
                        assert_eq!(*process_id, 42);
                        "registry"
                    }
                    _ => "other",
                });
                let response = match request {
                    Request::Launch { .. } => Response::Launched,
                    _ => Response::Done,
                };
                fresh += 1;
                step = engine.resume_as(flow, response, fresh);
            }
        }
    };
    assert_eq!(outcome, Ok(None));
    assert_eq!(kinds, vec!["record", "session", "launch", "registry"]);
}

#[test]
fn response_that_does_not_answer_the_request_ends_the_call() {
    let engine = service();
    let step = ProcessService::start_coding_agent(ATTEMPT, TASK, PROJECT);
    match step {
        Step::Await { flow, .. } => {
            let next = engine.resume(flow, Response::Launched);
            assert_eq!(
                next,
                Step::Finished(Err(TaskAttemptError::ValidationError(
                    "Response does not answer the request".to_string()
                )))
            );
        }
        other => panic!("unexpected step {:?}", other),
    }
}

#[test]
fn followup_without_session_record_does_not_use_an_older_session() {
    let mut world = new_world();
    world.processes.push(agent_process(2, Some("amp")));
    world.processes.push(agent_process(3, Some("amp")));
    world.sessions.push(session_of(2, Some("old")));
    let outcome = drive(
        &mut world,
        ProcessService::start_followup_execution_direct(ATTEMPT, TASK, PROJECT, "go on"),
    );
    assert_eq!(outcome, validation("no executor session found"));
    assert_eq!(world.processes.len(), 2);
    assert!(world.launches.is_empty());
    assert!(world.registry.is_empty());
}

#[test]
fn delegation_context_carries_the_whole_parameter_value() {
    let values = [
        ("null", None),
        ("{\"prompt\":\"go\",\"retries\":3}", Some("go")),
        ("[1,2]", None),
        ("{\"prompt\":7}", None),
    ];
    for (json, prompt) in values {
        let mut world = new_world();
        world.project.as_mut().unwrap().setup_script = Some("make deps".to_string());
        let params =
            OperationParams { prompt: prompt.map(|p| p.to_string()), json: json.to_string() };
        let outcome = drive(
            &mut world,
            ProcessService::auto_setup_and_execute(ATTEMPT, TASK, PROJECT, "followup", Some(params)),
        );
        assert_eq!(outcome, Ok(None));
        let args: Vec<String> =
            serde_json::from_str(world.processes[0].args.as_ref().unwrap()).unwrap();
        let context: serde_json::Value = serde_json::from_str(&args[3]).unwrap();
        let expected: serde_json::Value = serde_json::from_str(json).unwrap();
        assert_eq!(context["operation_params"]["additional"], expected);
    }
}

#[test]
fn direct_followup_reads_only_the_prompt_of_its_parameters() {
    let mut world = new_world();
    world.processes.push(agent_process(7, Some("amp")));
    world.sessions.push(session_of(7, Some("abc")));
    let params = OperationParams {
        prompt: Some("go".to_string()),
        json: "{\"prompt\":\"go\",\"retries\":3}".to_string(),
    };
    let outcome = drive(
        &mut world,
        ProcessService::auto_setup_and_execute(ATTEMPT, TASK, PROJECT, "followup", Some(params)),
    );
    assert_eq!(outcome, Ok(None));
    assert_eq!(
        world.launches,
        vec![Invocation::AgentFollowUp {
            config: ExecutorConfig::Amp,
            session_id: "abc".to_string(),
            prompt: "go".to_string(),
        }]
    );
}

#[test]
fn delegation_fails_when_the_setup_script_is_gone_on_reload() {
    for reloaded in [None, Some("  ")] {
        let engine = service();
        let mut world = new_world();
        world.project.as_mut().unwrap().setup_script = Some("echo hi".to_string());
        let mut step =
            ProcessService::auto_setup_and_execute(ATTEMPT, TASK, PROJECT, "dev_server", None);
        let mut project_reads = 0;
        let outcome = loop {
            match step {
                Step::Finished(outcome) => break outcome,
                Step::Await { flow, request } => {
                    if let Request::FindProject { .. } = &request {
                        project_reads += 1;
                        if project_reads == 2 {
                            world.project.as_mut().unwrap().setup_script =
                                reloaded.map(|s| s.to_string());
                        }
                    }
                    let response = answer(&mut world, request);
                    step = engine.resume(flow, response);
                }
            }
        };
        assert_eq!(outcome, validation("no setup script configured"));
        assert_eq!(project_reads, 2);
        assert!(world.processes.is_empty());
        assert!(world.launches.is_empty());
    }
}
