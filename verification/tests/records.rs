use task_orchestrator::delegation::{
    frame_context, frame_prompt, write_params, DelegationContext, Ids, OperationParams,
};
use task_orchestrator::executor::{
    ExecutionProcessType, ExecutionType, ExecutorConfig, ExecutorType, FollowUpInfo,
};
use task_orchestrator::protocol::{Invocation, Job, Request};
use task_orchestrator::records::{CreateExecutionProcess, CreateExecutorSession, ShellCommand, Task};
use task_orchestrator::service::ProcessService;
use task_orchestrator::text::{is_blank, same_text};

fn windows() -> ProcessService {
    ProcessService::new(ShellCommand { program: "cmd".to_string(), flag: "/C".to_string() })
}

fn job_of(executor: ExecutorType, process_type: ExecutionProcessType) -> Job {
    Job {
        process_id: 9,
        attempt_id: 1,
        task_id: 2,
        executor,
        process_type,
        worktree_path: "C:\\work".to_string(),
    }
}

#[test]
fn script_records_store_the_shell_and_a_tag() {
    let engine = windows();
    let record = engine.create_execution_process_record(
        1,
        &ExecutorType::SetupScript("echo hi".to_string()),
        ExecutionProcessType::SetupScript,
        "C:\\work",
    );
    assert_eq!(
        record,
        CreateExecutionProcess {
            task_attempt_id: 1,
            process_type: ExecutionProcessType::SetupScript,
            executor_type: Some("setup-script".to_string()),
            command: "cmd".to_string(),
            args: Some("[\"/C\",\"setup-script\"]".to_string()),
            working_directory: "C:\\work".to_string(),
        }
    );
    let record = engine.create_execution_process_record(
        1,
        &ExecutorType::CleanupScript("del tmp".to_string()),
        ExecutionProcessType::CleanupScript,
        "C:\\work",
    );
    assert_eq!(record.executor_type, Some("cleanup-script".to_string()));
    assert_eq!(record.args, Some("[\"/C\",\"cleanup-script\"]".to_string()));
    let record = engine.create_execution_process_record(
        1,
        &ExecutorType::DevServer("npm start".to_string()),
        ExecutionProcessType::DevServer,
        "C:\\work",
    );
    assert_eq!(record.executor_type, None);
    assert_eq!(record.command, "cmd");
    assert_eq!(record.args, Some("[\"/C\",\"dev_server\"]".to_string()));
}

#[test]
fn agent_records_store_the_backend_and_no_arguments() {
    let engine = windows();
    let fresh = engine.create_execution_process_record(
        1,
        &ExecutorType::CodingAgent { config: ExecutorConfig::Gemini, follow_up: None },
        ExecutionProcessType::CodingAgent,
        "C:\\work",
    );
    assert_eq!(
        fresh,
        CreateExecutionProcess {
            task_attempt_id: 1,
            process_type: ExecutionProcessType::CodingAgent,
            executor_type: Some("gemini".to_string()),
            command: "executor".to_string(),
            args: None,
            working_directory: "C:\\work".to_string(),
        }
    );
    let resumed = engine.create_execution_process_record(
        1,
        &ExecutorType::CodingAgent {
            config: ExecutorConfig::Amp,
            follow_up: Some(FollowUpInfo { session_id: "s".to_string(), prompt: "p".to_string() }),
        },
        ExecutionProcessType::CodingAgent,
        "C:\\work",
    );
    assert_eq!(resumed.command, "followup_executor");
    assert_eq!(resumed.executor_type, Some("amp".to_string()));
    assert_eq!(resumed.args, None);
}

#[test]
fn shell_flag_is_escaped_in_the_stored_arguments() {
    let engine =
        ProcessService::new(ShellCommand { program: "sh".to_string(), flag: "-\"c\\".to_string() });
    let record = engine.create_execution_process_record(
        1,
        &ExecutorType::SetupScript("x".to_string()),
        ExecutionProcessType::SetupScript,
        "/w",
    );
    assert_eq!(record.args, Some("[\"-\\\"c\\\\\",\"setup-script\"]".to_string()));
}

#[test]
fn delegation_context_is_written_as_json() {
    let context = DelegationContext {
        delegate_to: "dev_server".to_string(),
        ids: Ids { attempt_id: 1, task_id: 2, project_id: 0xffff_ffff_ffff_ffff_ffff_ffff_ffff_ffff },
        additional: None,
    };
    assert_eq!(
        context.to_json(),
        "{\"delegate_to\":\"dev_server\",\"operation_params\":{\"additional\":null,\
         \"attempt_id\":\"00000000-0000-0000-0000-000000000001\",\
         \"project_id\":\"ffffffff-ffff-ffff-ffff-ffffffffffff\",\
         \"task_id\":\"00000000-0000-0000-0000-000000000002\"}}"
    );
}

#[test]
fn delegation_context_escapes_its_strings() {
    let context = DelegationContext {
        delegate_to: "a\"b".to_string(),
        ids: Ids { attempt_id: 0, task_id: 0, project_id: 0 },
        additional: Some(OperationParams::for_prompt("line\nbreak \\ tab\t")),
    };
    let value: serde_json::Value = serde_json::from_str(&context.to_json()).unwrap();
    assert_eq!(value["delegate_to"], "a\"b");
    assert_eq!(value["operation_params"]["additional"]["prompt"], "line\nbreak \\ tab\t");
    assert!(context.to_json().starts_with("{\"delegate_to\":\"a\\\"b\","));
}

#[test]
fn operation_params_are_written_as_json() {
    assert_eq!(write_params(&None), "null");
    let value = OperationParams { prompt: None, json: "{\"retries\":3}".to_string() };
    assert_eq!(write_params(&Some(value)), "{\"retries\":3}");
    let null = OperationParams { prompt: None, json: "null".to_string() };
    assert_eq!(write_params(&Some(null)), "null");
    assert_eq!(
        write_params(&Some(OperationParams::for_prompt("go"))),
        "{\"prompt\":\"go\"}"
    );
}

#[test]
fn delegated_record_carries_the_context_as_fourth_argument() {
    let engine = windows();
    let context = DelegationContext {
        delegate_to: "followup".to_string(),
        ids: Ids { attempt_id: 5, task_id: 6, project_id: 7 },
        additional: Some(OperationParams::for_prompt("go")),
    };
    let record = engine.create_execution_process_record_with_delegation(&context, "C:\\work");
    assert_eq!(record.task_attempt_id, 5);
    assert_eq!(record.process_type, ExecutionProcessType::SetupScript);
    assert_eq!(record.executor_type, Some("setup-script".to_string()));
    assert_eq!(record.command, "cmd");
    assert_eq!(record.working_directory, "C:\\work");
    let args: Vec<String> = serde_json::from_str(record.args.as_ref().unwrap()).unwrap();
    assert_eq!(
        args,
        vec![
            "/C".to_string(),
            "setup-script".to_string(),
            "--delegation-context".to_string(),
            context.to_json(),
        ]
    );
}

#[test]
fn task_prompt_joins_title_and_description() {
    let task = Task { id: 2, title: "T".to_string(), description: Some("D".to_string()) };
    assert_eq!(ProcessService::task_prompt(&task), "T\n\nD");
    let task = Task { id: 2, title: "T".to_string(), description: None };
    assert_eq!(ProcessService::task_prompt(&task), "T\n\n");
}

#[test]
fn session_record_has_the_prompt_and_the_process() {
    let job = job_of(
        ExecutorType::CodingAgent { config: ExecutorConfig::Echo, follow_up: None },
        ExecutionProcessType::CodingAgent,
    );
    assert_eq!(
        ProcessService::create_executor_session_record(&job, "hello".to_string()),
        CreateExecutorSession {
            task_attempt_id: 1,
            execution_process_id: 9,
            prompt: Some("hello".to_string()),
        }
    );
}

#[test]
fn launch_request_names_the_backend() {
    let cases = vec![
        (
            ExecutorType::SetupScript("a".to_string()),
            Invocation::SetupScript { script: "a".to_string() },
        ),
        (
            ExecutorType::CleanupScript("b".to_string()),
            Invocation::CleanupScript { script: "b".to_string() },
        ),
        (
            ExecutorType::DevServer("c".to_string()),
            Invocation::DevServer { script: "c".to_string() },
        ),
        (
            ExecutorType::CodingAgent { config: ExecutorConfig::Amp, follow_up: None },
            Invocation::Agent { config: ExecutorConfig::Amp },
        ),
        (
            ExecutorType::CodingAgent {
                config: ExecutorConfig::Amp,
                follow_up: Some(FollowUpInfo {
                    session_id: "s".to_string(),
                    prompt: "p".to_string(),
                }),
            },
            Invocation::AgentFollowUp {
                config: ExecutorConfig::Amp,
                session_id: "s".to_string(),
                prompt: "p".to_string(),
            },
        ),
    ];
    for (executor, invocation) in cases {
        let job = job_of(executor, ExecutionProcessType::CodingAgent);
        assert_eq!(
            ProcessService::execute_process(&job),
            Request::Launch {
                invocation,
                task_id: 2,
                attempt_id: 1,
                process_id: 9,
                worktree_path: "C:\\work".to_string(),
            }
        );
    }
}

#[test]
fn registration_maps_the_process_type() {
    let pairs = [
        (ExecutionProcessType::SetupScript, ExecutionType::SetupScript),
        (ExecutionProcessType::CleanupScript, ExecutionType::CleanupScript),
        (ExecutionProcessType::CodingAgent, ExecutionType::CodingAgent),
        (ExecutionProcessType::DevServer, ExecutionType::DevServer),
    ];
    for (process_type, execution_type) in pairs {
        assert_eq!(ProcessService::execution_type(process_type), execution_type);
        let job = job_of(ExecutorType::DevServer("x".to_string()), process_type);
        assert_eq!(
            ProcessService::register_for_monitoring(&job),
            Request::Register { process_id: 9, attempt_id: 1, execution_type }
        );
    }
}

#[test]
fn followup_descriptor_resumes_only_a_recorded_session() {
    let (executor, after) = ProcessService::followup_executor(
        ExecutorConfig::Amp,
        Some("abc".to_string()),
        "go".to_string(),
        Some(1),
    );
    assert_eq!(
        executor,
        ExecutorType::CodingAgent {
            config: ExecutorConfig::Amp,
            follow_up: Some(FollowUpInfo { session_id: "abc".to_string(), prompt: "go".to_string() }),
        }
    );
    assert_eq!(after.fallback, Some(ExecutorConfig::Amp));
    assert_eq!(after.report, Some(1));
    for absent in [None, Some(String::new())] {
        let (executor, after) =
            ProcessService::followup_executor(ExecutorConfig::Amp, absent, "go".to_string(), None);
        assert_eq!(
            executor,
            ExecutorType::CodingAgent { config: ExecutorConfig::Amp, follow_up: None }
        );
        assert_eq!(after.fallback, None);
        assert_eq!(after.report, None);
    }
}

#[test]
fn blank_texts_hold_only_white_space() {
    assert!(is_blank(""));
    assert!(is_blank(" \t\r\n"));
    assert!(is_blank("\u{a0}\u{2003}"));
    assert!(!is_blank(" a "));
    assert!(!is_blank("\u{200b}"));
}

#[test]
fn texts_are_compared_by_their_characters() {
    assert!(same_text("followup", "followup"));
    assert!(!same_text("followup", "followUp"));
    assert!(!same_text("followup", "followup "));
    assert!(same_text("", ""));
}

#[test]
fn frames_stand_around_their_parts() {
    assert_eq!(frame_prompt("\"go\""), "{\"prompt\":\"go\"}");
    assert_eq!(frame_prompt(""), "{\"prompt\":}");
    assert_eq!(
        frame_context("D", "A", "1", "2", "3"),
        "{\"delegate_to\":D,\"operation_params\":{\"additional\":A,\"attempt_id\":\"1\",\
         \"project_id\":\"2\",\"task_id\":\"3\"}}"
    );
}

#[test]
fn followup_parameters_hold_the_prompt_and_its_object() {
    assert_eq!(
        OperationParams::for_prompt("a\"b"),
        OperationParams { prompt: Some("a\"b".to_string()), json: "{\"prompt\":\"a\\\"b\"}".to_string() }
    );
}

#[test]
fn stored_arguments_are_a_json_array_of_strings() {
    for flag in ["-c", "", "a,b", "\"[\"", "\u{e9}\n"] {
        let engine =
            ProcessService::new(ShellCommand { program: "sh".to_string(), flag: flag.to_string() });
        let record = engine.create_execution_process_record(
            1,
            &ExecutorType::DevServer("x".to_string()),
            ExecutionProcessType::DevServer,
            "/w",
        );
        let text = record.args.unwrap();
        let items: Vec<String> = serde_json::from_str(&text).unwrap();
        assert_eq!(items, vec![flag.to_string(), "dev_server".to_string()]);
        // Bracket, the two strings as JSON with a comma between, bracket.
        let first = serde_json::Value::String(flag.to_string()).to_string();
        assert_eq!(text, format!("[{},\"dev_server\"]", first));
    }
}

#[test]
fn white_space_is_the_unicode_property() {
    let listed = |c: char| {
        let n = c as u32;
        (0x09..=0x0d).contains(&n)
            || n == 0x20
            || n == 0x85
            || n == 0xa0
            || n == 0x1680
            || (0x2000..=0x200a).contains(&n)
            || n == 0x2028
            || n == 0x2029
            || n == 0x202f
            || n == 0x205f
            || n == 0x3000
    };
    let mut buffer = [0u8; 4];
    for n in 0..=0x10ffffu32 {
        if let Some(c) = char::from_u32(n) {
            assert_eq!(is_blank(c.encode_utf8(&mut buffer)), listed(c), "U+{:04X}", n);
        }
    }
}
