use task_orchestrator::executor::ExecutorConfig;
use task_orchestrator::service::ProcessService;

#[test]
fn backend_names_round_trip() {
    for config in [ExecutorConfig::Echo, ExecutorConfig::Amp, ExecutorConfig::Gemini] {
        assert_eq!(ExecutorConfig::parse(config.name()), Some(config));
    }
    assert_eq!(ExecutorConfig::Echo.name(), "echo");
    assert_eq!(ExecutorConfig::Amp.name(), "amp");
    assert_eq!(ExecutorConfig::Gemini.name(), "gemini");
}

#[test]
fn unknown_names_do_not_parse() {
    for name in ["", "Echo", "echo ", "amps", "am", "setup-script", "None"] {
        assert_eq!(ExecutorConfig::parse(name), None);
    }
}

#[test]
fn resolver_reads_known_names() {
    assert_eq!(
        ProcessService::resolve_executor_config(&Some("gemini".to_string())),
        ExecutorConfig::Gemini
    );
    assert_eq!(
        ProcessService::resolve_executor_config(&Some("amp".to_string())),
        ExecutorConfig::Amp
    );
    assert_eq!(
        ProcessService::resolve_executor_config(&Some("echo".to_string())),
        ExecutorConfig::Echo
    );
}

#[test]
fn resolver_defaults_to_echo() {
    assert_eq!(ProcessService::resolve_executor_config(&None), ExecutorConfig::Echo);
    assert_eq!(
        ProcessService::resolve_executor_config(&Some("abacus".to_string())),
        ExecutorConfig::Echo
    );
    assert_eq!(
        ProcessService::resolve_executor_config(&Some(String::new())),
        ExecutorConfig::Echo
    );
}
