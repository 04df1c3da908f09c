use owncode::cli::{cli_step, CliStep};
use owncode::config::{Config, EnvVars, ModelDefaults};
use owncode::session::{SessionId, SessionUpdate, StopReason, ToolCall, ToolCallId};

#[test]
fn prompt_mode_steps() {
    let s = SessionId(1);
    assert!(matches!(cli_step(SessionUpdate::AgentMessageChunk { session: s, text: "hi".into() }), CliStep::Print(t) if t == "hi"));
    assert!(matches!(cli_step(SessionUpdate::TurnEnd { session: s, reason: StopReason::Stop }), CliStep::EndLine));
    assert!(matches!(cli_step(SessionUpdate::Failed { session: s, error: "timeout".into() }), CliStep::Fail(m) if m == "error: timeout"));
    let call = ToolCall { id: ToolCallId("a".into()), name: "bash".into(), arguments: "{}".into() };
    assert!(matches!(cli_step(SessionUpdate::ToolCallStarted { session: s, call }), CliStep::Skip));
}

fn env(
    local_url: Option<&str>,
    base: Option<&str>,
    key: Option<&str>,
    local: Option<&str>,
    local_model: Option<&str>,
) -> EnvVars {
    EnvVars {
        local_ollama_url: local_url.map(String::from),
        openrouter_base_url: base.map(String::from),
        openrouter_api_key: key.map(String::from),
        local: local.map(String::from),
        local_model: local_model.map(String::from),
    }
}

fn defaults() -> ModelDefaults {
    ModelDefaults { local: "local-default".into(), remote: "remote-default".into() }
}

#[test]
fn configuration_from_the_environment() {
    let c = Config::from_env(env(None, None, None, None, None), defaults());
    assert_eq!(c.provider.base_url, "https://openrouter.ai/api/v1");
    assert_eq!(c.provider.api_key, None);
    assert_eq!(c.provider.model, "remote-default");
    assert!(c.provider.streaming);

    let c = Config::from_env(env(Some("http://localhost:11434/v1"), Some("https://x"), Some("k"), Some("true"), Some("m")), defaults());
    assert_eq!(c.provider.base_url, "http://localhost:11434/v1");
    assert_eq!(c.provider.api_key.as_deref(), Some("k"));
    assert_eq!(c.provider.model, "m");

    let c = Config::from_env(env(None, Some("https://x"), None, Some("true"), None), defaults());
    assert_eq!(c.provider.base_url, "https://x");
    assert_eq!(c.provider.model, "local-default");

    let c = Config::from_env(env(None, None, None, Some("TRUE"), Some("m")), defaults());
    assert_eq!(c.provider.model, "remote-default");
}
