use responses_runtime::error::CodexErr;
use responses_runtime::patch::{
    check_provider, choose_model, stream_patch_runtime_once, AgentIdentityAuthPolicy, ModelInfo,
    PatchAction, PatchCall, PatchEvent, PatchRun, PatchRuntimeRequest, PatchTypes, ProviderInfo,
    RefreshStrategy, SessionSource, WireApi,
};
use std::path::PathBuf;

struct Carried;

impl PatchTypes for Carried {
    type Item = i32;
    type BaseInstructions = &'static str;
    type ReasoningEffort = char;
    type ReasoningSummary = bool;
    type Sink = &'static str;
    type Details = u32;
}

fn request() -> PatchRuntimeRequest<Carried> {
    PatchRuntimeRequest {
        codex_home: PathBuf::from("/home/codex"),
        model: "gpt-x".to_string(),
        input: vec![7, -2, 7],
        base_instructions: "base",
        effort: Some('h'),
        summary: true,
        session_id: "session".to_string(),
        turn_id: "turn".to_string(),
        raw_sink: "sink",
    }
}

fn good_provider() -> ProviderInfo {
    ProviderInfo { wire_api: WireApi::Responses, supports_websockets: true }
}

fn model(slug: &str, details: u32) -> ModelInfo<u32> {
    ModelInfo {
        slug: slug.to_string(),
        used_fallback_model_metadata: false,
        bundled: false,
        supported_in_api: true,
        use_responses_lite: true,
        details,
    }
}

struct World {
    config: Result<ProviderInfo, String>,
    auth: Result<(), String>,
    models: Vec<ModelInfo<u32>>,
    installation: Result<String, String>,
}

fn good_world() -> World {
    World {
        config: Ok(good_provider()),
        auth: Ok(()),
        models: vec![model("gpt-w", 1), model("gpt-x", 2), model("gpt-x", 3)],
        installation: Ok("installation".to_string()),
    }
}

type Outcome = (Vec<&'static str>, Result<PatchCall<Carried>, CodexErr>);

fn run(world: World) -> Outcome {
    let World { config, auth, models, installation } = world;
    let (mut config, mut auth) = (Some(config), Some(auth));
    let (mut models, mut installation) = (Some(models), Some(installation));
    let mut names = Vec::new();
    let (mut at, mut action) = stream_patch_runtime_once(request());
    loop {
        let event = match action {
            PatchAction::LoadConfig(home) => {
                names.push("config");
                assert_eq!(home, PathBuf::from("/home/codex"));
                PatchEvent::ConfigLoaded(config.take().unwrap())
            }
            PatchAction::InitializeAuth { enable_codex_api_key_env } => {
                names.push("auth");
                assert!(!enable_codex_api_key_env);
                PatchEvent::AuthInitialized(auth.take().unwrap())
            }
            PatchAction::RefreshAuth => {
                names.push("refresh");
                PatchEvent::AuthRefreshed
            }
            PatchAction::FetchCatalog { strategy, use_cache } => {
                names.push("catalog");
                assert_eq!(strategy, RefreshStrategy::Online);
                assert!(!use_cache);
                PatchEvent::CatalogFetched(models.take().unwrap())
            }
            PatchAction::StartThread => {
                names.push("thread");
                PatchEvent::ThreadStarted { thread_id: "thread".to_string() }
            }
            PatchAction::ResolveInstallationId => {
                names.push("installation");
                PatchEvent::InstallationResolved(installation.take().unwrap())
            }
            PatchAction::StreamOnce(call) => {
                names.push("stream");
                assert!(matches!(at, PatchRun::Done));
                return (names, Ok(call));
            }
        };
        match at.step(event) {
            Ok((next, next_action)) => {
                at = next;
                action = next_action;
            }
            Err(error) => return (names, Err(error)),
        }
    }
}

fn fatal(outcome: Outcome, steps: usize) -> String {
    assert_eq!(outcome.0.len(), steps);
    match outcome.1 {
        Err(CodexErr::Fatal(message)) => message,
        _ => panic!("not a fatal error"),
    }
}

fn unsupported(outcome: Outcome, steps: usize) -> String {
    assert_eq!(outcome.0.len(), steps);
    match outcome.1 {
        Err(CodexErr::UnsupportedOperation(message)) => message,
        _ => panic!("not an unsupported operation"),
    }
}

fn invalid(outcome: Outcome, steps: usize) -> String {
    assert_eq!(outcome.0.len(), steps);
    match outcome.1 {
        Err(CodexErr::InvalidRequest(message)) => message,
        _ => panic!("not an invalid request"),
    }
}

#[test]
fn an_accepted_run_makes_one_request() {
    let (names, outcome) = run(good_world());
    assert_eq!(
        names,
        vec!["config", "auth", "refresh", "catalog", "thread", "installation", "stream"]
    );
    let call = outcome.ok().unwrap();
    assert_eq!(call.model.details, 2);
    assert_eq!(call.model.slug, "gpt-x");
    assert_eq!(call.metadata.installation_id, "installation");
    assert_eq!(call.metadata.session_id, "session");
    assert_eq!(call.metadata.thread_id, "thread");
    assert_eq!(call.metadata.label, "patchwork");
    assert_eq!(call.metadata.turn_id, "turn");
    assert_eq!(call.telemetry.thread_id, "thread");
    assert_eq!(call.telemetry.model, "gpt-x");
    assert_eq!(call.telemetry.slug, "gpt-x");
    assert_eq!(call.telemetry.account_id, None);
    assert_eq!(call.telemetry.account_email, None);
    assert_eq!(call.telemetry.auth_mode, None);
    assert_eq!(call.telemetry.originator, "patch");
    assert!(!call.telemetry.log_user_prompts);
    assert_eq!(call.telemetry.terminal, "patchwork");
    assert!(matches!(call.telemetry.source, SessionSource::Custom(ref name) if name == "patch"));
    assert_eq!(call.client.auth_policy, AgentIdentityAuthPolicy::JwtOnly);
    assert_eq!(call.client.thread_id, "thread");
    assert!(matches!(call.client.source, SessionSource::Custom(ref name) if name == "patch"));
    assert_eq!(call.client.originator, "patch");
    assert_eq!(call.client.model_verbosity, None);
    assert!(!call.client.enable_request_compression);
    assert!(!call.client.include_timing_metrics);
    assert_eq!(call.client.beta_features_header, None);
    assert!(!call.client.concurrent_reasoning_summaries_enabled);
    assert!(!call.client.with_attestation);
    assert_eq!(call.prompt.input, vec![7, -2, 7]);
    assert_eq!(call.prompt.base_instructions, "base");
    assert!(call.prompt.tools.is_empty());
    assert_eq!(call.effort, Some('h'));
    assert!(call.summary);
    assert_eq!(call.service_tier, None);
    assert_eq!(call.raw_sink, "sink");
}

#[test]
fn a_missing_configuration_is_fatal() {
    let outcome = run(World { config: Err("gone".to_string()), ..good_world() });
    assert_eq!(fatal(outcome, 1), "failed to load Codex config: gone");
}

#[test]
fn missing_credentials_are_fatal() {
    let outcome = run(World { auth: Err("gone".to_string()), ..good_world() });
    assert_eq!(fatal(outcome, 2), "failed to initialize Codex auth: gone");
}

#[test]
fn a_missing_installation_is_fatal() {
    let outcome = run(World { installation: Err("gone".to_string()), ..good_world() });
    assert_eq!(fatal(outcome, 6), "failed to resolve Codex installation ID: gone");
}

#[test]
fn other_protocols_are_refused_before_the_catalog() {
    let provider = ProviderInfo { wire_api: WireApi::Other, supports_websockets: false };
    let outcome = run(World { config: Ok(provider), ..good_world() });
    assert_eq!(unsupported(outcome, 3), "Patch runtime requires the Responses API provider");
}

#[test]
fn providers_without_websockets_are_refused_before_the_catalog() {
    let provider = ProviderInfo { wire_api: WireApi::Responses, supports_websockets: false };
    let outcome = run(World { config: Ok(provider), ..good_world() });
    assert_eq!(unsupported(outcome, 3), "Patch runtime requires a WebSocket-capable provider");
    assert!(check_provider(good_provider()).is_ok());
}

#[test]
fn credentials_are_loaded_before_the_provider_is_refused() {
    let provider = ProviderInfo { wire_api: WireApi::Other, supports_websockets: true };
    let outcome =
        run(World { config: Ok(provider), auth: Err("gone".to_string()), ..good_world() });
    assert_eq!(fatal(outcome, 2), "failed to initialize Codex auth: gone");
}

#[test]
fn unlisted_models_are_refused() {
    let outcome = run(World { models: vec![model("gpt-x2", 1), model("GPT-X", 2)], ..good_world() });
    assert_eq!(
        invalid(outcome, 4),
        "requested model `gpt-x` is not present in the effective authenticated catalog"
    );
}

#[test]
fn fallback_metadata_is_refused() {
    let entry = ModelInfo {
        used_fallback_model_metadata: true,
        supported_in_api: false,
        ..model("gpt-x", 1)
    };
    let outcome = run(World { models: vec![entry, model("gpt-x", 2)], ..good_world() });
    assert_eq!(invalid(outcome, 4), "requested model `gpt-x` resolved to fallback metadata");
}

#[test]
fn bundled_metadata_is_refused_as_fallback_metadata_is() {
    let entry = ModelInfo { bundled: true, ..model("gpt-x", 1) };
    let outcome = run(World { models: vec![entry, model("gpt-x", 2)], ..good_world() });
    assert_eq!(invalid(outcome, 4), "requested model `gpt-x` resolved to fallback metadata");
    let heavy = ModelInfo { bundled: true, use_responses_lite: false, ..model("gpt-x", 1) };
    let outcome = run(World { models: vec![heavy], ..good_world() });
    assert_eq!(invalid(outcome, 4), "requested model `gpt-x` resolved to fallback metadata");
    let other = ModelInfo { bundled: true, ..model("gpt-w", 1) };
    let outcome = run(World { models: vec![other, model("gpt-x", 2)], ..good_world() });
    assert_eq!(outcome.1.ok().unwrap().model.details, 2);
}

#[test]
fn a_later_run_goes_by_what_it_reads_itself() {
    let accepted = |details: u32| {
        let world = World { models: vec![model("gpt-x", details)], ..good_world() };
        run(world).1.ok().unwrap().model.details
    };
    assert_eq!(accepted(1), 1);
    assert_eq!(accepted(9), 9);
    let outcome = run(World { models: Vec::new(), ..good_world() });
    assert!(invalid(outcome, 4).contains("is not present"));
    assert_eq!(accepted(1), 1);
}

#[test]
fn models_without_responses_lite_are_refused() {
    let message = "requested model `gpt-x` does not support Responses Lite";
    let hidden = ModelInfo { supported_in_api: false, ..model("gpt-x", 1) };
    let outcome = run(World { models: vec![hidden], ..good_world() });
    assert_eq!(unsupported(outcome, 4), message);
    let heavy = ModelInfo { use_responses_lite: false, ..model("gpt-x", 1) };
    let outcome = run(World { models: vec![heavy], ..good_world() });
    assert_eq!(unsupported(outcome, 4), message);
}

#[test]
fn the_first_entry_with_the_slug_is_chosen() {
    let slug = "b".to_string();
    let models = vec![model("a", 1), model("b", 2), model("b", 3)];
    assert_eq!(choose_model(models, &slug).unwrap().details, 2);
    assert!(choose_model(vec![model("a", 1)], &slug).is_err());
}
