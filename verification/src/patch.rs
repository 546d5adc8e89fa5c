//! One isolated patch run: from local state to exactly one request.
//!
//! A run owns no session, tools or retries. It loads configuration and
//! credentials, looks the requested model up in a fresh catalog, and then asks
//! for one full-input WebSocket request. The run decides and the application
//! acts: the run names an action, the application performs it and reports what
//! came of it.

use vstd::pervasive::unreached;
use vstd::prelude::*;

use crate::error::{describe, CodexErr, CodexErrView};
use crate::json::optional_text;
use crate::raw::{raw_texts, RawJson};

verus! {

/// A path of the standard library, which is carried and never looked into.
#[verifier::external_type_specification]
#[verifier::external_body]
pub struct ExPathBuf(std::path::PathBuf);

/// The types of what a run carries from its caller and its catalog to its request
/// and never looks into.
pub trait PatchTypes {
    /// One item of a conversation.
    type Item;
    type BaseInstructions;
    type ReasoningEffort;
    type ReasoningSummary;
    /// The sink for raw protocol values.
    type Sink;
    /// What the catalog says of a model beyond what a run decides on.
    type Details;
}

/// Inputs for one patch run.
pub struct PatchRuntimeRequest<P: PatchTypes> {
    /// The directory with the persisted configuration and credentials.
    pub codex_home: std::path::PathBuf,
    /// The exact model slug that is asked for.
    pub model: String,
    /// The conversation, in order. Nothing is added to it.
    pub input: Vec<P::Item>,
    pub base_instructions: P::BaseInstructions,
    pub effort: Option<P::ReasoningEffort>,
    pub summary: P::ReasoningSummary,
    pub session_id: String,
    pub turn_id: String,
    pub raw_sink: P::Sink,
}

/// The parts of a request that outlive the loading of the configuration.
pub struct PatchInputs<P: PatchTypes> {
    pub model: String,
    pub input: Vec<P::Item>,
    pub base_instructions: P::BaseInstructions,
    pub effort: Option<P::ReasoningEffort>,
    pub summary: P::ReasoningSummary,
    pub session_id: String,
    pub turn_id: String,
    pub raw_sink: P::Sink,
}

/// The contents of [`PatchInputs`].
#[verifier::ext_equal]
pub struct InputsView<P: PatchTypes> {
    pub model: Seq<char>,
    pub input: Seq<P::Item>,
    pub base_instructions: P::BaseInstructions,
    pub effort: Option<P::ReasoningEffort>,
    pub summary: P::ReasoningSummary,
    pub session_id: Seq<char>,
    pub turn_id: Seq<char>,
    pub raw_sink: P::Sink,
}

impl<P: PatchTypes> PatchRuntimeRequest<P> {
    /// What the request says beside the directory.
    pub open spec fn inputs(self) -> InputsView<P> {
        InputsView {
            model: self.model@,
            input: self.input@,
            base_instructions: self.base_instructions,
            effort: self.effort,
            summary: self.summary,
            session_id: self.session_id@,
            turn_id: self.turn_id@,
            raw_sink: self.raw_sink,
        }
    }
}

impl<P: PatchTypes> View for PatchInputs<P> {
    type V = InputsView<P>;

    open spec fn view(&self) -> InputsView<P> {
        InputsView {
            model: self.model@,
            input: self.input@,
            base_instructions: self.base_instructions,
            effort: self.effort,
            summary: self.summary,
            session_id: self.session_id@,
            turn_id: self.turn_id@,
            raw_sink: self.raw_sink,
        }
    }
}

/// The protocol that a provider speaks.
#[derive(Clone, Copy, Debug, PartialEq, Eq, Structural)]
pub enum WireApi {
    Responses,
    Other,
}

/// What a run needs to know of the configured provider.
#[derive(Clone, Copy, Debug, PartialEq, Eq, Structural)]
pub struct ProviderInfo {
    pub wire_api: WireApi,
    pub supports_websockets: bool,
}

/// One entry of the model catalog. `M` is what else the catalog says of it.
pub struct ModelInfo<M> {
    pub slug: String,
    /// The entry is made up, because the catalog did not know the model.
    pub used_fallback_model_metadata: bool,
    /// The entry ships with the program: no authenticated refresh brought it.
    pub bundled: bool,
    pub supported_in_api: bool,
    pub use_responses_lite: bool,
    pub details: M,
}

/// The contents of a catalog entry.
#[verifier::ext_equal]
pub struct ModelView<M> {
    pub slug: Seq<char>,
    pub used_fallback_model_metadata: bool,
    pub bundled: bool,
    pub supported_in_api: bool,
    pub use_responses_lite: bool,
    pub details: M,
}

impl<M> View for ModelInfo<M> {
    type V = ModelView<M>;

    open spec fn view(&self) -> ModelView<M> {
        ModelView {
            slug: self.slug@,
            used_fallback_model_metadata: self.used_fallback_model_metadata,
            bundled: self.bundled,
            supported_in_api: self.supported_in_api,
            use_responses_lite: self.use_responses_lite,
            details: self.details,
        }
    }
}

/// The contents of a catalog.
pub open spec fn catalog<M>(models: Seq<ModelInfo<M>>) -> Seq<ModelView<M>> {
    models.map_values(|model: ModelInfo<M>| model@)
}

/// Why a provider cannot serve a run, if it cannot.
pub open spec fn provider_refusal(provider: ProviderInfo) -> Option<CodexErrView> {
    if provider.wire_api != WireApi::Responses {
        Some(
            CodexErrView::UnsupportedOperation("Patch runtime requires the Responses API provider"@),
        )
    } else if !provider.supports_websockets {
        Some(
            CodexErrView::UnsupportedOperation(
                "Patch runtime requires a WebSocket-capable provider"@,
            ),
        )
    } else {
        None
    }
}

/// The first entry of a catalog with exactly the given slug.
pub open spec fn first_with_slug<M>(models: Seq<ModelView<M>>, slug: Seq<char>) -> Option<
    ModelView<M>,
>
    decreases models.len(),
{
    if models.len() == 0 {
        None
    } else if models[0].slug == slug {
        Some(models[0])
    } else {
        first_with_slug(models.drop_first(), slug)
    }
}

/// A message about the model that was asked for.
pub open spec fn about_model(slug: Seq<char>, rest: Seq<char>) -> Seq<char> {
    "requested model `"@ + slug + rest
}

/// The catalog entry that serves a run, or why there is none: the slug has to be
/// listed, with metadata of its own that the refresh brought, and the model has
/// to support Responses Lite.
pub open spec fn chosen_model<M>(models: Seq<ModelView<M>>, slug: Seq<char>) -> Result<
    ModelView<M>,
    CodexErrView,
> {
    match first_with_slug(models, slug) {
        None => Err(
            CodexErrView::InvalidRequest(
                about_model(
                    slug,
                    "` is not present in the effective authenticated catalog"@,
                ),
            ),
        ),
        Some(model) => if model.used_fallback_model_metadata || model.bundled {
            Err(
                CodexErrView::InvalidRequest(
                    about_model(slug, "` resolved to fallback metadata"@),
                ),
            )
        } else if !model.supported_in_api || !model.use_responses_lite {
            Err(
                CodexErrView::UnsupportedOperation(
                    about_model(slug, "` does not support Responses Lite"@),
                ),
            )
        } else {
            Ok(model)
        },
    }
}

/// Refuses a provider that cannot serve a run.
pub fn check_provider(provider: ProviderInfo) -> (res: Result<(), CodexErr>)
    ensures
        res is Ok <==> provider_refusal(provider) is None,
        res is Err ==> provider_refusal(provider) == Some(res->Err_0@),
        res is Ok <==> provider.wire_api == WireApi::Responses && provider.supports_websockets,
        res matches Err(error) ==> {
            &&& error is UnsupportedOperation
            &&& error->UnsupportedOperation_0@ == if provider.wire_api == WireApi::Responses {
                "Patch runtime requires a WebSocket-capable provider"@
            } else {
                "Patch runtime requires the Responses API provider"@
            }
        },
{
    if provider.wire_api != WireApi::Responses {
        return Err(
            CodexErr::UnsupportedOperation(
                "Patch runtime requires the Responses API provider".to_owned(),
            ),
        );
    }
    if !provider.supports_websockets {
        return Err(
            CodexErr::UnsupportedOperation(
                "Patch runtime requires a WebSocket-capable provider".to_owned(),
            ),
        );
    }
    Ok(())
}

/// Writes a message about the model that was asked for.
fn describe_model(slug: &str, rest: &str) -> (message: String)
    ensures
        message@ == about_model(slug@, rest@),
{
    let named = describe("requested model `", slug);
    describe(named.as_str(), rest)
}

/// Where in the catalog the slug is listed first.
fn find_slug<M>(models: &Vec<ModelInfo<M>>, slug: &String) -> (res: Option<usize>)
    ensures
        match res {
            Some(i) => i < models@.len() && first_with_slug(catalog(models@), slug@) == Some(
                models@[i as int]@,
            ),
            None => first_with_slug(catalog(models@), slug@) is None,
        },
        res matches Some(i) ==> models@[i as int].slug@ == slug@,
        forall|j: int|
            0 <= j < models@.len() && (res matches Some(i) ==> j < i) ==> (
            #[trigger] models@[j]).slug@ != slug@,
{
    let mut i: usize = 0;
    let ghost all = catalog(models@);
    assert(all.skip(0) =~= all);
    while i < models.len()
        invariant
            i <= models@.len(),
            all == catalog(models@),
            first_with_slug(all, slug@) == first_with_slug(all.skip(i as int), slug@),
            forall|j: int| 0 <= j < i ==> (#[trigger] models@[j]).slug@ != slug@,
        decreases models.len() - i,
    {
        assert(all.skip(i as int)[0] == models@[i as int]@);
        if models[i].slug == *slug {
            return Some(i);
        }
        assert(all.skip(i as int).drop_first() =~= all.skip(i + 1));
        i = i + 1;
    }
    None
}

/// Takes the entry that serves a run out of the catalog.
pub fn choose_model<M>(models: Vec<ModelInfo<M>>, slug: &String) -> (res: Result<
    ModelInfo<M>,
    CodexErr,
>)
    ensures
        match res {
            Ok(model) => chosen_model(catalog(models@), slug@) == Ok::<ModelView<M>, CodexErrView>(
                model@,
            ),
            Err(error) => chosen_model(catalog(models@), slug@) == Err::<
                ModelView<M>,
                CodexErrView,
            >(error@),
        },
        match res {
            Ok(model) => exists|i: int|
                {
                    &&& 0 <= i < models@.len()
                    &&& #[trigger] models@[i] == model
                    &&& model.slug@ == slug@
                    &&& forall|j: int| 0 <= j < i ==> (#[trigger] models@[j]).slug@ != slug@
                    &&& !model.used_fallback_model_metadata
                    &&& !model.bundled
                    &&& model.supported_in_api
                    &&& model.use_responses_lite
                },
            Err(CodexErr::InvalidRequest(message)) => {
                ||| {
                    &&& forall|j: int|
                        0 <= j < models@.len() ==> (#[trigger] models@[j]).slug@ != slug@
                    &&& message@ == "requested model `"@ + slug@
                        + "` is not present in the effective authenticated catalog"@
                }
                ||| exists|i: int|
                    {
                        &&& 0 <= i < models@.len()
                        &&& (#[trigger] models@[i]).slug@ == slug@
                        &&& forall|j: int| 0 <= j < i ==> (#[trigger] models@[j]).slug@ != slug@
                        &&& models@[i].used_fallback_model_metadata || models@[i].bundled
                        &&& message@ == "requested model `"@ + slug@
                            + "` resolved to fallback metadata"@
                    }
            },
            Err(CodexErr::UnsupportedOperation(message)) => exists|i: int|
                {
                    &&& 0 <= i < models@.len()
                    &&& (#[trigger] models@[i]).slug@ == slug@
                    &&& forall|j: int| 0 <= j < i ==> (#[trigger] models@[j]).slug@ != slug@
                    &&& !models@[i].used_fallback_model_metadata
                    &&& !models@[i].bundled
                    &&& !(models@[i].supported_in_api && models@[i].use_responses_lite)
                    &&& message@ == "requested model `"@ + slug@
                        + "` does not support Responses Lite"@
                },
            Err(CodexErr::Fatal(_)) => false,
        },
{
    let ghost listed = models@;
    let mut models = models;
    let model = match find_slug(&models, slug) {
        Some(i) => {
            assert(listed[i as int] == models@[i as int]);
            models.remove(i)
        },
        None => return Err(
            CodexErr::InvalidRequest(
                describe_model(
                    slug.as_str(),
                    "` is not present in the effective authenticated catalog",
                ),
            ),
        ),
    };
    if model.used_fallback_model_metadata || model.bundled {
        return Err(
            CodexErr::InvalidRequest(
                describe_model(slug.as_str(), "` resolved to fallback metadata"),
            ),
        );
    }
    if !model.supported_in_api || !model.use_responses_lite {
        return Err(
            CodexErr::UnsupportedOperation(
                describe_model(slug.as_str(), "` does not support Responses Lite"),
            ),
        );
    }
    Ok(model)
}

/// Where a session comes from.
#[derive(Debug)]
pub enum SessionSource {
    Custom(String),
}

/// Which credentials a model client may present for an agent.
#[derive(Clone, Copy, Debug, PartialEq, Eq, Structural)]
pub enum AgentIdentityAuthPolicy {
    JwtOnly,
}

/// Where a catalog is taken from.
#[derive(Clone, Copy, Debug, PartialEq, Eq, Structural)]
pub enum RefreshStrategy {
    /// From the provider, now.
    Online,
}

/// The metadata that goes with the request.
#[derive(Debug)]
pub struct ResponsesMetadata {
    pub installation_id: String,
    pub session_id: String,
    pub thread_id: String,
    pub label: String,
    pub turn_id: String,
}

/// What telemetry is told about the run.
#[derive(Debug)]
pub struct TelemetrySettings {
    pub thread_id: String,
    pub model: String,
    pub slug: String,
    pub account_id: Option<String>,
    pub account_email: Option<String>,
    pub auth_mode: Option<String>,
    pub originator: String,
    pub log_user_prompts: bool,
    pub terminal: String,
    pub source: SessionSource,
}

/// How the model client is set up.
#[derive(Debug)]
pub struct ModelClientSettings {
    pub auth_policy: AgentIdentityAuthPolicy,
    pub thread_id: String,
    pub source: SessionSource,
    pub originator: String,
    pub model_verbosity: Option<String>,
    pub enable_request_compression: bool,
    pub include_timing_metrics: bool,
    pub beta_features_header: Option<String>,
    pub concurrent_reasoning_summaries_enabled: bool,
    pub with_attestation: bool,
}

/// What the model is given.
pub struct Prompt<P: PatchTypes> {
    pub input: Vec<P::Item>,
    pub base_instructions: P::BaseInstructions,
    pub tools: Vec<RawJson>,
}

/// The one request of a run.
pub struct PatchCall<P: PatchTypes> {
    pub metadata: ResponsesMetadata,
    pub telemetry: TelemetrySettings,
    pub client: ModelClientSettings,
    pub prompt: Prompt<P>,
    pub model: ModelInfo<P::Details>,
    pub effort: Option<P::ReasoningEffort>,
    pub summary: P::ReasoningSummary,
    pub service_tier: Option<String>,
    pub raw_sink: P::Sink,
}

/// The contents of [`ResponsesMetadata`].
#[verifier::ext_equal]
pub struct MetadataView {
    pub installation_id: Seq<char>,
    pub session_id: Seq<char>,
    pub thread_id: Seq<char>,
    pub label: Seq<char>,
    pub turn_id: Seq<char>,
}

/// The contents of [`TelemetrySettings`].
#[verifier::ext_equal]
pub struct TelemetryView {
    pub thread_id: Seq<char>,
    pub model: Seq<char>,
    pub slug: Seq<char>,
    pub account_id: Option<Seq<char>>,
    pub account_email: Option<Seq<char>>,
    pub auth_mode: Option<Seq<char>>,
    pub originator: Seq<char>,
    pub log_user_prompts: bool,
    pub terminal: Seq<char>,
    pub custom_source: Seq<char>,
}

/// The contents of [`ModelClientSettings`].
#[verifier::ext_equal]
pub struct ModelClientView {
    pub auth_policy: AgentIdentityAuthPolicy,
    pub thread_id: Seq<char>,
    pub custom_source: Seq<char>,
    pub originator: Seq<char>,
    pub model_verbosity: Option<Seq<char>>,
    pub enable_request_compression: bool,
    pub include_timing_metrics: bool,
    pub beta_features_header: Option<Seq<char>>,
    pub concurrent_reasoning_summaries_enabled: bool,
    pub with_attestation: bool,
}

/// The contents of a [`Prompt`].
#[verifier::ext_equal]
pub struct PromptView<P: PatchTypes> {
    pub input: Seq<P::Item>,
    pub base_instructions: P::BaseInstructions,
    pub tools: Seq<Seq<char>>,
}

/// The contents of a [`PatchCall`].
#[verifier::ext_equal]
pub struct CallView<P: PatchTypes> {
    pub metadata: MetadataView,
    pub telemetry: TelemetryView,
    pub client: ModelClientView,
    pub prompt: PromptView<P>,
    pub model: ModelView<P::Details>,
    pub effort: Option<P::ReasoningEffort>,
    pub summary: P::ReasoningSummary,
    pub service_tier: Option<Seq<char>>,
    pub raw_sink: P::Sink,
}

impl View for SessionSource {
    type V = Seq<char>;

    open spec fn view(&self) -> Seq<char> {
        match self {
            SessionSource::Custom(name) => name@,
        }
    }
}

impl View for ResponsesMetadata {
    type V = MetadataView;

    open spec fn view(&self) -> MetadataView {
        MetadataView {
            installation_id: self.installation_id@,
            session_id: self.session_id@,
            thread_id: self.thread_id@,
            label: self.label@,
            turn_id: self.turn_id@,
        }
    }
}

impl View for TelemetrySettings {
    type V = TelemetryView;

    open spec fn view(&self) -> TelemetryView {
        TelemetryView {
            thread_id: self.thread_id@,
            model: self.model@,
            slug: self.slug@,
            account_id: optional_text(self.account_id),
            account_email: optional_text(self.account_email),
            auth_mode: optional_text(self.auth_mode),
            originator: self.originator@,
            log_user_prompts: self.log_user_prompts,
            terminal: self.terminal@,
            custom_source: self.source@,
        }
    }
}

impl View for ModelClientSettings {
    type V = ModelClientView;

    open spec fn view(&self) -> ModelClientView {
        ModelClientView {
            auth_policy: self.auth_policy,
            thread_id: self.thread_id@,
            custom_source: self.source@,
            originator: self.originator@,
            model_verbosity: optional_text(self.model_verbosity),
            enable_request_compression: self.enable_request_compression,
            include_timing_metrics: self.include_timing_metrics,
            beta_features_header: optional_text(self.beta_features_header),
            concurrent_reasoning_summaries_enabled: self.concurrent_reasoning_summaries_enabled,
            with_attestation: self.with_attestation,
        }
    }
}

impl<P: PatchTypes> View for Prompt<P> {
    type V = PromptView<P>;

    open spec fn view(&self) -> PromptView<P> {
        PromptView {
            input: self.input@,
            base_instructions: self.base_instructions,
            tools: raw_texts(self.tools@),
        }
    }
}

impl<P: PatchTypes> View for PatchCall<P> {
    type V = CallView<P>;

    open spec fn view(&self) -> CallView<P> {
        CallView {
            metadata: self.metadata@,
            telemetry: self.telemetry@,
            client: self.client@,
            prompt: self.prompt@,
            model: self.model@,
            effort: self.effort,
            summary: self.summary,
            service_tier: optional_text(self.service_tier),
            raw_sink: self.raw_sink,
        }
    }
}

/// The one request that a run makes: the caller's own conversation without
/// tools, under the caller's session and turn identifiers, with nothing
/// switched on that the caller did not ask for.
pub open spec fn patch_call<P: PatchTypes>(
    request: InputsView<P>,
    model: ModelView<P::Details>,
    thread_id: Seq<char>,
    installation_id: Seq<char>,
) -> CallView<P> {
    CallView {
        metadata: MetadataView {
            installation_id,
            session_id: request.session_id,
            thread_id,
            label: "patchwork"@,
            turn_id: request.turn_id,
        },
        telemetry: TelemetryView {
            thread_id,
            model: model.slug,
            slug: model.slug,
            account_id: None,
            account_email: None,
            auth_mode: None,
            originator: "patch"@,
            log_user_prompts: false,
            terminal: "patchwork"@,
            custom_source: "patch"@,
        },
        client: ModelClientView {
            auth_policy: AgentIdentityAuthPolicy::JwtOnly,
            thread_id,
            custom_source: "patch"@,
            originator: "patch"@,
            model_verbosity: None,
            enable_request_compression: false,
            include_timing_metrics: false,
            beta_features_header: None,
            concurrent_reasoning_summaries_enabled: false,
            with_attestation: false,
        },
        prompt: PromptView {
            input: request.input,
            base_instructions: request.base_instructions,
            tools: seq![],
        },
        model,
        effort: request.effort,
        summary: request.summary,
        service_tier: None,
        raw_sink: request.raw_sink,
    }
}

/// Puts the one request of a run together.
pub fn build_call<P: PatchTypes>(
    inputs: PatchInputs<P>,
    model: ModelInfo<P::Details>,
    thread_id: String,
    installation_id: String,
) -> (call: PatchCall<P>)
    ensures
        call@ == patch_call(inputs@, model@, thread_id@, installation_id@),
        call.prompt.input == inputs.input,
        call.prompt.base_instructions == inputs.base_instructions,
        call.prompt.tools@.len() == 0,
        call.model == model,
        call.effort == inputs.effort,
        call.summary == inputs.summary,
        call.service_tier is None,
        call.raw_sink == inputs.raw_sink,
        call.metadata.installation_id@ == installation_id@,
        call.metadata.session_id@ == inputs.session_id@,
        call.metadata.thread_id@ == thread_id@,
        call.metadata.label@ == "patchwork"@,
        call.metadata.turn_id@ == inputs.turn_id@,
        call.telemetry.thread_id@ == thread_id@,
        call.telemetry.model@ == model.slug@,
        call.telemetry.slug@ == model.slug@,
        call.telemetry.account_id is None,
        call.telemetry.account_email is None,
        call.telemetry.auth_mode is None,
        call.telemetry.originator@ == "patch"@,
        !call.telemetry.log_user_prompts,
        call.telemetry.terminal@ == "patchwork"@,
        call.telemetry.source->Custom_0@ == "patch"@,
        call.client.auth_policy == AgentIdentityAuthPolicy::JwtOnly,
        call.client.thread_id@ == thread_id@,
        call.client.source->Custom_0@ == "patch"@,
        call.client.originator@ == "patch"@,
        call.client.model_verbosity is None,
        !call.client.enable_request_compression,
        !call.client.include_timing_metrics,
        call.client.beta_features_header is None,
        !call.client.concurrent_reasoning_summaries_enabled,
        !call.client.with_attestation,
{
    let metadata = ResponsesMetadata {
        installation_id,
        session_id: inputs.session_id,
        thread_id: thread_id.clone(),
        label: "patchwork".to_owned(),
        turn_id: inputs.turn_id,
    };
    let telemetry = TelemetrySettings {
        thread_id: thread_id.clone(),
        model: model.slug.clone(),
        slug: model.slug.clone(),
        account_id: None,
        account_email: None,
        auth_mode: None,
        originator: "patch".to_owned(),
        log_user_prompts: false,
        terminal: "patchwork".to_owned(),
        source: SessionSource::Custom("patch".to_owned()),
    };
    let client = ModelClientSettings {
        auth_policy: AgentIdentityAuthPolicy::JwtOnly,
        thread_id,
        source: SessionSource::Custom("patch".to_owned()),
        originator: "patch".to_owned(),
        model_verbosity: None,
        enable_request_compression: false,
        include_timing_metrics: false,
        beta_features_header: None,
        concurrent_reasoning_summaries_enabled: false,
        with_attestation: false,
    };
    let tools: Vec<RawJson> = Vec::new();
    assert(raw_texts(tools@) =~= seq![]);
    let prompt = Prompt {
        input: inputs.input,
        base_instructions: inputs.base_instructions,
        tools,
    };
    PatchCall {
        metadata,
        telemetry,
        client,
        prompt,
        model,
        effort: inputs.effort,
        summary: inputs.summary,
        service_tier: None,
        raw_sink: inputs.raw_sink,
    }
}

/// What the application has to do next.
pub enum PatchAction<P: PatchTypes> {
    /// Load the configuration from this directory.
    LoadConfig(std::path::PathBuf),
    /// Set up credentials from the configuration.
    InitializeAuth { enable_codex_api_key_env: bool },
    /// Load the credentials, which may refresh them. Having none is no failure.
    RefreshAuth,
    /// Fetch the catalog of the configured provider.
    FetchCatalog { strategy: RefreshStrategy, use_cache: bool },
    /// Start a thread under an identifier that was never used before.
    StartThread,
    /// Find out the identifier of this installation.
    ResolveInstallationId,
    /// Make the request, over a WebSocket, once.
    StreamOnce(PatchCall<P>),
}

/// What came of an action.
pub enum PatchEvent<P: PatchTypes> {
    ConfigLoaded(Result<ProviderInfo, String>),
    AuthInitialized(Result<(), String>),
    AuthRefreshed,
    CatalogFetched(Vec<ModelInfo<P::Details>>),
    ThreadStarted { thread_id: String },
    InstallationResolved(Result<String, String>),
}

/// A run between its actions.
pub enum PatchRun<P: PatchTypes> {
    LoadingConfig { inputs: PatchInputs<P> },
    InitializingAuth { inputs: PatchInputs<P>, provider: ProviderInfo },
    RefreshingAuth { inputs: PatchInputs<P>, provider: ProviderInfo },
    FetchingCatalog { inputs: PatchInputs<P> },
    StartingThread { inputs: PatchInputs<P>, model: ModelInfo<P::Details> },
    ResolvingInstallation {
        inputs: PatchInputs<P>,
        model: ModelInfo<P::Details>,
        thread_id: String,
    },
    /// The request has been asked for.
    Done,
}

/// The contents of a [`PatchAction`].
#[verifier::ext_equal]
pub enum PatchActionView<P: PatchTypes> {
    LoadConfig(std::path::PathBuf),
    InitializeAuth { enable_codex_api_key_env: bool },
    RefreshAuth,
    FetchCatalog { strategy: RefreshStrategy, use_cache: bool },
    StartThread,
    ResolveInstallationId,
    StreamOnce(CallView<P>),
}

/// The contents of a [`PatchEvent`].
#[verifier::ext_equal]
pub enum PatchEventView<P: PatchTypes> {
    ConfigLoaded(Result<ProviderInfo, Seq<char>>),
    AuthInitialized(Result<(), Seq<char>>),
    AuthRefreshed,
    CatalogFetched(Seq<ModelView<P::Details>>),
    ThreadStarted { thread_id: Seq<char> },
    InstallationResolved(Result<Seq<char>, Seq<char>>),
}

/// Where a [`PatchRun`] stands.
#[verifier::ext_equal]
pub enum PatchView<P: PatchTypes> {
    LoadingConfig { inputs: InputsView<P> },
    InitializingAuth { inputs: InputsView<P>, provider: ProviderInfo },
    RefreshingAuth { inputs: InputsView<P>, provider: ProviderInfo },
    FetchingCatalog { inputs: InputsView<P> },
    StartingThread { inputs: InputsView<P>, model: ModelView<P::Details> },
    ResolvingInstallation {
        inputs: InputsView<P>,
        model: ModelView<P::Details>,
        thread_id: Seq<char>,
    },
    Done,
}

/// A result with its message as a sequence of characters.
pub open spec fn told<T>(res: Result<T, String>) -> Result<T, Seq<char>> {
    match res {
        Ok(value) => Ok(value),
        Err(message) => Err(message@),
    }
}

impl<P: PatchTypes> View for PatchAction<P> {
    type V = PatchActionView<P>;

    open spec fn view(&self) -> PatchActionView<P> {
        match self {
            PatchAction::LoadConfig(home) => PatchActionView::LoadConfig(*home),
            PatchAction::InitializeAuth { enable_codex_api_key_env } => {
                PatchActionView::InitializeAuth {
                    enable_codex_api_key_env: *enable_codex_api_key_env,
                }
            },
            PatchAction::RefreshAuth => PatchActionView::RefreshAuth,
            PatchAction::FetchCatalog { strategy, use_cache } => PatchActionView::FetchCatalog {
                strategy: *strategy,
                use_cache: *use_cache,
            },
            PatchAction::StartThread => PatchActionView::StartThread,
            PatchAction::ResolveInstallationId => PatchActionView::ResolveInstallationId,
            PatchAction::StreamOnce(call) => PatchActionView::StreamOnce(call@),
        }
    }
}

impl<P: PatchTypes> View for PatchEvent<P> {
    type V = PatchEventView<P>;

    open spec fn view(&self) -> PatchEventView<P> {
        match self {
            PatchEvent::ConfigLoaded(res) => PatchEventView::ConfigLoaded(told(*res)),
            PatchEvent::AuthInitialized(res) => PatchEventView::AuthInitialized(told(*res)),
            PatchEvent::AuthRefreshed => PatchEventView::AuthRefreshed,
            PatchEvent::CatalogFetched(models) => PatchEventView::CatalogFetched(catalog(models@)),
            PatchEvent::ThreadStarted { thread_id } => PatchEventView::ThreadStarted {
                thread_id: thread_id@,
            },
            PatchEvent::InstallationResolved(res) => PatchEventView::InstallationResolved(
                match res {
                    Ok(id) => Ok(id@),
                    Err(message) => Err(message@),
                },
            ),
        }
    }
}

impl<P: PatchTypes> View for PatchRun<P> {
    type V = PatchView<P>;

    open spec fn view(&self) -> PatchView<P> {
        match self {
            PatchRun::LoadingConfig { inputs } => PatchView::LoadingConfig { inputs: inputs@ },
            PatchRun::InitializingAuth { inputs, provider } => PatchView::InitializingAuth {
                inputs: inputs@,
                provider: *provider,
            },
            PatchRun::RefreshingAuth { inputs, provider } => PatchView::RefreshingAuth {
                inputs: inputs@,
                provider: *provider,
            },
            PatchRun::FetchingCatalog { inputs } => PatchView::FetchingCatalog { inputs: inputs@ },
            PatchRun::StartingThread { inputs, model } => PatchView::StartingThread {
                inputs: inputs@,
                model: model@,
            },
            PatchRun::ResolvingInstallation { inputs, model, thread_id } => {
                PatchView::ResolvingInstallation {
                    inputs: inputs@,
                    model: model@,
                    thread_id: thread_id@,
                }
            },
            PatchRun::Done => PatchView::Done,
        }
    }
}

/// `event` tells what came of the action that a run at `at` has asked for.
pub open spec fn awaits<P: PatchTypes>(at: PatchView<P>, event: PatchEventView<P>) -> bool {
    match at {
        PatchView::LoadingConfig { .. } => event is ConfigLoaded,
        PatchView::InitializingAuth { .. } => event is AuthInitialized,
        PatchView::RefreshingAuth { .. } => event is AuthRefreshed,
        PatchView::FetchingCatalog { .. } => event is CatalogFetched,
        PatchView::StartingThread { .. } => event is ThreadStarted,
        PatchView::ResolvingInstallation { .. } => event is InstallationResolved,
        PatchView::Done => false,
    }
}

/// How a run goes on: where it stands next and what it asks for, or why it
/// fails.
pub open spec fn patch_next<P: PatchTypes>(at: PatchView<P>, event: PatchEventView<P>) -> Result<
    (PatchView<P>, PatchActionView<P>),
    CodexErrView,
>
    recommends
        awaits(at, event),
{
    match (at, event) {
        (PatchView::LoadingConfig { inputs }, PatchEventView::ConfigLoaded(res)) => match res {
            Ok(provider) => Ok(
                (
                    PatchView::InitializingAuth { inputs, provider },
                    PatchActionView::InitializeAuth { enable_codex_api_key_env: false },
                ),
            ),
            Err(message) => Err(
                CodexErrView::Fatal("failed to load Codex config: "@ + message),
            ),
        },
        (
            PatchView::InitializingAuth { inputs, provider },
            PatchEventView::AuthInitialized(res),
        ) => match res {
            Ok(_) => Ok(
                (PatchView::RefreshingAuth { inputs, provider }, PatchActionView::RefreshAuth),
            ),
            Err(message) => Err(
                CodexErrView::Fatal("failed to initialize Codex auth: "@ + message),
            ),
        },
        (PatchView::RefreshingAuth { inputs, provider }, _) => match provider_refusal(provider) {
            None => Ok(
                (
                    PatchView::FetchingCatalog { inputs },
                    PatchActionView::FetchCatalog {
                        strategy: RefreshStrategy::Online,
                        use_cache: false,
                    },
                ),
            ),
            Some(refusal) => Err(refusal),
        },
        (PatchView::FetchingCatalog { inputs }, PatchEventView::CatalogFetched(models)) => {
            match chosen_model(models, inputs.model) {
                Ok(model) => Ok(
                    (PatchView::StartingThread { inputs, model }, PatchActionView::StartThread),
                ),
                Err(refusal) => Err(refusal),
            }
        },
        (
            PatchView::StartingThread { inputs, model },
            PatchEventView::ThreadStarted { thread_id },
        ) => Ok(
            (
                PatchView::ResolvingInstallation { inputs, model, thread_id },
                PatchActionView::ResolveInstallationId,
            ),
        ),
        (
            PatchView::ResolvingInstallation { inputs, model, thread_id },
            PatchEventView::InstallationResolved(res),
        ) => match res {
            Ok(id) => Ok(
                (
                    PatchView::Done,
                    PatchActionView::StreamOnce(patch_call(inputs, model, thread_id, id)),
                ),
            ),
            Err(message) => Err(
                CodexErrView::Fatal("failed to resolve Codex installation ID: "@ + message),
            ),
        },
        _ => arbitrary(),
    }
}

/// Begins a run, which asks for the configuration first.
pub fn stream_patch_runtime_once<P: PatchTypes>(request: PatchRuntimeRequest<P>) -> (begun: (
    PatchRun<P>,
    PatchAction<P>,
))
    ensures
        begun.0@ == (PatchView::<P>::LoadingConfig { inputs: request.inputs() }),
        begun.1@ == PatchActionView::<P>::LoadConfig(request.codex_home),
        begun.1 == PatchAction::<P>::LoadConfig(request.codex_home),
        begun.0 is LoadingConfig,
        begun.0->LoadingConfig_inputs.model@ == request.model@,
        begun.0->LoadingConfig_inputs.input@ == request.input@,
        begun.0->LoadingConfig_inputs.base_instructions == request.base_instructions,
        begun.0->LoadingConfig_inputs.effort == request.effort,
        begun.0->LoadingConfig_inputs.summary == request.summary,
        begun.0->LoadingConfig_inputs.session_id@ == request.session_id@,
        begun.0->LoadingConfig_inputs.turn_id@ == request.turn_id@,
        begun.0->LoadingConfig_inputs.raw_sink == request.raw_sink,
{
    let inputs = PatchInputs {
        model: request.model,
        input: request.input,
        base_instructions: request.base_instructions,
        effort: request.effort,
        summary: request.summary,
        session_id: request.session_id,
        turn_id: request.turn_id,
        raw_sink: request.raw_sink,
    };
    (PatchRun::LoadingConfig { inputs }, PatchAction::LoadConfig(request.codex_home))
}

impl<P: PatchTypes> PatchRun<P> {
    /// Takes what came of the last action and names the next one.
    pub fn step(self, event: PatchEvent<P>) -> (res: Result<
        (PatchRun<P>, PatchAction<P>),
        CodexErr,
    >)
        requires
            awaits(self@, event@),
        ensures
            match res {
                Ok((run, action)) => patch_next(self@, event@) == Ok::<
                    (PatchView<P>, PatchActionView<P>),
                    CodexErrView,
                >((run@, action@)),
                Err(error) => patch_next(self@, event@) == Err::<
                    (PatchView<P>, PatchActionView<P>),
                    CodexErrView,
                >(error@),
            },
            match (self, event) {
                (PatchRun::LoadingConfig { inputs }, PatchEvent::ConfigLoaded(Ok(provider))) => res
                    == Ok::<(PatchRun<P>, PatchAction<P>), CodexErr>(
                    (
                        PatchRun::InitializingAuth { inputs, provider },
                        PatchAction::InitializeAuth { enable_codex_api_key_env: false },
                    ),
                ),
                (PatchRun::LoadingConfig { .. }, PatchEvent::ConfigLoaded(Err(message))) => {
                    &&& res is Err
                    &&& res->Err_0 is Fatal
                    &&& res->Err_0->Fatal_0@ == "failed to load Codex config: "@ + message@
                },
                (
                    PatchRun::InitializingAuth { inputs, provider },
                    PatchEvent::AuthInitialized(Ok(_)),
                ) => res == Ok::<(PatchRun<P>, PatchAction<P>), CodexErr>(
                    (PatchRun::RefreshingAuth { inputs, provider }, PatchAction::RefreshAuth),
                ),
                (PatchRun::InitializingAuth { .. }, PatchEvent::AuthInitialized(Err(message))) => {
                    &&& res is Err
                    &&& res->Err_0 is Fatal
                    &&& res->Err_0->Fatal_0@ == "failed to initialize Codex auth: "@ + message@
                },
                (PatchRun::RefreshingAuth { inputs, provider }, _) => {
                    &&& res is Ok <==> provider.wire_api == WireApi::Responses
                        && provider.supports_websockets
                    &&& res is Ok ==> res == Ok::<(PatchRun<P>, PatchAction<P>), CodexErr>(
                        (
                            PatchRun::FetchingCatalog { inputs },
                            PatchAction::FetchCatalog {
                                strategy: RefreshStrategy::Online,
                                use_cache: false,
                            },
                        ),
                    )
                    &&& res is Err ==> res->Err_0 is UnsupportedOperation
                },
                (PatchRun::FetchingCatalog { inputs }, PatchEvent::CatalogFetched(models)) => {
                    &&& res is Ok ==> {
                        &&& res->Ok_0.0 is StartingThread
                        &&& res->Ok_0.0->StartingThread_inputs == inputs
                        &&& res->Ok_0.1 is StartThread
                        &&& exists|i: int|
                            {
                                &&& 0 <= i < models@.len()
                                &&& #[trigger] models@[i] == res->Ok_0.0->StartingThread_model
                                &&& models@[i].slug@ == inputs.model@
                                &&& forall|j: int|
                                    0 <= j < i ==> (#[trigger] models@[j]).slug@ != inputs.model@
                            }
                    }
                    &&& res is Err ==> res->Err_0 !is Fatal
                    &&& res is Ok <==> exists|i: int|
                        {
                            &&& 0 <= i < models@.len()
                            &&& (#[trigger] models@[i]).slug@ == inputs.model@
                            &&& forall|j: int|
                                0 <= j < i ==> (#[trigger] models@[j]).slug@ != inputs.model@
                            &&& !models@[i].used_fallback_model_metadata
                            &&& !models@[i].bundled
                            &&& models@[i].supported_in_api
                            &&& models@[i].use_responses_lite
                        }
                },
                (
                    PatchRun::StartingThread { inputs, model },
                    PatchEvent::ThreadStarted { thread_id },
                ) => res == Ok::<(PatchRun<P>, PatchAction<P>), CodexErr>(
                    (
                        PatchRun::ResolvingInstallation { inputs, model, thread_id },
                        PatchAction::ResolveInstallationId,
                    ),
                ),
                (
                    PatchRun::ResolvingInstallation { inputs, model, thread_id },
                    PatchEvent::InstallationResolved(Ok(id)),
                ) => {
                    &&& res is Ok
                    &&& res->Ok_0.0 is Done
                    &&& res->Ok_0.1 is StreamOnce
                    &&& ({
                        let call = res->Ok_0.1->StreamOnce_0;
                        &&& call.prompt.input == inputs.input
                        &&& call.prompt.base_instructions == inputs.base_instructions
                        &&& call.prompt.tools@.len() == 0
                        &&& call.model == model
                        &&& call.effort == inputs.effort
                        &&& call.summary == inputs.summary
                        &&& call.service_tier is None
                        &&& call.raw_sink == inputs.raw_sink
                        &&& call.metadata.installation_id@ == id@
                        &&& call.metadata.session_id@ == inputs.session_id@
                        &&& call.metadata.turn_id@ == inputs.turn_id@
                        &&& call.metadata.thread_id@ == thread_id@
                        &&& call.telemetry.thread_id@ == thread_id@
                        &&& call.client.thread_id@ == thread_id@
                    })
                },
                (
                    PatchRun::ResolvingInstallation { .. },
                    PatchEvent::InstallationResolved(Err(message)),
                ) => {
                    &&& res is Err
                    &&& res->Err_0 is Fatal
                    &&& res->Err_0->Fatal_0@ == "failed to resolve Codex installation ID: "@
                        + message@
                },
                _ => true,
            },
    {
        match (self, event) {
            (PatchRun::LoadingConfig { inputs }, PatchEvent::ConfigLoaded(res)) => match res {
                Ok(provider) => Ok(
                    (
                        PatchRun::InitializingAuth { inputs, provider },
                        PatchAction::InitializeAuth { enable_codex_api_key_env: false },
                    ),
                ),
                Err(message) => Err(
                    CodexErr::Fatal(describe("failed to load Codex config: ", message.as_str())),
                ),
            },
            (
                PatchRun::InitializingAuth { inputs, provider },
                PatchEvent::AuthInitialized(res),
            ) => match res {
                Ok(_) => Ok(
                    (PatchRun::RefreshingAuth { inputs, provider }, PatchAction::RefreshAuth),
                ),
                Err(message) => Err(
                    CodexErr::Fatal(
                        describe("failed to initialize Codex auth: ", message.as_str()),
                    ),
                ),
            },
            (PatchRun::RefreshingAuth { inputs, provider }, PatchEvent::AuthRefreshed) => {
                match check_provider(provider) {
                    Ok(_) => Ok(
                        (
                            PatchRun::FetchingCatalog { inputs },
                            PatchAction::FetchCatalog {
                                strategy: RefreshStrategy::Online,
                                use_cache: false,
                            },
                        ),
                    ),
                    Err(refusal) => Err(refusal),
                }
            },
            (PatchRun::FetchingCatalog { inputs }, PatchEvent::CatalogFetched(models)) => {
                match choose_model(models, &inputs.model) {
                    Ok(model) => Ok(
                        (PatchRun::StartingThread { inputs, model }, PatchAction::StartThread),
                    ),
                    Err(refusal) => Err(refusal),
                }
            },
            (
                PatchRun::StartingThread { inputs, model },
                PatchEvent::ThreadStarted { thread_id },
            ) => Ok(
                (
                    PatchRun::ResolvingInstallation { inputs, model, thread_id },
                    PatchAction::ResolveInstallationId,
                ),
            ),
            (
                PatchRun::ResolvingInstallation { inputs, model, thread_id },
                PatchEvent::InstallationResolved(res),
            ) => match res {
                Ok(id) => Ok(
                    (
                        PatchRun::Done,
                        PatchAction::StreamOnce(build_call(inputs, model, thread_id, id)),
                    ),
                ),
                Err(message) => Err(
                    CodexErr::Fatal(
                        describe("failed to resolve Codex installation ID: ", message.as_str()),
                    ),
                ),
            },
            _ => unreached(),
        }
    }
}

} // verus!
