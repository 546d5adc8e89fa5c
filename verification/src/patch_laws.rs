//! What holds of every patch run, whatever comes of its actions.

use vstd::prelude::*;

use crate::error::{CodexErr, CodexErrView};
use crate::patch::{
    about_model, catalog, chosen_model, first_with_slug, patch_call, patch_next, provider_refusal,
    AgentIdentityAuthPolicy, InputsView, ModelClientView, ModelInfo, ModelView, PatchActionView,
    PatchEventView, PatchRuntimeRequest, PatchTypes, PatchView, ProviderInfo, RefreshStrategy,
    TelemetryView, WireApi,
};

verus! {

/// What a run meets outside: what comes of each of its actions, should it get
/// that far.
pub struct PatchWorld<P: PatchTypes> {
    pub config: Result<ProviderInfo, Seq<char>>,
    pub auth: Result<(), Seq<char>>,
    pub models: Seq<ModelView<P::Details>>,
    pub thread_id: Seq<char>,
    pub installation_id: Result<Seq<char>, Seq<char>>,
}

/// What comes of the action that a run at `at` has asked for.
pub open spec fn answer<P: PatchTypes>(world: PatchWorld<P>, at: PatchView<P>) -> PatchEventView<P> {
    match at {
        PatchView::LoadingConfig { .. } => PatchEventView::ConfigLoaded(world.config),
        PatchView::InitializingAuth { .. } => PatchEventView::AuthInitialized(world.auth),
        PatchView::RefreshingAuth { .. } => PatchEventView::AuthRefreshed,
        PatchView::FetchingCatalog { .. } => PatchEventView::CatalogFetched(world.models),
        PatchView::StartingThread { .. } => PatchEventView::ThreadStarted {
            thread_id: world.thread_id,
        },
        _ => PatchEventView::InstallationResolved(world.installation_id),
    }
}

/// How many steps a run can still take.
pub open spec fn steps_left<P: PatchTypes>(at: PatchView<P>) -> nat {
    match at {
        PatchView::LoadingConfig { .. } => 6,
        PatchView::InitializingAuth { .. } => 5,
        PatchView::RefreshingAuth { .. } => 4,
        PatchView::FetchingCatalog { .. } => 3,
        PatchView::StartingThread { .. } => 2,
        PatchView::ResolvingInstallation { .. } => 1,
        PatchView::Done => 0,
    }
}

/// The actions that a run at `at` goes on to name, and its failure, if it fails.
pub open spec fn run_from<P: PatchTypes>(world: PatchWorld<P>, at: PatchView<P>) -> (
    Seq<PatchActionView<P>>,
    Option<CodexErrView>,
)
    decreases steps_left(at),
{
    if at is Done {
        (seq![], None)
    } else {
        match patch_next(at, answer(world, at)) {
            Ok((next, action)) => {
                let (rest, failure) = run_from(world, next);
                (seq![action] + rest, failure)
            },
            Err(failure) => (seq![], Some(failure)),
        }
    }
}

/// All actions of a run.
pub open spec fn run_actions<P: PatchTypes>(
    home: std::path::PathBuf,
    request: InputsView<P>,
    world: PatchWorld<P>,
) -> Seq<PatchActionView<P>> {
    seq![PatchActionView::LoadConfig(home)] + run_from(
        world,
        PatchView::LoadingConfig { inputs: request },
    ).0
}

/// How a run fails, if it fails.
pub open spec fn run_failure<P: PatchTypes>(request: InputsView<P>, world: PatchWorld<P>) -> Option<CodexErrView> {
    run_from(world, PatchView::LoadingConfig { inputs: request }).1
}

/// The first reason that a run has to stop, if there is one.
pub open spec fn first_obstacle<P: PatchTypes>(request: InputsView<P>, world: PatchWorld<P>) -> Option<
    CodexErrView,
> {
    if world.config is Err {
        Some(CodexErrView::Fatal("failed to load Codex config: "@ + world.config->Err_0))
    } else if world.auth is Err {
        Some(CodexErrView::Fatal("failed to initialize Codex auth: "@ + world.auth->Err_0))
    } else if provider_refusal(world.config->Ok_0) is Some {
        provider_refusal(world.config->Ok_0)
    } else if chosen_model(world.models, request.model) is Err {
        Some(chosen_model(world.models, request.model)->Err_0)
    } else if world.installation_id is Err {
        Some(
            CodexErrView::Fatal(
                "failed to resolve Codex installation ID: "@ + world.installation_id->Err_0,
            ),
        )
    } else {
        None
    }
}

/// The actions of a run that nothing stops.
pub open spec fn full_run<P: PatchTypes>(
    home: std::path::PathBuf,
    request: InputsView<P>,
    world: PatchWorld<P>,
) -> Seq<PatchActionView<P>> {
    seq![
        PatchActionView::LoadConfig(home),
        PatchActionView::InitializeAuth { enable_codex_api_key_env: false },
        PatchActionView::RefreshAuth,
        PatchActionView::FetchCatalog { strategy: RefreshStrategy::Online, use_cache: false },
        PatchActionView::StartThread,
        PatchActionView::ResolveInstallationId,
        PatchActionView::StreamOnce(
            patch_call(
                request,
                chosen_model(world.models, request.model)->Ok_0,
                world.thread_id,
                world.installation_id->Ok_0,
            ),
        ),
    ]
}

/// A run names its actions in one fixed order, stops at the first obstacle and
/// fails with exactly that one. Where nothing stands in its way it makes its
/// request.
pub proof fn run_follows_its_order<P: PatchTypes>(
    home: std::path::PathBuf,
    request: InputsView<P>,
    world: PatchWorld<P>,
)
    ensures
        run_failure(request, world) == first_obstacle(request, world),
        run_actions(home, request, world).is_prefix_of(full_run(home, request, world)),
        first_obstacle(request, world) is None <==> run_actions(home, request, world) == full_run(
            home,
            request,
            world,
        ),
        first_obstacle(request, world) is Some <==> run_actions(home, request, world).len() < 7,
{
    reveal_with_fuel(run_from, 7);
    let actions = run_actions(home, request, world);
    let full = full_run(home, request, world);
    assert(actions =~= full.take(actions.len() as int));
    if first_obstacle(request, world) is None {
        assert(actions =~= full);
    }
}

/// A run makes at most one request, and nothing is done after it: there is no
/// retry, no continuation and no other way to send.
pub proof fn one_request_at_most<P: PatchTypes>(
    home: std::path::PathBuf,
    request: InputsView<P>,
    world: PatchWorld<P>,
    i: int,
)
    requires
        0 <= i < run_actions(home, request, world).len(),
        run_actions(home, request, world)[i] is StreamOnce,
    ensures
        i == run_actions(home, request, world).len() - 1,
{
    run_follows_its_order(home, request, world);
    let full = full_run(home, request, world);
    assert(run_actions(home, request, world)[i] == full[i]);
}

/// A run that fails makes no request, and a run that makes its request has not
/// failed.
pub proof fn failed_runs_send_nothing<P: PatchTypes>(
    home: std::path::PathBuf,
    request: InputsView<P>,
    world: PatchWorld<P>,
)
    ensures
        run_failure(request, world) is None <==> exists|i: int|
            0 <= i < run_actions(home, request, world).len() && #[trigger] run_actions(
                home,
                request,
                world,
            )[i] is StreamOnce,
{
    run_follows_its_order(home, request, world);
    let actions = run_actions(home, request, world);
    let full = full_run(home, request, world);
    assert forall|i: int| 0 <= i < actions.len() implies #[trigger] actions[i] == full[i] by {}
    if run_failure(request, world) is None {
        assert(actions[6] is StreamOnce);
    }
}

/// A request is made only of a provider that speaks the Responses protocol over
/// WebSockets, and only for a model that the catalog lists under exactly the
/// requested slug, with metadata of its own that the refresh brought, and that
/// supports Responses Lite.
pub proof fn only_eligible_models_are_asked<P: PatchTypes>(
    home: std::path::PathBuf,
    request: InputsView<P>,
    world: PatchWorld<P>,
    i: int,
)
    requires
        0 <= i < run_actions(home, request, world).len(),
        run_actions(home, request, world)[i] is StreamOnce,
    ensures
        world.config is Ok,
        world.config->Ok_0.wire_api == WireApi::Responses,
        world.config->Ok_0.supports_websockets,
        world.auth is Ok,
        first_with_slug(world.models, request.model) is Some,
        ({
            let model = first_with_slug(world.models, request.model)->Some_0;
            &&& run_actions(home, request, world)[i]->StreamOnce_0.model == model
            &&& model.slug == request.model
            &&& world.models.contains(model)
            &&& !model.used_fallback_model_metadata
            &&& !model.bundled
            &&& model.supported_in_api
            &&& model.use_responses_lite
        }),
{
    run_follows_its_order(home, request, world);
    let full = full_run(home, request, world);
    assert(run_actions(home, request, world)[i] == full[i]);
    assert(i == 6);
    slug_is_listed(world.models, request.model);
}

/// A run for a model whose entry is made up or ships with the program is refused
/// as an invalid request, and nothing is asked of the provider but its catalog.
pub proof fn local_metadata_is_refused<P: PatchTypes>(
    home: std::path::PathBuf,
    request: InputsView<P>,
    world: PatchWorld<P>,
)
    requires
        world.config is Ok,
        provider_refusal(world.config->Ok_0) is None,
        world.auth is Ok,
        first_with_slug(world.models, request.model) is Some,
        ({
            let model = first_with_slug(world.models, request.model)->Some_0;
            model.used_fallback_model_metadata || model.bundled
        }),
    ensures
        run_failure(request, world) == Some(
            CodexErrView::InvalidRequest(
                about_model(request.model, "` resolved to fallback metadata"@),
            ),
        ),
        run_actions(home, request, world) == full_run(home, request, world).take(4),
{
    run_follows_its_order(home, request, world);
    reveal_with_fuel(run_from, 7);
    assert(run_actions(home, request, world) =~= full_run(home, request, world).take(4));
}

/// The entry that a slug resolves to is one of the catalog's and has exactly
/// that slug; where a slug resolves to nothing, no entry has it.
pub proof fn slug_is_listed<M>(models: Seq<ModelView<M>>, slug: Seq<char>)
    ensures
        first_with_slug(models, slug) is Some ==> {
            &&& models.contains(first_with_slug(models, slug)->Some_0)
            &&& first_with_slug(models, slug)->Some_0.slug == slug
        },
        first_with_slug(models, slug) is None <==> forall|i: int|
            0 <= i < models.len() ==> (#[trigger] models[i]).slug != slug,
    decreases models.len(),
{
    if models.len() > 0 {
        if models[0].slug != slug {
            let rest = models.drop_first();
            slug_is_listed(rest, slug);
            if first_with_slug(rest, slug) is Some {
                let found = first_with_slug(rest, slug)->Some_0;
                let k = choose|k: int| 0 <= k < rest.len() && rest[k] == found;
                assert(models[k + 1] == found);
                assert(models[k + 1].slug == slug);
            } else {
                assert forall|i: int| 0 <= i < models.len() implies (#[trigger] models[i]).slug
                    != slug by {
                    if i > 0 {
                        assert(rest[i - 1].slug != slug);
                    }
                }
            }
        }
    }
}

/// The request carries the caller's conversation, instructions, session and turn
/// as they are, adds no tools, and is made for the requested model.
pub proof fn request_is_the_callers<P: PatchTypes>(
    home: std::path::PathBuf,
    request: InputsView<P>,
    world: PatchWorld<P>,
    i: int,
)
    requires
        0 <= i < run_actions(home, request, world).len(),
        run_actions(home, request, world)[i] is StreamOnce,
    ensures
        ({
            let call = run_actions(home, request, world)[i]->StreamOnce_0;
            &&& call.prompt.input == request.input
            &&& call.prompt.base_instructions == request.base_instructions
            &&& call.prompt.tools.len() == 0
            &&& call.raw_sink == request.raw_sink
            &&& call.effort == request.effort
            &&& call.summary == request.summary
            &&& call.service_tier is None
            &&& call.metadata.session_id == request.session_id
            &&& call.metadata.turn_id == request.turn_id
            &&& call.metadata.thread_id == world.thread_id
            &&& call.telemetry.thread_id == world.thread_id
            &&& call.client.thread_id == world.thread_id
            &&& call.model.slug == request.model
            &&& call.telemetry.slug == request.model
        }),
{
    only_eligible_models_are_asked(home, request, world, i);
    run_follows_its_order(home, request, world);
    let full = full_run(home, request, world);
    assert(run_actions(home, request, world)[i] == full[i]);
    assert(i == 6);
}

/// The catalog is always a fresh one, asked for with credentials in place: it is
/// fetched online and without a cache, after configuration and credentials were
/// loaded.
pub proof fn catalog_is_fresh_and_authenticated<P: PatchTypes>(
    home: std::path::PathBuf,
    request: InputsView<P>,
    world: PatchWorld<P>,
    i: int,
)
    requires
        0 <= i < run_actions(home, request, world).len(),
        run_actions(home, request, world)[i] is FetchCatalog,
    ensures
        run_actions(home, request, world)[i] == (PatchActionView::<P>::FetchCatalog {
            strategy: RefreshStrategy::Online,
            use_cache: false,
        }),
        i == 3,
        run_actions(home, request, world)[0] == PatchActionView::<P>::LoadConfig(home),
        run_actions(home, request, world)[1] == (PatchActionView::<P>::InitializeAuth {
            enable_codex_api_key_env: false,
        }),
        run_actions(home, request, world)[2] == PatchActionView::<P>::RefreshAuth,
        world.config is Ok,
        world.auth is Ok,
{
    run_follows_its_order(home, request, world);
    let actions = run_actions(home, request, world);
    let full = full_run(home, request, world);
    assert forall|k: int| 0 <= k < actions.len() implies #[trigger] actions[k] == full[k] by {}
    reveal_with_fuel(run_from, 7);
}

/// Every request is made on a thread of its own, which its run has started for
/// it.
pub proof fn request_has_a_new_thread<P: PatchTypes>(
    home: std::path::PathBuf,
    request: InputsView<P>,
    world: PatchWorld<P>,
    i: int,
)
    requires
        0 <= i < run_actions(home, request, world).len(),
        run_actions(home, request, world)[i] is StreamOnce,
    ensures
        exists|k: int|
            0 <= k < i && #[trigger] run_actions(home, request, world)[k] is StartThread,
        forall|k: int, l: int|
            0 <= k < run_actions(home, request, world).len() && 0 <= l < run_actions(
                home,
                request,
                world,
            ).len() && #[trigger] run_actions(home, request, world)[k] is StartThread
                && #[trigger] run_actions(home, request, world)[l] is StartThread ==> k == l,
        run_actions(home, request, world)[i]->StreamOnce_0.metadata.thread_id == world.thread_id,
        run_actions(home, request, world)[i]->StreamOnce_0.telemetry.thread_id == world.thread_id,
        run_actions(home, request, world)[i]->StreamOnce_0.client.thread_id == world.thread_id,
{
    run_follows_its_order(home, request, world);
    let actions = run_actions(home, request, world);
    let full = full_run(home, request, world);
    assert forall|k: int| 0 <= k < actions.len() implies #[trigger] actions[k] == full[k] by {}
    assert(actions[4] is StartThread);
}

/// The actions and the failures of runs that are made one after the other, each
/// in the world as it then is.
pub open spec fn runs_in_turn<P: PatchTypes>(
    home: std::path::PathBuf,
    calls: Seq<(InputsView<P>, PatchWorld<P>)>,
) -> Seq<(Seq<PatchActionView<P>>, Option<CodexErrView>)> {
    calls.map_values(
        |call: (InputsView<P>, PatchWorld<P>)|
            (run_actions(home, call.0, call.1), run_failure(call.0, call.1)),
    )
}

/// A run goes by what it reads itself, as if no run had been made before it: of
/// two runs, the second does what it would do alone. It reads the configuration,
/// the credentials and the catalog again, the catalog online and without a cache,
/// and where it is accepted, the model is the one that the second catalog lists.
pub proof fn runs_share_nothing<P: PatchTypes>(
    home: std::path::PathBuf,
    first: InputsView<P>,
    before: PatchWorld<P>,
    second: InputsView<P>,
    now: PatchWorld<P>,
)
    ensures
        ({
            let (actions, failure) = runs_in_turn(home, seq![(first, before), (second, now)])[1];
            let full = full_run(home, second, now);
            &&& (actions, failure) == runs_in_turn(home, seq![(second, now)])[0]
            &&& failure == first_obstacle(second, now)
            &&& actions[0] == PatchActionView::<P>::LoadConfig(home)
            &&& actions.is_prefix_of(full)
            &&& full[3] == (PatchActionView::<P>::FetchCatalog {
                strategy: RefreshStrategy::Online,
                use_cache: false,
            })
            &&& full[4] is StartThread
            &&& failure is None ==> actions.last()->StreamOnce_0.model == chosen_model(
                now.models,
                second.model,
            )->Ok_0
        }),
{
    run_follows_its_order(home, second, now);
}

/// A slug resolves to the entry that lists it first, and the entries behind that
/// one do not matter.
pub proof fn first_listed_entry_counts<M>(models: Seq<ModelView<M>>, slug: Seq<char>, i: int)
    requires
        0 <= i < models.len(),
        models[i].slug == slug,
        forall|j: int| 0 <= j < i ==> (#[trigger] models[j]).slug != slug,
    ensures
        first_with_slug(models, slug) == Some(models[i]),
    decreases models.len(),
{
    if i > 0 {
        assert(models[0].slug != slug);
        let rest = models.drop_first();
        assert forall|j: int| 0 <= j < i - 1 implies (#[trigger] rest[j]).slug != slug by {
            assert(models[j + 1].slug != slug);
        }
        first_listed_entry_counts(rest, slug, i - 1);
    }
}

/// Only the entry that a slug resolves to decides: it is chosen exactly where it
/// has metadata of its own that the refresh brought, is supported in the API and
/// uses Responses Lite, whatever stands in the other entries. Otherwise its first
/// lack is named.
pub proof fn only_the_found_entry_decides<M>(models: Seq<ModelView<M>>, slug: Seq<char>, i: int)
    requires
        0 <= i < models.len(),
        models[i].slug == slug,
        forall|j: int| 0 <= j < i ==> (#[trigger] models[j]).slug != slug,
    ensures
        chosen_model(models, slug) is Ok <==> {
            &&& !models[i].used_fallback_model_metadata
            &&& !models[i].bundled
            &&& models[i].supported_in_api
            &&& models[i].use_responses_lite
        },
        chosen_model(models, slug) is Ok ==> chosen_model(models, slug)->Ok_0 == models[i],
        models[i].used_fallback_model_metadata || models[i].bundled ==> chosen_model(models, slug)
            == Err::<ModelView<M>, CodexErrView>(
            CodexErrView::InvalidRequest(
                "requested model `"@ + slug + "` resolved to fallback metadata"@,
            ),
        ),
        !models[i].used_fallback_model_metadata && !models[i].bundled && !(
        models[i].supported_in_api && models[i].use_responses_lite) ==> chosen_model(models, slug)
            == Err::<ModelView<M>, CodexErrView>(
            CodexErrView::UnsupportedOperation(
                "requested model `"@ + slug + "` does not support Responses Lite"@,
            ),
        ),
{
    first_listed_entry_counts(models, slug, i);
}

/// A slug that no entry lists is refused as such.
pub proof fn unlisted_models_are_refused<M>(models: Seq<ModelView<M>>, slug: Seq<char>)
    requires
        forall|j: int| 0 <= j < models.len() ==> (#[trigger] models[j]).slug != slug,
    ensures
        chosen_model(models, slug) == Err::<ModelView<M>, CodexErrView>(
            CodexErrView::InvalidRequest(
                "requested model `"@ + slug
                    + "` is not present in the effective authenticated catalog"@,
            ),
        ),
{
    slug_is_listed(models, slug);
}

/// Two catalogs that list the slug for the first time with the same entry are
/// answered alike.
pub proof fn other_entries_are_ignored<M>(
    one: Seq<ModelView<M>>,
    other: Seq<ModelView<M>>,
    slug: Seq<char>,
    i: int,
    k: int,
)
    requires
        0 <= i < one.len(),
        0 <= k < other.len(),
        one[i] == other[k],
        one[i].slug == slug,
        forall|j: int| 0 <= j < i ==> (#[trigger] one[j]).slug != slug,
        forall|j: int| 0 <= j < k ==> (#[trigger] other[j]).slug != slug,
    ensures
        chosen_model(one, slug) == chosen_model(other, slug),
{
    only_the_found_entry_decides(one, slug, i);
    only_the_found_entry_decides(other, slug, k);
}

/// The catalog that a run decides on has an entry for each one that was fetched,
/// in the same place and saying the same.
pub proof fn catalog_is_what_was_fetched<M>(models: Seq<ModelInfo<M>>, i: int)
    requires
        0 <= i < models.len(),
    ensures
        catalog(models).len() == models.len(),
        catalog(models)[i].slug == models[i].slug@,
        catalog(models)[i].used_fallback_model_metadata == models[i].used_fallback_model_metadata,
        catalog(models)[i].bundled == models[i].bundled,
        catalog(models)[i].supported_in_api == models[i].supported_in_api,
        catalog(models)[i].use_responses_lite == models[i].use_responses_lite,
        catalog(models)[i].details == models[i].details,
{
}

/// A refusal is known by its kind and its text.
pub proof fn refusals_keep_kind_and_text(error: CodexErr)
    ensures
        error matches CodexErr::Fatal(text) ==> error@ == CodexErrView::Fatal(text@),
        error matches CodexErr::UnsupportedOperation(text) ==> error@
            == CodexErrView::UnsupportedOperation(text@),
        error matches CodexErr::InvalidRequest(text) ==> error@ == CodexErrView::InvalidRequest(
            text@,
        ),
{
}

/// A provider serves a run exactly where it speaks the Responses protocol and
/// supports WebSockets; the protocol is looked at first.
pub proof fn providers_need_both(provider: ProviderInfo)
    ensures
        provider_refusal(provider) is None <==> provider.wire_api == WireApi::Responses
            && provider.supports_websockets,
        provider.wire_api != WireApi::Responses ==> provider_refusal(provider) == Some(
            CodexErrView::UnsupportedOperation("Patch runtime requires the Responses API provider"@),
        ),
        provider.wire_api == WireApi::Responses && !provider.supports_websockets
            ==> provider_refusal(provider) == Some(
            CodexErrView::UnsupportedOperation(
                "Patch runtime requires a WebSocket-capable provider"@,
            ),
        ),
{
}

/// A run that has a good configuration, credentials, provider and installation,
/// and whose slug resolves to an entry with metadata of its own that the refresh
/// brought, supported in the API and for Responses Lite, does not fail. Its last
/// action is its request, for that entry, and the request holds the caller's own
/// conversation from the first item to the last, and what else the caller gave.
pub proof fn good_runs_send_the_whole_conversation<P: PatchTypes>(
    request: PatchRuntimeRequest<P>,
    world: PatchWorld<P>,
    i: int,
)
    requires
        world.config is Ok,
        world.config->Ok_0.wire_api == WireApi::Responses,
        world.config->Ok_0.supports_websockets,
        world.auth is Ok,
        world.installation_id is Ok,
        0 <= i < world.models.len(),
        world.models[i].slug == request.model@,
        forall|j: int| 0 <= j < i ==> (#[trigger] world.models[j]).slug != request.model@,
        !world.models[i].used_fallback_model_metadata,
        !world.models[i].bundled,
        world.models[i].supported_in_api,
        world.models[i].use_responses_lite,
    ensures
        run_failure(request.inputs(), world) is None,
        ({
            let actions = run_actions(request.codex_home, request.inputs(), world);
            let call = actions.last()->StreamOnce_0;
            &&& actions.len() == 7
            &&& actions[0] == PatchActionView::<P>::LoadConfig(request.codex_home)
            &&& actions[1] == (PatchActionView::<P>::InitializeAuth {
                enable_codex_api_key_env: false,
            })
            &&& actions[2] is RefreshAuth
            &&& actions[3] == (PatchActionView::<P>::FetchCatalog {
                strategy: RefreshStrategy::Online,
                use_cache: false,
            })
            &&& actions[4] is StartThread
            &&& actions[5] is ResolveInstallationId
            &&& actions[6] is StreamOnce
            &&& call.prompt.input.len() == request.input@.len()
            &&& forall|k: int|
                0 <= k < request.input@.len() ==> #[trigger] call.prompt.input[k]
                    == request.input@[k]
            &&& call.prompt.base_instructions == request.base_instructions
            &&& call.prompt.tools.len() == 0
            &&& call.effort == request.effort
            &&& call.summary == request.summary
            &&& call.raw_sink == request.raw_sink
            &&& call.service_tier is None
            &&& call.model == world.models[i]
            &&& call.metadata.session_id == request.session_id@
            &&& call.metadata.turn_id == request.turn_id@
            &&& call.metadata.thread_id == world.thread_id
            &&& call.metadata.installation_id == world.installation_id->Ok_0
            &&& call.metadata.label == "patchwork"@
            &&& call.telemetry == (TelemetryView {
                thread_id: world.thread_id,
                model: request.model@,
                slug: request.model@,
                account_id: None,
                account_email: None,
                auth_mode: None,
                originator: "patch"@,
                log_user_prompts: false,
                terminal: "patchwork"@,
                custom_source: "patch"@,
            })
            &&& call.client == (ModelClientView {
                auth_policy: AgentIdentityAuthPolicy::JwtOnly,
                thread_id: world.thread_id,
                custom_source: "patch"@,
                originator: "patch"@,
                model_verbosity: None,
                enable_request_compression: false,
                include_timing_metrics: false,
                beta_features_header: None,
                concurrent_reasoning_summaries_enabled: false,
                with_attestation: false,
            })
        }),
{
    only_the_found_entry_decides(world.models, request.model@, i);
    run_follows_its_order(request.codex_home, request.inputs(), world);
}

/// What stops a run, and how it then fails: the first thing that goes wrong is
/// the one that is told, in its own words, and nothing is asked for after it.
pub proof fn each_obstacle_is_told<P: PatchTypes>(
    home: std::path::PathBuf,
    request: InputsView<P>,
    world: PatchWorld<P>,
)
    ensures
        world.config matches Err(message) ==> {
            &&& run_failure(request, world) == Some(
                CodexErrView::Fatal("failed to load Codex config: "@ + message),
            )
            &&& run_actions(home, request, world).len() == 1
        },
        world.config is Ok && world.auth is Err ==> {
            &&& run_failure(request, world) == Some(
                CodexErrView::Fatal("failed to initialize Codex auth: "@ + world.auth->Err_0),
            )
            &&& run_actions(home, request, world).len() == 2
        },
        world.config is Ok && world.auth is Ok && world.config->Ok_0.wire_api
            != WireApi::Responses ==> {
            &&& run_failure(request, world) == Some(
                CodexErrView::UnsupportedOperation(
                    "Patch runtime requires the Responses API provider"@,
                ),
            )
            &&& run_actions(home, request, world).len() == 3
        },
        world.config is Ok && world.auth is Ok && world.config->Ok_0.wire_api == WireApi::Responses
            && !world.config->Ok_0.supports_websockets ==> {
            &&& run_failure(request, world) == Some(
                CodexErrView::UnsupportedOperation(
                    "Patch runtime requires a WebSocket-capable provider"@,
                ),
            )
            &&& run_actions(home, request, world).len() == 3
        },
        world.config is Ok && world.auth is Ok && world.config->Ok_0.wire_api == WireApi::Responses
            && world.config->Ok_0.supports_websockets && chosen_model(world.models, request.model)
            is Err ==> {
            &&& run_failure(request, world) == Some(
                chosen_model(world.models, request.model)->Err_0,
            )
            &&& run_actions(home, request, world).len() == 4
        },
        world.config is Ok && world.auth is Ok && world.config->Ok_0.wire_api == WireApi::Responses
            && world.config->Ok_0.supports_websockets && chosen_model(world.models, request.model)
            is Ok && world.installation_id is Err ==> {
            &&& run_failure(request, world) == Some(
                CodexErrView::Fatal(
                    "failed to resolve Codex installation ID: "@ + world.installation_id->Err_0,
                ),
            )
            &&& run_actions(home, request, world).len() == 6
        },
{
    reveal_with_fuel(run_from, 7);
}

/// Requests for conversations that differ anywhere differ: no item can be lost,
/// added, changed or moved without the request showing it.
pub proof fn different_conversations_are_sent_differently<P: PatchTypes>(
    one: PatchRuntimeRequest<P>,
    other: PatchRuntimeRequest<P>,
    model: ModelView<P::Details>,
    thread_id: Seq<char>,
    installation_id: Seq<char>,
)
    requires
        one.input@ != other.input@,
    ensures
        patch_call(one.inputs(), model, thread_id, installation_id) != patch_call(
            other.inputs(),
            model,
            thread_id,
            installation_id,
        ),
{
    let first = patch_call(one.inputs(), model, thread_id, installation_id);
    let second = patch_call(other.inputs(), model, thread_id, installation_id);
    assert(first.prompt.input == one.input@);
    assert(second.prompt.input == other.input@);
}

} // verus!
