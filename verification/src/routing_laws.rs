//! What the steps of routing promise of their results, told by what goes into them.
use crate::chat::{
    duplicate, is_rendezvous, rendezvous, route_messages, route_pair, route_tokens, ChatDispatch,
    ChatPlan, ChatPlanning, RoutedPair,
};
use crate::ids::is_completion_id;
use crate::proto::{DisaggregatedParams, GenerateRequest};
use crate::protocol::ChatCompletionRequest;
use crate::reply::Reply;
use crate::router::{AppContext, GrpcPDRouter};
use crate::selection::{
    are_listed, can_play, is_selected, keep_playing, picks_for, playing, select_picked,
    selection_of, PairSelection, Role, RouterSummary, SelectionError,
};
use crate::services::{
    ConnectionMode, LoadBalancingPolicy, PolicyRegistry, ProcessedMessages, RouterServices,
    Tokenizer, Worker, WorkerRegistry, WorkerType,
};
use std::sync::Arc;
use vstd::prelude::*;

verus! {

/// A worker can play the role that its type names, and no other.
pub proof fn workers_play_what_they_are(worker: Worker, role: Role, yes: bool)
    requires
        call_ensures(can_play, (&worker, role), yes),
    ensures
        worker.worker_type is Prefill ==> yes == (role is Prefill),
        worker.worker_type is Decode ==> yes == (role is Decode),
        worker.worker_type is Regular ==> !yes,
{
}

/// One more worker is kept behind the others exactly where it is of the type that the role asks for.
pub proof fn one_more_worker_is_kept_by_its_type(
    workers: Seq<Arc<Worker>>,
    worker: Arc<Worker>,
    role: Role,
)
    ensures
        playing(Seq::empty(), role).len() == 0,
        (role is Prefill && worker.worker_type is Prefill) || (role is Decode
            && worker.worker_type is Decode) ==> playing(workers.push(worker), role) == playing(
            workers,
            role,
        ).push(worker),
        !((role is Prefill && worker.worker_type is Prefill) || (role is Decode
            && worker.worker_type is Decode)) ==> playing(workers.push(worker), role) == playing(
            workers,
            role,
        ),
{
    reveal(Seq::filter);
    assert(workers.push(worker).drop_last() =~= workers);
}

/// The same of what is kept: the kept workers of a longer list are those of the shorter one, and the
/// last one where it is of the right type.
pub proof fn kept_workers_keep_their_order(
    workers: Vec<Arc<Worker>>,
    longer: Vec<Arc<Worker>>,
    role: Role,
    kept: Vec<Arc<Worker>>,
    longer_kept: Vec<Arc<Worker>>,
)
    requires
        longer@.len() > 0,
        longer@.drop_last() == workers@,
        call_ensures(keep_playing, (&workers, role), kept),
        call_ensures(keep_playing, (&longer, role), longer_kept),
    ensures
        workers@.len() == 0 ==> kept@.len() == 0,
        (role is Prefill && longer@.last().worker_type is Prefill) || (role is Decode
            && longer@.last().worker_type is Decode) ==> longer_kept@ == kept@.push(
            longer@.last(),
        ),
        !((role is Prefill && longer@.last().worker_type is Prefill) || (role is Decode
            && longer@.last().worker_type is Decode)) ==> longer_kept@ == kept@,
{
    assert(workers@.push(longer@.last()) =~= longer@);
    one_more_worker_is_kept_by_its_type(workers@, longer@.last(), role);
    assert(workers@.len() == 0 ==> workers@ =~= Seq::empty());
}

/// `selection` is the pair at the places that were picked, or the first thing that is missing: a
/// prefill worker, a decode worker, a pick among the former, a pick among the latter; picks beyond
/// the workers select nothing.
pub open spec fn selects_the_picked(
    prefill_workers: Seq<Arc<Worker>>,
    decode_workers: Seq<Arc<Worker>>,
    prefill_pick: Option<usize>,
    decode_pick: Option<usize>,
    selection: PairSelection,
) -> bool {
    &&& prefill_workers.len() == 0 ==> selection == PairSelection::Failed(
        SelectionError::NoPrefillWorkers,
    )
    &&& prefill_workers.len() > 0 && decode_workers.len() == 0 ==> selection
        == PairSelection::Failed(SelectionError::NoDecodeWorkers)
    &&& prefill_workers.len() > 0 && decode_workers.len() > 0 ==> {
        &&& prefill_pick is None ==> selection == PairSelection::Failed(
            SelectionError::PrefillNotSelected,
        )
        &&& prefill_pick is Some && decode_pick is None ==> selection == PairSelection::Failed(
            SelectionError::DecodeNotSelected,
        )
        &&& prefill_pick matches Some(p) ==> decode_pick matches Some(d) ==> {
            &&& p < prefill_workers.len() && d < decode_workers.len() ==> {
                &&& selection is Pair
                &&& selection->prefill == prefill_workers[p as int]
                &&& selection->decode == decode_workers[d as int]
            }
            &&& p >= prefill_workers.len() || d >= decode_workers.len() ==> selection is OutOfRange
        }
    }
}

/// The workers at the places that the policies picked are selected, each from the list of its role.
pub proof fn the_picked_workers_are_selected(
    prefill_workers: Vec<Arc<Worker>>,
    decode_workers: Vec<Arc<Worker>>,
    prefill_pick: Option<usize>,
    decode_pick: Option<usize>,
    selection: PairSelection,
)
    requires
        call_ensures(
            select_picked,
            (&prefill_workers, &decode_workers, prefill_pick, decode_pick),
            selection,
        ),
    ensures
        selects_the_picked(
            prefill_workers@,
            decode_workers@,
            prefill_pick,
            decode_pick,
            selection,
        ),
{
}

/// Each failure of selection has its own message.
pub proof fn selection_errors_say_what_is_missing(error: SelectionError, message: String)
    requires
        call_ensures(SelectionError::message, (&error,), message),
    ensures
        error is NoPrefillWorkers ==> message@ == "No healthy prefill workers available"@,
        error is NoDecodeWorkers ==> message@ == "No healthy decode workers available"@,
        error is PrefillNotSelected ==> message@ == "Failed to select prefill worker"@,
        error is DecodeNotSelected ==> message@ == "Failed to select decode worker"@,
{
}

/// `workers` come of the call of the registry that a role and a model ask for: those that serve the
/// model and can play the role, or without a model those of the role that are reached by gRPC.
pub open spec fn come_of_the_registry<S: RouterServices>(
    router: GrpcPDRouter<S>,
    model: Option<&str>,
    role: Role,
    healthy_only: bool,
    workers: Seq<Arc<Worker>>,
) -> bool {
    match (model, role) {
        (Some(model), _) => exists|all: Vec<Arc<Worker>>| #[trigger]
            call_ensures(S::Registry::get_by_model_fast, (&*router.worker_registry, model), all)
                && workers == playing(all@, role),
        (None, Role::Prefill) => exists|all: Vec<Arc<Worker>>| #[trigger]
            call_ensures(
                S::Registry::get_workers_filtered,
                (
                    &*router.worker_registry,
                    None,
                    Some(WorkerType::Prefill { bootstrap_port: None }),
                    Some(ConnectionMode::Grpc { port: None }),
                    healthy_only,
                ),
                all,
            ) && workers == all@,
        (None, Role::Decode) => exists|all: Vec<Arc<Worker>>| #[trigger]
            call_ensures(
                S::Registry::get_workers_filtered,
                (
                    &*router.worker_registry,
                    None,
                    Some(WorkerType::Decode),
                    Some(ConnectionMode::Grpc { port: None }),
                    healthy_only,
                ),
                all,
            ) && workers == all@,
    }
}

/// `pick` is what the policy in force for the role answers on these workers and this text.
pub open spec fn comes_of_the_policy<S: RouterServices>(
    router: GrpcPDRouter<S>,
    role: Role,
    workers: Seq<Arc<Worker>>,
    request_text: Option<&str>,
    pick: Option<usize>,
) -> bool {
    exists|policy: Arc<<S::Policies as PolicyRegistry>::Policy>, list: &[Arc<Worker>]|
        {
            &&& #[trigger] call_ensures(
                <S::Policies as PolicyRegistry>::Policy::select_worker,
                (&*policy, list, request_text),
                pick,
            )
            &&& list@ == workers
            &&& role is Prefill ==> call_ensures(
                S::Policies::get_prefill_policy,
                (&*router.policy_registry,),
                policy,
            )
            &&& role is Decode ==> call_ensures(
                S::Policies::get_decode_policy,
                (&*router.policy_registry,),
                policy,
            )
        }
}

/// `selection` is what the registry and the policies of a router bring about: each role has its own
/// workers and its own policy, both policies are given the text of the request, and the model counts
/// only for a router that is aware of data parallelism.
pub open spec fn is_brought_about<S: RouterServices>(
    router: GrpcPDRouter<S>,
    request_text: Option<&str>,
    model_id: Option<&str>,
    selection: PairSelection,
) -> bool {
    let model = if router.dp_aware {
        model_id
    } else {
        None
    };
    exists|
        prefill_workers: Seq<Arc<Worker>>,
        decode_workers: Seq<Arc<Worker>>,
        prefill_pick: Option<usize>,
        decode_pick: Option<usize>,
    |
        {
            &&& come_of_the_registry(router, model, Role::Prefill, true, prefill_workers)
            &&& come_of_the_registry(router, model, Role::Decode, true, decode_workers)
            &&& prefill_workers.len() > 0 && decode_workers.len() > 0 ==> comes_of_the_policy(
                router,
                Role::Prefill,
                prefill_workers,
                request_text,
                prefill_pick,
            )
            &&& prefill_workers.len() > 0 && decode_workers.len() > 0 && prefill_pick is Some
                ==> comes_of_the_policy(
                router,
                Role::Decode,
                decode_workers,
                request_text,
                decode_pick,
            )
            &&& #[trigger] selects_the_picked(
                prefill_workers,
                decode_workers,
                prefill_pick,
                decode_pick,
                selection,
            )
        }
}

proof fn lemma_listed<S: RouterServices>(
    router: GrpcPDRouter<S>,
    model: Option<&str>,
    role: Role,
    healthy_only: bool,
    workers: Seq<Arc<Worker>>,
)
    requires
        are_listed(&*router.worker_registry, model, role, healthy_only, workers),
    ensures
        come_of_the_registry(router, model, role, healthy_only, workers),
{
}

proof fn lemma_brought_about<S: RouterServices>(
    router: GrpcPDRouter<S>,
    request_text: Option<&str>,
    model_id: Option<&str>,
    selection: PairSelection,
)
    requires
        is_selected(router, request_text, model_id, selection),
    ensures
        is_brought_about(router, request_text, model_id, selection),
{
    let model = if router.dp_aware {
        model_id
    } else {
        None
    };
    let (prefill_workers, decode_workers, prefill_pick, decode_pick) = choose|
        prefill_workers: Seq<Arc<Worker>>,
        decode_workers: Seq<Arc<Worker>>,
        prefill_pick: Option<usize>,
        decode_pick: Option<usize>,
    |
        {
            let asked = prefill_workers.len() > 0 && decode_workers.len() > 0;
            &&& are_listed(&*router.worker_registry, model, Role::Prefill, true, prefill_workers)
            &&& are_listed(&*router.worker_registry, model, Role::Decode, true, decode_workers)
            &&& asked ==> picks_for(
                &*router.policy_registry,
                Role::Prefill,
                prefill_workers,
                request_text,
                prefill_pick,
            )
            &&& asked && prefill_pick is Some ==> picks_for(
                &*router.policy_registry,
                Role::Decode,
                decode_workers,
                request_text,
                decode_pick,
            )
            &&& selection == #[trigger] selection_of(
                prefill_workers,
                decode_workers,
                prefill_pick,
                decode_pick,
            )
        };
    lemma_listed(router, model, Role::Prefill, true, prefill_workers);
    lemma_listed(router, model, Role::Decode, true, decode_workers);
    assert(selects_the_picked(
        prefill_workers,
        decode_workers,
        prefill_pick,
        decode_pick,
        selection,
    ));
}

/// A pair is selected by what the registry lists and the policies pick, and by nothing else.
pub proof fn registry_and_policies_select<S: RouterServices>(
    router: GrpcPDRouter<S>,
    request_text: Option<&str>,
    model_id: Option<&str>,
    selection: PairSelection,
)
    requires
        call_ensures(
            GrpcPDRouter::<S>::select_pd_pair,
            (&router, request_text, model_id),
            selection,
        ),
    ensures
        is_brought_about(router, request_text, model_id, selection),
{
    lemma_brought_about(router, request_text, model_id, selection);
}

/// The summary counts, for each role, what the registry lists for it, healthy or not.
pub proof fn summaries_count_what_is_listed<S: RouterServices>(
    router: GrpcPDRouter<S>,
    summary: RouterSummary,
)
    requires
        call_ensures(GrpcPDRouter::<S>::summary, (&router,), summary),
    ensures
        summary.dp_aware == router.dp_aware,
        exists|workers: Seq<Arc<Worker>>| #[trigger]
            come_of_the_registry(router, None, Role::Prefill, false, workers)
                && summary.prefill_workers_count == workers.len(),
        exists|workers: Seq<Arc<Worker>>| #[trigger]
            come_of_the_registry(router, None, Role::Decode, false, workers)
                && summary.decode_workers_count == workers.len(),
{
    let prefill = choose|workers: Seq<Arc<Worker>>| #[trigger]
        are_listed(&*router.worker_registry, None, Role::Prefill, false, workers)
            && summary.prefill_workers_count == workers.len();
    lemma_listed(router, None, Role::Prefill, false, prefill);
    let decode = choose|workers: Seq<Arc<Worker>>| #[trigger]
        are_listed(&*router.worker_registry, None, Role::Decode, false, workers)
            && summary.decode_workers_count == workers.len();
    lemma_listed(router, None, Role::Decode, false, decode);
}

/// `params` lead to the prefill worker: to its host, at its port or at 8998 where it names none, in
/// the room whose number agrees with the one drawn in the low 32 bits.
pub open spec fn leads_to_the_worker(
    params: DisaggregatedParams,
    worker: Worker,
    room_id: u64,
) -> bool {
    &&& params.bootstrap_host@ == worker.bootstrap_host@
    &&& worker.bootstrap_port matches Some(port) ==> params.bootstrap_port == port
    &&& worker.bootstrap_port is None ==> params.bootstrap_port == 8998
    &&& (params.bootstrap_room - room_id) % 0x1_0000_0000 == 0
}

/// The rendezvous leads to the prefill worker.
pub proof fn the_rendezvous_is_at_the_worker(
    worker: Worker,
    room_id: u64,
    params: DisaggregatedParams,
)
    requires
        call_ensures(rendezvous, (&worker, room_id), params),
    ensures
        leads_to_the_worker(params, worker, room_id),
{
}

/// The same of every rendezvous that contracts speak of.
pub proof fn every_rendezvous_is_at_its_worker(
    params: DisaggregatedParams,
    worker: Worker,
    room_id: u64,
)
    requires
        is_rendezvous(params, worker, room_id),
    ensures
        leads_to_the_worker(params, worker, room_id),
{
}

/// Injection names a rendezvous at the prefill worker, in a room that was drawn, and leaves the rest
/// of the request as it is.
pub proof fn injection_only_names_the_rendezvous<S: RouterServices>(
    before: GenerateRequest<S::Payload>,
    after: GenerateRequest<S::Payload>,
    worker: Worker,
    result: Result<(), String>,
)
    requires
        exists|request: &mut GenerateRequest<S::Payload>|
            {
                &&& #[trigger] call_ensures(
                    GrpcPDRouter::<S>::inject_bootstrap_metadata,
                    (request, &worker),
                    result,
                )
                &&& *request == before
                &&& *final(request) == after
            },
    ensures
        result is Ok,
        after.payload == before.payload,
        after.disaggregated_params is Some,
        exists|room_id: u64| #[trigger]
            call_ensures(S::generate_room_id, (), room_id) && leads_to_the_worker(
                after.disaggregated_params->0,
                worker,
                room_id,
            ),
{
}

/// Both copies of a request name the same rendezvous, and hold its payload.
pub proof fn copies_are_of_the_request<P: Clone>(
    request: GenerateRequest<P>,
    copies: (GenerateRequest<P>, GenerateRequest<P>),
)
    requires
        call_ensures(duplicate::<P>, (request,), copies),
    ensures
        copies.0.disaggregated_params == request.disaggregated_params,
        copies.1.disaggregated_params == request.disaggregated_params,
        copies.1.payload == request.payload,
        cloned(request.payload, copies.0.payload),
{
}

/// A request that was built goes out to both workers with one rendezvous at the prefill worker; a
/// stream is refused, and a request that could not be built is a bad one, stream or not.
pub proof fn requests_go_out_to_both_workers<S: RouterServices>(
    router: GrpcPDRouter<S>,
    built: Result<GenerateRequest<S::Payload>, String>,
    worker: Worker,
    stream: bool,
    dispatch: ChatDispatch<S::Payload>,
)
    requires
        call_ensures(
            GrpcPDRouter::<S>::dispatch_chat,
            (&router, built, &worker, stream),
            dispatch,
        ),
    ensures
        dispatch is Generate <==> built is Ok && !stream,
        built matches Err(error) ==> (dispatch matches ChatDispatch::Replied(
            Reply::Text { status, text },
        ) && status == 400 && text@ == "Invalid request parameters: "@ + error@),
        built is Ok && stream ==> (dispatch matches ChatDispatch::Replied(
            Reply::Text { status, text },
        ) && status == 501 && text@ == "Streaming not yet implemented for PD mode"@),
        built matches Ok(request) ==> !stream ==> {
            &&& dispatch->decode_request.payload == request.payload
            &&& cloned(request.payload, dispatch->prefill_request.payload)
            &&& dispatch->prefill_request.disaggregated_params is Some
            &&& dispatch->prefill_request.disaggregated_params
                == dispatch->decode_request.disaggregated_params
            &&& exists|room_id: u64| #[trigger]
                call_ensures(S::generate_room_id, (), room_id) && leads_to_the_worker(
                    dispatch->prefill_request.disaggregated_params->0,
                    worker,
                    room_id,
                )
        },
{
}

/// Messages go on as they were processed; a failure to process them is a bad request, in its own
/// words.
pub proof fn messages_go_on_as_processed<M>(
    processed: Result<ProcessedMessages<M>, String>,
    result: Result<ProcessedMessages<M>, Reply>,
)
    requires
        call_ensures(route_messages::<M>, (processed,), result),
    ensures
        processed is Ok <==> result is Ok,
        processed matches Ok(messages) ==> result->Ok_0 == messages,
        processed matches Err(error) ==> (result->Err_0 matches Reply::Text { status, text }
            && status == 400 && text@ == error@),
{
}

/// Tokens go on as they were encoded; a failure to tokenize is an error of the server.
pub proof fn tokens_go_on_as_encoded(
    encoded: Result<Vec<u32>, String>,
    result: Result<Vec<u32>, Reply>,
)
    requires
        call_ensures(route_tokens, (encoded,), result),
    ensures
        encoded is Ok <==> result is Ok,
        encoded matches Ok(token_ids) ==> result->Ok_0@ == token_ids@,
        encoded matches Err(error) ==> (result->Err_0 matches Reply::Text { status, text }
            && status == 500 && text@ == "Tokenization failed: "@ + error@),
{
}

/// The message that an answer gives for a failed selection.
pub open spec fn says_what_is_missing(error: SelectionError, text: Seq<char>) -> bool {
    match error {
        SelectionError::NoPrefillWorkers => text == "No healthy prefill workers available"@,
        SelectionError::NoDecodeWorkers => text == "No healthy decode workers available"@,
        SelectionError::PrefillNotSelected => text == "Failed to select prefill worker"@,
        SelectionError::DecodeNotSelected => text == "Failed to select decode worker"@,
    }
}

/// A pair goes on as it was selected; a failed selection is answered as a service that is not
/// available.
pub proof fn pairs_go_on_as_selected(selection: PairSelection, routed: RoutedPair)
    requires
        call_ensures(route_pair, (selection,), routed),
    ensures
        selection is Pair <==> routed is Pair,
        selection matches PairSelection::Pair { prefill, decode } ==> {
            routed->prefill == prefill && routed->decode == decode
        },
        selection matches PairSelection::Failed(error) ==> (routed matches RoutedPair::Replied(
            Reply::Text { status, text },
        ) && status == 503 && says_what_is_missing(error, text@)),
        selection is OutOfRange <==> routed is OutOfRange,
{
}

/// A plan holds what its request came to: the filtered request, its messages, its tokens, the workers
/// that were selected, and a constraint only where tools are left, made for the tool choice and the
/// model that the client asked for.
pub open spec fn plan_holds<S: RouterServices>(
    body: ChatCompletionRequest<S::Tool, S::Rest>,
    filtered: ChatCompletionRequest<S::Tool, S::Rest>,
    messages: ProcessedMessages<S::Multimodal>,
    token_ids: Vec<u32>,
    prefill: Arc<Worker>,
    decode: Arc<Worker>,
    plan: ChatPlan<S>,
) -> bool {
    &&& plan.body == filtered
    &&& plan.messages == messages
    &&& plan.token_ids == token_ids
    &&& plan.prefill_worker == prefill
    &&& plan.decode_worker == decode
    &&& filtered.tools is None ==> plan.tool_call_constraint is None
    &&& filtered.tools matches Some(tools) ==> call_ensures(
        S::generate_tool_constraints,
        (&tools, &body.tool_choice, &body.model),
        plan.tool_call_constraint,
    )
    &&& is_completion_id(plan.request_id@)
}

/// A request is planned in order: its tools are filtered, its messages processed, their text
/// tokenized, and workers selected for that text; the first step that fails is answered.
pub proof fn requests_are_planned_in_order<S: RouterServices>(
    router: GrpcPDRouter<S>,
    body: ChatCompletionRequest<S::Tool, S::Rest>,
    model_id: Option<&str>,
    planning: ChatPlanning<S>,
)
    requires
        call_ensures(GrpcPDRouter::<S>::plan_chat, (&router, &body, model_id), planning),
    ensures
        exists|
            filtered: ChatCompletionRequest<S::Tool, S::Rest>,
            processed: Result<ProcessedMessages<S::Multimodal>, String>,
        |
            {
                &&& #[trigger] call_ensures(S::filter_tools_for_request, (&body,), filtered)
                &&& #[trigger] call_ensures(
                    S::process_chat_messages,
                    (&filtered, &*router.tokenizer),
                    processed,
                )
                &&& match processed {
                    Err(error) => planning matches ChatPlanning::Replied(
                        Reply::Text { status, text },
                    ) && status == 400 && text@ == error@,
                    Ok(messages) => exists|t: &str, encoded: Result<Vec<u32>, String>|
                        {
                            &&& #[trigger] call_ensures(
                                S::Tokenizer::encode,
                                (&*router.tokenizer, t),
                                encoded,
                            )
                            &&& t@ == messages.text@
                            &&& match encoded {
                                Err(error) => planning matches ChatPlanning::Replied(
                                    Reply::Text { status, text },
                                ) && status == 500 && text@ == "Tokenization failed: "@ + error@,
                                Ok(token_ids) => exists|u: &str, selection: PairSelection|
                                    {
                                        &&& #[trigger] is_brought_about(
                                            router,
                                            Some(u),
                                            model_id,
                                            selection,
                                        )
                                        &&& u@ == messages.text@
                                        &&& match selection {
                                            PairSelection::Pair { prefill, decode } => {
                                                planning matches ChatPlanning::Planned(plan)
                                                    && plan_holds(
                                                    body,
                                                    filtered,
                                                    messages,
                                                    token_ids,
                                                    prefill,
                                                    decode,
                                                    plan,
                                                )
                                            },
                                            PairSelection::Failed(error) => {
                                                planning matches ChatPlanning::Replied(
                                                    Reply::Text { status, text },
                                                ) && status == 503 && says_what_is_missing(
                                                    error,
                                                    text@,
                                                )
                                            },
                                            PairSelection::OutOfRange => planning is OutOfRange,
                                        }
                                    },
                            }
                        },
                }
            },
{
    assert forall|u: &str, selection: PairSelection| #[trigger]
        is_selected(router, Some(u), model_id, selection) implies is_brought_about(
        router,
        Some(u),
        model_id,
        selection,
    ) by {
        lemma_brought_about(router, Some(u), model_id, selection);
    }
}

/// A router is made of the parts of its context; the first that is missing is named.
pub proof fn routers_are_made_of_their_context<S: RouterServices>(
    ctx: AppContext<S>,
    result: Result<GrpcPDRouter<S>, String>,
)
    requires
        call_ensures(GrpcPDRouter::<S>::new, (&ctx,), result),
    ensures
        result is Ok <==> ctx.tokenizer is Some && ctx.reasoning_parser_factory is Some
            && ctx.tool_parser_factory is Some,
        ctx.tokenizer is None ==> result->Err_0@ == "gRPC PD router requires tokenizer"@,
        ctx.tokenizer is Some && ctx.reasoning_parser_factory is None ==> result->Err_0@
            == "gRPC PD router requires reasoning parser factory"@,
        ctx.tokenizer is Some && ctx.reasoning_parser_factory is Some && ctx.tool_parser_factory
            is None ==> result->Err_0@ == "gRPC PD router requires tool parser factory"@,
        result matches Ok(router) ==> {
            &&& router.worker_registry == ctx.worker_registry
            &&& router.policy_registry == ctx.policy_registry
            &&& router.tokenizer == ctx.tokenizer->0
            &&& cloned(ctx.reasoning_parser_factory->0, router.reasoning_parser_factory)
            &&& cloned(ctx.tool_parser_factory->0, router.tool_parser_factory)
            &&& router.dp_aware == ctx.router_config.dp_aware
            &&& router.api_key == ctx.router_config.api_key
            &&& call_ensures(
                S::effective_retry_config,
                (&ctx.router_config,),
                router.retry_config,
            )
        },
{
}

/// The endpoints that are not offered say so, and two of them say it in words.
pub proof fn endpoints_not_offered_say_so<S: RouterServices>(
    router: GrpcPDRouter<S>,
    reply: Reply,
    words: Reply,
    stream: Reply,
    name: &'static str,
)
    requires
        call_ensures(GrpcPDRouter::<S>::health_generate, (&router,), words),
        call_ensures(GrpcPDRouter::<S>::handle_streaming_chat, (&router,), stream),
        call_ensures(GrpcPDRouter::<S>::router_type, (&router,), name),
        call_ensures(GrpcPDRouter::<S>::get_server_info, (&router,), reply) || call_ensures(
            GrpcPDRouter::<S>::get_models,
            (&router,),
            reply,
        ) || call_ensures(GrpcPDRouter::<S>::get_model_info, (&router,), reply) || call_ensures(
            GrpcPDRouter::<S>::route_generate,
            (&router,),
            reply,
        ) || call_ensures(GrpcPDRouter::<S>::route_completion, (&router,), reply) || call_ensures(
            GrpcPDRouter::<S>::route_responses,
            (&router,),
            reply,
        ) || call_ensures(GrpcPDRouter::<S>::get_response, (&router,), reply) || call_ensures(
            GrpcPDRouter::<S>::cancel_response,
            (&router,),
            reply,
        ) || call_ensures(GrpcPDRouter::<S>::route_embeddings, (&router,), reply) || call_ensures(
            GrpcPDRouter::<S>::route_rerank,
            (&router,),
            reply,
        ),
    ensures
        reply == Reply::Status(501),
        words matches Reply::Text { status, text } && status == 501 && text@
            == "Health generate not yet implemented for gRPC PD"@,
        stream matches Reply::Text { status, text } && status == 501 && text@
            == "Streaming not yet implemented for PD mode"@,
        name@ == "grpc_pd"@,
{
}

} // verus!
