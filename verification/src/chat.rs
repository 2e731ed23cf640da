//! Routing of a chat request, up to the generation requests that go out to the two workers.
//!
//! Routing is done in steps, between which the caller connects to the workers.
//! [`GrpcPDRouter::plan_chat`] prepares the request and selects the workers;
//! [`GrpcPDRouter::dispatch_chat`] goes on once the client of the prefill worker has built the
//! generation request.
use crate::bits::{low_signed_32, to_low_signed_32};
use crate::ids::{is_completion_id, new_completion_id};
use crate::proto::{DisaggregatedParams, GenerateRequest};
use crate::protocol::{ChatCompletionRequest, ToolChoice};
use crate::reply::{
    Reply, BAD_REQUEST, INTERNAL_SERVER_ERROR, NOT_IMPLEMENTED, SERVICE_UNAVAILABLE,
};
use crate::router::GrpcPDRouter;
use crate::selection::{is_selected, PairSelection};
use crate::services::{ProcessedMessages, RouterServices, Tokenizer, Worker};
use crate::text::joined;
use std::sync::Arc;
use vstd::prelude::*;

verus! {

/// The bootstrap port of a worker that names none.
pub const DEFAULT_BOOTSTRAP_PORT: u16 = 8998;

/// `params` are the rendezvous at the prefill worker in the room given: its host, its port or the
/// default one, and the low bits of the room number.
pub open spec fn is_rendezvous(params: DisaggregatedParams, worker: Worker, room_id: u64) -> bool {
    &&& params.bootstrap_host == worker.bootstrap_host
    &&& params.bootstrap_port == match worker.bootstrap_port {
        Some(port) => port,
        None => DEFAULT_BOOTSTRAP_PORT,
    }
    &&& params.bootstrap_room == low_signed_32(room_id)
}

/// The rendezvous at the prefill worker in the room given.
pub fn rendezvous(prefill_worker: &Worker, room_id: u64) -> (params: DisaggregatedParams)
    ensures
        is_rendezvous(params, *prefill_worker, room_id),
{
    let bootstrap_port: u16 = match prefill_worker.bootstrap_port {
        Some(port) => port,
        None => DEFAULT_BOOTSTRAP_PORT,
    };
    DisaggregatedParams {
        bootstrap_host: prefill_worker.bootstrap_host.clone(),
        bootstrap_port: bootstrap_port as i32,
        bootstrap_room: to_low_signed_32(room_id),
    }
}

/// A request that is ready for its workers.
pub struct ChatPlan<S: RouterServices> {
    /// The request with the tools that are left to it.
    pub body: ChatCompletionRequest<S::Tool, S::Rest>,
    pub messages: ProcessedMessages<S::Multimodal>,
    pub token_ids: Vec<u32>,
    pub tool_call_constraint: Option<S::Constraint>,
    pub prefill_worker: Arc<Worker>,
    pub decode_worker: Arc<Worker>,
    /// The identifier of the generation request to build.
    pub request_id: String,
}

/// What planning comes to.
pub enum ChatPlanning<S: RouterServices> {
    Planned(ChatPlan<S>),
    Replied(Reply),
    /// A policy chose a place where there is no worker: nothing can be done with that.
    OutOfRange,
}

/// `encoded` is what `tokenizer` makes of `text`.
pub open spec fn encodes_to<T: Tokenizer>(
    tokenizer: &T,
    text: Seq<char>,
    encoded: Result<Vec<u32>, String>,
) -> bool {
    exists|t: &str| #[trigger] call_ensures(T::encode, (tokenizer, t), encoded) && t@ == text
}

/// `constraint` is what the tools left to a request bring: nothing without tools. The tool choice
/// and the model are those that the client asked for.
pub open spec fn is_constrained<S: RouterServices>(
    tools: Option<Vec<S::Tool>>,
    tool_choice: Option<ToolChoice>,
    model: String,
    constraint: Option<S::Constraint>,
) -> bool {
    match tools {
        Some(tools) => call_ensures(
            S::generate_tool_constraints,
            (&tools, &tool_choice, &model),
            constraint,
        ),
        None => constraint is None,
    }
}

/// The workers of a request are selected by its processed text.
pub open spec fn is_selected_for<S: RouterServices>(
    router: GrpcPDRouter<S>,
    text: Seq<char>,
    model_id: Option<&str>,
    selection: PairSelection,
) -> bool {
    exists|t: &str| #[trigger] is_selected(router, Some(t), model_id, selection) && t@ == text
}

/// What comes of the messages of a request, given what processing them gave: a failure is
/// answered as a bad request.
pub open spec fn refuses_messages(reply: Reply, error: Seq<char>) -> bool {
    reply.is_text(BAD_REQUEST, error)
}

/// A failure to tokenize is answered as an internal error of the server.
pub open spec fn refuses_encoding(reply: Reply, error: Seq<char>) -> bool {
    reply.is_text(INTERNAL_SERVER_ERROR, "Tokenization failed: "@ + error)
}

/// What routing makes of a selection: the pair, an answer that the service is not available, or
/// nothing.
pub enum RoutedPair {
    Pair { prefill: Arc<Worker>, decode: Arc<Worker> },
    Replied(Reply),
    OutOfRange,
}

/// `routed` is what routing makes of `selection`.
pub open spec fn is_routed(routed: RoutedPair, selection: PairSelection) -> bool {
    match selection {
        PairSelection::Pair { prefill, decode } => routed == (RoutedPair::Pair { prefill, decode }),
        PairSelection::Failed(error) => routed matches RoutedPair::Replied(reply) && reply.is_text(
            SERVICE_UNAVAILABLE,
            error.spec_message(),
        ),
        PairSelection::OutOfRange => routed == RoutedPair::OutOfRange,
    }
}

/// Goes on after a selection.
pub fn route_pair(selection: PairSelection) -> (routed: RoutedPair)
    ensures
        is_routed(routed, selection),
{
    match selection {
        PairSelection::Pair { prefill, decode } => RoutedPair::Pair { prefill, decode },
        PairSelection::Failed(error) => RoutedPair::Replied(
            Reply::text(SERVICE_UNAVAILABLE, error.message()),
        ),
        PairSelection::OutOfRange => RoutedPair::OutOfRange,
    }
}

/// The messages of a request, given what processing them gave.
pub fn route_messages<M>(processed: Result<ProcessedMessages<M>, String>) -> (result: Result<
    ProcessedMessages<M>,
    Reply,
>)
    ensures
        match processed {
            Ok(messages) => result == Ok::<ProcessedMessages<M>, Reply>(messages),
            Err(error) => result matches Err(reply) && refuses_messages(reply, error@),
        },
{
    match processed {
        Ok(messages) => Ok(messages),
        Err(error) => Err(Reply::text(BAD_REQUEST, error)),
    }
}

/// The tokens of a request, given what tokenizing its text gave.
pub fn route_tokens(encoded: Result<Vec<u32>, String>) -> (result: Result<Vec<u32>, Reply>)
    ensures
        match encoded {
            Ok(token_ids) => result == Ok::<Vec<u32>, Reply>(token_ids),
            Err(error) => result matches Err(reply) && refuses_encoding(reply, error@),
        },
{
    match encoded {
        Ok(token_ids) => Ok(token_ids),
        Err(error) => Err(
            Reply::text(INTERNAL_SERVER_ERROR, joined("Tokenization failed: ", error.as_str())),
        ),
    }
}

/// `planning` comes of a request whose tools were filtered to `filtered`. The first of these that
/// fails is answered: processing the messages, tokenizing the text, selecting the workers.
pub open spec fn is_planned<S: RouterServices>(
    router: GrpcPDRouter<S>,
    body: ChatCompletionRequest<S::Tool, S::Rest>,
    model_id: Option<&str>,
    filtered: ChatCompletionRequest<S::Tool, S::Rest>,
    planning: ChatPlanning<S>,
) -> bool {
    exists|processed: Result<ProcessedMessages<S::Multimodal>, String>|
        {
            &&& #[trigger] call_ensures(
                S::process_chat_messages,
                (&filtered, &*router.tokenizer),
                processed,
            )
            &&& match processed {
                Err(error) => planning matches ChatPlanning::Replied(reply) && refuses_messages(
                    reply,
                    error@,
                ),
                Ok(messages) => exists|encoded: Result<Vec<u32>, String>|
                    {
                        &&& #[trigger] encodes_to(&*router.tokenizer, messages.text@, encoded)
                        &&& match encoded {
                            Err(error) => planning matches ChatPlanning::Replied(reply)
                                && refuses_encoding(reply, error@),
                            Ok(token_ids) => exists|selection: PairSelection|
                                {
                                    &&& #[trigger] is_selected_for(
                                        router,
                                        messages.text@,
                                        model_id,
                                        selection,
                                    )
                                    &&& is_planned_for(
                                        body,
                                        filtered,
                                        messages,
                                        token_ids,
                                        selection,
                                        planning,
                                    )
                                },
                        }
                    },
            }
        }
}

/// `planning` comes of what the steps before selection brought, and of the selection.
pub open spec fn is_planned_for<S: RouterServices>(
    body: ChatCompletionRequest<S::Tool, S::Rest>,
    filtered: ChatCompletionRequest<S::Tool, S::Rest>,
    messages: ProcessedMessages<S::Multimodal>,
    token_ids: Vec<u32>,
    selection: PairSelection,
    planning: ChatPlanning<S>,
) -> bool {
    match selection {
        PairSelection::Pair { prefill, decode } => {
            &&& planning is Planned
            &&& planning->Planned_0.body == filtered
            &&& planning->Planned_0.messages == messages
            &&& planning->Planned_0.token_ids == token_ids
            &&& is_constrained::<S>(
                filtered.tools,
                body.tool_choice,
                body.model,
                planning->Planned_0.tool_call_constraint,
            )
            &&& planning->Planned_0.prefill_worker == prefill
            &&& planning->Planned_0.decode_worker == decode
            &&& is_completion_id(planning->Planned_0.request_id@)
        },
        PairSelection::Failed(error) => planning matches ChatPlanning::Replied(reply)
            && reply.is_text(SERVICE_UNAVAILABLE, error.spec_message()),
        PairSelection::OutOfRange => planning == ChatPlanning::<S>::OutOfRange,
    }
}

/// What a planned request goes on to.
#[derive(Debug, PartialEq, Eq)]
pub enum ChatDispatch<P> {
    /// Both workers generate, each by its own copy of the request.
    Generate { prefill_request: GenerateRequest<P>, decode_request: GenerateRequest<P> },
    Replied(Reply),
}

/// Two copies of a request: both name the same rendezvous.
pub fn duplicate<P: Clone>(request: GenerateRequest<P>) -> (copies: (
    GenerateRequest<P>,
    GenerateRequest<P>,
))
    ensures
        copies.1 == request,
        cloned(request.payload, copies.0.payload),
        copies.0.disaggregated_params == request.disaggregated_params,
{
    let disaggregated_params: Option<DisaggregatedParams> = match &request.disaggregated_params {
        Some(params) => Some(
            DisaggregatedParams {
                bootstrap_host: params.bootstrap_host.clone(),
                bootstrap_port: params.bootstrap_port,
                bootstrap_room: params.bootstrap_room,
            },
        ),
        None => None,
    };
    let copy = GenerateRequest { payload: request.payload.clone(), disaggregated_params };
    (copy, request)
}

impl<S: RouterServices> GrpcPDRouter<S> {
    /// Prepares a chat request and selects its workers.
    pub fn plan_chat(
        &self,
        body: &ChatCompletionRequest<S::Tool, S::Rest>,
        model_id: Option<&str>,
    ) -> (planning: ChatPlanning<S>)
        ensures
            exists|filtered: ChatCompletionRequest<S::Tool, S::Rest>| #[trigger]
                call_ensures(S::filter_tools_for_request, (body,), filtered) && is_planned(
                    *self,
                    *body,
                    model_id,
                    filtered,
                    planning,
                ),
    {
        let filtered = S::filter_tools_for_request(body);
        let processed = S::process_chat_messages(&filtered, &*self.tokenizer);
        let messages = match route_messages(processed) {
            Ok(messages) => messages,
            Err(reply) => return ChatPlanning::Replied(reply),
        };
        let encoded = self.tokenizer.encode(messages.text.as_str());
        assert(encodes_to(&*self.tokenizer, messages.text@, encoded));
        let token_ids = match route_tokens(encoded) {
            Ok(token_ids) => token_ids,
            Err(reply) => return ChatPlanning::Replied(reply),
        };
        let tool_call_constraint = match &filtered.tools {
            Some(tools) => S::generate_tool_constraints(tools, &body.tool_choice, &body.model),
            None => None,
        };
        let selection = self.select_pd_pair(Some(messages.text.as_str()), model_id);
        assert(is_selected_for(*self, messages.text@, model_id, selection));
        match route_pair(selection) {
            RoutedPair::Pair { prefill, decode } => ChatPlanning::Planned(
                ChatPlan {
                    body: filtered,
                    messages,
                    token_ids,
                    tool_call_constraint,
                    prefill_worker: prefill,
                    decode_worker: decode,
                    request_id: new_completion_id(),
                },
            ),
            RoutedPair::Replied(reply) => ChatPlanning::Replied(reply),
            RoutedPair::OutOfRange => ChatPlanning::OutOfRange,
        }
    }

    /// Names the rendezvous of the workers in a generation request: at the prefill worker, in a
    /// new room. The rest of the request stays as it is.
    pub fn inject_bootstrap_metadata(
        request: &mut GenerateRequest<S::Payload>,
        prefill_worker: &Worker,
    ) -> (result: Result<(), String>)
        ensures
            result is Ok,
            final(request).payload == old(request).payload,
            exists|room_id: u64| #[trigger]
                call_ensures(S::generate_room_id, (), room_id) && {
                    &&& final(request).disaggregated_params is Some
                    &&& is_rendezvous(
                        final(request).disaggregated_params->0,
                        *prefill_worker,
                        room_id,
                    )
                },
    {
        let room_id: u64 = S::generate_room_id();
        request.disaggregated_params = Some(rendezvous(prefill_worker, room_id));
        Ok(())
    }

    /// Goes on after the client of the prefill worker has built the generation request, or failed
    /// to: a failure is a bad request, a stream is refused, and otherwise both workers get the
    /// request with its rendezvous.
    pub fn dispatch_chat(
        &self,
        built: Result<GenerateRequest<S::Payload>, String>,
        prefill_worker: &Worker,
        stream: bool,
    ) -> (dispatch: ChatDispatch<S::Payload>)
        ensures
            match built {
                Err(error) => dispatch matches ChatDispatch::Replied(reply) && reply.is_text(
                    BAD_REQUEST,
                    "Invalid request parameters: "@ + error@,
                ),
                Ok(request) => if stream {
                    dispatch matches ChatDispatch::Replied(reply) && reply.is_text(
                        NOT_IMPLEMENTED,
                        "Streaming not yet implemented for PD mode"@,
                    )
                } else {
                    &&& dispatch is Generate
                    &&& dispatch->decode_request.payload == request.payload
                    &&& cloned(request.payload, dispatch->prefill_request.payload)
                    &&& dispatch->prefill_request.disaggregated_params
                        == dispatch->decode_request.disaggregated_params
                    &&& dispatch->decode_request.disaggregated_params is Some
                    &&& exists|room_id: u64| #[trigger]
                        call_ensures(S::generate_room_id, (), room_id) && is_rendezvous(
                            dispatch->decode_request.disaggregated_params->0,
                            *prefill_worker,
                            room_id,
                        )
                },
            },
    {
        let mut request = match built {
            Ok(request) => request,
            Err(error) => {
                return ChatDispatch::Replied(
                    Reply::text(BAD_REQUEST, joined("Invalid request parameters: ", error.as_str())),
                );
            },
        };
        match Self::inject_bootstrap_metadata(&mut request, prefill_worker) {
            Ok(()) => {},
            Err(error) => {
                return ChatDispatch::Replied(Reply::text(INTERNAL_SERVER_ERROR, error));
            },
        }
        if stream {
            return ChatDispatch::Replied(self.handle_streaming_chat());
        }
        let (prefill_request, decode_request) = duplicate(request);
        ChatDispatch::Generate { prefill_request, decode_request }
    }
}

} // verus!
