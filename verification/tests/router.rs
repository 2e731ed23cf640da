use pd_router::chat::{ChatDispatch, ChatPlanning};
use pd_router::choice::{ChoiceDraft, ChoiceStep};
use pd_router::completion::{ChoiceRun, RunStep};
use pd_router::proto::{
    GenerateComplete, GenerateRequest, MatchedStop, OutputLogProbs, TopLogProbs,
};
use pd_router::protocol::{
    ChatCompletionRequest, ChatLogProbs, FunctionCallResponse, StringOrArray, ToolCall, ToolChoice,
    ToolChoiceValue, Usage,
};
use pd_router::reply::Reply;
use pd_router::router::{AppContext, GrpcPDRouter};
use pd_router::selection::{PairSelection, RouterSummary, SelectionError};
use pd_router::services::{
    ConnectionMode, LoadBalancingPolicy, PolicyRegistry, ProcessedMessages, ReasoningFailure,
    ReasoningParserFactory, ReasoningResult, RouterConfig, RouterServices, SequenceDecoderOutput,
    StopDecoder, Tokenizer, Worker, WorkerRegistry, WorkerType,
};
use pd_router::tools::ToolFindings;
use std::sync::{Arc, Mutex};

/// A registry that serves fixed lists and writes down what it is asked.
#[derive(Default)]
struct Registry {
    by_model: Vec<Arc<Worker>>,
    prefill: Vec<Arc<Worker>>,
    decode: Vec<Arc<Worker>>,
    asked: Mutex<Vec<String>>,
}

impl WorkerRegistry for Registry {
    fn get_by_model_fast(&self, model: &str) -> Vec<Arc<Worker>> {
        self.asked.lock().unwrap().push(format!("model {}", model));
        self.by_model.clone()
    }

    fn get_workers_filtered(
        &self,
        model_id: Option<&str>,
        worker_type: Option<WorkerType>,
        connection_mode: Option<ConnectionMode>,
        healthy_only: bool,
    ) -> Vec<Arc<Worker>> {
        self.asked.lock().unwrap().push(format!(
            "{:?} {:?} {:?} {}",
            model_id, worker_type, connection_mode, healthy_only
        ));
        match worker_type {
            Some(WorkerType::Decode) => self.decode.clone(),
            _ => self.prefill.clone(),
        }
    }
}

struct Policy {
    pick: Option<usize>,
    texts: Mutex<Vec<Option<String>>>,
}

impl LoadBalancingPolicy for Policy {
    fn select_worker(&self, _workers: &[Arc<Worker>], request_text: Option<&str>) -> Option<usize> {
        self.texts.lock().unwrap().push(request_text.map(|text| text.to_string()));
        self.pick
    }
}

struct Policies {
    prefill: Arc<Policy>,
    decode: Arc<Policy>,
}

impl PolicyRegistry for Policies {
    type Policy = Policy;

    fn get_prefill_policy(&self) -> Arc<Policy> {
        self.prefill.clone()
    }

    fn get_decode_policy(&self) -> Arc<Policy> {
        self.decode.clone()
    }
}

/// Knows the tokens below 100, and fails on texts that begin with `!`.
struct Tokens;

impl Tokenizer for Tokens {
    fn encode(&self, text: &str) -> Result<Vec<u32>, String> {
        if text.starts_with('!') {
            Err("bad text".to_string())
        } else {
            Ok(text.chars().map(|c| c as u32).collect())
        }
    }

    fn decode(&self, token_ids: &[u32], skip_special_tokens: bool) -> Result<String, String> {
        assert_eq!(token_ids.len(), 1);
        assert!(!skip_special_tokens);
        if token_ids[0] < 100 {
            Ok(format!("t{}\u{e9}", token_ids[0]))
        } else {
            Err("unknown".to_string())
        }
    }
}

#[derive(Clone)]
struct Reasoning;

impl ReasoningParserFactory for Reasoning {
    fn detect_and_parse_reasoning(
        &self,
        model: &str,
        text: &str,
    ) -> Result<ReasoningResult, ReasoningFailure> {
        if model == "locked" {
            return Err(ReasoningFailure::Lock("poisoned".to_string()));
        }
        if model == "broken" {
            return Err(ReasoningFailure::Parse("no end".to_string()));
        }
        Ok(match text.split_once('|') {
            Some((reasoning, normal)) => ReasoningResult {
                normal_text: normal.to_string(),
                reasoning_text: reasoning.to_string(),
            },
            None => ReasoningResult {
                normal_text: text.to_string(),
                reasoning_text: String::new(),
            },
        })
    }
}

/// Turns each token into one output: 0 stops, 1 stops with text, 2 is held, 999 is an error. Unless it
/// is reset, it puts the count of tokens that it has seen before what it decodes; a leaky one does so
/// even if it is reset.
struct Decoder {
    resets: usize,
    seen: usize,
    leaky: bool,
    flush: SequenceDecoderOutput,
}

impl StopDecoder for Decoder {
    fn reset(&mut self) {
        self.resets += 1;
        if !self.leaky {
            self.seen = 0;
        }
    }

    fn process_tokens(&mut self, token_ids: &[u32]) -> Result<Vec<SequenceDecoderOutput>, String> {
        let seen = self.seen;
        self.seen += token_ids.len();
        if token_ids.contains(&999) {
            return Err("token 999".to_string());
        }
        let leftover = (seen > 0).then_some(SequenceDecoderOutput::Text(seen.to_string()));
        Ok(leftover
            .into_iter()
            .chain(token_ids.iter().map(|&id| match id {
                0 => SequenceDecoderOutput::Stopped,
                1 => SequenceDecoderOutput::StoppedWithText("<end>".to_string()),
                2 => SequenceDecoderOutput::Held,
                id => SequenceDecoderOutput::Text(
                    char::from_u32(id).map(|c| c.to_string()).unwrap_or_default(),
                ),
            }))
            .collect())
    }

    fn flush(&mut self) -> SequenceDecoderOutput {
        match &self.flush {
            SequenceDecoderOutput::Text(text) => SequenceDecoderOutput::Text(text.clone()),
            SequenceDecoderOutput::StoppedWithText(text) => {
                SequenceDecoderOutput::StoppedWithText(text.clone())
            }
            SequenceDecoderOutput::Held => SequenceDecoderOutput::Held,
            SequenceDecoderOutput::Stopped => SequenceDecoderOutput::Stopped,
        }
    }
}

fn decoder() -> Decoder {
    Decoder { resets: 0, seen: 0, leaky: false, flush: SequenceDecoderOutput::Held }
}

struct Services;

type Request = ChatCompletionRequest<String, String>;

type Router = GrpcPDRouter<Services>;

impl RouterServices for Services {
    type Registry = Registry;
    type Policies = Policies;
    type Tokenizer = Tokens;
    type ReasoningParsers = Reasoning;
    type ToolParsers = ();
    type Decoder = Decoder;
    type RetrySettings = u32;
    type RetryConfig = u32;
    type Tool = String;
    type Rest = String;
    type Multimodal = String;
    type Constraint = (usize, Option<String>, String);
    type Payload = String;

    fn effective_retry_config(config: &RouterConfig<u32>) -> u32 {
        config.retry + 1
    }

    fn generate_room_id() -> u64 {
        0x7fff_ffff_8000_0005
    }

    fn filter_tools_for_request(body: &Request) -> Request {
        let mut filtered = request(&body.rest);
        filtered.tools = body
            .tools
            .as_ref()
            .map(|tools| tools.iter().filter(|t| !t.starts_with('-')).cloned().collect());
        filtered.model = "filtered".to_string();
        filtered
    }

    fn process_chat_messages(
        body: &Request,
        _tokenizer: &Tokens,
    ) -> Result<ProcessedMessages<String>, String> {
        assert_eq!(body.model, "filtered");
        if body.rest.is_empty() {
            Err("no messages".to_string())
        } else {
            Ok(ProcessedMessages {
                text: body.rest.clone(),
                multimodal_inputs: Some("picture".to_string()),
            })
        }
    }

    fn generate_tool_constraints(
        tools: &Vec<String>,
        tool_choice: &Option<ToolChoice>,
        model: &String,
    ) -> Option<(usize, Option<String>, String)> {
        Some((tools.len(), tool_choice.as_ref().map(|c| format!("{:?}", c)), model.clone()))
    }

    fn create_stop_decoder(
        _tokenizer: &Arc<Tokens>,
        stop: Option<&StringOrArray>,
        stop_token_ids: Option<&Vec<u32>>,
        skip_special_tokens: bool,
        no_stop_trim: bool,
    ) -> Decoder {
        Decoder {
            resets: 0,
            seen: 0,
            leaky: false,
            flush: SequenceDecoderOutput::Text(format!(
                "{:?} {:?} {} {}",
                stop, stop_token_ids, skip_special_tokens, no_stop_trim
            )),
        }
    }

    fn parse_json_schema_response(
        text: &String,
        tool_choice: &Option<ToolChoice>,
    ) -> (Option<Vec<ToolCall>>, String) {
        if text.as_str() == "none" {
            (None, text.clone())
        } else {
            (
                Some(vec![ToolCall {
                    id: "call_0".to_string(),
                    tool_type: "function".to_string(),
                    function: FunctionCallResponse {
                        name: format!("{:?}", tool_choice.is_some()),
                        arguments: Some(text.clone()),
                    },
                }]),
                String::new(),
            )
        }
    }
}

fn worker(url: &str, worker_type: WorkerType, bootstrap_port: Option<u16>) -> Arc<Worker> {
    Arc::new(Worker {
        url: url.to_string(),
        worker_type,
        bootstrap_host: format!("host-{}", url),
        bootstrap_port,
    })
}

fn prefill(url: &str) -> Arc<Worker> {
    worker(url, WorkerType::Prefill { bootstrap_port: Some(9000) }, Some(9000))
}

fn decode(url: &str) -> Arc<Worker> {
    worker(url, WorkerType::Decode, None)
}

fn request(rest: &str) -> Request {
    ChatCompletionRequest {
        model: "m".to_string(),
        stream: false,
        logprobs: false,
        separate_reasoning: false,
        tools: None,
        tool_choice: None,
        stop: None,
        stop_token_ids: None,
        skip_special_tokens: true,
        no_stop_trim: false,
        rest: rest.to_string(),
    }
}

fn policy(pick: Option<usize>) -> Arc<Policy> {
    Arc::new(Policy { pick, texts: Mutex::new(Vec::new()) })
}

fn context(registry: Registry, p: Option<usize>, d: Option<usize>) -> AppContext<Services> {
    AppContext {
        worker_registry: Arc::new(registry),
        policy_registry: Arc::new(Policies { prefill: policy(p), decode: policy(d) }),
        tokenizer: Some(Arc::new(Tokens)),
        reasoning_parser_factory: Some(Reasoning),
        tool_parser_factory: Some(()),
        router_config: RouterConfig {
            dp_aware: false,
            api_key: Some("key".to_string()),
            retry: 4,
        },
    }
}

fn router_with(registry: Registry, p: Option<usize>, d: Option<usize>, dp_aware: bool) -> Router {
    let mut ctx = context(registry, p, d);
    ctx.router_config.dp_aware = dp_aware;
    match GrpcPDRouter::new(&ctx) {
        Ok(router) => router,
        Err(message) => panic!("{}", message),
    }
}

fn two_workers() -> Registry {
    Registry {
        prefill: vec![prefill("p0"), prefill("p1")],
        decode: vec![decode("d0"), decode("d1")],
        ..Registry::default()
    }
}

fn router() -> Router {
    router_with(two_workers(), Some(1), Some(0), false)
}

fn complete(output_ids: &[u32]) -> GenerateComplete<f32, String> {
    GenerateComplete {
        output_ids: output_ids.to_vec(),
        finish_reason: "stop".to_string(),
        prompt_tokens: 3,
        completion_tokens: 4,
        matched_stop: None,
        output_logprobs: None,
        input_logprobs: None,
    }
}

#[test]
fn new_takes_all_parts() {
    let ctx = context(two_workers(), None, None);
    let router = GrpcPDRouter::new(&ctx).ok().unwrap();
    assert!(Arc::ptr_eq(&router.worker_registry, &ctx.worker_registry));
    assert!(Arc::ptr_eq(&router.policy_registry, &ctx.policy_registry));
    assert!(Arc::ptr_eq(&router.tokenizer, ctx.tokenizer.as_ref().unwrap()));
    assert!(!router.dp_aware);
    assert_eq!(router.api_key, Some("key".to_string()));
    assert_eq!(router.retry_config, 5);
}

#[test]
fn new_names_the_first_missing_part() {
    let mut ctx = context(two_workers(), None, None);
    ctx.tool_parser_factory = None;
    assert_eq!(
        GrpcPDRouter::new(&ctx).err(),
        Some("gRPC PD router requires tool parser factory".to_string())
    );
    ctx.reasoning_parser_factory = None;
    assert_eq!(
        GrpcPDRouter::new(&ctx).err(),
        Some("gRPC PD router requires reasoning parser factory".to_string())
    );
    ctx.tokenizer = None;
    assert_eq!(
        GrpcPDRouter::new(&ctx).err(),
        Some("gRPC PD router requires tokenizer".to_string())
    );
}

#[test]
fn selection_without_dp_awareness_ignores_the_model() {
    let router = router();
    assert_eq!(
        router.select_pd_pair(Some("hi"), Some("m")),
        PairSelection::Pair { prefill: prefill("p1"), decode: decode("d0") }
    );
    let asked = router.worker_registry.asked.lock().unwrap();
    assert_eq!(
        *asked,
        vec![
            "None Some(Prefill { bootstrap_port: None }) Some(Grpc { port: None }) true"
                .to_string(),
            "None Some(Decode) Some(Grpc { port: None }) true".to_string(),
        ]
    );
    assert_eq!(
        *router.policy_registry.decode.texts.lock().unwrap(),
        vec![Some("hi".to_string())]
    );
}

#[test]
fn selection_by_model_keeps_to_the_roles() {
    let registry = Registry {
        by_model: vec![
            decode("d0"),
            prefill("p0"),
            worker("r", WorkerType::Regular, None),
            prefill("p1"),
            decode("d1"),
        ],
        ..Registry::default()
    };
    let router = router_with(registry, Some(1), Some(1), true);
    assert_eq!(
        router.select_pd_pair(None, Some("m")),
        PairSelection::Pair { prefill: prefill("p1"), decode: decode("d1") }
    );
    let asked = router.worker_registry.asked.lock().unwrap();
    assert_eq!(*asked, vec!["model m".to_string(), "model m".to_string()]);
}

#[test]
fn selection_by_role_when_no_model_is_named() {
    let router = router_with(two_workers(), Some(0), Some(1), true);
    assert_eq!(
        router.select_pd_pair(None, None),
        PairSelection::Pair { prefill: prefill("p0"), decode: decode("d1") }
    );
}

#[test]
fn selection_failures_in_their_order() {
    let none = router_with(Registry::default(), Some(0), Some(0), false);
    assert_eq!(
        none.select_pd_pair(None, None),
        PairSelection::Failed(SelectionError::NoPrefillWorkers)
    );
    let no_decode = Registry { prefill: vec![prefill("p")], ..Registry::default() };
    let no_decode = router_with(no_decode, Some(0), Some(0), false);
    assert_eq!(
        no_decode.select_pd_pair(None, None),
        PairSelection::Failed(SelectionError::NoDecodeWorkers)
    );
    assert!(no_decode.policy_registry.prefill.texts.lock().unwrap().is_empty());
    let refused = router_with(two_workers(), None, None, false);
    assert_eq!(
        refused.select_pd_pair(None, None),
        PairSelection::Failed(SelectionError::PrefillNotSelected)
    );
    assert!(refused.policy_registry.decode.texts.lock().unwrap().is_empty());
    let half = router_with(two_workers(), Some(7), None, false);
    assert_eq!(
        half.select_pd_pair(None, None),
        PairSelection::Failed(SelectionError::DecodeNotSelected)
    );
    let beyond = router_with(two_workers(), Some(0), Some(2), false);
    assert_eq!(beyond.select_pd_pair(None, None), PairSelection::OutOfRange);
}

#[test]
fn selection_errors_have_messages() {
    assert_eq!(
        SelectionError::NoPrefillWorkers.message(),
        "No healthy prefill workers available"
    );
    assert_eq!(SelectionError::NoDecodeWorkers.message(), "No healthy decode workers available");
    assert_eq!(SelectionError::PrefillNotSelected.message(), "Failed to select prefill worker");
    assert_eq!(SelectionError::DecodeNotSelected.message(), "Failed to select decode worker");
}

#[test]
fn summary_counts_unhealthy_workers_too() {
    let router = router();
    assert_eq!(
        router.summary(),
        RouterSummary { prefill_workers_count: 2, decode_workers_count: 2, dp_aware: false }
    );
    let asked = router.worker_registry.asked.lock().unwrap();
    assert!(asked.iter().all(|query| query.ends_with("false")));
}

#[test]
fn injection_names_the_rendezvous_and_nothing_else() {
    let mut request =
        GenerateRequest { payload: "body".to_string(), disaggregated_params: None };
    assert_eq!(Router::inject_bootstrap_metadata(&mut request, &prefill("p")), Ok(()));
    assert_eq!(request.payload, "body");
    let params = request.disaggregated_params.as_ref().unwrap();
    assert_eq!(params.bootstrap_host, "host-p");
    assert_eq!(params.bootstrap_port, 9000);
    assert_eq!(params.bootstrap_room, 0x7fff_ffff_8000_0005u64 as i32);
    assert_eq!(params.bootstrap_room, -2147483643);
    assert_eq!(Router::inject_bootstrap_metadata(&mut request, &decode("d")), Ok(()));
    assert_eq!(request.disaggregated_params.unwrap().bootstrap_port, 8998);
}

#[test]
fn planning_prepares_the_filtered_request() {
    let router = router();
    let mut body = request("hey");
    body.tools = Some(vec!["a".to_string(), "-b".to_string()]);
    body.tool_choice = Some(ToolChoice::Value(ToolChoiceValue::Auto));
    let plan = match router.plan_chat(&body, None) {
        ChatPlanning::Planned(plan) => plan,
        _ => panic!("not planned"),
    };
    assert_eq!(plan.body.model, "filtered");
    assert_eq!(plan.messages.text, "hey");
    assert_eq!(plan.messages.multimodal_inputs, Some("picture".to_string()));
    assert_eq!(plan.token_ids, vec![104, 101, 121]);
    assert_eq!(
        plan.tool_call_constraint,
        Some((1, Some("Value(Auto)".to_string()), "m".to_string()))
    );
    assert_eq!(plan.prefill_worker, prefill("p1"));
    assert_eq!(plan.decode_worker, decode("d0"));
    assert!(plan.request_id.starts_with("chatcmpl-"));
    assert_eq!(
        *router.policy_registry.prefill.texts.lock().unwrap(),
        vec![Some("hey".to_string())]
    );
}

#[test]
fn planning_without_tools_is_unconstrained() {
    match router().plan_chat(&request("hey"), None) {
        ChatPlanning::Planned(plan) => assert_eq!(plan.tool_call_constraint, None),
        _ => panic!("not planned"),
    }
}

#[test]
fn planning_answers_the_first_failure() {
    let reply_of = |router: &Router, rest: &str| match router.plan_chat(&request(rest), None) {
        ChatPlanning::Replied(reply) => reply,
        _ => panic!("no reply"),
    };
    let empty = router_with(Registry::default(), None, None, false);
    assert_eq!(
        reply_of(&empty, ""),
        Reply::Text { status: 400, text: "no messages".to_string() }
    );
    assert_eq!(
        reply_of(&empty, "!"),
        Reply::Text { status: 500, text: "Tokenization failed: bad text".to_string() }
    );
    assert_eq!(
        reply_of(&empty, "hey"),
        Reply::Text {
            status: 503,
            text: "No healthy prefill workers available".to_string()
        }
    );
    let beyond = router_with(two_workers(), Some(2), Some(0), false);
    assert!(matches!(beyond.plan_chat(&request("hey"), None), ChatPlanning::OutOfRange));
}

#[test]
fn dispatch_sends_one_request_to_both_workers() {
    let built = GenerateRequest { payload: "body".to_string(), disaggregated_params: None };
    match router().dispatch_chat(Ok(built), &prefill("p"), false) {
        ChatDispatch::Generate { prefill_request, decode_request } => {
            assert_eq!(prefill_request, decode_request);
            assert_eq!(prefill_request.payload, "body");
            assert_eq!(
                prefill_request.disaggregated_params.unwrap().bootstrap_host,
                "host-p"
            );
        }
        other => panic!("{:?}", other),
    }
}

#[test]
fn dispatch_refuses_bad_requests_and_streams() {
    assert_eq!(
        router().dispatch_chat(Err("no max_tokens".to_string()), &prefill("p"), true),
        ChatDispatch::Replied(Reply::Text {
            status: 400,
            text: "Invalid request parameters: no max_tokens".to_string()
        })
    );
    let built = GenerateRequest { payload: "body".to_string(), disaggregated_params: None };
    assert_eq!(
        router().dispatch_chat(Ok(built), &prefill("p"), true),
        ChatDispatch::Replied(Reply::Text {
            status: 501,
            text: "Streaming not yet implemented for PD mode".to_string()
        })
    );
}

#[test]
fn endpoints_that_are_not_offered() {
    let router = router();
    assert_eq!(
        router.health_generate(),
        Reply::Text {
            status: 501,
            text: "Health generate not yet implemented for gRPC PD".to_string()
        }
    );
    for reply in [
        router.get_server_info(),
        router.get_models(),
        router.get_model_info(),
        router.route_generate(),
        router.route_completion(),
        router.route_responses(),
        router.get_response(),
        router.cancel_response(),
        router.route_embeddings(),
        router.route_rerank(),
    ] {
        assert_eq!(reply, Reply::Status(501));
    }
    assert_eq!(router.router_type(), "grpc_pd");
}

#[test]
fn stop_decoder_gets_the_conditions_of_the_client() {
    let mut body = request("hey");
    body.stop = Some(StringOrArray::One("x".to_string()));
    body.stop_token_ids = Some(vec![7]);
    body.no_stop_trim = true;
    let mut decoder = router().stop_decoder(&body);
    assert_eq!(
        decoder.flush(),
        SequenceDecoderOutput::Text("Some(One(\"x\")) Some([7]) true true".to_string())
    );
}

fn draft(text: &str, reasoning: Option<&str>) -> ChoiceDraft {
    ChoiceDraft {
        text: text.to_string(),
        reasoning_text: reasoning.map(|text| text.to_string()),
    }
}

fn finish(text: &str, reasoning: Option<&str>) -> Result<ChoiceStep, String> {
    Ok(ChoiceStep::Finish { draft: draft(text, reasoning), tool_calls: None })
}

#[test]
fn choice_text_ends_at_the_first_stop() {
    let router = router();
    let body = request("hey");
    let mut dec = decoder();
    assert_eq!(
        router.begin_choice(&complete(&[104, 2, 105, 1, 106]), &body, &mut dec),
        finish("hi<end>", None)
    );
    assert_eq!(
        router.begin_choice(&complete(&[104, 0, 105]), &body, &mut dec),
        finish("h", None)
    );
    assert_eq!(dec.resets, 2);
    dec.flush = SequenceDecoderOutput::Text("!".to_string());
    assert_eq!(
        router.begin_choice(&complete(&[104, 0, 105]), &body, &mut dec),
        finish("h!", None)
    );
    dec.flush = SequenceDecoderOutput::StoppedWithText("!".to_string());
    assert_eq!(router.begin_choice(&complete(&[]), &body, &mut dec), finish("", None));
}

#[test]
fn choice_fails_when_tokens_do() {
    let body = request("hey");
    assert_eq!(
        router().begin_choice(&complete(&[999]), &body, &mut decoder()),
        Err("Failed to process tokens: token 999".to_string())
    );
}

#[test]
fn reasoning_is_parted_on_request() {
    let router = router();
    let mut body = request("hey");
    let tokens = complete(&[97, 124, 98]);
    assert_eq!(router.begin_choice(&tokens, &body, &mut decoder()), finish("a|b", None));
    body.separate_reasoning = true;
    assert_eq!(router.begin_choice(&tokens, &body, &mut decoder()), finish("b", Some("a")));
    assert_eq!(
        router.begin_choice(&complete(&[124, 98]), &body, &mut decoder()),
        finish("b", None)
    );
    body.model = "locked".to_string();
    assert_eq!(
        router.begin_choice(&tokens, &body, &mut decoder()),
        Err("Failed to acquire reasoning parser lock: poisoned".to_string())
    );
    body.model = "broken".to_string();
    assert_eq!(
        router.begin_choice(&tokens, &body, &mut decoder()),
        Err("Reasoning parsing error: no end".to_string())
    );
}

#[test]
fn tools_are_searched_by_schema_or_parser() {
    let router = router();
    let mut body = request("hey");
    body.tools = Some(Vec::new());
    let tokens = complete(&[97]);
    assert_eq!(
        router.begin_choice(&tokens, &body, &mut decoder()),
        Ok(ChoiceStep::DetectTools { draft: draft("a", None) })
    );
    body.tool_choice = Some(ToolChoice::Value(ToolChoiceValue::Required));
    match router.begin_choice(&tokens, &body, &mut decoder()) {
        Ok(ChoiceStep::Finish { draft, tool_calls: Some(calls) }) => {
            assert_eq!(draft.text, "");
            assert_eq!(calls[0].function.arguments, Some("a".to_string()));
        }
        other => panic!("{:?}", other),
    }
    body.tool_choice = Some(ToolChoice::Value(ToolChoiceValue::NoTools));
    assert_eq!(router.begin_choice(&tokens, &body, &mut decoder()), finish("a", None));
}

#[test]
fn finished_choice_shows_the_generation() {
    let router = router();
    let mut done = complete(&[]);
    done.matched_stop = Some(MatchedStop::MatchedTokenId(7));
    let choice = router.finish_choice(&done, 3, draft("text", Some("why")), None);
    assert_eq!(choice.index, 3);
    assert_eq!(choice.message.role, "assistant");
    assert_eq!(choice.message.content, Some("text".to_string()));
    assert_eq!(choice.message.reasoning_content, Some("why".to_string()));
    assert_eq!(choice.message.tool_calls, None);
    assert_eq!(choice.finish_reason, Some("stop".to_string()));
    assert_eq!(choice.matched_stop, Some(serde_json::Value::from(7u32)));
    assert_eq!(choice.logprobs, None);
    assert_eq!(choice.hidden_states, None);
    done.matched_stop = Some(MatchedStop::MatchedStopStr("</s>".to_string()));
    let calls = Some(Vec::new());
    let choice = router.finish_choice(&done, 0, draft("", None), calls);
    assert_eq!(choice.message.content, None);
    assert_eq!(choice.finish_reason, Some("tool_calls".to_string()));
    assert_eq!(choice.matched_stop, Some(serde_json::Value::from("</s>")));
}

fn logprobs() -> OutputLogProbs<f32> {
    OutputLogProbs {
        token_logprobs: vec![-0.5, -1.5, -2.5],
        token_ids: vec![5, -3],
        top_logprobs: vec![
            TopLogProbs { values: vec![-0.25, -0.75, -1.0], token_ids: vec![6, 1000] },
            TopLogProbs { values: vec![], token_ids: vec![9] },
        ],
    }
}

#[test]
fn logprobs_show_decoded_tokens() {
    let shown = router().convert_proto_to_openai_logprobs(&logprobs()).unwrap();
    let ChatLogProbs::Detailed { content } = shown;
    let entries = content.unwrap();
    assert_eq!(entries.len(), 3);
    assert_eq!(entries[0].token, "t5\u{e9}");
    assert_eq!(entries[0].logprob, -0.5);
    assert_eq!(entries[0].bytes, Some(vec![116, 53, 0xc3, 0xa9]));
    assert_eq!(entries[0].top_logprobs.len(), 2);
    assert_eq!(entries[0].top_logprobs[0].token, "t6\u{e9}");
    assert_eq!(entries[0].top_logprobs[0].logprob, -0.25);
    assert_eq!(entries[0].top_logprobs[0].bytes, Some(vec![116, 54, 0xc3, 0xa9]));
    assert_eq!(entries[0].top_logprobs[1].token, "<token_1000>");
    assert_eq!(entries[1].token, "<token_-3>");
    assert_eq!(entries[1].bytes, Some("<token_-3>".as_bytes().to_vec()));
    assert!(entries[1].top_logprobs.is_empty());
    assert_eq!(entries[2].token, "");
    assert_eq!(entries[2].logprob, -2.5);
    assert_eq!(entries[2].bytes, Some(vec![]));
    assert!(entries[2].top_logprobs.is_empty());
}

#[test]
fn logprobs_without_values_are_no_content() {
    let empty: OutputLogProbs<f32> = OutputLogProbs {
        token_logprobs: vec![],
        token_ids: vec![5],
        top_logprobs: vec![],
    };
    assert_eq!(
        router().convert_proto_to_openai_logprobs(&empty),
        Ok(ChatLogProbs::Detailed { content: None })
    );
}

#[test]
fn run_makes_choices_in_order() {
    let router = router();
    let body = request("hey");
    let mut second = complete(&[98]);
    second.prompt_tokens = 10;
    second.output_logprobs = Some(logprobs());
    let run = ChoiceRun::start(&vec![], vec![complete(&[97]), second], false).unwrap();
    let run = match run.advance(&router, &body, &mut decoder()) {
        RunStep::Done(run) => run,
        other => panic!("{:?}", other),
    };
    assert!(run.next_response().is_none());
    assert!(run.usage_fits());
    let response = run.finish("id".to_string(), Some(42), &body.model);
    assert_eq!(response.id, "id");
    assert_eq!(response.object, "chat.completion");
    assert_eq!(response.created, 42);
    assert_eq!(response.model, "m");
    assert_eq!(response.system_fingerprint, None);
    assert_eq!(
        response.usage,
        Some(Usage {
            prompt_tokens: 13,
            completion_tokens: 8,
            total_tokens: 21,
            completion_tokens_details: None,
        })
    );
    assert_eq!(response.choices.len(), 2);
    assert_eq!(response.choices[0].index, 0);
    assert_eq!(response.choices[0].message.content, Some("a".to_string()));
    assert_eq!(response.choices[0].logprobs, None);
    assert_eq!(response.choices[1].index, 1);
    assert_eq!(response.choices[1].message.content, Some("b".to_string()));
    assert!(response.choices[1].logprobs.is_some());
}

#[test]
fn run_waits_for_the_tool_parser() {
    let router = router();
    let mut body = request("hey");
    body.tools = Some(Vec::new());
    let run = ChoiceRun::start(&vec![], vec![complete(&[97])], false).unwrap();
    let (run, waiting) = match run.advance(&router, &body, &mut decoder()) {
        RunStep::DetectTools { run, draft } => (run, draft),
        other => panic!("{:?}", other),
    };
    assert_eq!(waiting, draft("a", None));
    assert_eq!(run.next_response().unwrap().0, 0);
    let findings = ToolFindings { tool_calls: Some(Vec::new()), text: "rest".to_string() };
    let run = run.finish_searched(&router, waiting, findings);
    match run.advance(&router, &body, &mut decoder()) {
        RunStep::Done(run) => {
            let response = run.finish("id".to_string(), None, &body.model);
            assert_eq!(response.created, 0);
            assert_eq!(response.choices[0].message.content, Some("rest".to_string()));
            assert_eq!(response.choices[0].finish_reason, Some("tool_calls".to_string()));
        }
        other => panic!("{:?}", other),
    }
}

#[test]
fn run_names_the_choice_that_failed() {
    let router = router();
    let body = request("hey");
    let run = ChoiceRun::start(&vec![], vec![complete(&[97]), complete(&[999])], false).unwrap();
    match run.advance(&router, &body, &mut decoder()) {
        RunStep::Failed(reply) => assert_eq!(
            reply,
            Reply::InternalError {
                message: "Failed to process choice 1: Failed to process tokens: token 999"
                    .to_string()
            }
        ),
        other => panic!("{:?}", other),
    }
}

#[test]
fn run_needs_a_response() {
    let none: Vec<GenerateComplete<f32, String>> = vec![];
    match ChoiceRun::start(&vec![complete(&[])], none, true) {
        Err(reply) => assert_eq!(
            reply,
            Reply::InternalError { message: "No responses from decode worker".to_string() }
        ),
        Ok(run) => panic!("{:?}", run),
    }
}

#[test]
fn input_logprobs_of_the_prefill_worker_are_merged_when_wanted() {
    let mut first = complete(&[]);
    first.input_logprobs = Some("prefill".to_string());
    let prefill_responses = vec![first, complete(&[])];
    let responses = || {
        let mut own = complete(&[97]);
        own.input_logprobs = Some("own".to_string());
        vec![own]
    };
    let input = |run: &ChoiceRun<f32, String>| {
        run.next_response().unwrap().1.input_logprobs.clone().unwrap()
    };
    let merged = ChoiceRun::start(&prefill_responses, responses(), true).unwrap();
    assert_eq!(input(&merged), "prefill");
    let unwanted = ChoiceRun::start(&prefill_responses, responses(), false).unwrap();
    assert_eq!(input(&unwanted), "own");
    let missing = ChoiceRun::start(&vec![complete(&[])], responses(), true).unwrap();
    assert_eq!(input(&missing), "own");
}

#[test]
fn usage_that_does_not_fit_is_told() {
    let mut negative = complete(&[]);
    negative.prompt_tokens = -1;
    let run = ChoiceRun::start(&vec![], vec![negative], false).unwrap();
    assert!(!run.usage_fits());
    let run = ChoiceRun::start(&vec![], vec![complete(&[])], false).unwrap();
    assert!(run.usage_fits());
}

#[test]
fn one_decoder_is_reset_for_each_choice() {
    let router = router();
    let body = request("hey");
    let mut dec = decoder();
    let responses = vec![complete(&[97]), complete(&[98]), complete(&[99])];
    let run = ChoiceRun::start(&vec![], responses, false).unwrap();
    assert!(matches!(run.advance(&router, &body, &mut dec), RunStep::Done(_)));
    assert_eq!(dec.resets, 3);
    let responses = vec![complete(&[97]), complete(&[999]), complete(&[99])];
    let run = ChoiceRun::start(&vec![], responses, false).unwrap();
    assert!(matches!(run.advance(&router, &body, &mut dec), RunStep::Failed(_)));
    assert_eq!(dec.resets, 5);
}

#[test]
fn planned_workers_by_model_play_their_roles() {
    let registry = Registry {
        by_model: vec![decode("d"), worker("r", WorkerType::Regular, None), prefill("p")],
        ..Registry::default()
    };
    let router = router_with(registry, Some(0), Some(0), true);
    match router.plan_chat(&request("hey"), Some("m")) {
        ChatPlanning::Planned(plan) => {
            assert_eq!(plan.prefill_worker, prefill("p"));
            assert_eq!(plan.decode_worker, decode("d"));
        }
        _ => panic!("not planned"),
    }
}

#[test]
fn input_logprobs_are_not_shown() {
    let router = router();
    let mut with = complete(&[97]);
    with.output_logprobs = Some(logprobs());
    with.input_logprobs = Some("input".to_string());
    let mut without = complete(&[97]);
    without.output_logprobs = Some(logprobs());
    assert_eq!(
        router.finish_choice(&with, 0, draft("a", None), None),
        router.finish_choice(&without, 0, draft("a", None), None)
    );
}

#[test]
fn earlier_tokens_do_not_show() {
    let router = router();
    let body = request("hey");
    let mut used = decoder();
    assert!(used.process_tokens(&[120, 121]).is_ok());
    assert_eq!(
        used.process_tokens(&[122]),
        Ok(vec![
            SequenceDecoderOutput::Text("2".to_string()),
            SequenceDecoderOutput::Text("z".to_string())
        ])
    );
    let tokens = complete(&[104, 105]);
    let fresh = router.begin_choice(&tokens, &body, &mut decoder());
    assert_eq!(router.begin_choice(&tokens, &body, &mut used), fresh);
    assert_eq!(fresh, finish("hi", None));
}

#[test]
fn choices_are_the_same_alone_and_among_others() {
    let router = router();
    let body = request("hey");
    let choices = |responses: Vec<GenerateComplete<f32, String>>| {
        let run = ChoiceRun::start(&vec![], responses, false).unwrap();
        match run.advance(&router, &body, &mut decoder()) {
            RunStep::Done(run) => run.finish("id".to_string(), None, &body.model).choices,
            other => panic!("{:?}", other),
        }
    };
    let rich = || {
        let mut rich = complete(&[104, 105, 1, 106]);
        rich.matched_stop = Some(MatchedStop::MatchedTokenId(1));
        rich.output_logprobs = Some(logprobs());
        rich
    };
    let mut among = choices(vec![complete(&[97]), rich(), complete(&[98])]).remove(1);
    let alone = choices(vec![rich()]).remove(0);
    assert_eq!(among.index, 1);
    assert_eq!(alone.index, 0);
    assert_eq!(alone.message.content, Some("hi<end>".to_string()));
    among.index = 0;
    assert_eq!(among, alone);
}

#[test]
fn prefill_responses_do_not_show() {
    let router = router();
    let mut body = request("hey");
    body.logprobs = true;
    body.tools = Some(Vec::new());
    let completion = |prefill_responses: Vec<GenerateComplete<f32, String>>, leaky: bool| {
        let mut second = complete(&[98]);
        second.output_logprobs = Some(logprobs());
        let responses = vec![complete(&[97]), second];
        let mut dec = decoder();
        dec.leaky = leaky;
        let mut run = ChoiceRun::start(&prefill_responses, responses, body.logprobs).unwrap();
        loop {
            match run.advance(&router, &body, &mut dec) {
                RunStep::Done(run) => {
                    return run.finish("id".to_string(), Some(7), &body.model);
                }
                RunStep::DetectTools { run: waiting, draft } => {
                    let text = format!("{}!", draft.text);
                    let findings = ToolFindings { tool_calls: None, text };
                    run = waiting.finish_searched(&router, draft, findings);
                }
                RunStep::Failed(reply) => panic!("{:?}", reply),
            }
        }
    };
    let prefill_response = || {
        let mut prefill_response = complete(&[120, 121]);
        prefill_response.input_logprobs = Some("input".to_string());
        prefill_response.prompt_tokens = 1000;
        prefill_response
    };
    let with = completion(vec![prefill_response()], false);
    assert_eq!(with.choices[1].message.content, Some("b!".to_string()));
    assert_eq!(with.usage.as_ref().unwrap().prompt_tokens, 6);
    assert_eq!(with, completion(vec![], false));
    let leaked = completion(vec![prefill_response()], true);
    assert_eq!(leaked.choices[1].message.content, Some("1b!".to_string()));
    assert_eq!(leaked, completion(vec![], true));
}
