//! The services that a router is built on.
//!
//! Their methods promise nothing of their results: what the router proves, it proves for every
//! outcome of every call. A contract that depends on an outcome names the call and its arguments.
use crate::protocol::{ChatCompletionRequest, StringOrArray, ToolCall, ToolChoice};
use std::sync::Arc;
use vstd::prelude::*;

verus! {

/// What a worker is for.
#[derive(Clone, Copy, Debug, PartialEq, Eq, Structural)]
pub enum WorkerType {
    Regular,
    Prefill { bootstrap_port: Option<u16> },
    Decode,
}

/// How a worker is reached.
#[derive(Clone, Copy, Debug, PartialEq, Eq, Structural)]
pub enum ConnectionMode {
    Http,
    Grpc { port: Option<u16> },
}

/// A worker, as far as routing looks at it.
#[derive(Debug, PartialEq, Eq)]
pub struct Worker {
    pub url: String,
    pub worker_type: WorkerType,
    pub bootstrap_host: String,
    pub bootstrap_port: Option<u16>,
}

/// The known workers.
pub trait WorkerRegistry {
    /// The workers that serve `model`.
    fn get_by_model_fast(&self, model: &str) -> Vec<Arc<Worker>>;

    /// The workers that meet every condition given.
    fn get_workers_filtered(
        &self,
        model_id: Option<&str>,
        worker_type: Option<WorkerType>,
        connection_mode: Option<ConnectionMode>,
        healthy_only: bool,
    ) -> Vec<Arc<Worker>>;
}

/// A way of choosing one of several workers.
pub trait LoadBalancingPolicy {
    /// The place in `workers` of the one to use, or `None` to refuse them all.
    fn select_worker(&self, workers: &[Arc<Worker>], request_text: Option<&str>) -> Option<usize>;
}

/// The policies in force.
pub trait PolicyRegistry {
    type Policy: LoadBalancingPolicy;

    fn get_prefill_policy(&self) -> Arc<Self::Policy>;

    fn get_decode_policy(&self) -> Arc<Self::Policy>;
}

/// A tokenizer; errors come as messages.
pub trait Tokenizer {
    fn encode(&self, text: &str) -> Result<Vec<u32>, String>;

    fn decode(&self, token_ids: &[u32], skip_special_tokens: bool) -> Result<String, String>;
}

/// What a stop decoder makes of a token.
#[derive(Debug, PartialEq, Eq)]
pub enum SequenceDecoderOutput {
    /// Text to emit.
    Text(String),
    /// Nothing yet: the token may begin a stop sequence.
    Held,
    /// A stop condition, with the text before it.
    StoppedWithText(String),
    /// A stop condition.
    Stopped,
}

/// A decoder of tokens that watches for stop conditions; errors come as messages.
pub trait StopDecoder {
    fn reset(&mut self);

    fn process_tokens(&mut self, token_ids: &[u32]) -> Result<Vec<SequenceDecoderOutput>, String>;

    fn flush(&mut self) -> SequenceDecoderOutput;
}

/// A text parted into reasoning and the rest.
#[derive(Debug, PartialEq, Eq)]
pub struct ReasoningResult {
    pub normal_text: String,
    pub reasoning_text: String,
}

/// Why no reasoning could be parsed, with the message of the failure.
#[derive(Debug, PartialEq, Eq)]
pub enum ReasoningFailure {
    /// The parser of the model could not be locked.
    Lock(String),
    /// The parser failed.
    Parse(String),
}

/// The reasoning parsers, one shared by all requests for a model.
pub trait ReasoningParserFactory {
    /// Locks the parser of `model` and parses `text` with it.
    fn detect_and_parse_reasoning(&self, model: &str, text: &str) -> Result<
        ReasoningResult,
        ReasoningFailure,
    >;
}

/// The settings of a router. `C` holds the retry settings.
#[derive(Debug, PartialEq)]
pub struct RouterConfig<C> {
    pub dp_aware: bool,
    pub api_key: Option<String>,
    pub retry: C,
}

/// The messages of a request under the chat template. `M` is the multimodal input.
#[derive(Debug, PartialEq)]
pub struct ProcessedMessages<M> {
    pub text: String,
    pub multimodal_inputs: Option<M>,
}

/// All that a router depends on.
pub trait RouterServices: Sized {
    type Registry: WorkerRegistry;

    type Policies: PolicyRegistry;

    type Tokenizer: Tokenizer;

    type ReasoningParsers: ReasoningParserFactory + Clone;

    type ToolParsers: Clone;

    type Decoder: StopDecoder;

    /// The retry settings, and what comes into force of them.
    type RetrySettings;

    type RetryConfig;

    /// A tool definition.
    type Tool;

    /// What a chat request holds beside what routing reads.
    type Rest;

    type Multimodal;

    /// A constraint on the output that tools bring.
    type Constraint;

    /// A generation request without its rendezvous.
    type Payload: Clone;

    fn effective_retry_config(config: &RouterConfig<Self::RetrySettings>) -> Self::RetryConfig;

    /// A number for a new rendezvous of two workers.
    fn generate_room_id() -> u64;

    /// The request with the tools that its tool choice leaves.
    fn filter_tools_for_request(
        body: &ChatCompletionRequest<Self::Tool, Self::Rest>,
    ) -> ChatCompletionRequest<Self::Tool, Self::Rest>;

    fn process_chat_messages(
        body: &ChatCompletionRequest<Self::Tool, Self::Rest>,
        tokenizer: &Self::Tokenizer,
    ) -> Result<ProcessedMessages<Self::Multimodal>, String>;

    fn generate_tool_constraints(
        tools: &Vec<Self::Tool>,
        tool_choice: &Option<ToolChoice>,
        model: &String,
    ) -> Option<Self::Constraint>;

    /// A stop decoder for the stop conditions of a request.
    fn create_stop_decoder(
        tokenizer: &Arc<Self::Tokenizer>,
        stop: Option<&StringOrArray>,
        stop_token_ids: Option<&Vec<u32>>,
        skip_special_tokens: bool,
        no_stop_trim: bool,
    ) -> Self::Decoder;

    /// Reads the tool calls out of a text that a JSON schema constrained; gives them with the text
    /// that remains.
    fn parse_json_schema_response(text: &String, tool_choice: &Option<ToolChoice>) -> (
        Option<Vec<ToolCall>>,
        String,
    );
}

} // verus!
