//! The chat completion interface: what clients ask and what they are answered.
use vstd::prelude::*;

verus! {

/// The plain ways of choosing tools.
#[derive(Clone, Copy, Debug, PartialEq, Eq, Structural)]
pub enum ToolChoiceValue {
    Auto,
    NoTools,
    Required,
}

/// Which tools the model may call, or must.
#[derive(Debug, PartialEq, Eq)]
pub enum ToolChoice {
    Value(ToolChoiceValue),
    Function { name: String },
    AllowedTools { mode: String, names: Vec<String> },
}

/// One text or several.
#[derive(Debug, PartialEq, Eq)]
pub enum StringOrArray {
    One(String),
    Many(Vec<String>),
}

/// A chat completion request. `T` is a tool definition and `X` the rest of the request, which the
/// router hands on unread.
#[derive(Debug, PartialEq)]
pub struct ChatCompletionRequest<T, X> {
    pub model: String,
    pub stream: bool,
    pub logprobs: bool,
    pub separate_reasoning: bool,
    pub tools: Option<Vec<T>>,
    pub tool_choice: Option<ToolChoice>,
    /// The texts that end a generation.
    pub stop: Option<StringOrArray>,
    /// The tokens that end a generation.
    pub stop_token_ids: Option<Vec<u32>>,
    pub skip_special_tokens: bool,
    /// Whether the text that ended a generation is kept.
    pub no_stop_trim: bool,
    pub rest: X,
}

/// A function that the model calls, with its arguments as JSON text.
#[derive(Debug, PartialEq, Eq)]
pub struct FunctionCallResponse {
    pub name: String,
    pub arguments: Option<String>,
}

/// A tool call of an answer.
#[derive(Debug, PartialEq, Eq)]
pub struct ToolCall {
    pub id: String,
    pub tool_type: String,
    pub function: FunctionCallResponse,
}

/// The message of one choice.
#[derive(Debug, PartialEq, Eq)]
pub struct ChatCompletionMessage {
    pub role: String,
    pub content: Option<String>,
    pub tool_calls: Option<Vec<ToolCall>>,
    pub reasoning_content: Option<String>,
}

/// One of the most likely tokens at a position.
#[derive(Debug, PartialEq)]
pub struct TopLogProb<L> {
    pub token: String,
    pub logprob: L,
    pub bytes: Option<Vec<u8>>,
}

/// A generated token with its log probability.
#[derive(Debug, PartialEq)]
pub struct ChatLogProbsContent<L> {
    pub token: String,
    pub logprob: L,
    pub bytes: Option<Vec<u8>>,
    pub top_logprobs: Vec<TopLogProb<L>>,
}

/// The log probabilities of one choice.
#[derive(Debug, PartialEq)]
pub enum ChatLogProbs<L> {
    Detailed { content: Option<Vec<ChatLogProbsContent<L>>> },
}

/// One choice of a chat completion.
#[derive(Debug, PartialEq)]
pub struct ChatChoice<L> {
    pub index: u32,
    pub message: ChatCompletionMessage,
    pub logprobs: Option<ChatLogProbs<L>>,
    pub finish_reason: Option<String>,
    pub matched_stop: Option<serde_json::Value>,
    pub hidden_states: Option<Vec<L>>,
}

/// A breakdown of the completion tokens.
#[derive(Debug, PartialEq, Eq)]
pub struct CompletionTokensDetails {
    pub reasoning_tokens: Option<u32>,
}

/// The tokens that a request took.
#[derive(Debug, PartialEq, Eq)]
pub struct Usage {
    pub prompt_tokens: u32,
    pub completion_tokens: u32,
    pub total_tokens: u32,
    pub completion_tokens_details: Option<CompletionTokensDetails>,
}

/// A chat completion.
#[derive(Debug, PartialEq)]
pub struct ChatCompletionResponse<L> {
    pub id: String,
    pub object: String,
    pub created: u64,
    pub model: String,
    pub choices: Vec<ChatChoice<L>>,
    pub usage: Option<Usage>,
    pub system_fingerprint: Option<String>,
}

} // verus!
