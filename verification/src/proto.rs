//! The messages exchanged with the scheduler of a worker.
//!
//! `L` is the number type of log probabilities and `I` what a worker reports of the input's log
//! probabilities: both are carried, never computed with.
use vstd::prelude::*;

verus! {

/// Where the decode worker meets the prefill worker.
#[derive(Debug, PartialEq, Eq)]
pub struct DisaggregatedParams {
    pub bootstrap_host: String,
    pub bootstrap_port: i32,
    pub bootstrap_room: i32,
}

/// A generation request: what the scheduler client built, and the rendezvous of the two workers.
#[derive(Debug, PartialEq, Eq)]
pub struct GenerateRequest<P> {
    pub payload: P,
    pub disaggregated_params: Option<DisaggregatedParams>,
}

/// The most likely tokens at one position, with their log probabilities.
#[derive(Debug, PartialEq)]
pub struct TopLogProbs<L> {
    pub values: Vec<L>,
    pub token_ids: Vec<i32>,
}

/// The log probabilities of the generated tokens.
#[derive(Debug, PartialEq)]
pub struct OutputLogProbs<L> {
    pub token_logprobs: Vec<L>,
    pub token_ids: Vec<i32>,
    pub top_logprobs: Vec<TopLogProbs<L>>,
}

/// What ended a generation, where a stop condition did.
#[derive(Debug, PartialEq, Eq)]
pub enum MatchedStop {
    MatchedTokenId(u32),
    MatchedStopStr(String),
}

/// A finished generation.
#[derive(Debug, PartialEq)]
pub struct GenerateComplete<L, I> {
    pub output_ids: Vec<u32>,
    pub finish_reason: String,
    pub prompt_tokens: i32,
    pub completion_tokens: i32,
    pub matched_stop: Option<MatchedStop>,
    pub output_logprobs: Option<OutputLogProbs<L>>,
    pub input_logprobs: Option<I>,
}

} // verus!
