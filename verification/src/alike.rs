//! Answers that read alike: the same contents, piece by piece.
//!
//! Texts are compared by their characters and JSON values by the number and the string that they
//! hold, so that two answers that are alike cannot be told apart by a client.
use crate::choice::{ChoiceDraft, ChoiceStep};
use crate::json::{json_number, json_string};
use crate::logprobs::text_or_placeholder;
use crate::proto::GenerateComplete;
use crate::protocol::{
    ChatChoice, ChatCompletionResponse, ChatLogProbs, ChatLogProbsContent, ToolCall, ToolChoice,
    TopLogProb,
};
use crate::reply::Reply;
use crate::router::GrpcPDRouter;
use crate::services::{
    ReasoningFailure, ReasoningParserFactory, ReasoningResult, RouterServices, Tokenizer,
};
use crate::tools::ToolFindings;
use vstd::prelude::*;

verus! {

/// The same text, or none on both sides.
pub open spec fn texts_alike(a: Option<String>, b: Option<String>) -> bool {
    match (a, b) {
        (Some(a), Some(b)) => a@ == b@,
        (None, None) => true,
        _ => false,
    }
}

/// The same bytes, or none on both sides.
pub open spec fn bytes_alike(a: Option<Vec<u8>>, b: Option<Vec<u8>>) -> bool {
    match (a, b) {
        (Some(a), Some(b)) => a@ == b@,
        (None, None) => true,
        _ => false,
    }
}

/// The same tool call.
pub open spec fn call_alike(a: ToolCall, b: ToolCall) -> bool {
    &&& a.id@ == b.id@
    &&& a.tool_type@ == b.tool_type@
    &&& a.function.name@ == b.function.name@
    &&& texts_alike(a.function.arguments, b.function.arguments)
}

/// The same tool calls in the same order, or none on both sides.
pub open spec fn calls_alike(a: Option<Vec<ToolCall>>, b: Option<Vec<ToolCall>>) -> bool {
    match (a, b) {
        (Some(a), Some(b)) => {
            &&& a.len() == b.len()
            &&& forall|i: int| 0 <= i < a.len() ==> call_alike(#[trigger] a@[i], b@[i])
        },
        (None, None) => true,
        _ => false,
    }
}

/// The same text with the same reasoning.
pub open spec fn drafts_alike(a: ChoiceDraft, b: ChoiceDraft) -> bool {
    &&& a.text@ == b.text@
    &&& texts_alike(a.reasoning_text, b.reasoning_text)
}

/// The same text with the same tool calls.
pub open spec fn findings_alike(a: ToolFindings, b: ToolFindings) -> bool {
    &&& a.text@ == b.text@
    &&& calls_alike(a.tool_calls, b.tool_calls)
}

/// Choices that begin alike: with the same error, or with the same draft that goes on alike.
pub open spec fn steps_alike(
    a: Result<ChoiceStep, String>,
    b: Result<ChoiceStep, String>,
) -> bool {
    match (a, b) {
        (Err(a), Err(b)) => a@ == b@,
        (
            Ok(ChoiceStep::Finish { draft: a, tool_calls: a_calls }),
            Ok(ChoiceStep::Finish { draft: b, tool_calls: b_calls }),
        ) => drafts_alike(a, b) && calls_alike(a_calls, b_calls),
        (
            Ok(ChoiceStep::DetectTools { draft: a }),
            Ok(ChoiceStep::DetectTools { draft: b }),
        ) => drafts_alike(a, b),
        _ => false,
    }
}

/// The same alternative token.
pub open spec fn top_alike<L>(a: TopLogProb<L>, b: TopLogProb<L>) -> bool {
    &&& a.token@ == b.token@
    &&& a.logprob == b.logprob
    &&& bytes_alike(a.bytes, b.bytes)
}

/// The same token with the same alternatives.
pub open spec fn entry_alike<L>(a: ChatLogProbsContent<L>, b: ChatLogProbsContent<L>) -> bool {
    &&& a.token@ == b.token@
    &&& a.logprob == b.logprob
    &&& bytes_alike(a.bytes, b.bytes)
    &&& a.top_logprobs.len() == b.top_logprobs.len()
    &&& forall|j: int|
        0 <= j < a.top_logprobs.len() ==> top_alike(
            #[trigger] a.top_logprobs@[j],
            b.top_logprobs@[j],
        )
}

/// The same log probabilities with the same tokens.
pub open spec fn content_alike<L>(a: ChatLogProbs<L>, b: ChatLogProbs<L>) -> bool {
    match (a->content, b->content) {
        (Some(a), Some(b)) => {
            &&& a.len() == b.len()
            &&& forall|i: int| 0 <= i < a.len() ==> entry_alike(#[trigger] a@[i], b@[i])
        },
        (None, None) => true,
        _ => false,
    }
}

/// The same log probabilities, or none on both sides.
pub open spec fn logprobs_alike<L>(a: Option<ChatLogProbs<L>>, b: Option<ChatLogProbs<L>>) -> bool {
    match (a, b) {
        (Some(a), Some(b)) => content_alike(a, b),
        (None, None) => true,
        _ => false,
    }
}

/// The same number or the same string, or nothing on both sides.
pub open spec fn stops_alike(
    a: Option<serde_json::Value>,
    b: Option<serde_json::Value>,
) -> bool {
    match (a, b) {
        (Some(a), Some(b)) => json_number(a) == json_number(b) && json_string(a) == json_string(b),
        (None, None) => true,
        _ => false,
    }
}

/// Choices that are alike but for the places at which they stand.
pub open spec fn alike_but_for_place<L>(a: ChatChoice<L>, b: ChatChoice<L>) -> bool {
    &&& a.message.role@ == b.message.role@
    &&& texts_alike(a.message.content, b.message.content)
    &&& calls_alike(a.message.tool_calls, b.message.tool_calls)
    &&& texts_alike(a.message.reasoning_content, b.message.reasoning_content)
    &&& logprobs_alike(a.logprobs, b.logprobs)
    &&& texts_alike(a.finish_reason, b.finish_reason)
    &&& stops_alike(a.matched_stop, b.matched_stop)
    &&& a.hidden_states == b.hidden_states
}

/// The same choice at the same place.
pub open spec fn choice_alike<L>(a: ChatChoice<L>, b: ChatChoice<L>) -> bool {
    a.index == b.index && alike_but_for_place(a, b)
}

/// The same choices in the same order.
pub open spec fn choices_alike<L>(a: Seq<ChatChoice<L>>, b: Seq<ChatChoice<L>>) -> bool {
    &&& a.len() == b.len()
    &&& forall|i: int| 0 <= i < a.len() ==> choice_alike(#[trigger] a[i], b[i])
}

/// The same choice, or the same error.
pub open spec fn results_alike<L>(
    a: Result<ChatChoice<L>, String>,
    b: Result<ChatChoice<L>, String>,
) -> bool {
    match (a, b) {
        (Ok(a), Ok(b)) => choice_alike(a, b),
        (Err(a), Err(b)) => a@ == b@,
        _ => false,
    }
}

/// The same completion.
pub open spec fn completions_alike<L>(
    a: ChatCompletionResponse<L>,
    b: ChatCompletionResponse<L>,
) -> bool {
    &&& a.id@ == b.id@
    &&& a.object@ == b.object@
    &&& a.created == b.created
    &&& a.model@ == b.model@
    &&& choices_alike(a.choices@, b.choices@)
    &&& a.usage == b.usage
    &&& texts_alike(a.system_fingerprint, b.system_fingerprint)
}

/// Both are internal errors with the same message.
pub open spec fn errors_alike(a: Reply, b: Reply) -> bool {
    match (a, b) {
        (Reply::InternalError { message: a }, Reply::InternalError { message: b }) => a@ == b@,
        _ => false,
    }
}

/// Two responses that differ in nothing but the log probabilities of the input.
pub open spec fn same_but_for_input<L, I>(
    a: GenerateComplete<L, I>,
    b: GenerateComplete<L, I>,
) -> bool {
    b == GenerateComplete { input_logprobs: b.input_logprobs, ..a }
}

/// A reasoning parser gave the same parts, or failed in the same way.
pub open spec fn parts_alike(
    a: Result<ReasoningResult, ReasoningFailure>,
    b: Result<ReasoningResult, ReasoningFailure>,
) -> bool {
    match (a, b) {
        (Ok(a), Ok(b)) => {
            a.normal_text@ == b.normal_text@ && a.reasoning_text@ == b.reasoning_text@
        },
        (Err(ReasoningFailure::Lock(a)), Err(ReasoningFailure::Lock(b))) => a@ == b@,
        (Err(ReasoningFailure::Parse(a)), Err(ReasoningFailure::Parse(b))) => a@ == b@,
        _ => false,
    }
}

/// The reasoning parsers answer alike when asked alike.
pub open spec fn parsers_answer_alike<F: ReasoningParserFactory>(parsers: &F) -> bool {
    forall|
        m1: &str,
        t1: &str,
        o1: Result<ReasoningResult, ReasoningFailure>,
        m2: &str,
        t2: &str,
        o2: Result<ReasoningResult, ReasoningFailure>,
    |
        {
            &&& #[trigger] call_ensures(F::detect_and_parse_reasoning, (parsers, m1, t1), o1)
            &&& #[trigger] call_ensures(F::detect_and_parse_reasoning, (parsers, m2, t2), o2)
            &&& m1@ == m2@
            &&& t1@ == t2@
        } ==> parts_alike(o1, o2)
}

/// The reader of texts that a JSON schema constrained answers alike when asked alike.
pub open spec fn schema_answers_alike<S: RouterServices>() -> bool {
    forall|
        t1: &String,
        f1: (Option<Vec<ToolCall>>, String),
        t2: &String,
        f2: (Option<Vec<ToolCall>>, String),
        tool_choice: &Option<ToolChoice>,
    |
        {
            &&& #[trigger] call_ensures(S::parse_json_schema_response, (t1, tool_choice), f1)
            &&& #[trigger] call_ensures(S::parse_json_schema_response, (t2, tool_choice), f2)
            &&& t1@ == t2@
        } ==> calls_alike(f1.0, f2.0) && f1.1@ == f2.1@
}

/// The tokenizer decodes a token to the same text each time, or fails each time.
pub open spec fn tokenizer_answers_alike<T: Tokenizer>(tokenizer: &T) -> bool {
    forall|
        ids1: &[u32],
        d1: Result<String, String>,
        ids2: &[u32],
        d2: Result<String, String>,
        token_id: i32,
    |
        {
            &&& #[trigger] call_ensures(T::decode, (tokenizer, ids1, false), d1)
            &&& #[trigger] call_ensures(T::decode, (tokenizer, ids2, false), d2)
            &&& ids1@ == ids2@
        } ==> #[trigger] text_or_placeholder(token_id, d1) == #[trigger] text_or_placeholder(
            token_id,
            d2,
        )
}

/// The services of a router answer alike when asked alike.
pub open spec fn services_answer_alike<S: RouterServices>(router: GrpcPDRouter<S>) -> bool {
    &&& parsers_answer_alike(&router.reasoning_parser_factory)
    &&& schema_answers_alike::<S>()
    &&& tokenizer_answers_alike(&*router.tokenizer)
}

} // verus!
