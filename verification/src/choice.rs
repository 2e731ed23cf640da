//! One choice of a chat completion, made of one finished generation.
//!
//! A choice is made in steps. [`GrpcPDRouter::begin_choice`] decodes the tokens, parts the
//! reasoning from the text and decides how the text is searched for tool calls; where the tool
//! parser of the model has to look, the caller asks it. [`GrpcPDRouter::finish_choice`] puts the
//! choice together.
use crate::bits::{low_unsigned_32, to_low_unsigned_32};
use crate::json::{json_number, json_string, number_value, string_value};
use crate::logprobs::shows;
use crate::proto::{GenerateComplete, MatchedStop};
use crate::protocol::{
    ChatChoice, ChatCompletionMessage, ChatCompletionRequest, ChatLogProbs, ToolCall, ToolChoice,
};
use crate::router::GrpcPDRouter;
use crate::services::{
    ReasoningFailure, ReasoningParserFactory, ReasoningResult, RouterServices,
    SequenceDecoderOutput, StopDecoder,
};
use crate::text::joined;
use crate::tools::{tool_mode, tool_mode_of, ToolMode};
use vstd::prelude::*;
use vstd::string::StringExecFns;

verus! {

/// The text that outputs of a stop decoder emit: that of all before the first stop condition, and
/// the text that comes with it.
pub open spec fn emitted(outputs: Seq<SequenceDecoderOutput>) -> Seq<char>
    decreases outputs.len(),
{
    if outputs.len() == 0 {
        Seq::empty()
    } else {
        match outputs[0] {
            SequenceDecoderOutput::Text(text) => text@ + emitted(outputs.skip(1)),
            SequenceDecoderOutput::Held => emitted(outputs.skip(1)),
            SequenceDecoderOutput::StoppedWithText(text) => text@,
            SequenceDecoderOutput::Stopped => Seq::empty(),
        }
    }
}

/// The text that flushing a stop decoder adds: only plain text counts.
pub open spec fn flushed_text(output: SequenceDecoderOutput) -> Seq<char> {
    match output {
        SequenceDecoderOutput::Text(text) => text@,
        _ => Seq::empty(),
    }
}

/// The text of a generation, given what the stop decoder made of its tokens and what flushing the
/// decoder gave.
pub fn collect_text(
    outputs: &Vec<SequenceDecoderOutput>,
    flushed: &SequenceDecoderOutput,
) -> (text: String)
    ensures
        text@ == emitted(outputs@) + flushed_text(*flushed),
{
    let mut text: String = String::new();
    let mut i: usize = 0;
    let mut stopped: bool = false;
    assert(outputs@.skip(0) =~= outputs@);
    while i < outputs.len() && !stopped
        invariant
            i <= outputs.len(),
            emitted(outputs@) =~= if stopped {
                text@
            } else {
                text@ + emitted(outputs@.skip(i as int))
            },
        decreases outputs.len() - i,
    {
        assert(outputs@.skip(i as int)[0] == outputs@[i as int]);
        assert(outputs@.skip(i as int).skip(1) =~= outputs@.skip(i + 1));
        match &outputs[i] {
            SequenceDecoderOutput::Text(part) => text.append(part.as_str()),
            SequenceDecoderOutput::Held => {},
            SequenceDecoderOutput::StoppedWithText(part) => {
                text.append(part.as_str());
                stopped = true;
            },
            SequenceDecoderOutput::Stopped => {
                stopped = true;
            },
        }
        i += 1;
    }
    assert(!stopped ==> outputs@.skip(i as int) =~= Seq::empty());
    if let SequenceDecoderOutput::Text(part) = flushed {
        text.append(part.as_str());
    }
    assert(text@ =~= emitted(outputs@) + flushed_text(*flushed));
    text
}

/// A choice in the making: its text, and the reasoning that was parted from it.
#[derive(Debug, PartialEq, Eq)]
pub struct ChoiceDraft {
    pub text: String,
    pub reasoning_text: Option<String>,
}

/// The draft, or the error, that the outcome of a reasoning parser brings: reasoning without text
/// is none.
pub open spec fn is_parted(
    result: Result<ChoiceDraft, String>,
    outcome: Result<ReasoningResult, ReasoningFailure>,
) -> bool {
    match outcome {
        Ok(parts) => {
            &&& result is Ok
            &&& result->Ok_0.text@ == parts.normal_text@
            &&& match result->Ok_0.reasoning_text {
                Some(reasoning) => parts.reasoning_text@.len() > 0 && reasoning@
                    == parts.reasoning_text@,
                None => parts.reasoning_text@.len() == 0,
            }
        },
        Err(ReasoningFailure::Lock(message)) => {
            result matches Err(error) && error@ == "Failed to acquire reasoning parser lock: "@
                + message@
        },
        Err(ReasoningFailure::Parse(message)) => {
            result matches Err(error) && error@ == "Reasoning parsing error: "@ + message@
        },
    }
}

/// Makes a draft of what a reasoning parser gave.
pub fn part_reasoning(
    outcome: Result<ReasoningResult, ReasoningFailure>,
) -> (result: Result<ChoiceDraft, String>)
    ensures
        is_parted(result, outcome),
{
    match outcome {
        Ok(parts) => {
            let reasoning_text: Option<String> = if parts.reasoning_text.as_str().is_empty() {
                None
            } else {
                Some(parts.reasoning_text)
            };
            Ok(ChoiceDraft { text: parts.normal_text, reasoning_text })
        },
        Err(ReasoningFailure::Lock(message)) => Err(
            joined("Failed to acquire reasoning parser lock: ", message.as_str()),
        ),
        Err(ReasoningFailure::Parse(message)) => Err(
            joined("Reasoning parsing error: ", message.as_str()),
        ),
    }
}

/// What a choice waits for.
#[derive(Debug, PartialEq, Eq)]
pub enum ChoiceStep {
    /// Nothing: it can be finished with these tool calls.
    Finish { draft: ChoiceDraft, tool_calls: Option<Vec<ToolCall>> },
    /// The tool parser of the model, which has to look at the text of the draft.
    DetectTools { draft: ChoiceDraft },
}

/// A draft comes of `text`: with its reasoning parted where the request asks for that, else as it
/// is.
pub open spec fn is_drafted<F: ReasoningParserFactory>(
    parsers: &F,
    separate_reasoning: bool,
    model: Seq<char>,
    text: Seq<char>,
    result: Result<ChoiceDraft, String>,
) -> bool {
    if separate_reasoning {
        exists|m: &str, t: &str, outcome: Result<ReasoningResult, ReasoningFailure>| #[trigger]
            call_ensures(F::detect_and_parse_reasoning, (parsers, m, t), outcome) && m@ == model
                && t@ == text && is_parted(result, outcome)
    } else {
        result matches Ok(draft) && draft.text@ == text && draft.reasoning_text is None
    }
}

/// How a choice goes on from a draft: without a search it keeps its text; a search of JSON replaces
/// the text by what it leaves; the tool parser of the model is left to the caller.
pub open spec fn is_searched<S: RouterServices>(
    tool_choice: Option<ToolChoice>,
    has_tools: bool,
    draft: ChoiceDraft,
    step: ChoiceStep,
) -> bool {
    match tool_mode_of(tool_choice, has_tools) {
        ToolMode::Skip => step == (ChoiceStep::Finish { draft, tool_calls: None }),
        ToolMode::ModelParser => step == (ChoiceStep::DetectTools { draft }),
        ToolMode::JsonSchema => exists|findings: (Option<Vec<ToolCall>>, String)| #[trigger]
            call_ensures(
                S::parse_json_schema_response,
                (&draft.text, &tool_choice),
                findings,
            ) && step == (ChoiceStep::Finish {
                draft: ChoiceDraft { text: findings.1, reasoning_text: draft.reasoning_text },
                tool_calls: findings.0,
            }),
    }
}

/// A choice begins with `text`: the draft it comes to and how that goes on, or the error.
pub open spec fn is_begun<S: RouterServices>(
    router: GrpcPDRouter<S>,
    request: ChatCompletionRequest<S::Tool, S::Rest>,
    text: Seq<char>,
    result: Result<ChoiceStep, String>,
) -> bool {
    exists|drafted: Result<ChoiceDraft, String>|
        {
            &&& #[trigger] is_drafted(
                &router.reasoning_parser_factory,
                request.separate_reasoning,
                request.model@,
                text,
                drafted,
            )
            &&& match drafted {
                Ok(draft) => result matches Ok(step) && is_searched::<S>(
                    request.tool_choice,
                    request.tools is Some,
                    draft,
                    step,
                ),
                Err(error) => result == Err::<ChoiceStep, String>(error),
            }
        }
}

/// The JSON value that an answer shows of what ended a generation: the token as a number, or the
/// stop string.
pub open spec fn shows_stop(
    shown: Option<serde_json::Value>,
    matched_stop: Option<MatchedStop>,
) -> bool {
    match matched_stop {
        None => shown is None,
        Some(MatchedStop::MatchedTokenId(token_id)) => {
            shown matches Some(value) && json_number(value) == Some(token_id as u64)
                && json_string(value) is None
        },
        Some(MatchedStop::MatchedStopStr(stop)) => {
            shown matches Some(value) && json_string(value) == Some(stop@) && json_number(
                value,
            ) is None
        },
    }
}

/// Shows what ended a generation.
pub fn stop_value(matched_stop: &Option<MatchedStop>) -> (shown: Option<serde_json::Value>)
    ensures
        shows_stop(shown, *matched_stop),
{
    match matched_stop {
        None => None,
        Some(MatchedStop::MatchedTokenId(token_id)) => Some(number_value(*token_id)),
        Some(MatchedStop::MatchedStopStr(stop)) => Some(string_value(stop.clone())),
    }
}

/// The reason that an answer gives for the end of a generation: tool calls, where there are any,
/// else the worker's reason.
pub open spec fn finish_reason_of(reason: Seq<char>, has_tool_calls: bool) -> Seq<char> {
    if has_tool_calls {
        "tool_calls"@
    } else {
        reason
    }
}

/// `choice` is the choice at `index` made of a generation, a draft, tool calls and log
/// probabilities.
pub open spec fn is_choice<L, I>(
    choice: ChatChoice<L>,
    complete: GenerateComplete<L, I>,
    index: usize,
    draft: ChoiceDraft,
    tool_calls: Option<Vec<ToolCall>>,
    logprobs: Option<ChatLogProbs<L>>,
) -> bool {
    &&& choice.index == low_unsigned_32(index)
    &&& choice.message.role@ == "assistant"@
    &&& choice.message.content == if draft.text@.len() == 0 {
        None
    } else {
        Some(draft.text)
    }
    &&& choice.message.tool_calls == tool_calls
    &&& choice.message.reasoning_content == draft.reasoning_text
    &&& choice.logprobs == logprobs
    &&& choice.finish_reason matches Some(reason) && reason@ == finish_reason_of(
        complete.finish_reason@,
        tool_calls is Some,
    )
    &&& shows_stop(choice.matched_stop, complete.matched_stop)
    &&& choice.hidden_states is None
}

/// Puts a choice together.
pub fn build_choice<L, I>(
    complete: &GenerateComplete<L, I>,
    index: usize,
    draft: ChoiceDraft,
    tool_calls: Option<Vec<ToolCall>>,
    logprobs: Option<ChatLogProbs<L>>,
) -> (choice: ChatChoice<L>)
    ensures
        is_choice(choice, *complete, index, draft, tool_calls, logprobs),
{
    let finish_reason: String = if tool_calls.is_some() {
        "tool_calls".to_string()
    } else {
        complete.finish_reason.clone()
    };
    let content: Option<String> = if draft.text.as_str().is_empty() {
        None
    } else {
        Some(draft.text)
    };
    ChatChoice {
        index: to_low_unsigned_32(index),
        message: ChatCompletionMessage {
            role: "assistant".to_string(),
            content,
            tool_calls,
            reasoning_content: draft.reasoning_text,
        },
        logprobs,
        finish_reason: Some(finish_reason),
        matched_stop: stop_value(&complete.matched_stop),
        hidden_states: None,
    }
}

/// `text` is what a stop decoder makes of `token_ids` in some state, followed by what flushing one in
/// some state gives. In which states the decoder was, one after the other, is said by
/// [`GrpcPDRouter::begin_choice`].
pub open spec fn is_decoded<D: StopDecoder>(token_ids: Seq<u32>, text: Seq<char>) -> bool {
    exists|
        decoder: &mut D,
        ids: &[u32],
        outputs: Vec<SequenceDecoderOutput>,
        flushing: &mut D,
        flushed: SequenceDecoderOutput,
    |
        {
            &&& #[trigger] call_ensures(D::process_tokens, (decoder, ids), Ok(outputs))
            &&& ids@ == token_ids
            &&& #[trigger] call_ensures(D::flush, (flushing,), flushed)
            &&& text == emitted(outputs@) + flushed_text(flushed)
        }
}

/// A stop decoder fails on `token_ids` in some state, with `message`.
pub open spec fn is_not_decoded<D: StopDecoder>(token_ids: Seq<u32>, message: String) -> bool {
    exists|decoder: &mut D, ids: &[u32]| #[trigger]
        call_ensures(
            D::process_tokens,
            (decoder, ids),
            Err::<Vec<SequenceDecoderOutput>, String>(message),
        ) && ids@ == token_ids
}

/// A choice of the tokens given begins with `result`.
pub open spec fn is_begun_of<S: RouterServices>(
    router: GrpcPDRouter<S>,
    request: ChatCompletionRequest<S::Tool, S::Rest>,
    token_ids: Seq<u32>,
    result: Result<ChoiceStep, String>,
) -> bool {
    ||| exists|message: String| #[trigger]
        is_not_decoded::<S::Decoder>(token_ids, message) && (result matches Err(error) && error@
            == "Failed to process tokens: "@ + message@)
    ||| exists|text: Seq<char>| #[trigger]
        is_decoded::<S::Decoder>(token_ids, text) && is_begun(router, request, text, result)
}

/// A choice begins with `result` when decoding its tokens comes to `decoded`: their text, or the
/// message of the failure.
pub open spec fn begins_with<S: RouterServices>(
    router: GrpcPDRouter<S>,
    request: ChatCompletionRequest<S::Tool, S::Rest>,
    decoded: Result<Seq<char>, Seq<char>>,
    result: Result<ChoiceStep, String>,
) -> bool {
    match decoded {
        Ok(text) => is_begun(router, request, text, result),
        Err(message) => result matches Err(error) && error@ == "Failed to process tokens: "@
            + message,
    }
}

/// A choice of the tokens given finds the decoder in the state `before`, begins with `result`, and
/// leaves the decoder in the state `after`, where `decodes` tells what decoding can come to: it relates
/// a state of the decoder, tokens, what decoding them in that state comes to, and the state after it.
pub open spec fn begins_by<S: RouterServices>(
    router: GrpcPDRouter<S>,
    request: ChatCompletionRequest<S::Tool, S::Rest>,
    decodes: spec_fn(S::Decoder, Seq<u32>, Result<Seq<char>, Seq<char>>, S::Decoder) -> bool,
    before: S::Decoder,
    token_ids: Seq<u32>,
    result: Result<ChoiceStep, String>,
    after: S::Decoder,
) -> bool {
    exists|decoded: Result<Seq<char>, Seq<char>>|
        {
            &&& #[trigger] decodes(before, token_ids, decoded, after)
            &&& begins_with(router, request, decoded, result)
        }
}

impl<S: RouterServices> GrpcPDRouter<S> {
    /// A decoder for the choices of a request, with the stop conditions that the client asked for.
    pub fn stop_decoder(&self, request: &ChatCompletionRequest<S::Tool, S::Rest>) -> (decoder:
        S::Decoder)
        ensures
            call_ensures(
                S::create_stop_decoder,
                (
                    &self.tokenizer,
                    match request.stop {
                        Some(stop) => Some(&stop),
                        None => None,
                    },
                    match request.stop_token_ids {
                        Some(token_ids) => Some(&token_ids),
                        None => None,
                    },
                    request.skip_special_tokens,
                    request.no_stop_trim,
                ),
                decoder,
            ),
    {
        S::create_stop_decoder(
            &self.tokenizer,
            request.stop.as_ref(),
            request.stop_token_ids.as_ref(),
            request.skip_special_tokens,
            request.no_stop_trim,
        )
    }

    fn draft_choice(
        &self,
        request: &ChatCompletionRequest<S::Tool, S::Rest>,
        text: String,
    ) -> (result: Result<ChoiceDraft, String>)
        ensures
            is_drafted(
                &self.reasoning_parser_factory,
                request.separate_reasoning,
                request.model@,
                text@,
                result,
            ),
    {
        if request.separate_reasoning {
            let m: &str = request.model.as_str();
            let t: &str = text.as_str();
            let outcome = self.reasoning_parser_factory.detect_and_parse_reasoning(m, t);
            let ghost parsed = outcome;
            let result = part_reasoning(outcome);
            assert(call_ensures(
                S::ReasoningParsers::detect_and_parse_reasoning,
                (&self.reasoning_parser_factory, m, t),
                parsed,
            ));
            result
        } else {
            Ok(ChoiceDraft { text, reasoning_text: None })
        }
    }

    fn search_draft(
        request: &ChatCompletionRequest<S::Tool, S::Rest>,
        draft: ChoiceDraft,
    ) -> (step: ChoiceStep)
        ensures
            is_searched::<S>(request.tool_choice, request.tools is Some, draft, step),
    {
        match tool_mode(request) {
            ToolMode::Skip => ChoiceStep::Finish { draft, tool_calls: None },
            ToolMode::ModelParser => ChoiceStep::DetectTools { draft },
            ToolMode::JsonSchema => {
                let findings = S::parse_json_schema_response(&draft.text, &request.tool_choice);
                let ghost found = findings;
                assert(call_ensures(
                    S::parse_json_schema_response,
                    (&draft.text, &request.tool_choice),
                    found,
                ));
                ChoiceStep::Finish {
                    draft: ChoiceDraft { text: findings.1, reasoning_text: draft.reasoning_text },
                    tool_calls: findings.0,
                }
            },
        }
    }

    /// Begins a choice with its text, which the stop decoder gave.
    pub fn begin_with_text(
        &self,
        request: &ChatCompletionRequest<S::Tool, S::Rest>,
        text: String,
    ) -> (result: Result<ChoiceStep, String>)
        ensures
            is_begun(*self, *request, text@, result),
    {
        let drafted = self.draft_choice(request, text);
        let ghost outcome = drafted;
        assert(is_drafted(
            &self.reasoning_parser_factory,
            request.separate_reasoning,
            request.model@,
            text@,
            outcome,
        ));
        match drafted {
            Ok(draft) => Ok(Self::search_draft(request, draft)),
            Err(error) => Err(error),
        }
    }

    /// Begins a choice: resets the stop decoder, has it decode the tokens, and flushes it.
    ///
    /// Whatever relation `decodes` covers what the decoder can do, when it is reset, decodes tokens and
    /// is flushed, the choice begins by it.
    pub fn begin_choice<L, I>(
        &self,
        complete: &GenerateComplete<L, I>,
        request: &ChatCompletionRequest<S::Tool, S::Rest>,
        stop_decoder: &mut S::Decoder,
    ) -> (result: Result<ChoiceStep, String>)
        ensures
            exists|
                d0: &mut S::Decoder,
                d1: &mut S::Decoder,
                ids: &[u32],
                outcome: Result<Vec<SequenceDecoderOutput>, String>,
            |
                {
                    &&& #[trigger] call_ensures(S::Decoder::reset, (d0,), ())
                    &&& *d0 == *old(stop_decoder)
                    &&& #[trigger] call_ensures(S::Decoder::process_tokens, (d1, ids), outcome)
                    &&& *d1 == *final(d0)
                    &&& ids@ == complete.output_ids@
                    &&& match outcome {
                        Err(message) => {
                            &&& result matches Err(error) && error@ == "Failed to process tokens: "@
                                + message@
                            &&& *final(d1) == *final(stop_decoder)
                        },
                        Ok(outputs) => exists|d2: &mut S::Decoder, flushed: SequenceDecoderOutput|
                            {
                                &&& #[trigger] call_ensures(S::Decoder::flush, (d2,), flushed)
                                &&& *d2 == *final(d1)
                                &&& *final(d2) == *final(stop_decoder)
                                &&& is_begun(
                                    *self,
                                    *request,
                                    emitted(outputs@) + flushed_text(flushed),
                                    result,
                                )
                            },
                    }
                },
            forall|
                decodes: spec_fn(
                    S::Decoder,
                    Seq<u32>,
                    Result<Seq<char>, Seq<char>>,
                    S::Decoder,
                ) -> bool,
            |
                (forall|
                    d0: &mut S::Decoder,
                    d1: &mut S::Decoder,
                    ids: &[u32],
                    outcome: Result<Vec<SequenceDecoderOutput>, String>,
                |
                    {
                        &&& #[trigger] call_ensures(S::Decoder::reset, (d0,), ())
                        &&& #[trigger] call_ensures(
                            S::Decoder::process_tokens,
                            (d1, ids),
                            outcome,
                        )
                        &&& *d1 == *final(d0)
                    } ==> match outcome {
                        Err(message) => decodes(*d0, ids@, Err(message@), *final(d1)),
                        Ok(outputs) => forall|d2: &mut S::Decoder, flushed: SequenceDecoderOutput|
                            #[trigger] call_ensures(S::Decoder::flush, (d2,), flushed) && *d2
                                == *final(d1) ==> decodes(
                                *d0,
                                ids@,
                                Ok(emitted(outputs@) + flushed_text(flushed)),
                                *final(d2),
                            ),
                    }) ==> #[trigger] begins_by(
                    *self,
                    *request,
                    decodes,
                    *old(stop_decoder),
                    complete.output_ids@,
                    result,
                    *final(stop_decoder),
                ),
            is_begun_of(*self, *request, complete.output_ids@, result),
    {
        stop_decoder.reset();
        let outcome = stop_decoder.process_tokens(complete.output_ids.as_slice());
        match outcome {
            Err(message) => {
                assert(is_not_decoded::<S::Decoder>(complete.output_ids@, message));
                Err(joined("Failed to process tokens: ", message.as_str()))
            },
            Ok(outputs) => {
                let flushed = stop_decoder.flush();
                let text: String = collect_text(&outputs, &flushed);
                assert(is_decoded::<S::Decoder>(complete.output_ids@, text@));
                self.begin_with_text(request, text)
            },
        }
    }

    /// Finishes a choice. Of the log probabilities only those of the output are shown.
    pub fn finish_choice<L: Copy, I>(
        &self,
        complete: &GenerateComplete<L, I>,
        index: usize,
        draft: ChoiceDraft,
        tool_calls: Option<Vec<ToolCall>>,
    ) -> (choice: ChatChoice<L>)
        ensures
            is_choice(choice, *complete, index, draft, tool_calls, choice.logprobs),
            match complete.output_logprobs {
                None => choice.logprobs is None,
                Some(logprobs) => choice.logprobs matches Some(shown) && shows(
                    &*self.tokenizer,
                    logprobs,
                    shown,
                ),
            },
    {
        let logprobs = match &complete.output_logprobs {
            None => None,
            Some(logprobs) => match self.convert_proto_to_openai_logprobs(logprobs) {
                Ok(shown) => Some(shown),
                Err(_) => None,
            },
        };
        build_choice(complete, index, draft, tool_calls, logprobs)
    }
}

} // verus!
