//! What the steps that make a choice promise of their results, told by what goes into them.
use crate::bits::unsigned_32;
use crate::choice::{
    build_choice, collect_text, emitted, flushed_text, is_begun, is_begun_of, is_choice,
    part_reasoning, stop_value, ChoiceDraft, ChoiceStep,
};
use crate::json::{arguments_or_empty, arguments_text, json_number, json_string, json_text};
use crate::laws::{alternatives_are_shown_one_for_one, logprobs_are_shown_one_for_one};
use crate::logprobs::{
    content_of, decodes_to, is_entry, is_top_entry, is_top_list, shows, text_at,
    text_or_placeholder, token_text,
};
use crate::proto::{GenerateComplete, MatchedStop, OutputLogProbs};
use crate::protocol::{
    ChatChoice, ChatCompletionRequest, ChatLogProbs, ChatLogProbsContent, StringOrArray, ToolCall,
    ToolChoice, ToolChoiceValue,
};
use crate::router::GrpcPDRouter;
use crate::services::{
    ReasoningFailure, ReasoningParserFactory, ReasoningResult, RouterServices,
    SequenceDecoderOutput, StopDecoder, Tokenizer,
};
use crate::text_laws::{is_numeral, signed_numerals_read_back};
use crate::tools::{
    format_detected, function_call, tool_mode, tools_parsed, DetectionStep, ParsedToolCall,
    ToolFindings, ToolMode,
};
use vstd::prelude::*;
use vstd::utf8::encode_utf8;

verus! {

/// A single output emits exactly its text, whether it goes on or stops; one without text emits
/// nothing.
pub proof fn single_outputs_emit_their_text(text: String)
    ensures
        emitted(seq![SequenceDecoderOutput::Text(text)]) == text@,
        emitted(seq![SequenceDecoderOutput::StoppedWithText(text)]) == text@,
        emitted(seq![SequenceDecoderOutput::Held]).len() == 0,
        emitted(seq![SequenceDecoderOutput::Stopped]).len() == 0,
        emitted(Seq::empty()).len() == 0,
{
    reveal_with_fuel(emitted, 2);
    assert(seq![SequenceDecoderOutput::Text(text)].skip(1) =~= Seq::empty());
    assert(emitted(seq![SequenceDecoderOutput::Text(text)]) =~= text@);
    assert(seq![SequenceDecoderOutput::Held].skip(1) =~= Seq::empty());
}

/// Flushing adds exactly the plain text that it gives, and nothing else.
pub proof fn flushing_adds_plain_text(output: SequenceDecoderOutput)
    ensures
        output matches SequenceDecoderOutput::Text(text) ==> flushed_text(output) == text@,
        !(output is Text) ==> flushed_text(output).len() == 0,
{
}

/// An output in front of others changes the text that is collected in one way: plain text comes in
/// front of it whole, and a held token leaves it as it is.
pub proof fn text_in_front_is_collected_whole(
    outputs: Vec<SequenceDecoderOutput>,
    rest: Vec<SequenceDecoderOutput>,
    flushed: SequenceDecoderOutput,
    text: String,
    rest_text: String,
)
    requires
        outputs@.len() > 0,
        outputs@.skip(1) == rest@,
        call_ensures(collect_text, (&outputs, &flushed), text),
        call_ensures(collect_text, (&rest, &flushed), rest_text),
    ensures
        outputs@[0] matches SequenceDecoderOutput::Text(first) ==> text@ == first@ + rest_text@,
        outputs@[0] is Held ==> text@ == rest_text@,
{
    assert(text@ == emitted(outputs@) + flushed_text(flushed));
    assert(rest_text@ == emitted(rest@) + flushed_text(flushed));
    if let SequenceDecoderOutput::Text(first) = outputs@[0] {
        assert(text@ =~= first@ + rest_text@);
    }
}

/// From the first stop condition on, only the text that comes with it is collected, and then what
/// flushing gave as plain text.
pub proof fn text_ends_with_the_stop_and_the_flush(
    outputs: Vec<SequenceDecoderOutput>,
    flushed: SequenceDecoderOutput,
    text: String,
)
    requires
        call_ensures(collect_text, (&outputs, &flushed), text),
        outputs@.len() == 0 || outputs@[0] is Stopped || outputs@[0] is StoppedWithText,
    ensures
        ({
            let end = match flushed {
                SequenceDecoderOutput::Text(last) => last@,
                _ => Seq::empty(),
            };
            if outputs@.len() == 0 {
                text@ == end
            } else {
                match outputs@[0] {
                    SequenceDecoderOutput::StoppedWithText(stop) => text@ == stop@ + end,
                    _ => text@ == end,
                }
            }
        }),
{
    assert(text@ == emitted(outputs@) + flushed_text(flushed));
    if outputs@.len() == 0 || outputs@[0] is Stopped {
        assert(text@ =~= flushed_text(flushed));
    }
}

/// What a reasoning parser parts stays parted: the text of the draft is the parser's normal text,
/// even where that is empty, and its reasoning is the parser's, unless that is empty.
pub proof fn parted_text_and_reasoning_are_kept(
    outcome: Result<ReasoningResult, ReasoningFailure>,
    result: Result<ChoiceDraft, String>,
)
    requires
        call_ensures(part_reasoning, (outcome,), result),
    ensures
        outcome is Ok <==> result is Ok,
        outcome matches Ok(parts) ==> {
            &&& result->Ok_0.text@ == parts.normal_text@
            &&& result->Ok_0.reasoning_text is Some <==> parts.reasoning_text@.len() > 0
            &&& result->Ok_0.reasoning_text matches Some(reasoning) ==> reasoning@
                == parts.reasoning_text@
        },
        outcome matches Err(ReasoningFailure::Lock(message)) ==> result->Err_0@
            == "Failed to acquire reasoning parser lock: "@ + message@,
        outcome matches Err(ReasoningFailure::Parse(message)) ==> result->Err_0@
            == "Reasoning parsing error: "@ + message@,
{
}

/// The findings of a parse that succeeded hold the text that the parser left, even where that is
/// empty, and its calls one for one; a list without calls is none. Where the parse failed, the text
/// is the one that was parsed.
pub proof fn findings_are_what_the_parser_gave(
    text: String,
    result: Result<(String, Vec<ParsedToolCall>), String>,
    findings: ToolFindings,
)
    requires
        call_ensures(tools_parsed, (text, result), findings),
    ensures
        result matches Ok((normal_text, parsed)) ==> {
            &&& findings.text@ == normal_text@
            &&& findings.tool_calls is Some <==> parsed.len() > 0
            &&& findings.tool_calls matches Some(calls) ==> {
                &&& calls.len() == parsed.len()
                &&& forall|i: int|
                    0 <= i < calls.len() ==> {
                        &&& (#[trigger] calls@[i]).id@ == parsed@[i].id@
                        &&& calls@[i].tool_type@ == "function"@
                        &&& calls@[i].function.name@ == parsed@[i].name@
                        &&& calls@[i].function.arguments is Some
                        &&& json_text(parsed@[i].arguments) matches Some(written)
                            ==> calls@[i].function.arguments->0@ == written
                        &&& json_text(parsed@[i].arguments) is None
                            ==> calls@[i].function.arguments->0@ == "{}"@
                    }
            }
        },
        result is Err ==> findings.text@ == text@ && findings.tool_calls is None,
{
}

/// A text of a format that the parser does not know is kept without calls; another is parsed as it
/// is.
pub proof fn unknown_formats_are_kept(text: String, can_parse: bool, step: DetectionStep)
    requires
        call_ensures(format_detected, (text, can_parse), step),
    ensures
        match step {
            DetectionStep::Parse(parse) => can_parse && parse@ == text@,
            DetectionStep::Found(findings) => {
                !can_parse && findings.text@ == text@ && findings.tool_calls is None
            },
        },
{
}

/// How a text is searched: not at all without tools or with tools ruled out; else as JSON for a named
/// function, required tools, and allowed tools of which one is required; else by the tool parser of
/// the model.
pub proof fn tool_choice_decides_the_search<T, X>(
    request: ChatCompletionRequest<T, X>,
    mode: ToolMode,
)
    requires
        call_ensures(tool_mode, (&request,), mode),
    ensures
        request.tools is None ==> mode is Skip,
        request.tools is Some ==> match request.tool_choice {
            None => mode is ModelParser,
            Some(ToolChoice::Value(ToolChoiceValue::Auto)) => mode is ModelParser,
            Some(ToolChoice::Value(ToolChoiceValue::NoTools)) => mode is Skip,
            Some(ToolChoice::Value(ToolChoiceValue::Required)) => mode is JsonSchema,
            Some(ToolChoice::Function { .. }) => mode is JsonSchema,
            Some(ToolChoice::AllowedTools { mode: required, .. }) => {
                if required@ == "required"@ {
                    mode is JsonSchema
                } else {
                    mode is ModelParser
                }
            },
        },
{
}

/// The reasoning that a choice shows is the one that was parsed, unless that is empty.
pub open spec fn keeps_reasoning(shown: Option<String>, reasoning: Seq<char>) -> bool {
    &&& shown is Some <==> reasoning.len() > 0
    &&& shown matches Some(text) ==> text@ == reasoning
}

/// A choice goes on from a text and the reasoning parted from it, as the tools and the tool choice of
/// the request have it.
pub open spec fn goes_on_from<S: RouterServices>(
    request: ChatCompletionRequest<S::Tool, S::Rest>,
    text: Seq<char>,
    reasoning: Seq<char>,
    step: ChoiceStep,
) -> bool {
    let as_json = match request.tool_choice {
        Some(ToolChoice::Function { .. }) => true,
        Some(ToolChoice::Value(value)) => value is Required,
        Some(ToolChoice::AllowedTools { mode, .. }) => mode@ == "required"@,
        None => false,
    };
    if request.tools is None || request.tool_choice == Some(
        ToolChoice::Value(ToolChoiceValue::NoTools),
    ) {
        step matches ChoiceStep::Finish { draft, tool_calls } && {
            &&& tool_calls is None
            &&& draft.text@ == text
            &&& keeps_reasoning(draft.reasoning_text, reasoning)
        }
    } else if as_json {
        step matches ChoiceStep::Finish { draft, tool_calls } && {
            &&& keeps_reasoning(draft.reasoning_text, reasoning)
            &&& exists|parsed: &String, found: (Option<Vec<ToolCall>>, String)|
                {
                    &&& #[trigger] call_ensures(
                        S::parse_json_schema_response,
                        (parsed, &request.tool_choice),
                        found,
                    )
                    &&& parsed@ == text
                    &&& draft.text@ == found.1@
                    &&& tool_calls == found.0
                }
        }
    } else {
        step matches ChoiceStep::DetectTools { draft } && {
            &&& draft.text@ == text
            &&& keeps_reasoning(draft.reasoning_text, reasoning)
        }
    }
}

/// A choice begins with a text: reasoning is parted from it by the parser of the model where the
/// request asks for that, and a parser that fails is the error; else the text is taken whole.
pub open spec fn begins_from<S: RouterServices>(
    router: GrpcPDRouter<S>,
    request: ChatCompletionRequest<S::Tool, S::Rest>,
    text: Seq<char>,
    result: Result<ChoiceStep, String>,
) -> bool {
    if request.separate_reasoning {
        exists|m: &str, t: &str, outcome: Result<ReasoningResult, ReasoningFailure>|
            {
                &&& #[trigger] call_ensures(
                    S::ReasoningParsers::detect_and_parse_reasoning,
                    (&router.reasoning_parser_factory, m, t),
                    outcome,
                )
                &&& m@ == request.model@
                &&& t@ == text
                &&& match outcome {
                    Ok(parts) => result matches Ok(step) && goes_on_from::<S>(
                        request,
                        parts.normal_text@,
                        parts.reasoning_text@,
                        step,
                    ),
                    Err(ReasoningFailure::Lock(message)) => result matches Err(error) && error@
                        == "Failed to acquire reasoning parser lock: "@ + message@,
                    Err(ReasoningFailure::Parse(message)) => result matches Err(error) && error@
                        == "Reasoning parsing error: "@ + message@,
                }
            }
    } else {
        result matches Ok(step) && goes_on_from::<S>(request, text, Seq::empty(), step)
    }
}

pub(crate) proof fn lemma_begins_from<S: RouterServices>(
    router: GrpcPDRouter<S>,
    request: ChatCompletionRequest<S::Tool, S::Rest>,
    text: Seq<char>,
    result: Result<ChoiceStep, String>,
)
    requires
        is_begun(router, request, text, result),
    ensures
        begins_from(router, request, text, result),
{
}

/// A choice that begins with a text goes on from that text, or from what the reasoning parser of the
/// model makes of it.
pub proof fn choices_begin_from_their_text<S: RouterServices>(
    router: GrpcPDRouter<S>,
    request: ChatCompletionRequest<S::Tool, S::Rest>,
    text: String,
    result: Result<ChoiceStep, String>,
)
    requires
        call_ensures(GrpcPDRouter::<S>::begin_with_text, (&router, &request, text), result),
    ensures
        begins_from(router, request, text@, result),
{
    lemma_begins_from(router, request, text@, result);
}

/// A choice begins from what the stop decoder makes of the tokens given, all of them and in their
/// order, followed by what flushing the decoder gives; tokens that cannot be decoded are the error.
pub open spec fn begins_from_tokens<S: RouterServices>(
    router: GrpcPDRouter<S>,
    request: ChatCompletionRequest<S::Tool, S::Rest>,
    token_ids: Seq<u32>,
    result: Result<ChoiceStep, String>,
) -> bool {
    exists|
        decoder: &mut S::Decoder,
        ids: &[u32],
        outcome: Result<Vec<SequenceDecoderOutput>, String>,
    |
        {
            &&& #[trigger] call_ensures(S::Decoder::process_tokens, (decoder, ids), outcome)
            &&& ids@ == token_ids
            &&& match outcome {
                Err(message) => result matches Err(error) && error@
                    == "Failed to process tokens: "@ + message@,
                Ok(outputs) => exists|flushing: &mut S::Decoder, flushed: SequenceDecoderOutput|
                    {
                        &&& #[trigger] call_ensures(S::Decoder::flush, (flushing,), flushed)
                        &&& begins_from(
                            router,
                            request,
                            emitted(outputs@) + flushed_text(flushed),
                            result,
                        )
                    },
            }
        }
}

/// The same of every beginning that contracts speak of.
pub proof fn beginnings_are_from_tokens<S: RouterServices>(
    router: GrpcPDRouter<S>,
    request: ChatCompletionRequest<S::Tool, S::Rest>,
    token_ids: Seq<u32>,
    result: Result<ChoiceStep, String>,
)
    requires
        is_begun_of(router, request, token_ids, result),
    ensures
        begins_from_tokens(router, request, token_ids, result),
{
    assert forall|text: Seq<char>| #[trigger] is_begun(router, request, text, result) implies
        begins_from(router, request, text, result) by {
        lemma_begins_from(router, request, text, result);
    }
}

/// A choice begins from the tokens of its response.
pub proof fn choices_begin_from_their_tokens<S: RouterServices, L, I>(
    router: GrpcPDRouter<S>,
    request: ChatCompletionRequest<S::Tool, S::Rest>,
    complete: GenerateComplete<L, I>,
    result: Result<ChoiceStep, String>,
)
    requires
        exists|decoder: &mut S::Decoder| #[trigger]
            call_ensures(
                GrpcPDRouter::<S>::begin_choice::<L, I>,
                (&router, &complete, &request, decoder),
                result,
            ),
    ensures
        begins_from_tokens(router, request, complete.output_ids@, result),
{
    beginnings_are_from_tokens(router, request, complete.output_ids@, result);
}

/// The decoder is reset before it decodes the tokens of a choice, and flushed behind them; in no
/// other way does a choice change it.
pub proof fn decoders_are_reset_before_and_flushed_behind<S: RouterServices, L, I>(
    router: GrpcPDRouter<S>,
    request: ChatCompletionRequest<S::Tool, S::Rest>,
    complete: GenerateComplete<L, I>,
    result: Result<ChoiceStep, String>,
    before: S::Decoder,
    after: S::Decoder,
)
    requires
        exists|decoder: &mut S::Decoder|
            {
                &&& #[trigger] call_ensures(
                    GrpcPDRouter::<S>::begin_choice::<L, I>,
                    (&router, &complete, &request, decoder),
                    result,
                )
                &&& *decoder == before
                &&& *final(decoder) == after
            },
    ensures
            exists|
                d0: &mut S::Decoder,
                d1: &mut S::Decoder,
                ids: &[u32],
                outcome: Result<Vec<SequenceDecoderOutput>, String>,
            |
                {
                    &&& #[trigger] call_ensures(S::Decoder::reset, (d0,), ())
                    &&& *d0 == before
                    &&& #[trigger] call_ensures(S::Decoder::process_tokens, (d1, ids), outcome)
                    &&& *d1 == *final(d0)
                    &&& ids@ == complete.output_ids@
                    &&& match outcome {
                        Err(message) => {
                            &&& result matches Err(error) && error@ == "Failed to process tokens: "@
                                + message@
                            &&& *final(d1) == after
                        },
                        Ok(outputs) => exists|d2: &mut S::Decoder, flushed: SequenceDecoderOutput|
                            {
                                &&& #[trigger] call_ensures(S::Decoder::flush, (d2,), flushed)
                                &&& *d2 == *final(d1)
                                &&& *final(d2) == after
                                &&& begins_from(
                                    router,
                                    request,
                                    emitted(outputs@) + flushed_text(flushed),
                                    result,
                                )
                            },
                    }
                },
{
    assert forall|text: Seq<char>| #[trigger] is_begun(router, request, text, result) implies
        begins_from(router, request, text, result) by {
        lemma_begins_from(router, request, text, result);
    }
}

/// For a request that wants reasoning apart and has no tools, the message shows the text and the
/// reasoning that the parser parted, each in its place, and either only where it is not empty.
pub proof fn parted_reasoning_shows_in_the_message<S: RouterServices, L: Copy, I>(
    router: GrpcPDRouter<S>,
    request: ChatCompletionRequest<S::Tool, S::Rest>,
    text: String,
    draft: ChoiceDraft,
    tool_calls: Option<Vec<ToolCall>>,
    complete: GenerateComplete<L, I>,
    index: usize,
    choice: ChatChoice<L>,
)
    requires
        request.separate_reasoning,
        request.tools is None,
        call_ensures(
            GrpcPDRouter::<S>::begin_with_text,
            (&router, &request, text),
            Ok(ChoiceStep::Finish { draft, tool_calls }),
        ),
        call_ensures(
            GrpcPDRouter::<S>::finish_choice::<L, I>,
            (&router, &complete, index, draft, tool_calls),
            choice,
        ),
    ensures
        exists|m: &str, t: &str, parts: ReasoningResult|
            {
                &&& #[trigger] call_ensures(
                    S::ReasoningParsers::detect_and_parse_reasoning,
                    (&router.reasoning_parser_factory, m, t),
                    Ok(parts),
                )
                &&& m@ == request.model@
                &&& t@ == text@
                &&& choice.message.content is Some <==> parts.normal_text@.len() > 0
                &&& choice.message.content matches Some(content) ==> content@
                    == parts.normal_text@
                &&& choice.message.reasoning_content is Some <==> parts.reasoning_text@.len() > 0
                &&& choice.message.reasoning_content matches Some(reasoning) ==> reasoning@
                    == parts.reasoning_text@
            },
        choice.message.tool_calls is None,
{
    choices_begin_from_their_text(
        router,
        request,
        text,
        Ok(ChoiceStep::Finish { draft, tool_calls }),
    );
    let (m, t, outcome) = choose|
        m: &str,
        t: &str,
        outcome: Result<ReasoningResult, ReasoningFailure>,
    |
        {
            &&& #[trigger] call_ensures(
                S::ReasoningParsers::detect_and_parse_reasoning,
                (&router.reasoning_parser_factory, m, t),
                outcome,
            )
            &&& m@ == request.model@
            &&& t@ == text@
            &&& outcome is Ok
            &&& goes_on_from::<S>(
                request,
                outcome->Ok_0.normal_text@,
                outcome->Ok_0.reasoning_text@,
                ChoiceStep::Finish { draft, tool_calls },
            )
        };
    assert(outcome == Ok::<ReasoningResult, ReasoningFailure>(outcome->Ok_0));
}

/// A choice shows its parts, each in its place: its text, or no content where that is empty; the
/// reasoning and the tool calls as they are; the reason of the worker, unless there are tool calls;
/// what stopped the generation; and the place of the response.
pub open spec fn shows_its_parts<L, I>(
    choice: ChatChoice<L>,
    complete: GenerateComplete<L, I>,
    index: int,
    text: Seq<char>,
    reasoning_text: Option<String>,
    tool_calls: Option<Vec<ToolCall>>,
) -> bool {
    &&& (choice.index - index) % 0x1_0000_0000 == 0
    &&& choice.message.role@ == "assistant"@
    &&& choice.message.content is Some <==> text.len() > 0
    &&& choice.message.content matches Some(content) ==> content@ == text
    &&& choice.message.reasoning_content == reasoning_text
    &&& choice.message.tool_calls == tool_calls
    &&& choice.finish_reason is Some
    &&& tool_calls is Some ==> choice.finish_reason->0@ == "tool_calls"@
    &&& tool_calls is None ==> choice.finish_reason->0@ == complete.finish_reason@
    &&& choice.matched_stop is Some <==> complete.matched_stop is Some
    &&& complete.matched_stop matches Some(MatchedStop::MatchedTokenId(id)) ==> {
        &&& json_number(choice.matched_stop->0) == Some(id as u64)
        &&& json_string(choice.matched_stop->0) is None
    }
    &&& complete.matched_stop matches Some(MatchedStop::MatchedStopStr(stop)) ==> {
        &&& json_string(choice.matched_stop->0) == Some(stop@)
        &&& json_number(choice.matched_stop->0) is None
    }
    &&& choice.hidden_states is None
}

/// A choice of a response shows log probabilities exactly where the response holds those of its
/// output, and then those.
pub open spec fn shows_output_logprobs<S: RouterServices, L, I>(
    router: GrpcPDRouter<S>,
    choice: ChatChoice<L>,
    complete: GenerateComplete<L, I>,
) -> bool {
    &&& choice.logprobs is Some <==> complete.output_logprobs is Some
    &&& complete.output_logprobs matches Some(logprobs) ==> shows(
        &*router.tokenizer,
        logprobs,
        choice.logprobs->0,
    )
}

/// Every choice that contracts speak of shows its parts.
pub proof fn choices_show_their_parts<L, I>(
    complete: GenerateComplete<L, I>,
    index: usize,
    draft: ChoiceDraft,
    tool_calls: Option<Vec<ToolCall>>,
    logprobs: Option<ChatLogProbs<L>>,
    choice: ChatChoice<L>,
)
    requires
        is_choice(choice, complete, index, draft, tool_calls, logprobs),
    ensures
        shows_its_parts(
            choice,
            complete,
            index as int,
            draft.text@,
            draft.reasoning_text,
            tool_calls,
        ),
        choice.logprobs == logprobs,
{
}

/// A choice that is built shows the parts that it is built of.
pub proof fn built_choices_show_their_parts<L, I>(
    complete: GenerateComplete<L, I>,
    index: usize,
    draft: ChoiceDraft,
    tool_calls: Option<Vec<ToolCall>>,
    logprobs: Option<ChatLogProbs<L>>,
    choice: ChatChoice<L>,
)
    requires
        call_ensures(
            build_choice::<L, I>,
            (&complete, index, draft, tool_calls, logprobs),
            choice,
        ),
    ensures
        shows_its_parts(
            choice,
            complete,
            index as int,
            draft.text@,
            draft.reasoning_text,
            tool_calls,
        ),
        choice.logprobs == logprobs,
{
}

/// A choice that is finished shows the parts that it is made of, and the log probabilities of the
/// output of its response.
pub proof fn finished_choices_show_their_parts<S: RouterServices, L: Copy, I>(
    router: GrpcPDRouter<S>,
    complete: GenerateComplete<L, I>,
    index: usize,
    draft: ChoiceDraft,
    tool_calls: Option<Vec<ToolCall>>,
    choice: ChatChoice<L>,
)
    requires
        call_ensures(
            GrpcPDRouter::<S>::finish_choice::<L, I>,
            (&router, &complete, index, draft, tool_calls),
            choice,
        ),
    ensures
        shows_its_parts(
            choice,
            complete,
            index as int,
            draft.text@,
            draft.reasoning_text,
            tool_calls,
        ),
        shows_output_logprobs(router, choice, complete),
{
}

/// The stop is shown for what it is: a token as its number, a string as that string.
pub proof fn stops_show_for_what_they_are(
    matched_stop: Option<MatchedStop>,
    shown: Option<serde_json::Value>,
)
    requires
        call_ensures(stop_value, (&matched_stop,), shown),
    ensures
        shown is Some <==> matched_stop is Some,
        matched_stop matches Some(MatchedStop::MatchedTokenId(id)) ==> json_number(shown->0)
            == Some(id as u64) && json_string(shown->0) is None,
        matched_stop matches Some(MatchedStop::MatchedStopStr(stop)) ==> json_string(shown->0)
            == Some(stop@) && json_number(shown->0) is None,
{
}

/// The decoder of a request is made with the stop conditions and the switches of that request.
pub proof fn decoders_are_made_for_the_request<S: RouterServices>(
    router: GrpcPDRouter<S>,
    request: ChatCompletionRequest<S::Tool, S::Rest>,
    decoder: S::Decoder,
)
    requires
        call_ensures(GrpcPDRouter::<S>::stop_decoder, (&router, &request), decoder),
    ensures
        exists|stop: Option<&StringOrArray>, stop_token_ids: Option<&Vec<u32>>|
            {
                &&& #[trigger] call_ensures(
                    S::create_stop_decoder,
                    (
                        &router.tokenizer,
                        stop,
                        stop_token_ids,
                        request.skip_special_tokens,
                        request.no_stop_trim,
                    ),
                    decoder,
                )
                &&& stop is Some <==> request.stop is Some
                &&& stop matches Some(given) ==> *given == request.stop->0
                &&& stop_token_ids is Some <==> request.stop_token_ids is Some
                &&& stop_token_ids matches Some(given) ==> *given == request.stop_token_ids->0
            },
{
}

/// The arguments of a call are the JSON text of their value, or an empty object where there is none.
pub proof fn arguments_are_their_json_text(arguments: serde_json::Value, text: String)
    requires
        call_ensures(arguments_text, (&arguments,), text),
    ensures
        json_text(arguments) matches Some(written) ==> text@ == written,
        json_text(arguments) is None ==> text@ == "{}"@,
{
}

/// A text of arguments is kept, and a missing one is an empty object.
pub proof fn written_arguments_are_kept(text: Option<String>, arguments: String)
    requires
        call_ensures(arguments_or_empty, (text,), arguments),
    ensures
        text matches Some(written) ==> arguments@ == written@,
        text is None ==> arguments@ == "{}"@,
{
}

/// A function call holds its identifier, its name and its arguments.
pub proof fn function_calls_hold_their_parts(
    id: String,
    name: String,
    arguments: String,
    call: ToolCall,
)
    requires
        call_ensures(function_call, (id, name, arguments), call),
    ensures
        call.id@ == id@,
        call.tool_type@ == "function"@,
        call.function.name@ == name@,
        call.function.arguments is Some,
        call.function.arguments->0@ == arguments@,
{
}

/// What a decode call gave for a token is shown as it came: text is the text of the token, whole; a
/// failure is shown by a placeholder that names the token.
pub open spec fn token_shows(
    decoded: Result<String, String>,
    token_id: i32,
    token: Seq<char>,
) -> bool {
    match decoded {
        Ok(text) => token == text@,
        Err(_) => exists|numeral: Seq<char>| #[trigger]
            is_numeral(numeral, token_id as int) && token == "<token_"@ + numeral + ">"@,
    }
}

proof fn lemma_token_shows(token_id: i32, decoded: Result<String, String>)
    ensures
        token_shows(decoded, token_id, text_or_placeholder(token_id, decoded)),
{
    signed_numerals_read_back(token_id as int);
}

/// The text of a token is what decoding gave, whole, or a placeholder that names the token.
pub proof fn token_texts_are_what_decoding_gave(
    token_id: i32,
    decoded: Result<String, String>,
    text: String,
)
    requires
        call_ensures(token_text, (token_id, decoded), text),
    ensures
        token_shows(decoded, token_id, text@),
{
    lemma_token_shows(token_id, decoded);
}

/// `token` is shown of a call that decodes the token `token_id` alone, with special tokens kept.
pub open spec fn is_shown_of_its_decoding<T: Tokenizer>(
    tokenizer: &T,
    token_id: i32,
    token: Seq<char>,
) -> bool {
    exists|ids: &[u32], decoded: Result<String, String>|
        {
            &&& #[trigger] call_ensures(T::decode, (tokenizer, ids, false), decoded)
            &&& ids@.len() == 1
            &&& (ids@[0] - token_id) % 0x1_0000_0000 == 0
            &&& token_shows(decoded, token_id, token)
        }
}

proof fn lemma_is_shown<T: Tokenizer>(tokenizer: &T, token_id: i32, token: Seq<char>)
    requires
        decodes_to(tokenizer, token_id, token),
    ensures
        is_shown_of_its_decoding(tokenizer, token_id, token),
{
    let (ids, decoded) = choose|ids: &[u32], decoded: Result<String, String>|
        {
            &&& #[trigger] call_ensures(T::decode, (tokenizer, ids, false), decoded)
            &&& ids@ == seq![unsigned_32(token_id) as u32]
            &&& token == text_or_placeholder(token_id, decoded)
        };
    lemma_token_shows(token_id, decoded);
    assert(ids@[0] == unsigned_32(token_id));
}

/// Log probabilities are shown in their order, each with its token as decoding that token alone gave
/// it, whole, and with the bytes of that text; so are the alternatives, as far as they have both a
/// value and a token.
pub proof fn logprobs_show_what_decoding_gave<S: RouterServices, L: Copy>(
    router: GrpcPDRouter<S>,
    logprobs: OutputLogProbs<L>,
    result: Result<ChatLogProbs<L>, String>,
    i: int,
    j: int,
)
    requires
        call_ensures(
            GrpcPDRouter::<S>::convert_proto_to_openai_logprobs::<L>,
            (&router, &logprobs),
            result,
        ),
    ensures
        result is Ok,
        result->Ok_0->content is None <==> logprobs.token_logprobs.len() == 0,
        logprobs.token_logprobs.len() > 0 ==> result->Ok_0->content->0.len()
            == logprobs.token_logprobs.len(),
        0 <= i < logprobs.token_logprobs.len() ==> {
            let entry = result->Ok_0->content->0@[i];
            &&& entry.logprob == logprobs.token_logprobs@[i]
            &&& entry.bytes is Some
            &&& entry.bytes->0@ == encode_utf8(entry.token@)
            &&& i < logprobs.token_ids.len() ==> is_shown_of_its_decoding(
                &*router.tokenizer,
                logprobs.token_ids@[i],
                entry.token@,
            )
            &&& i >= logprobs.token_ids.len() ==> entry.token@.len() == 0
            &&& i >= logprobs.top_logprobs.len() ==> entry.top_logprobs.len() == 0
            &&& i < logprobs.top_logprobs.len() ==> {
                let top = logprobs.top_logprobs@[i];
                &&& entry.top_logprobs.len() <= top.values.len()
                &&& entry.top_logprobs.len() <= top.token_ids.len()
                &&& entry.top_logprobs.len() == top.values.len() || entry.top_logprobs.len()
                    == top.token_ids.len()
                &&& 0 <= j < entry.top_logprobs.len() ==> {
                    &&& entry.top_logprobs@[j].logprob == top.values@[j]
                    &&& entry.top_logprobs@[j].bytes is Some
                    &&& entry.top_logprobs@[j].bytes->0@ == encode_utf8(
                        entry.top_logprobs@[j].token@,
                    )
                    &&& is_shown_of_its_decoding(
                        &*router.tokenizer,
                        top.token_ids@[j],
                        entry.top_logprobs@[j].token@,
                    )
                }
            }
        },
{
    let shown = result->Ok_0;
    logprobs_are_shown_one_for_one(&*router.tokenizer, logprobs, shown);
    if 0 <= i < logprobs.token_logprobs.len() {
        let entry = shown->content->0@[i];
        alternatives_are_shown_one_for_one(&*router.tokenizer, logprobs, shown, i);
        if i < logprobs.token_ids.len() {
            lemma_is_shown(&*router.tokenizer, logprobs.token_ids@[i], entry.token@);
        }
        if i < logprobs.top_logprobs.len() && 0 <= j < entry.top_logprobs.len() {
            lemma_is_shown(
                &*router.tokenizer,
                logprobs.top_logprobs@[i].token_ids@[j],
                entry.top_logprobs@[j].token@,
            );
        }
    }
}

/// Given texts are shown as they are, each with its log probability and its bytes, at its place.
pub proof fn given_texts_are_shown_whole<L: Copy>(
    logprobs: OutputLogProbs<L>,
    texts: Vec<String>,
    top_texts: Vec<Vec<String>>,
    content: Option<Vec<ChatLogProbsContent<L>>>,
    i: int,
    j: int,
)
    requires
        call_ensures(content_of::<L>, (&logprobs, &texts, &top_texts), content),
    ensures
        content is None <==> logprobs.token_logprobs.len() == 0,
        content matches Some(entries) ==> entries.len() == logprobs.token_logprobs.len(),
        0 <= i < logprobs.token_logprobs.len() ==> {
            let entry = content->0@[i];
            &&& entry.logprob == logprobs.token_logprobs@[i]
            &&& i < texts.len() ==> entry.token@ == texts@[i]@
            &&& i >= texts.len() ==> entry.token@.len() == 0
            &&& entry.bytes is Some
            &&& entry.bytes->0@ == encode_utf8(entry.token@)
            &&& i >= logprobs.top_logprobs.len() || i >= top_texts.len()
                ==> entry.top_logprobs.len() == 0
            &&& i < logprobs.top_logprobs.len() && i < top_texts.len() ==> {
                let top = logprobs.top_logprobs@[i];
                let n = entry.top_logprobs.len();
                &&& n <= top.values.len() && n <= top.token_ids.len() && n <= top_texts@[i].len()
                &&& n == top.values.len() || n == top.token_ids.len() || n == top_texts@[i].len()
                &&& 0 <= j < n ==> {
                    &&& entry.top_logprobs@[j].logprob == top.values@[j]
                    &&& entry.top_logprobs@[j].token@ == top_texts@[i]@[j]@
                    &&& entry.top_logprobs@[j].bytes is Some
                    &&& entry.top_logprobs@[j].bytes->0@ == encode_utf8(top_texts@[i]@[j]@)
                }
            }
        },
{
    if 0 <= i < logprobs.token_logprobs.len() {
        let entry = content->0@[i];
        assert(is_entry(entry, text_at(texts@, i), logprobs.token_logprobs@[i]));
        if i < logprobs.top_logprobs.len() && i < top_texts.len() {
            assert(is_top_list(
                entry.top_logprobs@,
                logprobs.top_logprobs@[i],
                top_texts@[i]@,
            ));
            if 0 <= j < entry.top_logprobs.len() {
                let top = entry.top_logprobs@[j];
                assert(is_top_entry(
                    top,
                    top_texts@[i]@[j]@,
                    logprobs.top_logprobs@[i].values@[j],
                ));
            }
        }
    }
}

} // verus!
