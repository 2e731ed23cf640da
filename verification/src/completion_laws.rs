//! What the steps that make a completion promise of their results, told by what goes into them.
use crate::choice::{
    emitted, flushed_text, is_begun, is_begun_of, is_choice, ChoiceDraft, ChoiceStep,
};
use crate::choice_laws::{
    beginnings_are_from_tokens, begins_from, begins_from_tokens, choices_show_their_parts,
    findings_are_what_the_parser_gave, lemma_begins_from, shows_its_parts, shows_output_logprobs,
};
use crate::completion::{
    all_tokens, completion_counts, failure_of_choice, generation_started, goes_on, is_completion,
    is_failure, is_attempt, is_finished_with, is_processed, is_started, is_step, is_usage, leads_to,
    prompt_counts, usage_of, ChoiceRun, RunStep,
};
use crate::proto::GenerateComplete;
use crate::protocol::{
    ChatChoice, ChatCompletionRequest, ChatCompletionResponse, ToolCall, Usage,
};
use crate::reply::Reply;
use crate::router::GrpcPDRouter;
use crate::services::{RouterServices, SequenceDecoderOutput, StopDecoder};
use crate::text_laws::{is_unsigned_numeral, numerals_read_back};
use crate::tools::{tools_parsed, ParsedToolCall, ToolFindings};
use vstd::prelude::*;

verus! {

/// `reply` is an internal error with this message.
pub open spec fn reports(reply: Reply, message: Seq<char>) -> bool {
    reply matches Reply::InternalError { message: text } && text@ == message
}

/// Generation goes on with what both workers started; a prefill worker that did not start is
/// reported whatever the decode worker did, and each in its own words.
pub proof fn both_workers_have_to_start<P, D>(
    prefill: Result<P, String>,
    decode: Result<D, String>,
    result: Result<(P, D), Reply>,
)
    requires
        call_ensures(generation_started::<P, D>, (prefill, decode), result),
    ensures
        result is Ok <==> prefill is Ok && decode is Ok,
        result matches Ok(started) ==> started.0 == prefill->Ok_0 && started.1 == decode->Ok_0,
        prefill matches Err(error) ==> reports(
            result->Err_0,
            "Prefill worker failed to start: "@ + error@,
        ),
        prefill is Ok ==> (decode matches Err(error) ==> reports(
            result->Err_0,
            "Decode worker failed to start: "@ + error@,
        )),
{
}

/// A response as a run holds it: all that the decode worker returned, and for the log probabilities
/// of the input those of the prefill worker's first response, where it has any and they are wanted.
pub open spec fn is_held<L, I: Clone>(
    given: GenerateComplete<L, I>,
    prefill_responses: Seq<GenerateComplete<L, I>>,
    wanted: bool,
    held: GenerateComplete<L, I>,
) -> bool {
    &&& held.output_ids == given.output_ids
    &&& held.finish_reason == given.finish_reason
    &&& held.prompt_tokens == given.prompt_tokens
    &&& held.completion_tokens == given.completion_tokens
    &&& held.matched_stop == given.matched_stop
    &&& held.output_logprobs == given.output_logprobs
    &&& if wanted && prefill_responses.len() > 0 && prefill_responses[0].input_logprobs is Some {
        &&& held.input_logprobs is Some
        &&& cloned(prefill_responses[0].input_logprobs->0, held.input_logprobs->0)
    } else {
        held.input_logprobs == given.input_logprobs
    }
}

/// The same of every start that contracts speak of.
pub proof fn started_runs_hold_their_responses<L, I: Clone>(
    run: ChoiceRun<L, I>,
    prefill_responses: Seq<GenerateComplete<L, I>>,
    responses: Seq<GenerateComplete<L, I>>,
    wanted: bool,
)
    requires
        is_started(run, prefill_responses, responses, wanted),
    ensures
        run.choices().len() == 0,
        run.responses().len() == responses.len(),
        forall|i: int|
            0 <= i < responses.len() ==> is_held(
                responses[i],
                prefill_responses,
                wanted,
                #[trigger] run.responses()[i],
            ),
{
}

/// A run starts with every response of the decode worker in its place, and with no choice; without a
/// response it does not start.
pub proof fn runs_start_with_all_responses<L, I: Clone>(
    prefill_responses: Vec<GenerateComplete<L, I>>,
    responses: Vec<GenerateComplete<L, I>>,
    wanted: bool,
    result: Result<ChoiceRun<L, I>, Reply>,
)
    requires
        call_ensures(
            ChoiceRun::<L, I>::start,
            (&prefill_responses, responses, wanted),
            result,
        ),
    ensures
        result is Ok <==> responses.len() > 0,
        result matches Err(reply) ==> reports(reply, "No responses from decode worker"@),
        result matches Ok(run) ==> {
            &&& run.choices().len() == 0
            &&& run.responses().len() == responses.len()
            &&& forall|i: int|
                0 <= i < responses.len() ==> is_held(
                    responses@[i],
                    prefill_responses@,
                    wanted,
                    #[trigger] run.responses()[i],
                )
        },
{
    if let Ok(run) = result {
        started_runs_hold_their_responses(run, prefill_responses@, responses@, wanted);
    }
}

/// The next response is the first of which no choice is made yet.
pub proof fn the_next_response_is_the_first_left<L, I>(
    run: ChoiceRun<L, I>,
    next: Option<(usize, &GenerateComplete<L, I>)>,
)
    requires
        call_ensures(ChoiceRun::<L, I>::next_response, (&run,), next),
    ensures
        next is Some <==> run.choices().len() < run.responses().len(),
        next matches Some((index, response)) ==> {
            &&& index == run.choices().len()
            &&& *response == run.responses()[index as int]
        },
{
}

/// `message` names the choice at `index`, in digits, and the error.
pub open spec fn names_the_choice(message: Seq<char>, index: int, error: Seq<char>) -> bool {
    exists|numeral: Seq<char>| #[trigger]
        is_unsigned_numeral(numeral, index) && message == "Failed to process choice "@ + numeral
            + ": "@ + error
}

/// A choice that cannot be made is reported by its place, with its error.
pub proof fn failed_choices_are_named<L, I>(
    run: ChoiceRun<L, I>,
    error: String,
    reply: Reply,
)
    requires
        call_ensures(ChoiceRun::<L, I>::choice_failed, (&run, &error), reply),
    ensures
        reply is InternalError,
        names_the_choice(reply->message@, run.choices().len() as int, error@),
{
    numerals_read_back(run.choices().len());
}

/// One more choice is made: it comes behind the others, which stay as they are, and is made of the
/// next response, the draft and the tool calls given.
pub open spec fn adds_a_choice<S: RouterServices, L, I>(
    router: GrpcPDRouter<S>,
    run: ChoiceRun<L, I>,
    text: Seq<char>,
    reasoning_text: Option<String>,
    tool_calls: Option<Vec<ToolCall>>,
    later: ChoiceRun<L, I>,
) -> bool {
    let response = run.responses()[run.choices().len() as int];
    let choice = later.choices().last();
    &&& later.responses() == run.responses()
    &&& later.choices().len() == run.choices().len() + 1
    &&& forall|i: int|
        0 <= i < run.choices().len() ==> #[trigger] later.choices()[i] == run.choices()[i]
    &&& shows_its_parts(
        choice,
        response,
        run.choices().len() as int,
        text,
        reasoning_text,
        tool_calls,
    )
    &&& shows_output_logprobs(router, choice, response)
}

/// A choice that is finished is added to the run.
pub proof fn finished_choices_are_added<S: RouterServices, L: Copy, I>(
    router: GrpcPDRouter<S>,
    run: ChoiceRun<L, I>,
    draft: ChoiceDraft,
    tool_calls: Option<Vec<ToolCall>>,
    later: ChoiceRun<L, I>,
)
    requires
        call_ensures(
            ChoiceRun::<L, I>::finish_next::<S>,
            (run, &router, draft, tool_calls),
            later,
        ),
    ensures
        adds_a_choice(router, run, draft.text@, draft.reasoning_text, tool_calls, later),
{
    lemma_adds(router, run, draft, tool_calls, later);
}

proof fn lemma_adds<S: RouterServices, L, I>(
    router: GrpcPDRouter<S>,
    run: ChoiceRun<L, I>,
    draft: ChoiceDraft,
    tool_calls: Option<Vec<ToolCall>>,
    later: ChoiceRun<L, I>,
)
    requires
        is_finished_with(router, run, draft, tool_calls, later),
    ensures
        adds_a_choice(router, run, draft.text@, draft.reasoning_text, tool_calls, later),
{
    assert forall|i: int| 0 <= i < run.choices().len() implies #[trigger] later.choices()[i]
        == run.choices()[i] by {
        assert(later.choices().drop_last()[i] == later.choices()[i]);
    }
}

/// A choice that the tool parser of the model looked at is added with the text and the calls that
/// were found, and with the reasoning of its draft.
pub proof fn searched_choices_are_added<S: RouterServices, L: Copy, I>(
    router: GrpcPDRouter<S>,
    run: ChoiceRun<L, I>,
    draft: ChoiceDraft,
    findings: ToolFindings,
    later: ChoiceRun<L, I>,
)
    requires
        call_ensures(
            ChoiceRun::<L, I>::finish_searched::<S>,
            (run, &router, draft, findings),
            later,
        ),
    ensures
        adds_a_choice(
            router,
            run,
            findings.text@,
            draft.reasoning_text,
            findings.tool_calls,
            later,
        ),
{
    lemma_adds(
        router,
        run,
        ChoiceDraft { text: findings.text, reasoning_text: draft.reasoning_text },
        findings.tool_calls,
        later,
    );
}

/// What a successful parse leaves of a text is the content of the choice, and none where it leaves
/// nothing; the calls that it found are the calls of the choice.
pub proof fn parsed_text_is_the_content<S: RouterServices, L: Copy, I>(
    router: GrpcPDRouter<S>,
    run: ChoiceRun<L, I>,
    draft: ChoiceDraft,
    normal_text: String,
    parsed: Vec<ParsedToolCall>,
    findings: ToolFindings,
    later: ChoiceRun<L, I>,
)
    requires
        call_ensures(
            tools_parsed,
            (draft.text, Ok::<(String, Vec<ParsedToolCall>), String>((normal_text, parsed))),
            findings,
        ),
        call_ensures(
            ChoiceRun::<L, I>::finish_searched::<S>,
            (run, &router, draft, findings),
            later,
        ),
    ensures
        ({
            let message = later.choices().last().message;
            &&& normal_text@.len() == 0 ==> message.content is None
            &&& normal_text@.len() > 0 ==> message.content is Some && message.content->0@
                == normal_text@
            &&& message.tool_calls is Some <==> parsed.len() > 0
            &&& parsed.len() > 0 ==> message.tool_calls->0.len() == parsed.len()
        }),
{
    findings_are_what_the_parser_gave(
        draft.text,
        Ok::<(String, Vec<ParsedToolCall>), String>((normal_text, parsed)),
        findings,
    );
    searched_choices_are_added(router, run, draft, findings, later);
}

/// A choice is made of a response: it begins from the tokens of the response and is finished as it
/// began, at the place of the response.
pub open spec fn is_made_from_tokens<S: RouterServices, L, I>(
    router: GrpcPDRouter<S>,
    request: ChatCompletionRequest<S::Tool, S::Rest>,
    response: GenerateComplete<L, I>,
    index: int,
    choice: ChatChoice<L>,
) -> bool {
    exists|draft: ChoiceDraft, tool_calls: Option<Vec<ToolCall>>|
        {
            &&& #[trigger] begins_from_tokens(
                router,
                request,
                response.output_ids@,
                Ok(ChoiceStep::Finish { draft, tool_calls }),
            )
            &&& shows_its_parts(
                choice,
                response,
                index,
                draft.text@,
                draft.reasoning_text,
                tool_calls,
            )
            &&& shows_output_logprobs(router, choice, response)
        }
}

proof fn lemma_made_from_tokens<S: RouterServices, L, I>(
    router: GrpcPDRouter<S>,
    request: ChatCompletionRequest<S::Tool, S::Rest>,
    response: GenerateComplete<L, I>,
    index: int,
    choice: ChatChoice<L>,
)
    requires
        is_processed(router, request, choice, response, index),
        0 <= index <= usize::MAX,
    ensures
        is_made_from_tokens(router, request, response, index, choice),
{
    let (draft, tool_calls) = choose|draft: ChoiceDraft, tool_calls: Option<Vec<ToolCall>>|
        {
            &&& #[trigger] is_choice(
                choice,
                response,
                index as usize,
                draft,
                tool_calls,
                choice.logprobs,
            )
            &&& is_begun_of(
                router,
                request,
                response.output_ids@,
                Ok(ChoiceStep::Finish { draft, tool_calls }),
            )
        };
    choices_show_their_parts(
        response,
        index as usize,
        draft,
        tool_calls,
        choice.logprobs,
        choice,
    );
    beginnings_are_from_tokens(
        router,
        request,
        response.output_ids@,
        Ok(ChoiceStep::Finish { draft, tool_calls }),
    );
}

/// `later` goes on from `run`: the responses and the choices of `run` stay as they are, and behind
/// them comes a choice of each of the next responses, in their order.
pub open spec fn makes_choices_in_order<S: RouterServices, L, I>(
    router: GrpcPDRouter<S>,
    request: ChatCompletionRequest<S::Tool, S::Rest>,
    run: ChoiceRun<L, I>,
    later: ChoiceRun<L, I>,
) -> bool {
    &&& later.responses() == run.responses()
    &&& run.choices().len() <= later.choices().len()
    &&& forall|i: int|
        0 <= i < run.choices().len() ==> #[trigger] later.choices()[i] == run.choices()[i]
    &&& forall|i: int|
        run.choices().len() <= i < later.choices().len() ==> is_made_from_tokens(
            router,
            request,
            run.responses()[i],
            i,
            #[trigger] later.choices()[i],
        )
}

proof fn lemma_in_order<S: RouterServices, L, I>(
    router: GrpcPDRouter<S>,
    request: ChatCompletionRequest<S::Tool, S::Rest>,
    run: ChoiceRun<L, I>,
    later: ChoiceRun<L, I>,
)
    requires
        goes_on(router, request, run, later),
    ensures
        makes_choices_in_order(router, request, run, later),
{
    assert forall|i: int| 0 <= i < run.choices().len() implies #[trigger] later.choices()[i]
        == run.choices()[i] by {
        assert(later.choices().take(run.choices().len() as int)[i] == later.choices()[i]);
    }
    assert forall|i: int|
        run.choices().len() <= i < later.choices().len() implies is_made_from_tokens(
        router,
        request,
        run.responses()[i],
        i,
        #[trigger] later.choices()[i],
    ) by {
        lemma_made_from_tokens(router, request, run.responses()[i], i, later.choices()[i]);
    }
}

/// A run advances from response to response: it is done only with a choice of every response, waits
/// only with a draft begun from the tokens of the next one, and fails only with the error of the next
/// one.
pub proof fn runs_advance_in_order<S: RouterServices, L: Copy, I>(
    router: GrpcPDRouter<S>,
    request: ChatCompletionRequest<S::Tool, S::Rest>,
    run: ChoiceRun<L, I>,
    step: RunStep<L, I>,
)
    requires
        exists|decoder: &mut S::Decoder| #[trigger]
            call_ensures(
                ChoiceRun::<L, I>::advance::<S>,
                (run, &router, &request, decoder),
                step,
            ),
    ensures
        match step {
            RunStep::Done(later) => {
                &&& makes_choices_in_order(router, request, run, later)
                &&& later.choices().len() == run.responses().len()
            },
            RunStep::DetectTools { run: later, draft } => {
                &&& makes_choices_in_order(router, request, run, later)
                &&& later.choices().len() < run.responses().len()
                &&& begins_from_tokens(
                    router,
                    request,
                    run.responses()[later.choices().len() as int].output_ids@,
                    Ok(ChoiceStep::DetectTools { draft }),
                )
            },
            RunStep::Failed(reply) => exists|later: ChoiceRun<L, I>, error: String|
                {
                    &&& #[trigger] makes_choices_in_order(router, request, run, later)
                    &&& later.choices().len() < run.responses().len()
                    &&& #[trigger] begins_from_tokens(
                        router,
                        request,
                        run.responses()[later.choices().len() as int].output_ids@,
                        Err(error),
                    )
                    &&& reply is InternalError
                    &&& names_the_choice(
                        reply->message@,
                        later.choices().len() as int,
                        error@,
                    )
                },
        },
{
    assert(is_step(router, request, run, step));
    match step {
        RunStep::Done(later) => {
            lemma_in_order(router, request, run, later);
        },
        RunStep::DetectTools { run: later, draft } => {
            lemma_in_order(router, request, run, later);
            beginnings_are_from_tokens(
                router,
                request,
                later.responses()[later.choices().len() as int].output_ids@,
                Ok(ChoiceStep::DetectTools { draft }),
            );
        },
        RunStep::Failed(reply) => {
            let later = choose|later: ChoiceRun<L, I>|
                {
                    &&& #[trigger] goes_on(router, request, run, later)
                    &&& !later.is_done()
                    &&& is_failure(router, request, later, reply)
                };
            let ids = later.responses()[later.choices().len() as int].output_ids@;
            let error = choose|error: String|
                {
                    &&& #[trigger] is_begun_of(
                        router,
                        request,
                        ids,
                        Err::<ChoiceStep, String>(error),
                    )
                    &&& reply.is_internal_error(failure_of_choice(later.choices().len(), error@))
                };
            lemma_in_order(router, request, run, later);
            beginnings_are_from_tokens(
                router,
                request,
                ids,
                Err::<ChoiceStep, String>(error),
            );
            numerals_read_back(later.choices().len());
        },
    }
}

/// One decoder is taken from choice to choice: each resets it in the state in which the one before
/// left it, decodes its own tokens with it, and flushes it.
pub proof fn runs_take_the_decoder_along<S: RouterServices, L: Copy, I>(
    router: GrpcPDRouter<S>,
    request: ChatCompletionRequest<S::Tool, S::Rest>,
    run: ChoiceRun<L, I>,
    step: RunStep<L, I>,
    before: S::Decoder,
    after: S::Decoder,
)
    requires
        exists|decoder: &mut S::Decoder|
            {
                &&& #[trigger] call_ensures(
                    ChoiceRun::<L, I>::advance::<S>,
                    (run, &router, &request, decoder),
                    step,
                )
                &&& *decoder == before
                &&& *final(decoder) == after
            },
    ensures
            exists|states: Seq<S::Decoder>, outcomes: Seq<Result<ChoiceStep, String>>|
                {
                    &&& #[trigger] leads_to(run, states, outcomes, step)
                    &&& states.len() == outcomes.len() + 1
                    &&& step matches RunStep::Done(later) ==> later.choices().len()
                        == run.choices().len() + outcomes.len()
                    &&& step matches RunStep::DetectTools { run: later, .. }
                        ==> later.choices().len() + 1 == run.choices().len() + outcomes.len()
                    &&& states[0] == before
                    &&& states.last() == after
                    &&& forall|k: int| #[trigger]
                        is_attempt(outcomes, k) ==> exists|
                            d0: &mut S::Decoder,
                            d1: &mut S::Decoder,
                            ids: &[u32],
                            outcome: Result<Vec<SequenceDecoderOutput>, String>,
                        |
                            {
                                &&& #[trigger] call_ensures(S::Decoder::reset, (d0,), ())
                                &&& *d0 == states[k]
                                &&& #[trigger] call_ensures(
                                    S::Decoder::process_tokens,
                                    (d1, ids),
                                    outcome,
                                )
                                &&& *d1 == *final(d0)
                                &&& ids@ == run.responses()[run.choices().len() + k].output_ids@
                                &&& match outcome {
                                    Err(message) => {
                                        &&& outcomes[k] matches Err(error) && error@
                                            == "Failed to process tokens: "@ + message@
                                        &&& *final(d1) == states[k + 1]
                                    },
                                    Ok(outputs) => exists|
                                        d2: &mut S::Decoder,
                                        flushed: SequenceDecoderOutput,
                                    |
                                        {
                                            &&& #[trigger] call_ensures(
                                                S::Decoder::flush,
                                                (d2,),
                                                flushed,
                                            )
                                            &&& *d2 == *final(d1)
                                            &&& *final(d2) == states[k + 1]
                                            &&& begins_from(
                                                router,
                                                request,
                                                emitted(outputs@) + flushed_text(flushed),
                                                outcomes[k],
                                            )
                                        },
                                }
                            }
                },
{
    assert forall|text: Seq<char>, result: Result<ChoiceStep, String>| #[trigger]
        is_begun(router, request, text, result) implies begins_from(
        router,
        request,
        text,
        result,
    ) by {
        lemma_begins_from(router, request, text, result);
    }
}

/// No responses take no tokens, and one more response adds exactly its own, read as unsigned.
pub proof fn one_more_response_adds_its_tokens<L, I>(
    responses: Seq<GenerateComplete<L, I>>,
    response: GenerateComplete<L, I>,
    usage: Usage,
    longer: Usage,
)
    requires
        is_usage(usage, responses),
        is_usage(longer, responses.push(response)),
    ensures
        responses.len() == 0 ==> usage.prompt_tokens == 0 && usage.completion_tokens == 0,
        usage.total_tokens == usage.prompt_tokens + usage.completion_tokens,
        usage.completion_tokens_details is None,
        longer.prompt_tokens >= usage.prompt_tokens,
        (longer.prompt_tokens - usage.prompt_tokens - response.prompt_tokens) % 0x1_0000_0000 == 0,
        longer.completion_tokens >= usage.completion_tokens,
        (longer.completion_tokens - usage.completion_tokens - response.completion_tokens)
            % 0x1_0000_0000 == 0,
{
    let all = responses.push(response);
    assert(prompt_counts(all).drop_last() =~= prompt_counts(responses));
    assert(completion_counts(all).drop_last() =~= completion_counts(responses));
}

/// The tokens of all responses are those of the prompts and of the completions, each read as
/// unsigned: none for no responses, and for one more its own.
pub proof fn all_tokens_are_counted<L, I>(
    responses: Seq<GenerateComplete<L, I>>,
    response: GenerateComplete<L, I>,
)
    ensures
        responses.len() == 0 ==> all_tokens(responses) == 0,
        response.prompt_tokens >= 0 && response.completion_tokens >= 0 ==> all_tokens(
            responses.push(response),
        ) == all_tokens(responses) + response.prompt_tokens + response.completion_tokens,
        response.prompt_tokens < 0 && response.completion_tokens >= 0 ==> all_tokens(
            responses.push(response),
        ) == all_tokens(responses) + response.prompt_tokens + 0x1_0000_0000
            + response.completion_tokens,
        response.prompt_tokens >= 0 && response.completion_tokens < 0 ==> all_tokens(
            responses.push(response),
        ) == all_tokens(responses) + response.prompt_tokens + response.completion_tokens
            + 0x1_0000_0000,
        response.prompt_tokens < 0 && response.completion_tokens < 0 ==> all_tokens(
            responses.push(response),
        ) == all_tokens(responses) + response.prompt_tokens + response.completion_tokens
            + 0x2_0000_0000,
{
    let all = responses.push(response);
    assert(prompt_counts(all).drop_last() =~= prompt_counts(responses));
    assert(completion_counts(all).drop_last() =~= completion_counts(responses));
}

/// The usage of responses is counted exactly where all their tokens fit 32 bits.
pub proof fn usage_is_counted_where_it_fits<L, I>(
    responses: Vec<GenerateComplete<L, I>>,
    usage: Option<Usage>,
)
    requires
        call_ensures(usage_of::<L, I>, (&responses,), usage),
    ensures
        usage is Some <==> all_tokens(responses@) <= u32::MAX,
        usage matches Some(counted) ==> is_usage(counted, responses@) && counted.total_tokens
            == all_tokens(responses@),
{
}

/// Whether the usage of a run fits is told by the tokens of its responses.
pub proof fn fitting_is_told_by_the_tokens<L, I>(run: ChoiceRun<L, I>, fits: bool)
    requires
        call_ensures(ChoiceRun::<L, I>::usage_fits, (&run,), fits),
    ensures
        fits <==> all_tokens(run.responses()) <= u32::MAX,
{
}

/// The completion of a run is under the identifier, the time and the model given, holds the choices
/// of the run in their order, one for each response, and counts the tokens of the responses.
pub proof fn completions_hold_all_choices<L, I>(
    run: ChoiceRun<L, I>,
    id: String,
    seconds_since_epoch: Option<u64>,
    model: String,
    response: ChatCompletionResponse<L>,
)
    requires
        call_ensures(
            ChoiceRun::<L, I>::finish,
            (run, id, seconds_since_epoch, &model),
            response,
        ) || is_completion(response, id, seconds_since_epoch, model, run),
    ensures
        response.id@ == id@,
        response.object@ == "chat.completion"@,
        seconds_since_epoch matches Some(seconds) ==> response.created == seconds,
        seconds_since_epoch is None ==> response.created == 0,
        response.model@ == model@,
        response.choices@ == run.choices(),
        response.choices.len() == run.responses().len(),
        response.usage is Some,
        is_usage(response.usage->0, run.responses()),
        response.usage->0.total_tokens == all_tokens(run.responses()),
        response.system_fingerprint is None,
{
}

} // verus!
