//! What a choice and a completion do not depend on: the state in which the decoder is found, the
//! other choices, and what the prefill worker returned.
//!
//! The laws speak of services that answer alike when asked alike
//! ([`crate::alike::services_answer_alike`]). Of the decoder, some ask only that it answer by its state
//! ([`decodes_by_state`]), others that a reset clear it ([`reset_clears`]).
use crate::alike::{
    alike_but_for_place, calls_alike, choice_alike, choices_alike, completions_alike, content_alike,
    drafts_alike, entry_alike, errors_alike, findings_alike, logprobs_alike, results_alike,
    same_but_for_input, services_answer_alike, steps_alike, tokenizer_answers_alike, top_alike,
};
use crate::bits::low_unsigned_32;
use crate::choice::{begins_by, begins_with, is_choice, ChoiceDraft, ChoiceStep};
use crate::completion::{
    advances, all_tokens, begin_by, completion_counts, failure_of_choice, goes_on, is_attempt,
    is_completion, is_finished_with, is_started, is_step, leads_to, makes, prompt_counts,
    shows_logprobs, ChoiceRun, RunStep,
};
use crate::laws::{alternatives_are_shown_one_for_one, logprobs_are_shown_one_for_one};
use crate::logprobs::{decodes_to, shows};
use crate::proto::{GenerateComplete, OutputLogProbs};
use crate::protocol::{
    ChatChoice, ChatCompletionRequest, ChatCompletionResponse, ChatLogProbs, ToolCall,
};
use crate::router::GrpcPDRouter;
use crate::services::{RouterServices, Tokenizer};
use crate::tools::{are_found, ParsedToolCall, ToolFindings};
use vstd::prelude::*;

verus! {

proof fn lemma_begin_alike<S: RouterServices>(
    router: GrpcPDRouter<S>,
    request: ChatCompletionRequest<S::Tool, S::Rest>,
    decoded: Result<Seq<char>, Seq<char>>,
    a: Result<ChoiceStep, String>,
    b: Result<ChoiceStep, String>,
)
    requires
        services_answer_alike(router),
        begins_with(router, request, decoded, a),
        begins_with(router, request, decoded, b),
    ensures
        steps_alike(a, b),
{
}

proof fn lemma_tokens_alike<T: Tokenizer>(tokenizer: &T, token_id: i32, a: Seq<char>, b: Seq<char>)
    requires
        tokenizer_answers_alike(tokenizer),
        decodes_to(tokenizer, token_id, a),
        decodes_to(tokenizer, token_id, b),
    ensures
        a == b,
{
}

proof fn lemma_logprobs_alike<T: Tokenizer, L>(
    tokenizer: &T,
    logprobs: OutputLogProbs<L>,
    a: ChatLogProbs<L>,
    b: ChatLogProbs<L>,
)
    requires
        tokenizer_answers_alike(tokenizer),
        shows(tokenizer, logprobs, a),
        shows(tokenizer, logprobs, b),
    ensures
        content_alike(a, b),
{
    logprobs_are_shown_one_for_one(tokenizer, logprobs, a);
    logprobs_are_shown_one_for_one(tokenizer, logprobs, b);
    if a->content is Some {
        let left = a->content->0;
        let right = b->content->0;
        assert forall|i: int| 0 <= i < left.len() implies entry_alike(
            #[trigger] left@[i],
            right@[i],
        ) by {
            alternatives_are_shown_one_for_one(tokenizer, logprobs, a, i);
            alternatives_are_shown_one_for_one(tokenizer, logprobs, b, i);
            if i < logprobs.token_ids.len() {
                lemma_tokens_alike(
                    tokenizer,
                    logprobs.token_ids@[i],
                    left@[i].token@,
                    right@[i].token@,
                );
            }
            assert forall|j: int| 0 <= j < left@[i].top_logprobs.len() implies top_alike(
                #[trigger] left@[i].top_logprobs@[j],
                right@[i].top_logprobs@[j],
            ) by {
                lemma_tokens_alike(
                    tokenizer,
                    logprobs.top_logprobs@[i].token_ids@[j],
                    left@[i].top_logprobs@[j].token@,
                    right@[i].top_logprobs@[j].token@,
                );
            }
        }
    }
}

proof fn lemma_choices_alike<S: RouterServices, L, I>(
    router: GrpcPDRouter<S>,
    a_complete: GenerateComplete<L, I>,
    b_complete: GenerateComplete<L, I>,
    a_index: usize,
    b_index: usize,
    a_draft: ChoiceDraft,
    b_draft: ChoiceDraft,
    a_calls: Option<Vec<ToolCall>>,
    b_calls: Option<Vec<ToolCall>>,
    a: ChatChoice<L>,
    b: ChatChoice<L>,
)
    requires
        services_answer_alike(router),
        same_but_for_input(a_complete, b_complete),
        drafts_alike(a_draft, b_draft),
        calls_alike(a_calls, b_calls),
        is_choice(a, a_complete, a_index, a_draft, a_calls, a.logprobs),
        is_choice(b, b_complete, b_index, b_draft, b_calls, b.logprobs),
        shows_logprobs(router, a, a_complete),
        shows_logprobs(router, b, b_complete),
    ensures
        alike_but_for_place(a, b),
        a_index == b_index ==> choice_alike(a, b),
{
    if a_complete.output_logprobs is Some {
        lemma_logprobs_alike(
            &*router.tokenizer,
            a_complete.output_logprobs->0,
            a.logprobs->0,
            b.logprobs->0,
        );
    }
    assert(logprobs_alike(a.logprobs, b.logprobs));
}

/// What the tool parser of the model makes of a text: whether it knows the format, and what parsing
/// gives.
pub open spec fn are_found_by(
    parser: spec_fn(Seq<char>) -> (bool, Result<(String, Vec<ParsedToolCall>), String>),
    text: Seq<char>,
    findings: ToolFindings,
) -> bool {
    are_found(findings, text, parser(text).0, parser(text).1)
}

/// `choice` is the choice at `index` that a response comes to, where decoding its tokens comes to
/// `decoded` and `parser` tells what the tool parser of the model makes of a text.
pub open spec fn is_settled<S: RouterServices, L, I>(
    router: GrpcPDRouter<S>,
    request: ChatCompletionRequest<S::Tool, S::Rest>,
    decoded: Result<Seq<char>, Seq<char>>,
    parser: spec_fn(Seq<char>) -> (bool, Result<(String, Vec<ParsedToolCall>), String>),
    complete: GenerateComplete<L, I>,
    index: int,
    choice: ChatChoice<L>,
) -> bool {
    &&& shows_logprobs(router, choice, complete)
    &&& {
        ||| exists|draft: ChoiceDraft, tool_calls: Option<Vec<ToolCall>>|
            {
                &&& #[trigger] is_choice(
                    choice,
                    complete,
                    index as usize,
                    draft,
                    tool_calls,
                    choice.logprobs,
                )
                &&& begins_with(
                    router,
                    request,
                    decoded,
                    Ok(ChoiceStep::Finish { draft, tool_calls }),
                )
            }
        ||| exists|draft: ChoiceDraft, findings: ToolFindings|
            {
                &&& #[trigger] are_found_by(parser, draft.text@, findings)
                &&& is_choice(
                    choice,
                    complete,
                    index as usize,
                    ChoiceDraft { text: findings.text, reasoning_text: draft.reasoning_text },
                    findings.tool_calls,
                    choice.logprobs,
                )
                &&& #[trigger] begins_with(
                    router,
                    request,
                    decoded,
                    Ok(ChoiceStep::DetectTools { draft }),
                )
            }
    }
}

/// `result` is what a response comes to: the choice at `index`, or the error with which it begins.
pub open spec fn comes_to<S: RouterServices, L, I>(
    router: GrpcPDRouter<S>,
    request: ChatCompletionRequest<S::Tool, S::Rest>,
    decoded: Result<Seq<char>, Seq<char>>,
    parser: spec_fn(Seq<char>) -> (bool, Result<(String, Vec<ParsedToolCall>), String>),
    complete: GenerateComplete<L, I>,
    index: int,
    result: Result<ChatChoice<L>, String>,
) -> bool {
    match result {
        Ok(choice) => is_settled(router, request, decoded, parser, complete, index, choice),
        Err(error) => begins_with(router, request, decoded, Err(error)),
    }
}

proof fn lemma_findings_alike(
    parser: spec_fn(Seq<char>) -> (bool, Result<(String, Vec<ParsedToolCall>), String>),
    text: Seq<char>,
    a: ToolFindings,
    b: ToolFindings,
)
    requires
        are_found_by(parser, text, a),
        are_found_by(parser, text, b),
    ensures
        findings_alike(a, b),
{
}

proof fn lemma_settled_alike<S: RouterServices, L, I>(
    router: GrpcPDRouter<S>,
    request: ChatCompletionRequest<S::Tool, S::Rest>,
    decoded: Result<Seq<char>, Seq<char>>,
    parser: spec_fn(Seq<char>) -> (bool, Result<(String, Vec<ParsedToolCall>), String>),
    a_complete: GenerateComplete<L, I>,
    b_complete: GenerateComplete<L, I>,
    a_index: int,
    b_index: int,
    a: ChatChoice<L>,
    b: ChatChoice<L>,
)
    requires
        services_answer_alike(router),
        same_but_for_input(a_complete, b_complete),
        is_settled(router, request, decoded, parser, a_complete, a_index, a),
        is_settled(router, request, decoded, parser, b_complete, b_index, b),
    ensures
        alike_but_for_place(a, b),
        a_index == b_index ==> choice_alike(a, b),
{
    let (a_step, a_draft, a_calls) = lemma_settled_of(
        router,
        request,
        decoded,
        parser,
        a_complete,
        a_index,
        a,
    );
    let (b_step, b_draft, b_calls) = lemma_settled_of(
        router,
        request,
        decoded,
        parser,
        b_complete,
        b_index,
        b,
    );
    lemma_begin_alike(router, request, decoded, Ok(a_step), Ok(b_step));
    if a_step is DetectTools {
        let a_text = a_step->DetectTools_draft.text@;
        let a_findings = choose|findings: ToolFindings|
            #[trigger] are_found_by(parser, a_text, findings) && a_draft == (ChoiceDraft {
                text: findings.text,
                reasoning_text: a_step->DetectTools_draft.reasoning_text,
            }) && a_calls == findings.tool_calls;
        let b_findings = choose|findings: ToolFindings|
            #[trigger] are_found_by(parser, a_text, findings) && b_draft == (ChoiceDraft {
                text: findings.text,
                reasoning_text: b_step->DetectTools_draft.reasoning_text,
            }) && b_calls == findings.tool_calls;
        lemma_findings_alike(parser, a_text, a_findings, b_findings);
    }
    lemma_choices_alike(
        router,
        a_complete,
        b_complete,
        a_index as usize,
        b_index as usize,
        a_draft,
        b_draft,
        a_calls,
        b_calls,
        a,
        b,
    );
}

/// How a settled choice began, and the draft and tool calls that it is made of.
proof fn lemma_settled_of<S: RouterServices, L, I>(
    router: GrpcPDRouter<S>,
    request: ChatCompletionRequest<S::Tool, S::Rest>,
    decoded: Result<Seq<char>, Seq<char>>,
    parser: spec_fn(Seq<char>) -> (bool, Result<(String, Vec<ParsedToolCall>), String>),
    complete: GenerateComplete<L, I>,
    index: int,
    choice: ChatChoice<L>,
) -> (parts: (ChoiceStep, ChoiceDraft, Option<Vec<ToolCall>>))
    requires
        is_settled(router, request, decoded, parser, complete, index, choice),
    ensures
        begins_with(router, request, decoded, Ok(parts.0)),
        is_choice(choice, complete, index as usize, parts.1, parts.2, choice.logprobs),
        match parts.0 {
            ChoiceStep::Finish { draft, tool_calls } => parts.1 == draft && parts.2 == tool_calls,
            ChoiceStep::DetectTools { draft } => exists|findings: ToolFindings|
                {
                    &&& #[trigger] are_found_by(parser, draft.text@, findings)
                    &&& parts.1 == (ChoiceDraft {
                        text: findings.text,
                        reasoning_text: draft.reasoning_text,
                    })
                    &&& parts.2 == findings.tool_calls
                },
        },
{
    if exists|draft: ChoiceDraft, tool_calls: Option<Vec<ToolCall>>|
        {
            &&& #[trigger] is_choice(
                choice,
                complete,
                index as usize,
                draft,
                tool_calls,
                choice.logprobs,
            )
            &&& begins_with(router, request, decoded, Ok(ChoiceStep::Finish { draft, tool_calls }))
        } {
        let (draft, tool_calls) = choose|draft: ChoiceDraft, tool_calls: Option<Vec<ToolCall>>|
            {
                &&& #[trigger] is_choice(
                    choice,
                    complete,
                    index as usize,
                    draft,
                    tool_calls,
                    choice.logprobs,
                )
                &&& begins_with(
                    router,
                    request,
                    decoded,
                    Ok(ChoiceStep::Finish { draft, tool_calls }),
                )
            };
        (ChoiceStep::Finish { draft, tool_calls }, draft, tool_calls)
    } else {
        let (draft, findings) = choose|draft: ChoiceDraft, findings: ToolFindings|
            {
                &&& #[trigger] are_found_by(parser, draft.text@, findings)
                &&& is_choice(
                    choice,
                    complete,
                    index as usize,
                    ChoiceDraft { text: findings.text, reasoning_text: draft.reasoning_text },
                    findings.tool_calls,
                    choice.logprobs,
                )
                &&& #[trigger] begins_with(
                    router,
                    request,
                    decoded,
                    Ok(ChoiceStep::DetectTools { draft }),
                )
            };
        (
            ChoiceStep::DetectTools { draft },
            ChoiceDraft { text: findings.text, reasoning_text: draft.reasoning_text },
            findings.tool_calls,
        )
    }
}

/// In states that are `like` one another, the decoder makes the same of the same tokens, and is left
/// in states that are `like` one another.
pub open spec fn decodes_alike<D>(
    decodes: spec_fn(D, Seq<u32>, Result<Seq<char>, Seq<char>>, D) -> bool,
    like: spec_fn(D, D) -> bool,
) -> bool {
    forall|
        a: D,
        b: D,
        token_ids: Seq<u32>,
        a_decoded: Result<Seq<char>, Seq<char>>,
        a_after: D,
        b_decoded: Result<Seq<char>, Seq<char>>,
        b_after: D,
    |
        {
            &&& #[trigger] decodes(a, token_ids, a_decoded, a_after)
            &&& #[trigger] decodes(b, token_ids, b_decoded, b_after)
            &&& like(a, b)
        } ==> a_decoded == b_decoded && like(a_after, b_after)
}

/// The decoder answers by its state and the tokens: in the same state it makes the same of the same
/// tokens, and is left in the same state.
pub open spec fn decodes_by_state<D>(
    decodes: spec_fn(D, Seq<u32>, Result<Seq<char>, Seq<char>>, D) -> bool,
) -> bool {
    decodes_alike(decodes, |a: D, b: D| a == b)
}

/// A reset clears the decoder: in whichever of the states `kin` it is reset, it makes the same of the
/// same tokens, and is left in one of these states.
pub open spec fn reset_clears<D>(
    decodes: spec_fn(D, Seq<u32>, Result<Seq<char>, Seq<char>>, D) -> bool,
    kin: spec_fn(D) -> bool,
) -> bool {
    &&& decodes_alike(decodes, |a: D, b: D| kin(a) && kin(b))
    &&& forall|a: D, token_ids: Seq<u32>, decoded: Result<Seq<char>, Seq<char>>, after: D|
        kin(a) && #[trigger] decodes(a, token_ids, decoded, after) ==> kin(after)
}

/// The decoder's earlier state has no influence where a reset clears it: however two choices of the
/// same tokens find the decoder, they begin alike. `decodes` covers what the decoder can do, as with
/// [`GrpcPDRouter::begin_choice`].
pub proof fn earlier_decoder_state_does_not_matter<S: RouterServices>(
    router: GrpcPDRouter<S>,
    request: ChatCompletionRequest<S::Tool, S::Rest>,
    decodes: spec_fn(S::Decoder, Seq<u32>, Result<Seq<char>, Seq<char>>, S::Decoder) -> bool,
    kin: spec_fn(S::Decoder) -> bool,
    token_ids: Seq<u32>,
    a_before: S::Decoder,
    b_before: S::Decoder,
    a: Result<ChoiceStep, String>,
    b: Result<ChoiceStep, String>,
    a_after: S::Decoder,
    b_after: S::Decoder,
)
    requires
        services_answer_alike(router),
        reset_clears(decodes, kin),
        kin(a_before),
        kin(b_before),
        begins_by(router, request, decodes, a_before, token_ids, a, a_after),
        begins_by(router, request, decodes, b_before, token_ids, b, b_after),
    ensures
        steps_alike(a, b),
{
    let decoded = choose|decoded: Result<Seq<char>, Seq<char>>|
        #[trigger] decodes(a_before, token_ids, decoded, a_after) && begins_with(
            router,
            request,
            decoded,
            a,
        );
    lemma_begin_alike(router, request, decoded, a, b);
}

/// A choice that was begun, searched by the tool parser of the model where that had to look, and
/// finished, is what its response comes to.
pub proof fn finished_choices_are_settled<S: RouterServices, L, I>(
    router: GrpcPDRouter<S>,
    request: ChatCompletionRequest<S::Tool, S::Rest>,
    decoded: Result<Seq<char>, Seq<char>>,
    parser: spec_fn(Seq<char>) -> (bool, Result<(String, Vec<ParsedToolCall>), String>),
    complete: GenerateComplete<L, I>,
    index: usize,
    step: ChoiceStep,
    findings: ToolFindings,
    choice: ChatChoice<L>,
)
    requires
        begins_with(router, request, decoded, Ok(step)),
        match step {
            ChoiceStep::Finish { draft, tool_calls } => is_choice(
                choice,
                complete,
                index,
                draft,
                tool_calls,
                choice.logprobs,
            ),
            ChoiceStep::DetectTools { draft } => {
                &&& are_found_by(parser, draft.text@, findings)
                &&& is_choice(
                    choice,
                    complete,
                    index,
                    ChoiceDraft { text: findings.text, reasoning_text: draft.reasoning_text },
                    findings.tool_calls,
                    choice.logprobs,
                )
            },
        },
        shows_logprobs(router, choice, complete),
    ensures
        comes_to(router, request, decoded, parser, complete, index as int, Ok(choice)),
{
    assert((index as int) as usize == index);
    match step {
        ChoiceStep::Finish { draft, tool_calls } => {
            assert(is_choice(
                choice,
                complete,
                (index as int) as usize,
                draft,
                tool_calls,
                choice.logprobs,
            ));
        },
        ChoiceStep::DetectTools { draft } => {
            assert(are_found_by(parser, draft.text@, findings));
        },
    }
}

/// The log probabilities of the input have no influence on a choice: two responses that differ in
/// nothing else come to the same choice, or to the same error.
pub proof fn input_logprobs_do_not_matter<S: RouterServices, L, I>(
    router: GrpcPDRouter<S>,
    request: ChatCompletionRequest<S::Tool, S::Rest>,
    decoded: Result<Seq<char>, Seq<char>>,
    parser: spec_fn(Seq<char>) -> (bool, Result<(String, Vec<ParsedToolCall>), String>),
    a_complete: GenerateComplete<L, I>,
    b_complete: GenerateComplete<L, I>,
    index: int,
    a: Result<ChatChoice<L>, String>,
    b: Result<ChatChoice<L>, String>,
)
    requires
        services_answer_alike(router),
        same_but_for_input(a_complete, b_complete),
        comes_to(router, request, decoded, parser, a_complete, index, a),
        comes_to(router, request, decoded, parser, b_complete, index, b),
    ensures
        results_alike(a, b),
{
    let a_step = match a {
        Ok(choice) => Ok(
            lemma_settled_of(router, request, decoded, parser, a_complete, index, choice).0,
        ),
        Err(error) => Err(error),
    };
    let b_step = match b {
        Ok(choice) => Ok(
            lemma_settled_of(router, request, decoded, parser, b_complete, index, choice).0,
        ),
        Err(error) => Err(error),
    };
    lemma_begin_alike(router, request, decoded, a_step, b_step);
    if a is Ok && b is Ok {
        lemma_settled_alike(
            router,
            request,
            decoded,
            parser,
            a_complete,
            b_complete,
            index,
            index,
            a->Ok_0,
            b->Ok_0,
        );
    }
}

/// A choice of the response begins without an error.
pub open spec fn begins_well<S: RouterServices>(
    router: GrpcPDRouter<S>,
    request: ChatCompletionRequest<S::Tool, S::Rest>,
    decoded: Result<Seq<char>, Seq<char>>,
) -> bool {
    exists|step: ChoiceStep| #[trigger] begins_with(router, request, decoded, Ok(step))
}

/// `decoded` is what decoding the first responses comes to, one after the other; `states` are the
/// decoder's states before the first of them and after each.
pub open spec fn is_decoding<L, I, D>(
    decodes: spec_fn(D, Seq<u32>, Result<Seq<char>, Seq<char>>, D) -> bool,
    responses: Seq<GenerateComplete<L, I>>,
    states: Seq<D>,
    decoded: Seq<Result<Seq<char>, Seq<char>>>,
) -> bool {
    &&& states.len() == decoded.len() + 1
    &&& decoded.len() <= responses.len()
    &&& forall|i: int|
        0 <= i < decoded.len() ==> decodes(
            states[i],
            responses[i].output_ids@,
            #[trigger] decoded[i],
            states[i + 1],
        )
}

/// Every choice that `run` has made is settled, where decoding comes to `decoded`.
pub open spec fn are_settled<S: RouterServices, L, I>(
    router: GrpcPDRouter<S>,
    request: ChatCompletionRequest<S::Tool, S::Rest>,
    parser: spec_fn(Seq<char>) -> (bool, Result<(String, Vec<ParsedToolCall>), String>),
    run: ChoiceRun<L, I>,
    decoded: Seq<Result<Seq<char>, Seq<char>>>,
) -> bool {
    &&& decoded.len() >= run.choices().len()
    &&& forall|i: int|
        0 <= i < run.choices().len() ==> is_settled(
            router,
            request,
            decoded[i],
            parser,
            run.responses()[i],
            i,
            #[trigger] run.choices()[i],
        )
}

/// `step` is the end of a run over `responses`, where decoding comes to `decoded`: all choices are
/// made, each settled, or the first that could not be made is named with its error.
pub open spec fn ends_with<S: RouterServices, L, I>(
    router: GrpcPDRouter<S>,
    request: ChatCompletionRequest<S::Tool, S::Rest>,
    parser: spec_fn(Seq<char>) -> (bool, Result<(String, Vec<ParsedToolCall>), String>),
    responses: Seq<GenerateComplete<L, I>>,
    decoded: Seq<Result<Seq<char>, Seq<char>>>,
    step: RunStep<L, I>,
) -> bool {
    match step {
        RunStep::Done(run) => {
            &&& run.responses() == responses
            &&& run.choices().len() == responses.len() == decoded.len()
            &&& are_settled(router, request, parser, run, decoded)
        },
        RunStep::Failed(reply) => {
            let index = decoded.len() - 1;
            &&& index >= 0
            &&& exists|error: String|
                {
                    &&& #[trigger] begins_with(router, request, decoded[index], Err(error))
                    &&& reply.is_internal_error(failure_of_choice(index as nat, error@))
                }
            &&& forall|i: int|
                0 <= i < index ==> begins_well(router, request, #[trigger] decoded[i])
        },
        RunStep::DetectTools { .. } => false,
    }
}

/// `step` is the end of a run over `responses` that finds the decoder in the state `first`.
pub open spec fn is_end<S: RouterServices, L, I>(
    router: GrpcPDRouter<S>,
    request: ChatCompletionRequest<S::Tool, S::Rest>,
    decodes: spec_fn(S::Decoder, Seq<u32>, Result<Seq<char>, Seq<char>>, S::Decoder) -> bool,
    parser: spec_fn(Seq<char>) -> (bool, Result<(String, Vec<ParsedToolCall>), String>),
    responses: Seq<GenerateComplete<L, I>>,
    first: S::Decoder,
    step: RunStep<L, I>,
) -> bool {
    exists|states: Seq<S::Decoder>, decoded: Seq<Result<Seq<char>, Seq<char>>>|
        {
            &&& #[trigger] is_decoding(decodes, responses, states, decoded)
            &&& states[0] == first
            &&& ends_with(router, request, parser, responses, decoded, step)
        }
}

/// `next` goes on from `step`, at which the tool parser of the model looked at the text of a draft.
pub open spec fn resumes<S: RouterServices, L, I>(
    router: GrpcPDRouter<S>,
    parser: spec_fn(Seq<char>) -> (bool, Result<(String, Vec<ParsedToolCall>), String>),
    step: RunStep<L, I>,
    findings: ToolFindings,
    next: ChoiceRun<L, I>,
) -> bool {
    &&& step is DetectTools
    &&& are_found_by(parser, step->draft.text@, findings)
    &&& is_finished_with(
        router,
        step->DetectTools_run,
        ChoiceDraft { text: findings.text, reasoning_text: step->draft.reasoning_text },
        findings.tool_calls,
        next,
    )
}

/// The whole course of a run: from `runs[0]`, which has made no choice, it advances from each of
/// `runs` to the step at the same place, and resumes from that with what the tool parser found, until
/// it waits no more. `decodes` covers what the decoder can do, as with [`ChoiceRun::advance`];
/// `decoders` are its states before the first advance and after each. `parser` tells what the tool
/// parser of the model makes of a text.
pub open spec fn is_course<S: RouterServices, L, I>(
    router: GrpcPDRouter<S>,
    request: ChatCompletionRequest<S::Tool, S::Rest>,
    decodes: spec_fn(S::Decoder, Seq<u32>, Result<Seq<char>, Seq<char>>, S::Decoder) -> bool,
    parser: spec_fn(Seq<char>) -> (bool, Result<(String, Vec<ParsedToolCall>), String>),
    runs: Seq<ChoiceRun<L, I>>,
    steps: Seq<RunStep<L, I>>,
    decoders: Seq<S::Decoder>,
    findings: Seq<ToolFindings>,
) -> bool {
    &&& steps.len() > 0
    &&& runs[0].choices().len() == 0
    &&& forall|j: int|
        0 <= j < steps.len() ==> advances(
            router,
            request,
            decodes,
            #[trigger] runs[j],
            decoders[j],
            steps[j],
            decoders[j + 1],
        )
    &&& forall|j: int|
        0 < j < steps.len() ==> resumes(
            router,
            parser,
            steps[j - 1],
            findings[j - 1],
            #[trigger] runs[j],
        )
    &&& !(steps.last() is DetectTools)
}

proof fn lemma_made_are_settled<S: RouterServices, L, I>(
    router: GrpcPDRouter<S>,
    request: ChatCompletionRequest<S::Tool, S::Rest>,
    parser: spec_fn(Seq<char>) -> (bool, Result<(String, Vec<ParsedToolCall>), String>),
    run: ChoiceRun<L, I>,
    outcomes: Seq<Result<ChoiceStep, String>>,
    later: ChoiceRun<L, I>,
    decoded: Seq<Result<Seq<char>, Seq<char>>>,
)
    requires
        are_settled(router, request, parser, run, decoded),
        goes_on(router, request, run, later),
        makes(run, outcomes, later),
        decoded.len() >= run.choices().len() + outcomes.len(),
        forall|k: int| #[trigger]
            is_attempt(outcomes, k) ==> begins_with(
                router,
                request,
                decoded[run.choices().len() + k],
                outcomes[k],
            ),
    ensures
        are_settled(router, request, parser, later, decoded),
{
    let made = run.choices().len();
    assert forall|i: int| 0 <= i < later.choices().len() implies is_settled(
        router,
        request,
        decoded[i],
        parser,
        later.responses()[i],
        i,
        #[trigger] later.choices()[i],
    ) by {
        if i < made {
            assert(later.choices().take(made as int)[i] == later.choices()[i]);
            assert(run.choices()[i] == later.choices()[i]);
        } else {
            assert(is_attempt(outcomes, i - made));
        }
    }
}

/// The decoding goes on through an advance: it is extended to the choices that were begun.
proof fn lemma_advance<S: RouterServices, L, I>(
    router: GrpcPDRouter<S>,
    request: ChatCompletionRequest<S::Tool, S::Rest>,
    decodes: spec_fn(S::Decoder, Seq<u32>, Result<Seq<char>, Seq<char>>, S::Decoder) -> bool,
    parser: spec_fn(Seq<char>) -> (bool, Result<(String, Vec<ParsedToolCall>), String>),
    run: ChoiceRun<L, I>,
    step: RunStep<L, I>,
    after: S::Decoder,
    states: Seq<S::Decoder>,
    decoded: Seq<Result<Seq<char>, Seq<char>>>,
) -> (extended: (Seq<S::Decoder>, Seq<Result<Seq<char>, Seq<char>>>))
    requires
        is_decoding(decodes, run.responses(), states, decoded),
        decoded.len() == run.choices().len(),
        are_settled(router, request, parser, run, decoded),
        advances(router, request, decodes, run, states.last(), step, after),
    ensures
        is_decoding(decodes, run.responses(), extended.0, extended.1),
        extended.0[0] == states[0],
        extended.0.last() == after,
        match step {
            RunStep::DetectTools { run: later, draft } => {
                &&& later.responses() == run.responses()
                &&& extended.1.len() == later.choices().len() + 1
                &&& are_settled(router, request, parser, later, extended.1)
                &&& begins_with(
                    router,
                    request,
                    extended.1.last(),
                    Ok(ChoiceStep::DetectTools { draft }),
                )
            },
            _ => ends_with(router, request, parser, run.responses(), extended.1, step),
        },
{
    let (passed, outcomes) = choose|
        passed: Seq<S::Decoder>,
        outcomes: Seq<Result<ChoiceStep, String>>,
    |
        {
            &&& #[trigger] leads_to(run, passed, outcomes, step)
            &&& begin_by(router, request, decodes, run, passed, outcomes)
            &&& passed[0] == states.last()
            &&& passed.last() == after
            &&& is_step(router, request, run, step)
            &&& run.choices().len() + outcomes.len() <= run.responses().len()
        };
    let made = run.choices().len();
    let texts = Seq::new(
        outcomes.len(),
        |k: int|
            choose|text: Result<Seq<char>, Seq<char>>|
                {
                    &&& #[trigger] decodes(
                        passed[k],
                        run.responses()[made + k].output_ids@,
                        text,
                        passed[k + 1],
                    )
                    &&& begins_with(router, request, text, outcomes[k])
                },
    );
    let all_states = states + passed.skip(1);
    let all_decoded = decoded + texts;
    assert forall|k: int| #[trigger] is_attempt(outcomes, k) implies {
        &&& decodes(
            passed[k],
            run.responses()[made + k].output_ids@,
            all_decoded[made + k],
            passed[k + 1],
        )
        &&& begins_with(router, request, all_decoded[made + k], outcomes[k])
    } by {
        assert(begins_by(
            router,
            request,
            decodes,
            passed[k],
            run.responses()[made + k].output_ids@,
            outcomes[k],
            passed[k + 1],
        ));
        assert(all_decoded[made + k] == texts[k]);
    }
    assert forall|i: int| 0 <= i < all_decoded.len() implies decodes(
        all_states[i],
        run.responses()[i].output_ids@,
        #[trigger] all_decoded[i],
        all_states[i + 1],
    ) by {
        if i < made {
            assert(all_decoded[i] == decoded[i]);
        } else {
            assert(is_attempt(outcomes, i - made));
        }
    }
    assert(are_settled(router, request, parser, run, all_decoded)) by {
        assert forall|i: int| 0 <= i < run.choices().len() implies is_settled(
            router,
            request,
            all_decoded[i],
            parser,
            run.responses()[i],
            i,
            #[trigger] run.choices()[i],
        ) by {
            assert(all_decoded[i] == decoded[i]);
        }
    }
    if outcomes.len() > 0 {
        assert(is_attempt(outcomes, outcomes.len() - 1));
    }
    match step {
        RunStep::Done(later) => {
            lemma_made_are_settled(router, request, parser, run, outcomes, later, all_decoded);
        },
        RunStep::DetectTools { run: later, draft } => {
            let earlier = outcomes.drop_last();
            assert forall|k: int| #[trigger] is_attempt(earlier, k) implies begins_with(
                router,
                request,
                all_decoded[made + k],
                earlier[k],
            ) by {
                assert(is_attempt(outcomes, k));
            }
            lemma_made_are_settled(router, request, parser, run, earlier, later, all_decoded);
        },
        RunStep::Failed(reply) => {
            let index = made + outcomes.len() - 1;
            assert(begins_with(router, request, all_decoded[index], outcomes.last()));
            assert forall|i: int| 0 <= i < index implies begins_well(
                router,
                request,
                #[trigger] all_decoded[i],
            ) by {
                if i < made {
                    let parts = lemma_settled_of(
                        router,
                        request,
                        all_decoded[i],
                        parser,
                        run.responses()[i],
                        i,
                        run.choices()[i],
                    );
                } else {
                    assert(is_attempt(outcomes, i - made));
                }
            }
        },
    }
    (all_states, all_decoded)
}

proof fn lemma_resume<S: RouterServices, L, I>(
    router: GrpcPDRouter<S>,
    request: ChatCompletionRequest<S::Tool, S::Rest>,
    parser: spec_fn(Seq<char>) -> (bool, Result<(String, Vec<ParsedToolCall>), String>),
    step: RunStep<L, I>,
    findings: ToolFindings,
    next: ChoiceRun<L, I>,
    decoded: Seq<Result<Seq<char>, Seq<char>>>,
)
    requires
        resumes(router, parser, step, findings, next),
        are_settled(router, request, parser, step->DetectTools_run, decoded),
        decoded.len() == step->DetectTools_run.choices().len() + 1,
        begins_with(
            router,
            request,
            decoded.last(),
            Ok(ChoiceStep::DetectTools { draft: step->draft }),
        ),
    ensures
        next.responses() == step->DetectTools_run.responses(),
        decoded.len() == next.choices().len(),
        are_settled(router, request, parser, next, decoded),
{
    let run = step->DetectTools_run;
    let draft = step->draft;
    let made = run.choices().len();
    assert forall|i: int| 0 <= i < next.choices().len() implies is_settled(
        router,
        request,
        decoded[i],
        parser,
        next.responses()[i],
        i,
        #[trigger] next.choices()[i],
    ) by {
        if i < made {
            assert(next.choices().drop_last()[i] == next.choices()[i]);
            assert(run.choices()[i] == next.choices()[i]);
        } else {
            assert(next.choices()[i] == next.choices().last());
            assert(are_found_by(parser, draft.text@, findings));
        }
    }
}

proof fn lemma_course<S: RouterServices, L, I>(
    router: GrpcPDRouter<S>,
    request: ChatCompletionRequest<S::Tool, S::Rest>,
    decodes: spec_fn(S::Decoder, Seq<u32>, Result<Seq<char>, Seq<char>>, S::Decoder) -> bool,
    parser: spec_fn(Seq<char>) -> (bool, Result<(String, Vec<ParsedToolCall>), String>),
    runs: Seq<ChoiceRun<L, I>>,
    steps: Seq<RunStep<L, I>>,
    decoders: Seq<S::Decoder>,
    findings: Seq<ToolFindings>,
    j: int,
) -> (decoding: (Seq<S::Decoder>, Seq<Result<Seq<char>, Seq<char>>>))
    requires
        is_course(router, request, decodes, parser, runs, steps, decoders, findings),
        0 <= j < steps.len(),
    ensures
        runs[j].responses() == runs[0].responses(),
        is_decoding(decodes, runs[0].responses(), decoding.0, decoding.1),
        decoding.0[0] == decoders[0],
        decoding.0.last() == decoders[j],
        decoding.1.len() == runs[j].choices().len(),
        are_settled(router, request, parser, runs[j], decoding.1),
    decreases j,
{
    if j > 0 {
        let (states, decoded) = lemma_course(
            router,
            request,
            decodes,
            parser,
            runs,
            steps,
            decoders,
            findings,
            j - 1,
        );
        assert(resumes(router, parser, steps[j - 1], findings[j - 1], runs[j]));
        assert(advances(
            router,
            request,
            decodes,
            runs[j - 1],
            decoders[j - 1],
            steps[j - 1],
            decoders[j],
        ));
        let (all_states, all_decoded) = lemma_advance(
            router,
            request,
            decodes,
            parser,
            runs[j - 1],
            steps[j - 1],
            decoders[j],
            states,
            decoded,
        );
        lemma_resume(
            router,
            request,
            parser,
            steps[j - 1],
            findings[j - 1],
            runs[j],
            all_decoded,
        );
        (all_states, all_decoded)
    } else {
        (seq![decoders[0]], Seq::empty())
    }
}

/// However often a run waits for the tool parser of the model, it ends with a settled choice of every
/// response, or with the first response of which no choice can be made; and one decoder is taken from
/// choice to choice.
pub proof fn courses_end<S: RouterServices, L, I>(
    router: GrpcPDRouter<S>,
    request: ChatCompletionRequest<S::Tool, S::Rest>,
    decodes: spec_fn(S::Decoder, Seq<u32>, Result<Seq<char>, Seq<char>>, S::Decoder) -> bool,
    parser: spec_fn(Seq<char>) -> (bool, Result<(String, Vec<ParsedToolCall>), String>),
    runs: Seq<ChoiceRun<L, I>>,
    steps: Seq<RunStep<L, I>>,
    decoders: Seq<S::Decoder>,
    findings: Seq<ToolFindings>,
)
    requires
        is_course(router, request, decodes, parser, runs, steps, decoders, findings),
    ensures
        is_end(
            router,
            request,
            decodes,
            parser,
            runs[0].responses(),
            decoders[0],
            steps.last(),
        ),
{
    let last = steps.len() - 1;
    let (states, decoded) = lemma_course(
        router,
        request,
        decodes,
        parser,
        runs,
        steps,
        decoders,
        findings,
        last,
    );
    assert(advances(
        router,
        request,
        decodes,
        runs[last],
        decoders[last],
        steps[last],
        decoders[last + 1],
    ));
    let (all_states, all_decoded) = lemma_advance(
        router,
        request,
        decodes,
        parser,
        runs[last],
        steps[last],
        decoders[last + 1],
        states,
        decoded,
    );
}

/// Two runs ended alike: with the same choices, or with the same error.
pub open spec fn ends_alike<L, I>(a: RunStep<L, I>, b: RunStep<L, I>) -> bool {
    match (a, b) {
        (RunStep::Done(a), RunStep::Done(b)) => choices_alike(a.choices(), b.choices()),
        (RunStep::Failed(a), RunStep::Failed(b)) => errors_alike(a, b),
        _ => false,
    }
}

/// Two lots of responses that differ in nothing but the log probabilities of the input.
pub open spec fn all_same_but_for_input<L, I>(
    a: Seq<GenerateComplete<L, I>>,
    b: Seq<GenerateComplete<L, I>>,
) -> bool {
    &&& a.len() == b.len()
    &&& forall|i: int| 0 <= i < a.len() ==> same_but_for_input(#[trigger] a[i], b[i])
}

proof fn lemma_decoded_alike<L, I, D>(
    decodes: spec_fn(D, Seq<u32>, Result<Seq<char>, Seq<char>>, D) -> bool,
    like: spec_fn(D, D) -> bool,
    a_responses: Seq<GenerateComplete<L, I>>,
    b_responses: Seq<GenerateComplete<L, I>>,
    a_states: Seq<D>,
    b_states: Seq<D>,
    a_decoded: Seq<Result<Seq<char>, Seq<char>>>,
    b_decoded: Seq<Result<Seq<char>, Seq<char>>>,
    i: int,
)
    requires
        decodes_alike(decodes, like),
        all_same_but_for_input(a_responses, b_responses),
        is_decoding(decodes, a_responses, a_states, a_decoded),
        is_decoding(decodes, b_responses, b_states, b_decoded),
        like(a_states[0], b_states[0]),
        0 <= i < a_decoded.len(),
        i < b_decoded.len(),
    ensures
        a_decoded[i] == b_decoded[i],
        like(a_states[i + 1], b_states[i + 1]),
    decreases i,
{
    if i > 0 {
        lemma_decoded_alike(
            decodes,
            like,
            a_responses,
            b_responses,
            a_states,
            b_states,
            a_decoded,
            b_decoded,
            i - 1,
        );
    }
    assert(same_but_for_input(a_responses[i], b_responses[i]));
    assert(decodes(a_states[i], a_responses[i].output_ids@, a_decoded[i], a_states[i + 1]));
    assert(decodes(b_states[i], b_responses[i].output_ids@, b_decoded[i], b_states[i + 1]));
}

proof fn lemma_begun_at<S: RouterServices, L, I>(
    router: GrpcPDRouter<S>,
    request: ChatCompletionRequest<S::Tool, S::Rest>,
    parser: spec_fn(Seq<char>) -> (bool, Result<(String, Vec<ParsedToolCall>), String>),
    responses: Seq<GenerateComplete<L, I>>,
    decoded: Seq<Result<Seq<char>, Seq<char>>>,
    step: RunStep<L, I>,
    i: int,
) -> (result: Result<ChoiceStep, String>)
    requires
        ends_with(router, request, parser, responses, decoded, step),
        0 <= i < decoded.len(),
    ensures
        begins_with(router, request, decoded[i], result),
        result is Err <==> step is Failed && i == decoded.len() - 1,
        result matches Err(error) ==> step->Failed_0.is_internal_error(
            failure_of_choice(i as nat, error@),
        ),
{
    match step {
        RunStep::Done(run) => {
            Ok(
                lemma_settled_of(
                    router,
                    request,
                    decoded[i],
                    parser,
                    responses[i],
                    i,
                    run.choices()[i],
                ).0,
            )
        },
        _ => {
            if i == decoded.len() - 1 {
                let reply = step->Failed_0;
                Err(
                    choose|error: String|
                        {
                            &&& #[trigger] begins_with(router, request, decoded[i], Err(error))
                            &&& reply.is_internal_error(failure_of_choice(i as nat, error@))
                        },
                )
            } else {
                assert(begins_well(router, request, decoded[i]));
                Ok(choose|step: ChoiceStep| #[trigger]
                    begins_with(router, request, decoded[i], Ok(step)))
            }
        },
    }
}

proof fn lemma_ends_alike<S: RouterServices, L, I>(
    router: GrpcPDRouter<S>,
    request: ChatCompletionRequest<S::Tool, S::Rest>,
    decodes: spec_fn(S::Decoder, Seq<u32>, Result<Seq<char>, Seq<char>>, S::Decoder) -> bool,
    like: spec_fn(S::Decoder, S::Decoder) -> bool,
    parser: spec_fn(Seq<char>) -> (bool, Result<(String, Vec<ParsedToolCall>), String>),
    a_responses: Seq<GenerateComplete<L, I>>,
    b_responses: Seq<GenerateComplete<L, I>>,
    a_first: S::Decoder,
    b_first: S::Decoder,
    a: RunStep<L, I>,
    b: RunStep<L, I>,
)
    requires
        services_answer_alike(router),
        decodes_alike(decodes, like),
        like(a_first, b_first),
        all_same_but_for_input(a_responses, b_responses),
        is_end(router, request, decodes, parser, a_responses, a_first, a),
        is_end(router, request, decodes, parser, b_responses, b_first, b),
    ensures
        ends_alike(a, b),
{
    let (a_states, a_decoded) = choose|
        states: Seq<S::Decoder>,
        decoded: Seq<Result<Seq<char>, Seq<char>>>,
    |
        {
            &&& #[trigger] is_decoding(decodes, a_responses, states, decoded)
            &&& states[0] == a_first
            &&& ends_with(router, request, parser, a_responses, decoded, a)
        };
    let (b_states, b_decoded) = choose|
        states: Seq<S::Decoder>,
        decoded: Seq<Result<Seq<char>, Seq<char>>>,
    |
        {
            &&& #[trigger] is_decoding(decodes, b_responses, states, decoded)
            &&& states[0] == b_first
            &&& ends_with(router, request, parser, b_responses, decoded, b)
        };
    assert forall|i: int| 0 <= i < a_decoded.len() && i < b_decoded.len() implies
        #[trigger] a_decoded[i] == #[trigger] b_decoded[i] by {
        lemma_decoded_alike(
            decodes,
            like,
            a_responses,
            b_responses,
            a_states,
            b_states,
            a_decoded,
            b_decoded,
            i,
        );
    }
    let last = if a_decoded.len() <= b_decoded.len() {
        a_decoded.len() - 1
    } else {
        b_decoded.len() - 1
    };
    if last >= 0 {
        let x = lemma_begun_at(router, request, parser, a_responses, a_decoded, a, last);
        let y = lemma_begun_at(router, request, parser, b_responses, b_decoded, b, last);
        assert(a_decoded[last] == b_decoded[last]);
        lemma_begin_alike(router, request, a_decoded[last], x, y);
    }
    if a is Done && b is Done {
        let a_run = a->Done_0;
        let b_run = b->Done_0;
        assert forall|i: int| 0 <= i < a_run.choices().len() implies choice_alike(
            #[trigger] a_run.choices()[i],
            b_run.choices()[i],
        ) by {
            assert(a_decoded[i] == b_decoded[i]);
            assert(same_but_for_input(a_responses[i], b_responses[i]));
            lemma_settled_alike(
                router,
                request,
                a_decoded[i],
                parser,
                a_responses[i],
                b_responses[i],
                i,
                i,
                a_run.choices()[i],
                b_run.choices()[i],
            );
        }
    }
}

/// Two runs are answered alike: they end with the same choices or the same error, take the same
/// tokens, and turn into the same completion.
pub open spec fn answers_alike<L, I>(
    model: String,
    a_run: ChoiceRun<L, I>,
    b_run: ChoiceRun<L, I>,
    a: RunStep<L, I>,
    b: RunStep<L, I>,
) -> bool {
    &&& ends_alike(a, b)
    &&& all_tokens(a_run.responses()) == all_tokens(b_run.responses())
    &&& forall|
        x: ChatCompletionResponse<L>,
        y: ChatCompletionResponse<L>,
        id: String,
        seconds_since_epoch: Option<u64>,
    |
        {
            &&& a is Done
            &&& #[trigger] is_completion(x, id, seconds_since_epoch, model, a->Done_0)
            &&& #[trigger] is_completion(y, id, seconds_since_epoch, model, b->Done_0)
        } ==> completions_alike(x, y)
}

proof fn lemma_answers_alike<S: RouterServices, L, I: Clone>(
    router: GrpcPDRouter<S>,
    request: ChatCompletionRequest<S::Tool, S::Rest>,
    decodes: spec_fn(S::Decoder, Seq<u32>, Result<Seq<char>, Seq<char>>, S::Decoder) -> bool,
    like: spec_fn(S::Decoder, S::Decoder) -> bool,
    parser: spec_fn(Seq<char>) -> (bool, Result<(String, Vec<ParsedToolCall>), String>),
    responses: Seq<GenerateComplete<L, I>>,
    a_prefill: Seq<GenerateComplete<L, I>>,
    b_prefill: Seq<GenerateComplete<L, I>>,
    a_runs: Seq<ChoiceRun<L, I>>,
    a_steps: Seq<RunStep<L, I>>,
    a_decoders: Seq<S::Decoder>,
    a_findings: Seq<ToolFindings>,
    b_runs: Seq<ChoiceRun<L, I>>,
    b_steps: Seq<RunStep<L, I>>,
    b_decoders: Seq<S::Decoder>,
    b_findings: Seq<ToolFindings>,
)
    requires
        services_answer_alike(router),
        decodes_alike(decodes, like),
        like(a_decoders[0], b_decoders[0]),
        is_started(a_runs[0], a_prefill, responses, request.logprobs),
        is_started(b_runs[0], b_prefill, responses, request.logprobs),
        is_course(
            router,
            request,
            decodes,
            parser,
            a_runs,
            a_steps,
            a_decoders,
            a_findings,
        ),
        is_course(
            router,
            request,
            decodes,
            parser,
            b_runs,
            b_steps,
            b_decoders,
            b_findings,
        ),
    ensures
        answers_alike(
            request.model,
            a_runs[0],
            b_runs[0],
            a_steps.last(),
            b_steps.last(),
        ),
{
    courses_end(
        router,
        request,
        decodes,
        parser,
        a_runs,
        a_steps,
        a_decoders,
        a_findings,
    );
    courses_end(
        router,
        request,
        decodes,
        parser,
        b_runs,
        b_steps,
        b_decoders,
        b_findings,
    );
    let left = a_runs[0].responses();
    let right = b_runs[0].responses();
    assert forall|i: int| 0 <= i < left.len() implies same_but_for_input(
        #[trigger] left[i],
        right[i],
    ) by {
        assert(right[i] == right[i]);
    }
    lemma_ends_alike(
        router,
        request,
        decodes,
        like,
        parser,
        left,
        right,
        a_decoders[0],
        b_decoders[0],
        a_steps.last(),
        b_steps.last(),
    );
    assert forall|i: int| 0 <= i < left.len() implies {
        &&& (#[trigger] left[i]).prompt_tokens == right[i].prompt_tokens
        &&& left[i].completion_tokens == right[i].completion_tokens
    } by {
        assert(same_but_for_input(left[i], right[i]));
    }
    assert(prompt_counts(left) =~= prompt_counts(right));
    assert(completion_counts(left) =~= completion_counts(right));
}

/// What the prefill worker returns has no influence: two runs that start with the same responses of
/// the decode worker and with the decoder in the same state, and with whatever the prefill worker
/// returned to each, are answered alike. Whether a reset clears the decoder does not matter here: it
/// need only answer by its state.
pub proof fn prefill_responses_do_not_matter<S: RouterServices, L, I: Clone>(
    router: GrpcPDRouter<S>,
    request: ChatCompletionRequest<S::Tool, S::Rest>,
    decodes: spec_fn(S::Decoder, Seq<u32>, Result<Seq<char>, Seq<char>>, S::Decoder) -> bool,
    parser: spec_fn(Seq<char>) -> (bool, Result<(String, Vec<ParsedToolCall>), String>),
    responses: Seq<GenerateComplete<L, I>>,
    a_prefill: Seq<GenerateComplete<L, I>>,
    b_prefill: Seq<GenerateComplete<L, I>>,
    a_runs: Seq<ChoiceRun<L, I>>,
    a_steps: Seq<RunStep<L, I>>,
    a_decoders: Seq<S::Decoder>,
    a_findings: Seq<ToolFindings>,
    b_runs: Seq<ChoiceRun<L, I>>,
    b_steps: Seq<RunStep<L, I>>,
    b_decoders: Seq<S::Decoder>,
    b_findings: Seq<ToolFindings>,
)
    requires
        services_answer_alike(router),
        decodes_by_state(decodes),
        a_decoders[0] == b_decoders[0],
        is_started(a_runs[0], a_prefill, responses, request.logprobs),
        is_started(b_runs[0], b_prefill, responses, request.logprobs),
        is_course(
            router,
            request,
            decodes,
            parser,
            a_runs,
            a_steps,
            a_decoders,
            a_findings,
        ),
        is_course(
            router,
            request,
            decodes,
            parser,
            b_runs,
            b_steps,
            b_decoders,
            b_findings,
        ),
    ensures
        answers_alike(
            request.model,
            a_runs[0],
            b_runs[0],
            a_steps.last(),
            b_steps.last(),
        ),
{
    lemma_answers_alike(
        router,
        request,
        decodes,
        |x: S::Decoder, y: S::Decoder| x == y,
        parser,
        responses,
        a_prefill,
        b_prefill,
        a_runs,
        a_steps,
        a_decoders,
        a_findings,
        b_runs,
        b_steps,
        b_decoders,
        b_findings,
    );
}

/// Where a reset clears the decoder, neither what the prefill worker returns nor the state in which a
/// run finds the decoder has an influence.
pub proof fn prefill_responses_and_decoder_state_do_not_matter<S: RouterServices, L, I: Clone>(
    router: GrpcPDRouter<S>,
    request: ChatCompletionRequest<S::Tool, S::Rest>,
    decodes: spec_fn(S::Decoder, Seq<u32>, Result<Seq<char>, Seq<char>>, S::Decoder) -> bool,
    kin: spec_fn(S::Decoder) -> bool,
    parser: spec_fn(Seq<char>) -> (bool, Result<(String, Vec<ParsedToolCall>), String>),
    responses: Seq<GenerateComplete<L, I>>,
    a_prefill: Seq<GenerateComplete<L, I>>,
    b_prefill: Seq<GenerateComplete<L, I>>,
    a_runs: Seq<ChoiceRun<L, I>>,
    a_steps: Seq<RunStep<L, I>>,
    a_decoders: Seq<S::Decoder>,
    a_findings: Seq<ToolFindings>,
    b_runs: Seq<ChoiceRun<L, I>>,
    b_steps: Seq<RunStep<L, I>>,
    b_decoders: Seq<S::Decoder>,
    b_findings: Seq<ToolFindings>,
)
    requires
        services_answer_alike(router),
        reset_clears(decodes, kin),
        kin(a_decoders[0]),
        kin(b_decoders[0]),
        is_started(a_runs[0], a_prefill, responses, request.logprobs),
        is_started(b_runs[0], b_prefill, responses, request.logprobs),
        is_course(
            router,
            request,
            decodes,
            parser,
            a_runs,
            a_steps,
            a_decoders,
            a_findings,
        ),
        is_course(
            router,
            request,
            decodes,
            parser,
            b_runs,
            b_steps,
            b_decoders,
            b_findings,
        ),
    ensures
        answers_alike(
            request.model,
            a_runs[0],
            b_runs[0],
            a_steps.last(),
            b_steps.last(),
        ),
{
    lemma_answers_alike(
        router,
        request,
        decodes,
        |x: S::Decoder, y: S::Decoder| kin(x) && kin(y),
        parser,
        responses,
        a_prefill,
        b_prefill,
        a_runs,
        a_steps,
        a_decoders,
        a_findings,
        b_runs,
        b_steps,
        b_decoders,
        b_findings,
    );
}

proof fn lemma_states_are_kin<L, I, D>(
    decodes: spec_fn(D, Seq<u32>, Result<Seq<char>, Seq<char>>, D) -> bool,
    kin: spec_fn(D) -> bool,
    responses: Seq<GenerateComplete<L, I>>,
    states: Seq<D>,
    decoded: Seq<Result<Seq<char>, Seq<char>>>,
    i: int,
)
    requires
        reset_clears(decodes, kin),
        is_decoding(decodes, responses, states, decoded),
        kin(states[0]),
        0 <= i <= decoded.len(),
    ensures
        kin(states[i]),
    decreases i,
{
    if i > 0 {
        lemma_states_are_kin(decodes, kin, responses, states, decoded, i - 1);
        assert(decodes(
            states[i - 1],
            responses[i - 1].output_ids@,
            decoded[i - 1],
            states[i - 1 + 1],
        ));
    }
}

/// Choices do not influence one another, although they share one decoder, where a reset clears it: the
/// choice that is made of a response among others is, but for its place, the choice that is made of
/// it alone.
pub proof fn choices_do_not_influence_one_another<S: RouterServices, L, I>(
    router: GrpcPDRouter<S>,
    request: ChatCompletionRequest<S::Tool, S::Rest>,
    decodes: spec_fn(S::Decoder, Seq<u32>, Result<Seq<char>, Seq<char>>, S::Decoder) -> bool,
    kin: spec_fn(S::Decoder) -> bool,
    parser: spec_fn(Seq<char>) -> (bool, Result<(String, Vec<ParsedToolCall>), String>),
    k: int,
    all_runs: Seq<ChoiceRun<L, I>>,
    all_steps: Seq<RunStep<L, I>>,
    all_decoders: Seq<S::Decoder>,
    all_findings: Seq<ToolFindings>,
    one_runs: Seq<ChoiceRun<L, I>>,
    one_steps: Seq<RunStep<L, I>>,
    one_decoders: Seq<S::Decoder>,
    one_findings: Seq<ToolFindings>,
)
    requires
        services_answer_alike(router),
        reset_clears(decodes, kin),
        kin(all_decoders[0]),
        kin(one_decoders[0]),
        is_course(
            router,
            request,
            decodes,
            parser,
            all_runs,
            all_steps,
            all_decoders,
            all_findings,
        ),
        is_course(
            router,
            request,
            decodes,
            parser,
            one_runs,
            one_steps,
            one_decoders,
            one_findings,
        ),
        0 <= k < all_runs[0].responses().len(),
        one_runs[0].responses().len() == 1,
        same_but_for_input(all_runs[0].responses()[k], one_runs[0].responses()[0]),
        all_steps.last() is Done,
        one_steps.last() is Done,
    ensures
        alike_but_for_place(
            all_steps.last()->Done_0.choices()[k],
            one_steps.last()->Done_0.choices()[0],
        ),
        all_steps.last()->Done_0.choices()[k].index == low_unsigned_32(k as usize),
        one_steps.last()->Done_0.choices()[0].index == 0,
{
    courses_end(
        router,
        request,
        decodes,
        parser,
        all_runs,
        all_steps,
        all_decoders,
        all_findings,
    );
    courses_end(
        router,
        request,
        decodes,
        parser,
        one_runs,
        one_steps,
        one_decoders,
        one_findings,
    );
    let among = all_runs[0].responses();
    let alone = one_runs[0].responses();
    let (all_states, all_decoded) = choose|
        states: Seq<S::Decoder>,
        decoded: Seq<Result<Seq<char>, Seq<char>>>,
    |
        {
            &&& #[trigger] is_decoding(decodes, among, states, decoded)
            &&& states[0] == all_decoders[0]
            &&& ends_with(router, request, parser, among, decoded, all_steps.last())
        };
    let (one_states, one_decoded) = choose|
        states: Seq<S::Decoder>,
        decoded: Seq<Result<Seq<char>, Seq<char>>>,
    |
        {
            &&& #[trigger] is_decoding(decodes, alone, states, decoded)
            &&& states[0] == one_decoders[0]
            &&& ends_with(router, request, parser, alone, decoded, one_steps.last())
        };
    lemma_states_are_kin(decodes, kin, among, all_states, all_decoded, k);
    assert(decodes(all_states[k], among[k].output_ids@, all_decoded[k], all_states[k + 1]));
    assert(decodes(one_states[0], alone[0].output_ids@, one_decoded[0], one_states[1]));
    lemma_settled_alike(
        router,
        request,
        all_decoded[k],
        parser,
        among[k],
        alone[0],
        k,
        0,
        all_steps.last()->Done_0.choices()[k],
        one_steps.last()->Done_0.choices()[0],
    );
}

} // verus!
