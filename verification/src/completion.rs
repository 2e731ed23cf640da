//! A chat completion, made of what the two workers generated.
//!
//! Once both workers have started ([`generation_started`]) and their responses are collected, a
//! [`ChoiceRun`] makes a choice of each response of the decode worker, one after the other. It goes
//! on by itself until the tool parser of the model has to look at a text; the caller asks the
//! parser, and hands over what it found. When all are done, the run turns into the completion.
use crate::bits::{to_unsigned_32, unsigned_32};
use crate::choice::{
    begins_by, emitted, flushed_text, is_begun, is_begun_of, is_choice, ChoiceDraft, ChoiceStep,
};
use crate::logprobs::shows;
use crate::proto::GenerateComplete;
use crate::protocol::{
    ChatChoice, ChatCompletionRequest, ChatCompletionResponse, ChatLogProbs, ToolCall, Usage,
};
use crate::reply::Reply;
use crate::router::GrpcPDRouter;
use crate::services::{RouterServices, SequenceDecoderOutput, StopDecoder};
use crate::text::{decimal, joined, push_decimal};
use crate::tools::ToolFindings;
use vstd::prelude::*;
use vstd::string::StringExecFns;

verus! {

/// Goes on after both workers were asked to generate. A prefill worker that did not start is
/// answered first, whatever the decode worker did.
pub fn generation_started<P, D>(prefill: Result<P, String>, decode: Result<D, String>) -> (result:
    Result<(P, D), Reply>)
    ensures
        match (prefill, decode) {
            (Err(error), _) => result matches Err(reply) && reply.is_internal_error(
                "Prefill worker failed to start: "@ + error@,
            ),
            (Ok(_), Err(error)) => result matches Err(reply) && reply.is_internal_error(
                "Decode worker failed to start: "@ + error@,
            ),
            (Ok(p), Ok(d)) => result == Ok::<(P, D), Reply>((p, d)),
        },
{
    let p = match prefill {
        Ok(p) => p,
        Err(error) => {
            return Err(
                Reply::internal_error(joined("Prefill worker failed to start: ", error.as_str())),
            );
        },
    };
    match decode {
        Ok(d) => Ok((p, d)),
        Err(error) => Err(
            Reply::internal_error(joined("Decode worker failed to start: ", error.as_str())),
        ),
    }
}

/// The log probabilities of the input that the prefill worker reported, in its first response.
pub open spec fn prefill_input_logprobs<L, I>(responses: Seq<GenerateComplete<L, I>>) -> Option<I> {
    if responses.len() > 0 {
        responses[0].input_logprobs
    } else {
        None
    }
}

/// `after` is the response `before` with the input's log probabilities of the prefill worker, where
/// it reported any and the client asked for log probabilities; the rest of it is the same.
pub open spec fn is_merged<L, I: Clone>(
    before: GenerateComplete<L, I>,
    input_logprobs: Option<I>,
    wanted: bool,
    after: GenerateComplete<L, I>,
) -> bool {
    &&& after == GenerateComplete { input_logprobs: after.input_logprobs, ..before }
    &&& if input_logprobs is Some && wanted {
        after.input_logprobs matches Some(merged) && cloned(input_logprobs->0, merged)
    } else {
        after.input_logprobs == before.input_logprobs
    }
}

/// The sum of token counts.
pub open spec fn total(counts: Seq<int>) -> int
    decreases counts.len(),
{
    if counts.len() == 0 {
        0
    } else {
        total(counts.drop_last()) + counts.last()
    }
}

/// The prompt tokens of each response, read as unsigned.
pub open spec fn prompt_counts<L, I>(responses: Seq<GenerateComplete<L, I>>) -> Seq<int> {
    Seq::new(responses.len(), |i: int| unsigned_32(responses[i].prompt_tokens))
}

/// The completion tokens of each response, read as unsigned.
pub open spec fn completion_counts<L, I>(responses: Seq<GenerateComplete<L, I>>) -> Seq<int> {
    Seq::new(responses.len(), |i: int| unsigned_32(responses[i].completion_tokens))
}

/// The prompt and completion tokens of all responses together.
pub open spec fn all_tokens<L, I>(responses: Seq<GenerateComplete<L, I>>) -> int {
    total(prompt_counts(responses)) + total(completion_counts(responses))
}

/// `usage` sums up the tokens of all responses.
pub open spec fn is_usage<L, I>(usage: Usage, responses: Seq<GenerateComplete<L, I>>) -> bool {
    &&& usage.prompt_tokens == total(prompt_counts(responses))
    &&& usage.completion_tokens == total(completion_counts(responses))
    &&& usage.total_tokens == all_tokens(responses)
    &&& usage.completion_tokens_details is None
}

proof fn lemma_total_grows(counts: Seq<int>, i: int)
    requires
        0 <= i <= counts.len(),
        forall|k: int| 0 <= k < counts.len() ==> #[trigger] counts[k] >= 0,
    ensures
        0 <= total(counts.take(i)) <= total(counts),
    decreases counts.len(),
{
    if i == counts.len() {
        assert(counts.take(i) =~= counts);
        if i > 0 {
            lemma_total_grows(counts.drop_last(), i - 1);
        }
    } else {
        lemma_total_grows(counts.drop_last(), i);
        assert(counts.drop_last().take(i) =~= counts.take(i));
    }
}

/// The sum of token counts, if it fits.
fn sum_counts(counts: &Vec<u32>) -> (sum: Option<u32>)
    ensures
        match sum {
            Some(sum) => sum == total(counts@.map_values(|c: u32| c as int)),
            None => total(counts@.map_values(|c: u32| c as int)) > u32::MAX,
        },
{
    let ghost all = counts@.map_values(|c: u32| c as int);
    let mut sum: u32 = 0;
    let mut i: usize = 0;
    while i < counts.len()
        invariant
            i <= counts.len(),
            all == counts@.map_values(|c: u32| c as int),
            sum == total(all.take(i as int)),
        decreases counts.len() - i,
    {
        assert(all.take(i + 1).drop_last() =~= all.take(i as int));
        assert(all.take(i + 1).last() == counts@[i as int]);
        match sum.checked_add(counts[i]) {
            Some(next) => {
                sum = next;
            },
            None => {
                proof {
                    lemma_total_grows(all, i + 1);
                }
                return None;
            },
        }
        i += 1;
    }
    assert(all.take(i as int) =~= all);
    Some(sum)
}

/// The tokens that all responses took; `None` where they are too many to count.
pub fn usage_of<L, I>(responses: &Vec<GenerateComplete<L, I>>) -> (usage: Option<Usage>)
    ensures
        match usage {
            Some(usage) => is_usage(usage, responses@),
            None => all_tokens(responses@) > u32::MAX,
        },
{
    let mut prompt: Vec<u32> = Vec::new();
    let mut completion: Vec<u32> = Vec::new();
    let mut i: usize = 0;
    while i < responses.len()
        invariant
            i <= responses.len(),
            prompt.len() == i,
            completion.len() == i,
            forall|k: int|
                0 <= k < i ==> #[trigger] prompt@[k] == unsigned_32(responses@[k].prompt_tokens),
            forall|k: int|
                0 <= k < i ==> #[trigger] completion@[k] == unsigned_32(
                    responses@[k].completion_tokens,
                ),
        decreases responses.len() - i,
    {
        prompt.push(to_unsigned_32(responses[i].prompt_tokens));
        completion.push(to_unsigned_32(responses[i].completion_tokens));
        i += 1;
    }
    proof {
        assert(prompt@.map_values(|c: u32| c as int) =~= prompt_counts(responses@));
        assert(completion@.map_values(|c: u32| c as int) =~= completion_counts(responses@));
        lemma_total_grows(prompt_counts(responses@), 0);
        lemma_total_grows(completion_counts(responses@), 0);
    }
    let prompt_tokens: u32 = match sum_counts(&prompt) {
        Some(sum) => sum,
        None => return None,
    };
    let completion_tokens: u32 = match sum_counts(&completion) {
        Some(sum) => sum,
        None => return None,
    };
    match prompt_tokens.checked_add(completion_tokens) {
        Some(total_tokens) => Some(
            Usage {
                prompt_tokens,
                completion_tokens,
                total_tokens,
                completion_tokens_details: None,
            },
        ),
        None => None,
    }
}

/// `choice` is made of the response at `index`.
pub open spec fn is_made_of<L, I>(
    choice: ChatChoice<L>,
    complete: GenerateComplete<L, I>,
    index: int,
) -> bool {
    exists|
        draft: ChoiceDraft,
        tool_calls: Option<Vec<ToolCall>>,
        logprobs: Option<ChatLogProbs<L>>,
    | #[trigger]
        is_choice(choice, complete, index as usize, draft, tool_calls, logprobs)
}

/// The log probabilities of a choice are those of the response's output, shown by the router.
pub open spec fn shows_logprobs<S: RouterServices, L, I>(
    router: GrpcPDRouter<S>,
    choice: ChatChoice<L>,
    complete: GenerateComplete<L, I>,
) -> bool {
    match complete.output_logprobs {
        None => choice.logprobs is None,
        Some(logprobs) => choice.logprobs matches Some(shown) && shows(
            &*router.tokenizer,
            logprobs,
            shown,
        ),
    }
}

/// `choice` is what the response at `index` comes to by itself, without the tool parser of the
/// model.
pub open spec fn is_processed<S: RouterServices, L, I>(
    router: GrpcPDRouter<S>,
    request: ChatCompletionRequest<S::Tool, S::Rest>,
    choice: ChatChoice<L>,
    complete: GenerateComplete<L, I>,
    index: int,
) -> bool {
    &&& shows_logprobs(router, choice, complete)
    &&& exists|draft: ChoiceDraft, tool_calls: Option<Vec<ToolCall>>|
        {
            &&& #[trigger] is_choice(
                choice,
                complete,
                index as usize,
                draft,
                tool_calls,
                choice.logprobs,
            )
            &&& is_begun_of(
                router,
                request,
                complete.output_ids@,
                Ok(ChoiceStep::Finish { draft, tool_calls }),
            )
        }
}

/// The message when the choice at `index` cannot be made.
pub open spec fn failure_of_choice(index: nat, error: Seq<char>) -> Seq<char> {
    "Failed to process choice "@ + decimal(index) + ": "@ + error
}

/// How far a run got.
#[derive(Debug)]
pub enum RunStep<L, I> {
    /// All choices are made.
    Done(ChoiceRun<L, I>),
    /// The tool parser of the model has to look at the text of the draft.
    DetectTools { run: ChoiceRun<L, I>, draft: ChoiceDraft },
    /// A choice could not be made, and this is the answer.
    Failed(Reply),
}

/// `later` goes on from `run`: it has the same responses, and the choices of `run` before those
/// that it has made itself.
pub open spec fn goes_on<S: RouterServices, L, I>(
    router: GrpcPDRouter<S>,
    request: ChatCompletionRequest<S::Tool, S::Rest>,
    run: ChoiceRun<L, I>,
    later: ChoiceRun<L, I>,
) -> bool {
    &&& later.responses() == run.responses()
    &&& run.choices().len() <= later.choices().len() <= usize::MAX
    &&& later.choices().take(run.choices().len() as int) == run.choices()
    &&& forall|i: int|
        run.choices().len() <= i < later.choices().len() ==> is_processed(
            router,
            request,
            #[trigger] later.choices()[i],
            run.responses()[i],
            i,
        )
}

/// The next choice of `run` cannot be made, and `reply` says so.
pub open spec fn is_failure<S: RouterServices, L, I>(
    router: GrpcPDRouter<S>,
    request: ChatCompletionRequest<S::Tool, S::Rest>,
    run: ChoiceRun<L, I>,
    reply: Reply,
) -> bool {
    exists|error: String|
        {
            &&& #[trigger] is_begun_of(
                router,
                request,
                run.responses()[run.choices().len() as int].output_ids@,
                Err::<ChoiceStep, String>(error),
            )
            &&& reply.is_internal_error(failure_of_choice(run.choices().len(), error@))
        }
}

/// The responses of the decode worker, and the choices made of the first of them.
#[derive(Debug)]
pub struct ChoiceRun<L, I> {
    responses: Vec<GenerateComplete<L, I>>,
    choices: Vec<ChatChoice<L>>,
}

/// `k` is the place of an outcome.
pub open spec fn is_attempt(outcomes: Seq<Result<ChoiceStep, String>>, k: int) -> bool {
    0 <= k < outcomes.len()
}

/// The next choices of `run` begin with `outcomes`, where `decodes` tells what decoding can come to;
/// `states` are the decoder's states before the first of them and after each.
pub open spec fn begin_by<S: RouterServices, L, I>(
    router: GrpcPDRouter<S>,
    request: ChatCompletionRequest<S::Tool, S::Rest>,
    decodes: spec_fn(S::Decoder, Seq<u32>, Result<Seq<char>, Seq<char>>, S::Decoder) -> bool,
    run: ChoiceRun<L, I>,
    states: Seq<S::Decoder>,
    outcomes: Seq<Result<ChoiceStep, String>>,
) -> bool {
    forall|k: int| #[trigger]
        is_attempt(outcomes, k) ==> begins_by(
            router,
            request,
            decodes,
            states[k],
            run.responses()[run.choices().len() + k].output_ids@,
            outcomes[k],
            states[k + 1],
        )
}

/// `later` has made one choice of each of the outcomes of beginning the next choices of `run`.
pub open spec fn makes<L, I>(
    run: ChoiceRun<L, I>,
    outcomes: Seq<Result<ChoiceStep, String>>,
    later: ChoiceRun<L, I>,
) -> bool {
    &&& later.choices().len() == run.choices().len() + outcomes.len()
    &&& forall|k: int| #[trigger]
        is_attempt(outcomes, k) ==> {
            let index = run.choices().len() + k;
            &&& outcomes[k] matches Ok(ChoiceStep::Finish { draft, tool_calls })
            &&& is_choice(
                later.choices()[index],
                run.responses()[index],
                index as usize,
                draft,
                tool_calls,
                later.choices()[index].logprobs,
            )
        }
}

/// `step` is how far `run` gets when its next choices, begun one after the other, come to
/// `outcomes`; `states` are the decoder's states before the first of them and after each.
pub open spec fn leads_to<L, I, D>(
    run: ChoiceRun<L, I>,
    states: Seq<D>,
    outcomes: Seq<Result<ChoiceStep, String>>,
    step: RunStep<L, I>,
) -> bool {
    &&& states.len() == outcomes.len() + 1
    &&& match step {
        RunStep::Done(later) => makes(run, outcomes, later),
        RunStep::DetectTools { run: later, draft } => {
            &&& outcomes.len() > 0
            &&& outcomes.last() == Ok::<ChoiceStep, String>(ChoiceStep::DetectTools { draft })
            &&& makes(run, outcomes.drop_last(), later)
        },
        RunStep::Failed(reply) => {
            &&& outcomes.len() > 0
            &&& outcomes.last() matches Err(error) && reply.is_internal_error(
                failure_of_choice((run.choices().len() + outcomes.len() - 1) as nat, error@),
            )
            &&& forall|k: int| #[trigger]
                is_attempt(outcomes, k) && k < outcomes.len() - 1 ==> (outcomes[k] matches Ok(step)
                    && step is Finish)
        },
    }
}

/// `run` starts with the responses given, with the input's log probabilities of the prefill worker
/// where they are wanted, and has made no choice.
pub open spec fn is_started<L, I: Clone>(
    run: ChoiceRun<L, I>,
    prefill_responses: Seq<GenerateComplete<L, I>>,
    responses: Seq<GenerateComplete<L, I>>,
    logprobs: bool,
) -> bool {
    &&& run.choices().len() == 0
    &&& run.responses().len() == responses.len()
    &&& forall|i: int|
        0 <= i < responses.len() ==> is_merged(
            responses[i],
            prefill_input_logprobs(prefill_responses),
            logprobs,
            #[trigger] run.responses()[i],
        )
}

/// `later` is `run` with one more choice, which is made of the draft and the tool calls given and of
/// the next response.
pub open spec fn is_finished_with<S: RouterServices, L, I>(
    router: GrpcPDRouter<S>,
    run: ChoiceRun<L, I>,
    draft: ChoiceDraft,
    tool_calls: Option<Vec<ToolCall>>,
    later: ChoiceRun<L, I>,
) -> bool {
    let index = run.choices().len();
    &&& later.responses() == run.responses()
    &&& later.choices().len() == index + 1 <= usize::MAX
    &&& later.choices().drop_last() == run.choices()
    &&& is_choice(
        later.choices().last(),
        run.responses()[index as int],
        index as usize,
        draft,
        tool_calls,
        later.choices().last().logprobs,
    )
    &&& shows_logprobs(router, later.choices().last(), run.responses()[index as int])
}

/// `response` is the completion that `run` comes to: with a choice of every response in their order,
/// and the tokens of all.
pub open spec fn is_completion<L, I>(
    response: ChatCompletionResponse<L>,
    id: String,
    seconds_since_epoch: Option<u64>,
    model: String,
    run: ChoiceRun<L, I>,
) -> bool {
    &&& response.id == id
    &&& response.object@ == "chat.completion"@
    &&& response.created == match seconds_since_epoch {
        Some(seconds) => seconds,
        None => 0,
    }
    &&& response.model == model
    &&& response.choices@ == run.choices()
    &&& response.choices.len() == run.responses().len()
    &&& forall|i: int|
        0 <= i < response.choices.len() ==> is_made_of(
            #[trigger] response.choices@[i],
            run.responses()[i],
            i,
        )
    &&& response.usage matches Some(usage) && is_usage(usage, run.responses())
    &&& response.system_fingerprint is None
}

/// How far `run` gets, as `step` tells: it goes on until all choices are made, the tool parser of the
/// model has to look at the text of the next one, or the next one cannot be made.
pub open spec fn is_step<S: RouterServices, L, I>(
    router: GrpcPDRouter<S>,
    request: ChatCompletionRequest<S::Tool, S::Rest>,
    run: ChoiceRun<L, I>,
    step: RunStep<L, I>,
) -> bool {
    match step {
        RunStep::Done(later) => {
            &&& goes_on(router, request, run, later)
            &&& later.choices().len() == later.responses().len()
        },
        RunStep::DetectTools { run: later, draft } => {
            &&& goes_on(router, request, run, later)
            &&& !later.is_done()
            &&& is_begun_of(
                router,
                request,
                later.responses()[later.choices().len() as int].output_ids@,
                Ok(ChoiceStep::DetectTools { draft }),
            )
        },
        RunStep::Failed(reply) => exists|later: ChoiceRun<L, I>|
            {
                &&& #[trigger] goes_on(router, request, run, later)
                &&& !later.is_done()
                &&& is_failure(router, request, later, reply)
            },
    }
}

/// `run` finds the decoder in the state `before`, gets as far as `step`, and leaves the decoder in the
/// state `after`, where `decodes` tells what decoding can come to.
pub open spec fn advances<S: RouterServices, L, I>(
    router: GrpcPDRouter<S>,
    request: ChatCompletionRequest<S::Tool, S::Rest>,
    decodes: spec_fn(S::Decoder, Seq<u32>, Result<Seq<char>, Seq<char>>, S::Decoder) -> bool,
    run: ChoiceRun<L, I>,
    before: S::Decoder,
    step: RunStep<L, I>,
    after: S::Decoder,
) -> bool {
    exists|states: Seq<S::Decoder>, outcomes: Seq<Result<ChoiceStep, String>>|
        {
            &&& #[trigger] leads_to(run, states, outcomes, step)
            &&& begin_by(router, request, decodes, run, states, outcomes)
            &&& states[0] == before
            &&& states.last() == after
            &&& is_step(router, request, run, step)
            &&& run.choices().len() + outcomes.len() <= run.responses().len()
        }
}

impl<L, I> ChoiceRun<L, I> {
    /// The responses, each with the input's log probabilities that it is to show.
    pub closed spec fn responses(self) -> Seq<GenerateComplete<L, I>> {
        self.responses@
    }

    /// The choices made so far.
    pub closed spec fn choices(self) -> Seq<ChatChoice<L>> {
        self.choices@
    }

    /// Whether a choice is made of every response.
    pub open spec fn is_done(self) -> bool {
        self.choices().len() >= self.responses().len()
    }

    #[verifier::type_invariant]
    spec fn well_formed(self) -> bool {
        &&& self.choices@.len() <= self.responses@.len()
        &&& forall|i: int|
            0 <= i < self.choices@.len() ==> is_made_of(
                #[trigger] self.choices@[i],
                self.responses@[i],
                i,
            )
    }

    /// Starts with the responses that both workers gave. A decode worker without a response is an
    /// error.
    pub fn start(
        prefill_responses: &Vec<GenerateComplete<L, I>>,
        responses: Vec<GenerateComplete<L, I>>,
        logprobs: bool,
    ) -> (result: Result<Self, Reply>) where I: Clone
        ensures
            match result {
                Err(reply) => responses.len() == 0 && reply.is_internal_error(
                    "No responses from decode worker"@,
                ),
                Ok(run) => responses.len() > 0 && is_started(
                    run,
                    prefill_responses@,
                    responses@,
                    logprobs,
                ),
            },
    {
        if responses.len() == 0 {
            return Err(Reply::internal_error("No responses from decode worker".to_string()));
        }
        let ghost given = responses@;
        let mut responses = responses;
        if logprobs && prefill_responses.len() > 0 {
            if let Some(input_logprobs) = &prefill_responses[0].input_logprobs {
                let mut i: usize = 0;
                while i < responses.len()
                    invariant
                        i <= responses.len(),
                        responses.len() == given.len(),
                        forall|k: int|
                            0 <= k < i ==> is_merged(
                                given[k],
                                Some(*input_logprobs),
                                true,
                                #[trigger] responses@[k],
                            ),
                        forall|k: int| i <= k < responses.len() ==> responses@[k] == given[k],
                    decreases responses.len() - i,
                {
                    responses[i].input_logprobs = Some(input_logprobs.clone());
                    i += 1;
                }
            }
        }
        Ok(ChoiceRun { responses, choices: Vec::new() })
    }

    /// The next response to make a choice of, with its place.
    pub fn next_response(&self) -> (next: Option<(usize, &GenerateComplete<L, I>)>)
        ensures
            match next {
                Some((index, response)) => {
                    &&& !self.is_done()
                    &&& index == self.choices().len()
                    &&& *response == self.responses()[index as int]
                },
                None => self.is_done(),
            },
    {
        let index: usize = self.choices.len();
        if index < self.responses.len() {
            Some((index, &self.responses[index]))
        } else {
            None
        }
    }

    /// The answer when the next choice cannot be made.
    pub fn choice_failed(&self, error: &String) -> (reply: Reply)
        ensures
            reply.is_internal_error(failure_of_choice(self.choices().len(), error@)),
    {
        let mut message: String = "Failed to process choice ".to_string();
        push_decimal(&mut message, self.choices.len() as u64);
        message.append(": ");
        message.append(error.as_str());
        Reply::internal_error(message)
    }

    /// Makes the next choice of its draft and tool calls.
    pub fn finish_next<S: RouterServices>(
        self,
        router: &GrpcPDRouter<S>,
        draft: ChoiceDraft,
        tool_calls: Option<Vec<ToolCall>>,
    ) -> (run: Self) where L: Copy
        requires
            !self.is_done(),
        ensures
            is_finished_with(*router, self, draft, tool_calls, run),
    {
        proof {
            use_type_invariant(&self);
        }
        let ChoiceRun { responses, choices } = self;
        let mut choices = choices;
        let ghost made = choices@;
        let index: usize = choices.len();
        let choice = router.finish_choice(&responses[index], index, draft, tool_calls);
        assert(is_made_of(choice, responses@[index as int], index as int)) by {
            assert(is_choice(
                choice,
                responses@[index as int],
                (index as int) as usize,
                draft,
                tool_calls,
                choice.logprobs,
            ));
        }
        choices.push(choice);
        assert(choices@.len() == choices.len());
        assert(choices@.drop_last() =~= made);
        assert forall|i: int| 0 <= i < choices@.len() implies is_made_of(
            #[trigger] choices@[i],
            responses@[i],
            i,
        ) by {
            if i < index {
                assert(choices@[i] == made[i]);
            }
        }
        ChoiceRun { responses, choices }
    }

    /// Makes the next choice of its draft and what the tool parser of the model found in its text.
    pub fn finish_searched<S: RouterServices>(
        self,
        router: &GrpcPDRouter<S>,
        draft: ChoiceDraft,
        findings: ToolFindings,
    ) -> (run: Self) where L: Copy
        requires
            !self.is_done(),
        ensures
            is_finished_with(
                *router,
                self,
                ChoiceDraft { text: findings.text, reasoning_text: draft.reasoning_text },
                findings.tool_calls,
                run,
            ),
    {
        let draft = ChoiceDraft { text: findings.text, reasoning_text: draft.reasoning_text };
        self.finish_next(router, draft, findings.tool_calls)
    }

    /// Makes choices, in the order of the responses, until all are made, one cannot be made, or the
    /// tool parser of the model has to look at a text. One decoder serves all choices: each resets
    /// it in the state in which the one before left it, and decodes its own tokens with it.
    ///
    /// As with [`GrpcPDRouter::begin_choice`], whatever relation `decodes` covers what the decoder can
    /// do, the run advances by it.
    pub fn advance<S: RouterServices>(
        self,
        router: &GrpcPDRouter<S>,
        request: &ChatCompletionRequest<S::Tool, S::Rest>,
        stop_decoder: &mut S::Decoder,
    ) -> (step: RunStep<L, I>) where L: Copy
        ensures
            is_step(*router, *request, self, step),
            exists|states: Seq<S::Decoder>, outcomes: Seq<Result<ChoiceStep, String>>|
                {
                    &&& #[trigger] leads_to(self, states, outcomes, step)
                    &&& states[0] == *old(stop_decoder)
                    &&& states.last() == *final(stop_decoder)
                    &&& forall|k: int| #[trigger]
                        is_attempt(outcomes, k) ==> exists|
                            d0: &mut S::Decoder,
                            d1: &mut S::Decoder,
                            ids: &[u32],
                            outcome: Result<Vec<SequenceDecoderOutput>, String>,
                        |
                            {
                                &&& #[trigger] call_ensures(S::Decoder::reset, (d0,), ())
                                &&& *d0 == states[k]
                                &&& #[trigger] call_ensures(
                                    S::Decoder::process_tokens,
                                    (d1, ids),
                                    outcome,
                                )
                                &&& *d1 == *final(d0)
                                &&& ids@ == self.responses()[self.choices().len() + k].output_ids@
                                &&& match outcome {
                                    Err(message) => {
                                        &&& outcomes[k] matches Err(error) && error@
                                            == "Failed to process tokens: "@ + message@
                                        &&& *final(d1) == states[k + 1]
                                    },
                                    Ok(outputs) => exists|
                                        d2: &mut S::Decoder,
                                        flushed: SequenceDecoderOutput,
                                    |
                                        {
                                            &&& #[trigger] call_ensures(
                                                S::Decoder::flush,
                                                (d2,),
                                                flushed,
                                            )
                                            &&& *d2 == *final(d1)
                                            &&& *final(d2) == states[k + 1]
                                            &&& is_begun(
                                                *router,
                                                *request,
                                                emitted(outputs@) + flushed_text(flushed),
                                                outcomes[k],
                                            )
                                        },
                                }
                            }
                },
            forall|
                decodes: spec_fn(
                    S::Decoder,
                    Seq<u32>,
                    Result<Seq<char>, Seq<char>>,
                    S::Decoder,
                ) -> bool,
            |
                (forall|
                    d0: &mut S::Decoder,
                    d1: &mut S::Decoder,
                    ids: &[u32],
                    outcome: Result<Vec<SequenceDecoderOutput>, String>,
                |
                    {
                        &&& #[trigger] call_ensures(S::Decoder::reset, (d0,), ())
                        &&& #[trigger] call_ensures(
                            S::Decoder::process_tokens,
                            (d1, ids),
                            outcome,
                        )
                        &&& *d1 == *final(d0)
                    } ==> match outcome {
                        Err(message) => decodes(*d0, ids@, Err(message@), *final(d1)),
                        Ok(outputs) => forall|d2: &mut S::Decoder, flushed: SequenceDecoderOutput|
                            #[trigger] call_ensures(S::Decoder::flush, (d2,), flushed) && *d2
                                == *final(d1) ==> decodes(
                                *d0,
                                ids@,
                                Ok(emitted(outputs@) + flushed_text(flushed)),
                                *final(d2),
                            ),
                    }) ==> #[trigger] advances(
                    *router,
                    *request,
                    decodes,
                    self,
                    *old(stop_decoder),
                    step,
                    *final(stop_decoder),
                ),
    {
        let ghost begun = self;
        let ghost mut states: Seq<S::Decoder> = seq![*stop_decoder];
        let ghost mut outcomes: Seq<Result<ChoiceStep, String>> = seq![];
        let mut run = self;
        assert(run.choices().take(run.choices().len() as int) =~= run.choices());
        assert(run.choices().len() == run.choices.len());
        loop
            invariant
                begun == self,
                states.len() == outcomes.len() + 1,
                makes(begun, outcomes, run),
                states[0] == *old(stop_decoder),
                states.last() == *stop_decoder,
                forall|k: int| #[trigger]
                    is_attempt(outcomes, k) ==> exists|
                        d0: &mut S::Decoder,
                        d1: &mut S::Decoder,
                        ids: &[u32],
                        outcome: Result<Vec<SequenceDecoderOutput>, String>,
                    |
                        {
                            &&& #[trigger] call_ensures(S::Decoder::reset, (d0,), ())
                            &&& *d0 == states[k]
                            &&& #[trigger] call_ensures(
                                S::Decoder::process_tokens,
                                (d1, ids),
                                outcome,
                            )
                            &&& *d1 == *final(d0)
                            &&& ids@ == self.responses()[self.choices().len() + k].output_ids@
                            &&& match outcome {
                                Err(message) => {
                                    &&& outcomes[k] matches Err(error) && error@
                                        == "Failed to process tokens: "@ + message@
                                    &&& *final(d1) == states[k + 1]
                                },
                                Ok(outputs) => exists|
                                    d2: &mut S::Decoder,
                                    flushed: SequenceDecoderOutput,
                                |
                                    {
                                        &&& #[trigger] call_ensures(
                                            S::Decoder::flush,
                                            (d2,),
                                            flushed,
                                        )
                                        &&& *d2 == *final(d1)
                                        &&& *final(d2) == states[k + 1]
                                        &&& is_begun(
                                            *router,
                                            *request,
                                            emitted(outputs@) + flushed_text(flushed),
                                            outcomes[k],
                                        )
                                    },
                            }
                        },
                goes_on(*router, *request, begun, run),
            decreases run.responses().len() - run.choices().len(),
        {
            let ghost before = run;
            let result = match run.next_response() {
                None => {
                    proof {
                        use_type_invariant(&run);
                    }
                    let step = RunStep::Done(run);
                    assert(leads_to(self, states, outcomes, step));
                    return step;
                },
                Some((_, response)) => router.begin_choice(response, request, stop_decoder),
            };
            let ghost earlier = outcomes;
            proof {
                let passed = states;
                states = states.push(*stop_decoder);
                outcomes = outcomes.push(result);
                assert(outcomes.drop_last() =~= earlier);
                assert forall|k: int| #[trigger]
                    is_attempt(outcomes, k) && k < earlier.len() implies {
                    &&& is_attempt(earlier, k)
                    &&& outcomes[k] == earlier[k]
                    &&& states[k] == passed[k]
                    &&& states[k + 1] == passed[k + 1]
                } by {}
            }
            match result {
                Err(error) => {
                    let reply = run.choice_failed(&error);
                    assert(is_failure(*router, *request, run, reply));
                    let step = RunStep::Failed(reply);
                    assert(leads_to(self, states, outcomes, step));
                    return step;
                },
                Ok(ChoiceStep::DetectTools { draft }) => {
                    let step = RunStep::DetectTools { run, draft };
                    assert(leads_to(self, states, outcomes, step));
                    return step;
                },
                Ok(ChoiceStep::Finish { draft, tool_calls }) => {
                    run = run.finish_next(router, draft, tool_calls);
                },
            }
            proof {
                let index = before.choices().len() as int;
                assert(run.choices()[index] == run.choices().last());
                assert forall|i: int|
                    begun.choices().len() <= i < run.choices().len() implies is_processed(
                    *router,
                    *request,
                    #[trigger] run.choices()[i],
                    begun.responses()[i],
                    i,
                ) by {
                    if i < index {
                        assert(run.choices().drop_last()[i] == run.choices()[i]);
                        assert(before.choices()[i] == run.choices()[i]);
                    }
                }
                assert(run.choices().take(begun.choices().len() as int) =~= before.choices().take(
                    begun.choices().len() as int,
                ));
            }
        }
    }

    /// Whether the tokens of all responses can be counted.
    pub fn usage_fits(&self) -> (fits: bool)
        ensures
            fits == (all_tokens(self.responses()) <= u32::MAX),
    {
        usage_of(&self.responses).is_some()
    }

    /// The completion, with a choice of every response in their order. A clock that reads a time
    /// before the epoch counts as the epoch.
    pub fn finish(self, id: String, seconds_since_epoch: Option<u64>, model: &String) -> (response:
        ChatCompletionResponse<L>)
        requires
            self.is_done(),
            all_tokens(self.responses()) <= u32::MAX,
        ensures
            is_completion(response, id, seconds_since_epoch, *model, self),
    {
        proof {
            use_type_invariant(&self);
        }
        let ChoiceRun { responses, choices } = self;
        let usage = usage_of(&responses);
        let created: u64 = match seconds_since_epoch {
            Some(seconds) => seconds,
            None => 0,
        };
        ChatCompletionResponse {
            id,
            object: "chat.completion".to_string(),
            created,
            model: model.clone(),
            choices,
            usage,
            system_fingerprint: None,
        }
    }
}

} // verus!
