//! What holds of the router as a whole.
use crate::bits::{low_signed_32, low_unsigned_32};
use crate::chat::{is_planned, is_rendezvous, is_selected_for, ChatPlanning};
use crate::choice::{emitted, is_begun_of, is_choice, is_decoded, ChoiceDraft, ChoiceStep};
use crate::completion::{
    all_tokens, completion_counts, is_made_of, is_merged, is_processed, is_usage, prompt_counts,
    total,
};
use crate::ids::{is_completion_id, is_drawn, is_random_uuid_text};
use crate::logprobs::{decode_to, decodes_to, is_content, is_top_list, placeholder, shows};
use crate::proto::{DisaggregatedParams, GenerateComplete, OutputLogProbs};
use crate::protocol::{
    ChatChoice, ChatCompletionRequest, ChatLogProbs, ToolCall, ToolChoice, ToolChoiceValue, Usage,
};
use crate::router::GrpcPDRouter;
use crate::selection::{
    effective_model, is_selected, playing, plays, selection_of, PairSelection, Role,
};
use crate::services::{RouterServices, SequenceDecoderOutput, Tokenizer, Worker};
use crate::text::{decimal, digit, signed_decimal};
use crate::tools::{are_findings, tool_mode_of, ParsedToolCall, ToolFindings, ToolMode};
use std::sync::Arc;
use vstd::prelude::*;
use vstd::utf8::encode_utf8;

verus! {

/// Whether an output of a stop decoder is a stop condition.
pub open spec fn stops(output: SequenceDecoderOutput) -> bool {
    output is Stopped || output is StoppedWithText
}

/// Text without a stop condition is emitted before what follows it.
pub proof fn emission_goes_on(
    left: Seq<SequenceDecoderOutput>,
    right: Seq<SequenceDecoderOutput>,
)
    requires
        forall|i: int| 0 <= i < left.len() ==> !stops(#[trigger] left[i]),
    ensures
        emitted(left + right) == emitted(left) + emitted(right),
    decreases left.len(),
{
    if left.len() == 0 {
        assert(left + right =~= right);
        assert(emitted(left) + emitted(right) =~= emitted(right));
    } else {
        assert((left + right).skip(1) =~= left.skip(1) + right);
        assert(forall|i: int| 0 <= i < left.skip(1).len() ==> left.skip(1)[i] == left[i + 1]);
        emission_goes_on(left.skip(1), right);
        assert((left + right)[0] == left[0]);
        assert(!stops(left[0]));
        assert(emitted(left + right) =~= emitted(left) + emitted(right));
    }
}

/// Nothing that comes after a stop condition is emitted.
pub proof fn emission_ends_at_stop(
    before: Seq<SequenceDecoderOutput>,
    stop: SequenceDecoderOutput,
    after: Seq<SequenceDecoderOutput>,
)
    requires
        stops(stop),
    ensures
        emitted(before.push(stop) + after) == emitted(before.push(stop)),
    decreases before.len(),
{
    if before.len() > 0 {
        assert((before.push(stop) + after).skip(1) =~= before.skip(1).push(stop) + after);
        assert(before.push(stop).skip(1) =~= before.skip(1).push(stop));
        emission_ends_at_stop(before.skip(1), stop, after);
        assert((before.push(stop) + after)[0] == before[0]);
        assert(before.push(stop)[0] == before[0]);
    } else {
        assert((before.push(stop) + after)[0] == stop);
        assert(before.push(stop)[0] == stop);
    }
}

/// Held tokens emit nothing, wherever they come.
pub proof fn held_tokens_are_silent(
    before: Seq<SequenceDecoderOutput>,
    after: Seq<SequenceDecoderOutput>,
)
    ensures
        emitted(before.push(SequenceDecoderOutput::Held) + after) == emitted(before + after),
    decreases before.len(),
{
    let with = before.push(SequenceDecoderOutput::Held) + after;
    if before.len() > 0 {
        assert(with.skip(1) =~= before.skip(1).push(SequenceDecoderOutput::Held) + after);
        assert((before + after).skip(1) =~= before.skip(1) + after);
        held_tokens_are_silent(before.skip(1), after);
        assert(with[0] == before[0]);
        assert((before + after)[0] == before[0]);
    } else {
        assert(with.skip(1) =~= before + after);
        assert(with[0] == SequenceDecoderOutput::Held);
    }
}

/// Without tools, or with tools ruled out, no tool calls are looked for; with tools and no such
/// rule, they always are.
pub proof fn tools_are_searched_when_offered(tool_choice: Option<ToolChoice>, has_tools: bool)
    ensures
        (tool_mode_of(tool_choice, has_tools) == ToolMode::Skip) <==> (!has_tools || tool_choice
            == Some(ToolChoice::Value(ToolChoiceValue::NoTools))),
{
}

/// A list of tool calls that the parser of a model brings is never empty, keeps the identifiers and
/// names in their order, and comes only of a parse that succeeded.
pub proof fn found_calls_are_those_parsed(
    findings: ToolFindings,
    text: Seq<char>,
    result: Result<(String, Vec<ParsedToolCall>), String>,
)
    requires
        are_findings(findings, text, result),
        findings.tool_calls is Some,
    ensures
        result is Ok,
        findings.tool_calls->0.len() > 0,
        findings.tool_calls->0.len() == result->Ok_0.1.len(),
        forall|i: int|
            0 <= i < findings.tool_calls->0.len() ==> {
                &&& (#[trigger] findings.tool_calls->0@[i]).id@ == result->Ok_0.1@[i].id@
                &&& findings.tool_calls->0@[i].function.name@ == result->Ok_0.1@[i].name@
            },
{
}

/// A choice ends with tool calls exactly when it has some, unless the worker itself gave tool calls
/// as its reason.
pub proof fn tool_calls_decide_finish_reason<L, I>(
    choice: ChatChoice<L>,
    complete: GenerateComplete<L, I>,
    index: usize,
    draft: ChoiceDraft,
    tool_calls: Option<Vec<ToolCall>>,
    logprobs: Option<ChatLogProbs<L>>,
)
    requires
        is_choice(choice, complete, index, draft, tool_calls, logprobs),
        complete.finish_reason@ != "tool_calls"@,
    ensures
        choice.finish_reason is Some,
        choice.finish_reason->0@ == "tool_calls"@ <==> choice.message.tool_calls is Some,
{
}

/// The tool parser of the model is asked only for requests that offer tools, do not rule them out
/// and do not have the output constrained by a schema.
pub proof fn parser_is_asked_only_for_tools<S: RouterServices>(
    router: GrpcPDRouter<S>,
    request: ChatCompletionRequest<S::Tool, S::Rest>,
    token_ids: Seq<u32>,
    draft: ChoiceDraft,
)
    requires
        is_begun_of(router, request, token_ids, Ok(ChoiceStep::DetectTools { draft })),
    ensures
        tool_mode_of(request.tool_choice, request.tools is Some) == ToolMode::ModelParser,
{
}

/// A request without a search for tool calls is answered without any, and the worker's reason for
/// the end of the generation stands.
pub proof fn no_calls_without_a_search<S: RouterServices, L, I>(
    router: GrpcPDRouter<S>,
    request: ChatCompletionRequest<S::Tool, S::Rest>,
    choice: ChatChoice<L>,
    complete: GenerateComplete<L, I>,
    index: int,
)
    requires
        is_processed(router, request, choice, complete, index),
        tool_mode_of(request.tool_choice, request.tools is Some) == ToolMode::Skip,
    ensures
        choice.message.tool_calls is None,
        choice.finish_reason is Some,
        choice.finish_reason->0@ == complete.finish_reason@,
{
}

/// A choice shows reasoning only where the request asks for it.
pub proof fn reasoning_shows_only_on_request<S: RouterServices, L, I>(
    router: GrpcPDRouter<S>,
    request: ChatCompletionRequest<S::Tool, S::Rest>,
    choice: ChatChoice<L>,
    complete: GenerateComplete<L, I>,
    index: int,
)
    requires
        is_processed(router, request, choice, complete, index),
        !request.separate_reasoning,
    ensures
        choice.message.reasoning_content is None,
{
}

/// Where neither reasoning nor tool calls are looked for, the content of a choice is what a stop
/// decoder made of its tokens, followed by what flushing one gave, and a text of no characters is no
/// content.
pub proof fn plain_choices_show_the_decoded_text<S: RouterServices, L, I>(
    router: GrpcPDRouter<S>,
    request: ChatCompletionRequest<S::Tool, S::Rest>,
    choice: ChatChoice<L>,
    complete: GenerateComplete<L, I>,
    index: int,
)
    requires
        is_processed(router, request, choice, complete, index),
        !request.separate_reasoning,
        tool_mode_of(request.tool_choice, request.tools is Some) == ToolMode::Skip,
    ensures
        exists|text: Seq<char>| #[trigger]
            is_decoded::<S::Decoder>(complete.output_ids@, text) && match choice.message.content {
                Some(content) => content@ == text && text.len() > 0,
                None => text.len() == 0,
            },
{
}

/// No choice has an empty text for its content.
pub proof fn content_is_never_empty<L, I>(
    choice: ChatChoice<L>,
    complete: GenerateComplete<L, I>,
    index: int,
)
    requires
        is_made_of(choice, complete, index),
    ensures
        choice.message.content matches Some(content) ==> content@.len() > 0,
{
}

/// A choice stands at the place of the response that it is made of.
pub proof fn choices_keep_their_places<L, I>(
    choice: ChatChoice<L>,
    complete: GenerateComplete<L, I>,
    index: usize,
)
    requires
        is_made_of(choice, complete, index as int),
    ensures
        choice.index == low_unsigned_32(index),
        index <= u32::MAX ==> choice.index == index,
{
}

/// The log probabilities of the input do not show in a choice: merging those of the prefill worker
/// changes nothing of what it can be.
pub proof fn input_logprobs_do_not_show<L, I: Clone>(
    choice: ChatChoice<L>,
    before: GenerateComplete<L, I>,
    input_logprobs: Option<I>,
    wanted: bool,
    after: GenerateComplete<L, I>,
    index: usize,
    draft: ChoiceDraft,
    tool_calls: Option<Vec<ToolCall>>,
    logprobs: Option<ChatLogProbs<L>>,
)
    requires
        is_merged(before, input_logprobs, wanted, after),
    ensures
        is_choice(choice, before, index, draft, tool_calls, logprobs) <==> is_choice(
            choice,
            after,
            index,
            draft,
            tool_calls,
            logprobs,
        ),
{
}

proof fn lemma_total_adds(left: Seq<int>, right: Seq<int>)
    ensures
        total(left + right) == total(left) + total(right),
    decreases right.len(),
{
    if right.len() == 0 {
        assert(left + right =~= left);
    } else {
        assert((left + right).drop_last() =~= left + right.drop_last());
        lemma_total_adds(left, right.drop_last());
    }
}

/// The tokens of two lots of responses are those of the one and those of the other.
pub proof fn usage_adds_up<L, I>(
    left: Seq<GenerateComplete<L, I>>,
    right: Seq<GenerateComplete<L, I>>,
)
    ensures
        total(prompt_counts(left + right)) == total(prompt_counts(left)) + total(
            prompt_counts(right),
        ),
        total(completion_counts(left + right)) == total(completion_counts(left)) + total(
            completion_counts(right),
        ),
        all_tokens(left + right) == all_tokens(left) + all_tokens(right),
{
    assert(prompt_counts(left + right) =~= prompt_counts(left) + prompt_counts(right));
    assert(completion_counts(left + right) =~= completion_counts(left) + completion_counts(right));
    lemma_total_adds(prompt_counts(left), prompt_counts(right));
    lemma_total_adds(completion_counts(left), completion_counts(right));
}

/// The total of a usage is its prompt tokens and its completion tokens.
pub proof fn usage_total_is_the_sum<L, I>(usage: Usage, responses: Seq<GenerateComplete<L, I>>)
    requires
        is_usage(usage, responses),
    ensures
        usage.total_tokens == usage.prompt_tokens + usage.completion_tokens,
{
}

/// The rendezvous is a function of the prefill worker and the low bits of the room number.
pub proof fn rendezvous_is_unique(
    a: DisaggregatedParams,
    b: DisaggregatedParams,
    worker: Worker,
    room_a: u64,
    room_b: u64,
)
    requires
        is_rendezvous(a, worker, room_a),
        is_rendezvous(b, worker, room_b),
    ensures
        a == b <==> room_a as int % 0x1_0000_0000 == room_b as int % 0x1_0000_0000,
{
}

/// A room number that fits is kept.
pub proof fn small_rooms_are_kept(params: DisaggregatedParams, worker: Worker, room_id: u64)
    requires
        is_rendezvous(params, worker, room_id),
        room_id <= i32::MAX,
    ensures
        params.bootstrap_room == room_id,
{
}

/// Without awareness of data parallelism, the model that a client names does not matter to the
/// selection of workers.
pub proof fn model_is_ignored_without_dp_awareness<S: RouterServices>(
    router: GrpcPDRouter<S>,
    request_text: Option<&str>,
    model_id: Option<&str>,
    other_model_id: Option<&str>,
    selection: PairSelection,
)
    requires
        !router.dp_aware,
    ensures
        is_selected(router, request_text, model_id, selection) <==> is_selected(
            router,
            request_text,
            other_model_id,
            selection,
        ),
{
    assert(effective_model(router.dp_aware, model_id) == effective_model(
        router.dp_aware,
        other_model_id,
    ));
}

proof fn lemma_playing_plays(workers: Seq<Arc<Worker>>, role: Role)
    ensures
        forall|i: int|
            0 <= i < playing(workers, role).len() ==> {
                &&& plays(*#[trigger] playing(workers, role)[i], role)
                &&& workers.contains(playing(workers, role)[i])
            },
    decreases workers.len(),
{
    let test = |worker: Arc<Worker>| plays(*worker, role);
    reveal(Seq::filter);
    if workers.len() > 0 {
        lemma_playing_plays(workers.drop_last(), role);
        assert forall|i: int| 0 <= i < playing(workers, role).len() implies {
            &&& plays(*#[trigger] playing(workers, role)[i], role)
            &&& workers.contains(playing(workers, role)[i])
        } by {
            let rest = playing(workers.drop_last(), role);
            if i < rest.len() {
                assert(playing(workers, role)[i] == rest[i]);
                let k = choose|k: int|
                    0 <= k < workers.drop_last().len() && workers.drop_last()[k] == rest[i];
                assert(workers[k] == rest[i]);
            } else {
                assert(test(workers.last()));
                assert(playing(workers, role)[i] == workers.last());
            }
        }
    }
}

/// A pair that was selected by model is made of a prefill worker and a decode worker.
pub proof fn workers_by_model_play_their_roles<S: RouterServices>(
    router: GrpcPDRouter<S>,
    request_text: Option<&str>,
    model_id: Option<&str>,
    selection: PairSelection,
)
    requires
        router.dp_aware,
        model_id is Some,
        is_selected(router, request_text, model_id, selection),
    ensures
        selection matches PairSelection::Pair { prefill, decode } ==> {
            &&& plays(*prefill, Role::Prefill)
            &&& plays(*decode, Role::Decode)
        },
{
    if selection is Pair {
        assert forall|all: Seq<Arc<Worker>>, role: Role, i: int|
            0 <= i < playing(all, role).len() implies plays(
            *#[trigger] playing(all, role)[i],
            role,
        ) by {
            lemma_playing_plays(all, role);
        }
    }
}

/// A request for a model that is planned has a prefill worker and a decode worker to go to.
pub proof fn planned_workers_play_their_roles<S: RouterServices>(
    router: GrpcPDRouter<S>,
    body: ChatCompletionRequest<S::Tool, S::Rest>,
    model_id: Option<&str>,
    filtered: ChatCompletionRequest<S::Tool, S::Rest>,
    planning: ChatPlanning<S>,
)
    requires
        router.dp_aware,
        model_id is Some,
        is_planned(router, body, model_id, filtered, planning),
    ensures
        planning matches ChatPlanning::Planned(plan) ==> {
            &&& plays(*plan.prefill_worker, Role::Prefill)
            &&& plays(*plan.decode_worker, Role::Decode)
        },
{
    assert forall|text: Seq<char>, selection: PairSelection|
        is_selected_for(router, text, model_id, selection) implies (
    selection matches PairSelection::Pair { prefill, decode } ==> plays(*prefill, Role::Prefill)
        && plays(*decode, Role::Decode)) by {
        let t = choose|t: &str|
            #[trigger] is_selected(router, Some(t), model_id, selection) && t@ == text;
        workers_by_model_play_their_roles(router, Some(t), model_id, selection);
    }
}

/// Both workers of a pair are among those listed for their roles.
pub proof fn pair_is_among_the_listed(
    prefill_workers: Seq<Arc<Worker>>,
    decode_workers: Seq<Arc<Worker>>,
    prefill_pick: Option<usize>,
    decode_pick: Option<usize>,
)
    ensures
        selection_of(
            prefill_workers,
            decode_workers,
            prefill_pick,
            decode_pick,
        ) matches PairSelection::Pair { prefill, decode } ==> {
            &&& prefill_workers.contains(prefill)
            &&& decode_workers.contains(decode)
        },
{
}

/// Log probabilities are shown one for one: as many entries as there are, each with its value, with
/// the token of its position decoded with special tokens shown, and with the token's bytes; no log
/// probabilities are shown as no content.
pub proof fn logprobs_are_shown_one_for_one<T: Tokenizer, L>(
    tokenizer: &T,
    logprobs: OutputLogProbs<L>,
    shown: ChatLogProbs<L>,
)
    requires
        shows(tokenizer, logprobs, shown),
    ensures
        shown->content is None <==> logprobs.token_logprobs.len() == 0,
        shown->content matches Some(entries) ==> {
            &&& entries.len() == logprobs.token_logprobs.len()
            &&& forall|i: int|
                0 <= i < entries.len() ==> {
                    &&& (#[trigger] entries@[i]).logprob == logprobs.token_logprobs@[i]
                    &&& entries@[i].bytes is Some
                    &&& entries@[i].bytes->0@ == encode_utf8(entries@[i].token@)
                    &&& i < logprobs.token_ids.len() ==> decodes_to(
                        tokenizer,
                        logprobs.token_ids@[i],
                        entries@[i].token@,
                    )
                    &&& i >= logprobs.token_ids.len() ==> entries@[i].token@.len() == 0
                }
        },
{
}

/// Alternative tokens are shown one for one: at each position that has any, those with a value, each
/// decoded with special tokens shown, and with its bytes; positions beyond show none.
pub proof fn alternatives_are_shown_one_for_one<T: Tokenizer, L>(
    tokenizer: &T,
    logprobs: OutputLogProbs<L>,
    shown: ChatLogProbs<L>,
    i: int,
)
    requires
        shows(tokenizer, logprobs, shown),
        0 <= i < logprobs.token_logprobs.len(),
    ensures
        shown->content is Some,
        i >= logprobs.top_logprobs.len() ==> shown->content->0@[i].top_logprobs.len() == 0,
        i < logprobs.top_logprobs.len() ==> {
            let top = logprobs.top_logprobs@[i];
            let entries = shown->content->0@[i].top_logprobs;
            &&& entries.len() == if top.values.len() <= top.token_ids.len() {
                top.values.len()
            } else {
                top.token_ids.len()
            }
            &&& forall|j: int|
                0 <= j < entries.len() ==> {
                    &&& (#[trigger] entries@[j]).logprob == top.values@[j]
                    &&& entries@[j].bytes is Some
                    &&& entries@[j].bytes->0@ == encode_utf8(entries@[j].token@)
                    &&& decodes_to(tokenizer, top.token_ids@[j], entries@[j].token@)
                }
        },
{
    let (texts, top_texts) = choose|texts: Seq<String>, top_texts: Seq<Vec<String>>|
        {
            &&& decode_to(tokenizer, logprobs.token_ids@, texts)
            &&& top_texts.len() == if logprobs.top_logprobs.len()
                <= logprobs.token_logprobs.len() {
                logprobs.top_logprobs@.len()
            } else {
                logprobs.token_logprobs@.len()
            }
            &&& forall|i: int|
                0 <= i < top_texts.len() ==> decode_to(
                    tokenizer,
                    logprobs.top_logprobs@[i].token_ids@,
                    #[trigger] top_texts[i]@,
                )
            &&& #[trigger] is_content(shown->content, logprobs, texts, top_texts)
        };
    let entry = shown->content->0@[i];
    if i < logprobs.top_logprobs.len() {
        let top = logprobs.top_logprobs@[i];
        assert(is_top_list(entry.top_logprobs@, top, top_texts[i]@));
        assert(decode_to(tokenizer, top.token_ids@, top_texts[i]@));
        assert forall|j: int| 0 <= j < entry.top_logprobs.len() implies decodes_to(
            tokenizer,
            top.token_ids@[j],
            (#[trigger] entry.top_logprobs@[j]).token@,
        ) by {
            assert(decodes_to(tokenizer, top.token_ids@[j], top_texts[i]@[j]@));
        }
    }
}

proof fn lemma_decimal_length(n: nat)
    ensures
        decimal(n).len() > 0,
        n >= 10 ==> decimal(n).len() > 1,
        forall|i: int| 0 <= i < decimal(n).len() ==> '0' <= #[trigger] decimal(n)[i] <= '9',
    decreases n,
{
    if n >= 10 {
        lemma_decimal_length(n / 10);
    }
}

proof fn lemma_decimal_injective(a: nat, b: nat)
    requires
        decimal(a) == decimal(b),
    ensures
        a == b,
    decreases a,
{
    lemma_decimal_length(a);
    lemma_decimal_length(b);
    if a >= 10 && b >= 10 {
        assert(decimal(a).drop_last() =~= decimal(a / 10));
        assert(decimal(b).drop_last() =~= decimal(b / 10));
        lemma_decimal_injective(a / 10, b / 10);
        assert(decimal(a).last() == digit(a % 10));
        assert(decimal(b).last() == digit(b % 10));
    } else if a < 10 && b < 10 {
        assert(decimal(a)[0] == digit(a));
        assert(decimal(b)[0] == digit(b));
    }
}

/// Tokens that cannot be decoded can still be told apart: no two share a placeholder.
pub proof fn placeholders_are_distinct(a: i32, b: i32)
    requires
        placeholder(a) == placeholder(b),
    ensures
        a == b,
{
    let left = "<token_"@;
    let right = ">"@;
    let sa = signed_decimal(a as int);
    let sb = signed_decimal(b as int);
    assert(sa =~= placeholder(a).subrange(left.len() as int, placeholder(a).len() - right.len()));
    assert(sb =~= placeholder(b).subrange(left.len() as int, placeholder(b).len() - right.len()));
    let na: nat = if a < 0 { (-a) as nat } else { a as nat };
    let nb: nat = if b < 0 { (-b) as nat } else { b as nat };
    lemma_decimal_length(na);
    lemma_decimal_length(nb);
    reveal_strlit("-");
    if a < 0 {
        assert(sa[0] == '-');
        assert(sa.skip(1) =~= decimal(na));
    } else {
        assert(sa[0] == decimal(na)[0]);
    }
    if b < 0 {
        assert(sb[0] == '-');
        assert(sb.skip(1) =~= decimal(nb));
    } else {
        assert(sb[0] == decimal(nb)[0]);
    }
    lemma_decimal_injective(na, nb);
}

/// An identifier of a completion begins with `chatcmpl-` and has one length.
pub proof fn completion_ids_have_one_form(id: Seq<char>)
    requires
        is_completion_id(id),
    ensures
        id.len() == 45,
        id.take(9) == "chatcmpl-"@,
{
    reveal_strlit("chatcmpl-");
    let uuid = choose|uuid: Seq<char>|
        #[trigger] is_drawn(uuid) && is_random_uuid_text(uuid) && id == "chatcmpl-"@ + uuid;
    assert(id.take(9) =~= "chatcmpl-"@);
}

} // verus!
