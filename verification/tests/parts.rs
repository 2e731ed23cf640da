use pd_router::bits::{to_low_signed_32, to_low_unsigned_32, to_unsigned_32};
use pd_router::chat::{duplicate, rendezvous, route_messages, route_pair, route_tokens, RoutedPair};
use pd_router::choice::{collect_text, part_reasoning, stop_value, ChoiceDraft};
use pd_router::completion::{generation_started, usage_of};
use pd_router::ids::{completion_id_of, new_completion_id};
use pd_router::json::{arguments_or_empty, arguments_text};
use pd_router::logprobs::{content_of, token_text};
use pd_router::proto::{
    DisaggregatedParams, GenerateComplete, GenerateRequest, MatchedStop, OutputLogProbs,
    TopLogProbs,
};
use pd_router::protocol::{ChatCompletionRequest, ToolChoice, ToolChoiceValue, Usage};
use pd_router::reply::Reply;
use pd_router::selection::{
    can_play, keep_playing, select_picked, PairSelection, Role, SelectionError,
};
use pd_router::services::{
    ProcessedMessages, ReasoningFailure, ReasoningResult, SequenceDecoderOutput, Worker, WorkerType,
};
use pd_router::text::{joined, push_decimal, push_signed_decimal};
use pd_router::tools::{
    format_detected, function_call, tool_mode, tools_parsed, DetectionStep, ParsedToolCall,
    ToolFindings, ToolMode,
};
use std::sync::Arc;

#[test]
fn decimals() {
    for n in [0u64, 7, 10, 99, 100, 1234567890, u64::MAX] {
        let mut text = "n=".to_string();
        push_decimal(&mut text, n);
        assert_eq!(text, format!("n={}", n));
    }
    for n in [0i32, -1, -10, 42, i32::MIN, i32::MAX] {
        let mut text = String::new();
        push_signed_decimal(&mut text, n);
        assert_eq!(text, n.to_string());
    }
    assert_eq!(joined("a", "b\u{e9}"), "ab\u{e9}");
}

#[test]
fn low_bits_are_kept() {
    for x in [0i32, 1, -1, i32::MIN, i32::MAX] {
        assert_eq!(to_unsigned_32(x), x as u32);
    }
    for x in [0u64, 5, 0x7fff_ffff, 0x8000_0000, 0xffff_ffff, 0x1_0000_0003, u64::MAX] {
        assert_eq!(to_low_signed_32(x), x as i32);
    }
    for x in [0usize, 9, 0xffff_ffff] {
        assert_eq!(to_low_unsigned_32(x), x as u32);
    }
}

#[test]
fn completion_ids_are_new_and_well_formed() {
    let id = new_completion_id();
    assert_ne!(id, new_completion_id());
    assert_eq!(id.len(), 45);
    let uuid = id.strip_prefix("chatcmpl-").unwrap();
    let parsed = uuid::Uuid::parse_str(uuid).unwrap();
    assert_eq!(parsed.get_version_num(), 4);
    assert_eq!(parsed.get_variant(), uuid::Variant::RFC4122);
    assert_eq!(parsed.to_string(), uuid);
    for (i, c) in uuid.chars().enumerate() {
        if [8, 13, 18, 23].contains(&i) {
            assert_eq!(c, '-');
        } else {
            assert!(c.is_ascii_digit() || ('a'..='f').contains(&c));
        }
    }
    assert_eq!(completion_id_of("u"), "chatcmpl-u");
}

#[test]
fn arguments_are_json_text() {
    let value: serde_json::Value = serde_json::from_str("{ \"a\" : [1, \"x\\n\"] }").unwrap();
    assert_eq!(arguments_text(&value), "{\"a\":[1,\"x\\n\"]}");
    assert_eq!(arguments_text(&serde_json::Value::from("say \"hi\"")), "\"say \\\"hi\\\"\"");
    assert_eq!(arguments_or_empty(None), "{}");
    assert_eq!(arguments_or_empty(Some("[]".to_string())), "[]");
}

#[test]
fn stops_are_json_values() {
    assert_eq!(stop_value(&None), None);
    let token = stop_value(&Some(MatchedStop::MatchedTokenId(u32::MAX))).unwrap();
    assert_eq!(token.as_u64(), Some(4294967295));
    assert_eq!(token.as_str(), None);
    let text = stop_value(&Some(MatchedStop::MatchedStopStr("12".to_string()))).unwrap();
    assert_eq!(text.as_str(), Some("12"));
    assert_eq!(text.as_u64(), None);
}

fn text(text: &str) -> SequenceDecoderOutput {
    SequenceDecoderOutput::Text(text.to_string())
}

fn stopped(text: &str) -> SequenceDecoderOutput {
    SequenceDecoderOutput::StoppedWithText(text.to_string())
}

#[test]
fn emitted_text() {
    let held = SequenceDecoderOutput::Held;
    let stop = SequenceDecoderOutput::Stopped;
    assert_eq!(collect_text(&vec![], &held), "");
    assert_eq!(collect_text(&vec![text("a"), text("b")], &text("c")), "abc");
    assert_eq!(collect_text(&vec![text("a"), stop, text("b")], &held), "a");
    assert_eq!(collect_text(&vec![text("a"), stopped("b"), text("c")], &text("d")), "abd");
    assert_eq!(
        collect_text(&vec![SequenceDecoderOutput::Held, text("a")], &stopped("b")),
        "a"
    );
}

#[test]
fn held_tokens_change_nothing() {
    let plain = vec![text("a"), text("b")];
    let held = vec![
        SequenceDecoderOutput::Held,
        text("a"),
        SequenceDecoderOutput::Held,
        text("b"),
    ];
    let end = SequenceDecoderOutput::Held;
    assert_eq!(collect_text(&plain, &end), collect_text(&held, &end));
}

#[test]
fn reasoning_outcomes() {
    assert_eq!(
        part_reasoning(Ok(ReasoningResult {
            normal_text: "n".to_string(),
            reasoning_text: "r".to_string(),
        })),
        Ok(ChoiceDraft { text: "n".to_string(), reasoning_text: Some("r".to_string()) })
    );
    assert_eq!(
        part_reasoning(Ok(ReasoningResult {
            normal_text: "".to_string(),
            reasoning_text: "".to_string(),
        })),
        Ok(ChoiceDraft { text: "".to_string(), reasoning_text: None })
    );
    assert_eq!(
        part_reasoning(Err(ReasoningFailure::Lock("l".to_string()))),
        Err("Failed to acquire reasoning parser lock: l".to_string())
    );
    assert_eq!(
        part_reasoning(Err(ReasoningFailure::Parse("p".to_string()))),
        Err("Reasoning parsing error: p".to_string())
    );
}

fn mode(tool_choice: Option<ToolChoice>, has_tools: bool) -> ToolMode {
    let request: ChatCompletionRequest<u8, ()> = ChatCompletionRequest {
        model: String::new(),
        stream: false,
        logprobs: false,
        separate_reasoning: false,
        tools: if has_tools { Some(vec![1]) } else { None },
        tool_choice,
        stop: None,
        stop_token_ids: None,
        skip_special_tokens: false,
        no_stop_trim: false,
        rest: (),
    };
    tool_mode(&request)
}

fn allowed(mode: &str) -> Option<ToolChoice> {
    Some(ToolChoice::AllowedTools { mode: mode.to_string(), names: vec![] })
}

#[test]
fn tool_modes() {
    let function = || Some(ToolChoice::Function { name: "f".to_string() });
    assert_eq!(mode(None, true), ToolMode::ModelParser);
    assert_eq!(mode(None, false), ToolMode::Skip);
    assert_eq!(
        mode(Some(ToolChoice::Value(ToolChoiceValue::Auto)), true),
        ToolMode::ModelParser
    );
    assert_eq!(
        mode(Some(ToolChoice::Value(ToolChoiceValue::Required)), true),
        ToolMode::JsonSchema
    );
    assert_eq!(
        mode(Some(ToolChoice::Value(ToolChoiceValue::NoTools)), true),
        ToolMode::Skip
    );
    assert_eq!(mode(function(), true), ToolMode::JsonSchema);
    assert_eq!(mode(function(), false), ToolMode::Skip);
    assert_eq!(mode(allowed("required"), true), ToolMode::JsonSchema);
    assert_eq!(mode(allowed("auto"), true), ToolMode::ModelParser);
    assert_eq!(mode(allowed("Required"), true), ToolMode::ModelParser);
}

#[test]
fn unknown_formats_keep_their_text() {
    assert_eq!(
        format_detected("t".to_string(), false),
        DetectionStep::Found(ToolFindings { tool_calls: None, text: "t".to_string() })
    );
    assert_eq!(format_detected("t".to_string(), true), DetectionStep::Parse("t".to_string()));
}

fn parsed(id: &str, arguments: &str) -> ParsedToolCall {
    ParsedToolCall {
        id: id.to_string(),
        name: format!("f_{}", id),
        arguments: serde_json::from_str(arguments).unwrap(),
    }
}

#[test]
fn parsed_calls_are_shown_in_order() {
    let findings = tools_parsed(
        "raw".to_string(),
        Ok(("rest".to_string(), vec![parsed("1", "{\"x\": 1}"), parsed("2", "[ ]")])),
    );
    assert_eq!(findings.text, "rest");
    assert_eq!(
        findings.tool_calls,
        Some(vec![
            function_call("1".to_string(), "f_1".to_string(), "{\"x\":1}".to_string()),
            function_call("2".to_string(), "f_2".to_string(), "[]".to_string()),
        ])
    );
    let call = function_call("i".to_string(), "n".to_string(), "{}".to_string());
    assert_eq!(call.tool_type, "function");
    assert_eq!(call.function.arguments, Some("{}".to_string()));
}

#[test]
fn no_calls_are_no_list() {
    assert_eq!(
        tools_parsed("raw".to_string(), Ok(("rest".to_string(), vec![]))),
        ToolFindings { tool_calls: None, text: "rest".to_string() }
    );
    assert_eq!(
        tools_parsed("raw".to_string(), Err("bad".to_string())),
        ToolFindings { tool_calls: None, text: "raw".to_string() }
    );
}

#[test]
fn placeholders() {
    assert_eq!(token_text(12, Err("e".to_string())), "<token_12>");
    assert_eq!(token_text(-12, Err("e".to_string())), "<token_-12>");
    assert_eq!(token_text(12, Ok("x".to_string())), "x");
}

#[test]
fn content_of_given_texts() {
    let logprobs: OutputLogProbs<f32> = OutputLogProbs {
        token_logprobs: vec![-1.0, -2.0],
        token_ids: vec![1, 2],
        top_logprobs: vec![TopLogProbs { values: vec![-3.0, -4.0], token_ids: vec![5, 6] }],
    };
    let texts = vec!["a".to_string()];
    let entries = content_of(&logprobs, &texts, &vec![vec!["b".to_string()]]).unwrap();
    assert_eq!(entries.len(), 2);
    assert_eq!(entries[0].token, "a");
    assert_eq!(entries[0].top_logprobs.len(), 1);
    assert_eq!(entries[0].top_logprobs[0].token, "b");
    assert_eq!(entries[0].top_logprobs[0].logprob, -3.0);
    assert_eq!(entries[1].token, "");
    assert_eq!(entries[1].top_logprobs.len(), 0);
}

fn worker(worker_type: WorkerType, bootstrap_port: Option<u16>) -> Arc<Worker> {
    Arc::new(Worker {
        url: "u".to_string(),
        worker_type,
        bootstrap_host: "h".to_string(),
        bootstrap_port,
    })
}

#[test]
fn roles() {
    let prefill = worker(WorkerType::Prefill { bootstrap_port: None }, Some(1));
    let decode = worker(WorkerType::Decode, None);
    let regular = worker(WorkerType::Regular, None);
    assert!(can_play(&prefill, Role::Prefill));
    assert!(!can_play(&prefill, Role::Decode));
    assert!(can_play(&decode, Role::Decode));
    assert!(!can_play(&regular, Role::Prefill) && !can_play(&regular, Role::Decode));
    let all = vec![decode.clone(), prefill.clone(), regular, prefill.clone()];
    assert_eq!(keep_playing(&all, Role::Prefill), vec![prefill.clone(), prefill.clone()]);
    assert_eq!(keep_playing(&all, Role::Decode), vec![decode.clone()]);
    let both = select_picked(&all, &vec![decode.clone()], Some(1), Some(0));
    assert_eq!(both, PairSelection::Pair { prefill: prefill.clone(), decode: decode.clone() });
    assert_eq!(
        select_picked(&all, &vec![], Some(1), Some(0)),
        PairSelection::Failed(SelectionError::NoDecodeWorkers)
    );
    assert_eq!(select_picked(&all, &all, Some(4), Some(0)), PairSelection::OutOfRange);
}

#[test]
fn rooms() {
    let with_port = worker(WorkerType::Decode, Some(65535));
    assert_eq!(
        rendezvous(&with_port, 7),
        DisaggregatedParams {
            bootstrap_host: "h".to_string(),
            bootstrap_port: 65535,
            bootstrap_room: 7
        }
    );
    let without = worker(WorkerType::Decode, None);
    assert_eq!(rendezvous(&without, u64::MAX).bootstrap_port, 8998);
    assert_eq!(rendezvous(&without, u64::MAX).bootstrap_room, -1);
    assert_eq!(rendezvous(&without, 0x1_0000_0007), rendezvous(&without, 7));
}

#[test]
fn copies_are_equal() {
    let request = GenerateRequest {
        payload: vec![1, 2],
        disaggregated_params: Some(rendezvous(&worker(WorkerType::Decode, None), 1)),
    };
    let (a, b) = duplicate(request);
    assert_eq!(a, b);
    assert_eq!(a.payload, vec![1, 2]);
    let (a, _) = duplicate(GenerateRequest { payload: 0u8, disaggregated_params: None });
    assert_eq!(a.disaggregated_params, None);
}

#[test]
fn steps_before_dispatch() {
    let messages: Result<ProcessedMessages<u8>, Reply> =
        route_messages(Err("bad role".to_string()));
    assert_eq!(messages, Err(Reply::Text { status: 400, text: "bad role".to_string() }));
    assert_eq!(route_tokens(Ok(vec![1])), Ok(vec![1]));
    assert_eq!(
        route_tokens(Err("e".to_string())),
        Err(Reply::Text { status: 500, text: "Tokenization failed: e".to_string() })
    );
    match route_pair(PairSelection::Failed(SelectionError::DecodeNotSelected)) {
        RoutedPair::Replied(reply) => assert_eq!(
            reply,
            Reply::Text { status: 503, text: "Failed to select decode worker".to_string() }
        ),
        _ => panic!("no reply"),
    }
    assert!(matches!(route_pair(PairSelection::OutOfRange), RoutedPair::OutOfRange));
}

#[test]
fn a_failed_prefill_worker_is_answered_first() {
    let failed = |name: &str| -> Result<u8, String> { Err(name.to_string()) };
    assert_eq!(generation_started(Ok::<u8, String>(1), Ok::<u8, String>(2)), Ok((1, 2)));
    assert_eq!(
        generation_started(failed("p"), failed("d")),
        Err(Reply::InternalError { message: "Prefill worker failed to start: p".to_string() })
    );
    assert_eq!(
        generation_started(Ok::<u8, String>(1), failed("d")),
        Err(Reply::InternalError { message: "Decode worker failed to start: d".to_string() })
    );
}

fn counts(prompt_tokens: i32, completion_tokens: i32) -> GenerateComplete<f32, ()> {
    GenerateComplete {
        output_ids: vec![],
        finish_reason: "length".to_string(),
        prompt_tokens,
        completion_tokens,
        matched_stop: None,
        output_logprobs: None,
        input_logprobs: None,
    }
}

#[test]
fn usage_sums_up() {
    let left = vec![counts(1, 2), counts(3, 4)];
    let right = vec![counts(10, 20)];
    let both = vec![counts(1, 2), counts(3, 4), counts(10, 20)];
    let total = |responses| usage_of(responses).unwrap().total_tokens;
    assert_eq!(total(&left) + total(&right), total(&both));
    assert_eq!(
        usage_of(&both),
        Some(Usage {
            prompt_tokens: 14,
            completion_tokens: 26,
            total_tokens: 40,
            completion_tokens_details: None,
        })
    );
    let max = vec![counts(i32::MAX, i32::MAX), counts(1, 0)];
    assert_eq!(usage_of(&max).unwrap().total_tokens, u32::MAX);
    assert_eq!(usage_of(&vec![counts(i32::MAX, i32::MAX), counts(1, 1)]), None);
    assert_eq!(usage_of(&vec![counts(-1, 0), counts(1, 0)]), None);
    assert_eq!(usage_of(&vec![counts(-1, 0)]).unwrap().prompt_tokens, u32::MAX);
}
