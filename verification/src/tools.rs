//! Tool calls: whether a text is searched for them, and what an answer shows of them.
use crate::json::{arguments_from, arguments_text, json_text};
use crate::protocol::{
    ChatCompletionRequest, FunctionCallResponse, ToolCall, ToolChoice, ToolChoiceValue,
};
use vstd::prelude::*;

verus! {

/// How the text of a choice is searched for tool calls.
#[derive(Clone, Copy, Debug, PartialEq, Eq, Structural)]
pub enum ToolMode {
    /// It is not.
    Skip,
    /// As JSON: a schema constrained the text.
    JsonSchema,
    /// By the tool parser of the model.
    ModelParser,
}

/// Whether a tool choice has the output constrained by a JSON schema: a named function, or tools
/// that are required.
pub open spec fn uses_json_schema(tool_choice: Option<ToolChoice>) -> bool {
    match tool_choice {
        Some(ToolChoice::Function { .. }) => true,
        Some(ToolChoice::Value(ToolChoiceValue::Required)) => true,
        Some(ToolChoice::AllowedTools { mode, .. }) => mode@ == "required"@,
        _ => false,
    }
}

/// How a text is searched: not at all without tools or when tools are ruled out.
pub open spec fn tool_mode_of(tool_choice: Option<ToolChoice>, has_tools: bool) -> ToolMode {
    if !has_tools || tool_choice == Some(ToolChoice::Value(ToolChoiceValue::NoTools)) {
        ToolMode::Skip
    } else if uses_json_schema(tool_choice) {
        ToolMode::JsonSchema
    } else {
        ToolMode::ModelParser
    }
}

/// How the text of a choice is searched for tool calls.
pub fn tool_mode<T, X>(request: &ChatCompletionRequest<T, X>) -> (mode: ToolMode)
    ensures
        mode == tool_mode_of(request.tool_choice, request.tools is Some),
{
    if request.tools.is_none() {
        return ToolMode::Skip;
    }
    match &request.tool_choice {
        None => ToolMode::ModelParser,
        Some(ToolChoice::Value(ToolChoiceValue::Auto)) => ToolMode::ModelParser,
        Some(ToolChoice::Value(ToolChoiceValue::NoTools)) => ToolMode::Skip,
        Some(ToolChoice::Value(ToolChoiceValue::Required)) => ToolMode::JsonSchema,
        Some(ToolChoice::Function { .. }) => ToolMode::JsonSchema,
        Some(ToolChoice::AllowedTools { mode, .. }) => {
            if *mode == "required".to_string() {
                ToolMode::JsonSchema
            } else {
                ToolMode::ModelParser
            }
        },
    }
}

/// A call that a tool parser found.
#[derive(Debug, PartialEq)]
pub struct ParsedToolCall {
    pub id: String,
    pub name: String,
    pub arguments: serde_json::Value,
}

/// `call` is the function call with this identifier, name and arguments.
pub open spec fn is_function_call(
    call: ToolCall,
    id: Seq<char>,
    name: Seq<char>,
    arguments: Seq<char>,
) -> bool {
    &&& call.id@ == id
    &&& call.tool_type@ == "function"@
    &&& call.function.name@ == name
    &&& call.function.arguments matches Some(text) && text@ == arguments
}

/// `call` shows a call that a parser found, its arguments as JSON text.
pub open spec fn shows_call(call: ToolCall, parsed: ParsedToolCall) -> bool {
    is_function_call(call, parsed.id@, parsed.name@, arguments_from(json_text(parsed.arguments)))
}

/// The function call with this identifier, name and arguments.
pub fn function_call(id: String, name: String, arguments: String) -> (call: ToolCall)
    ensures
        is_function_call(call, id@, name@, arguments@),
{
    ToolCall {
        id,
        tool_type: "function".to_string(),
        function: FunctionCallResponse { name, arguments: Some(arguments) },
    }
}

/// What a text is found to hold.
#[derive(Debug, PartialEq, Eq)]
pub struct ToolFindings {
    /// The calls in it; never an empty list when the parser of a model looked.
    pub tool_calls: Option<Vec<ToolCall>>,
    /// The text without them.
    pub text: String,
}

/// What comes after the parser of a model was asked whether it knows the format of a text.
#[derive(Debug, PartialEq, Eq)]
pub enum DetectionStep {
    /// The search is over.
    Found(ToolFindings),
    /// The parser is to parse this text.
    Parse(String),
}

/// Goes on after format detection: a text of a format that the parser does not know holds no tool
/// calls and is kept as it is; another is parsed.
pub fn format_detected(text: String, can_parse: bool) -> (step: DetectionStep)
    ensures
        can_parse ==> step == DetectionStep::Parse(text),
        !can_parse ==> step == DetectionStep::Found(ToolFindings { tool_calls: None, text }),
{
    if can_parse {
        DetectionStep::Parse(text)
    } else {
        DetectionStep::Found(ToolFindings { tool_calls: None, text })
    }
}

/// The calls of an answer show those that a parser found, in their order.
pub open spec fn shows_calls(calls: Seq<ToolCall>, parsed: Seq<ParsedToolCall>) -> bool {
    &&& calls.len() == parsed.len()
    &&& forall|i: int| 0 <= i < parsed.len() ==> shows_call(#[trigger] calls[i], parsed[i])
}

/// What a text holds, given what parsing it gave: a failure leaves the text as it is, without
/// calls; a list of no calls is no list.
pub open spec fn are_findings(
    findings: ToolFindings,
    text: Seq<char>,
    result: Result<(String, Vec<ParsedToolCall>), String>,
) -> bool {
    match result {
        Ok((normal_text, parsed)) => {
            &&& findings.text@ == normal_text@
            &&& match findings.tool_calls {
                Some(calls) => parsed.len() > 0 && shows_calls(calls@, parsed@),
                None => parsed.len() == 0,
            }
        },
        Err(_) => findings.text@ == text && findings.tool_calls is None,
    }
}

/// What a text holds, given whether the parser of a model knows its format and, if so, what parsing
/// it gave.
pub open spec fn are_found(
    findings: ToolFindings,
    text: Seq<char>,
    can_parse: bool,
    result: Result<(String, Vec<ParsedToolCall>), String>,
) -> bool {
    if can_parse {
        are_findings(findings, text, result)
    } else {
        findings.text@ == text && findings.tool_calls is None
    }
}

/// Goes on after the parser of a model has parsed `text`.
pub fn tools_parsed(
    text: String,
    result: Result<(String, Vec<ParsedToolCall>), String>,
) -> (findings: ToolFindings)
    ensures
        are_findings(findings, text@, result),
{
    match result {
        Ok((normal_text, parsed)) => {
            if parsed.len() == 0 {
                return ToolFindings { tool_calls: None, text: normal_text };
            }
            let mut calls: Vec<ToolCall> = Vec::new();
            let mut i: usize = 0;
            while i < parsed.len()
                invariant
                    i <= parsed.len(),
                    calls.len() == i,
                    forall|k: int| 0 <= k < i ==> shows_call(#[trigger] calls@[k], parsed@[k]),
                decreases parsed.len() - i,
            {
                let arguments: String = arguments_text(&parsed[i].arguments);
                calls.push(function_call(parsed[i].id.clone(), parsed[i].name.clone(), arguments));
                i += 1;
            }
            ToolFindings { tool_calls: Some(calls), text: normal_text }
        },
        Err(_) => ToolFindings { tool_calls: None, text },
    }
}

} // verus!
