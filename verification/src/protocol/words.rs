//! The words of the wire protocols, told apart.

use vstd::prelude::*;

use crate::json;

verus! {

/// By what the words of the protocols differ: their length and four of their letters.
pub open spec fn mark(s: Seq<char>) -> (nat, char, char, char, char) {
    (s.len(), s[0], s[1], s[s.len() as int / 2], s[s.len() - 1])
}

/// The marks of the words of the protocols, and of the member name that is reserved. No
/// two of them are the same.
pub proof fn words_differ()
    ensures
        mark("id"@) == (2nat, 'i', 'd', 'd', 'd'),
        mark("type"@) == (4nat, 't', 'y', 'p', 'e'),
        mark("function"@) == (8nat, 'f', 'u', 't', 'n'),
        mark("name"@) == (4nat, 'n', 'a', 'm', 'e'),
        mark("arguments"@) == (9nat, 'a', 'r', 'm', 's'),
        mark("role"@) == (4nat, 'r', 'o', 'l', 'e'),
        mark("content"@) == (7nat, 'c', 'o', 't', 't'),
        mark("tool_calls"@) == (10nat, 't', 'o', 'c', 's'),
        mark("tool_call_id"@) == (12nat, 't', 'o', 'a', 'd'),
        mark("is_error"@) == (8nat, 'i', 's', 'r', 'r'),
        mark("model"@) == (5nat, 'm', 'o', 'd', 'l'),
        mark("messages"@) == (8nat, 'm', 'e', 'a', 's'),
        mark("max_tokens"@) == (10nat, 'm', 'a', 'o', 's'),
        mark("temperature"@) == (11nat, 't', 'e', 'r', 'e'),
        mark("api_key"@) == (7nat, 'a', 'p', '_', 'y'),
        mark("top_p"@) == (5nat, 't', 'o', 'p', 'p'),
        mark("stop"@) == (4nat, 's', 't', 'o', 'p'),
        mark("tools"@) == (5nat, 't', 'o', 'o', 's'),
        mark("tool_choice"@) == (11nat, 't', 'o', 'c', 'e'),
        mark("parallel_tool_calls"@) == (19nat, 'p', 'a', 't', 's'),
        mark("metadata"@) == (8nat, 'm', 'e', 'd', 'a'),
        mark("reasoning"@) == (9nat, 'r', 'e', 'o', 'g'),
        mark("stream"@) == (6nat, 's', 't', 'e', 'm'),
        mark("effort"@) == (6nat, 'e', 'f', 'o', 't'),
        mark("description"@) == (11nat, 'd', 'e', 'i', 'n'),
        mark("parameters"@) == (10nat, 'p', 'a', 'e', 's'),
        mark("index"@) == (5nat, 'i', 'n', 'd', 'x'),
        mark("message"@) == (7nat, 'm', 'e', 's', 'e'),
        mark("finish_reason"@) == (13nat, 'f', 'i', '_', 'n'),
        mark("object"@) == (6nat, 'o', 'b', 'e', 't'),
        mark("created"@) == (7nat, 'c', 'r', 'a', 'd'),
        mark("choices"@) == (7nat, 'c', 'h', 'i', 's'),
        mark("usage"@) == (5nat, 'u', 's', 'a', 'e'),
        mark("prompt_tokens"@) == (13nat, 'p', 'r', '_', 's'),
        mark("completion_tokens"@) == (17nat, 'c', 'o', 'o', 's'),
        mark("total_tokens"@) == (12nat, 't', 'o', 't', 's'),
        mark("text"@) == (4nat, 't', 'e', 'x', 't'),
        mark("thinking"@) == (8nat, 't', 'h', 'k', 'g'),
        mark("input"@) == (5nat, 'i', 'n', 'p', 't'),
        mark("stop_reason"@) == (11nat, 's', 't', 'r', 'n'),
        mark("tool_use_id"@) == (11nat, 't', 'o', 'u', 'd'),
        mark("system"@) == (6nat, 's', 'y', 't', 'm'),
        mark("stop_sequences"@) == (14nat, 's', 't', 'q', 's'),
        mark("output_config"@) == (13nat, 'o', 'u', '_', 'g'),
        mark("input_schema"@) == (12nat, 'i', 'n', 's', 'a'),
        mark("input_tokens"@) == (12nat, 'i', 'n', 't', 's'),
        mark("output_tokens"@) == (13nat, 'o', 'u', '_', 's'),
        mark("budget_tokens"@) == (13nat, 'b', 'u', '_', 's'),
        mark("call_id"@) == (7nat, 'c', 'a', 'l', 'd'),
        mark("status"@) == (6nat, 's', 't', 't', 's'),
        mark("output"@) == (6nat, 'o', 'u', 'p', 't'),
        mark("instructions"@) == (12nat, 'i', 'n', 'c', 's'),
        mark("summary"@) == (7nat, 's', 'u', 'm', 'y'),
        mark("created_at"@) == (10nat, 'c', 'r', 'e', 't'),
        mark("item"@) == (4nat, 'i', 't', 'e', 'm'),
        mark("delta"@) == (5nat, 'd', 'e', 'l', 'a'),
        mark("item_id"@) == (7nat, 'i', 't', 'm', 'd'),
        mark("output_index"@) == (12nat, 'o', 'u', '_', 'x'),
        mark("response"@) == (8nat, 'r', 'e', 'o', 'e'),
        mark("candidates"@) == (10nat, 'c', 'a', 'd', 's'),
        mark("parts"@) == (5nat, 'p', 'a', 'r', 's'),
        mark("functionCall"@) == (12nat, 'f', 'u', 'o', 'l'),
        mark("functionResponse"@) == (16nat, 'f', 'u', 'R', 'e'),
        mark("args"@) == (4nat, 'a', 'r', 'g', 's'),
        mark("thought"@) == (7nat, 't', 'h', 'u', 't'),
        mark("thoughtSignature"@) == (16nat, 't', 'h', 'i', 'e'),
        mark("contents"@) == (8nat, 'c', 'o', 'e', 's'),
        mark("generationConfig"@) == (16nat, 'g', 'e', 'o', 'g'),
        mark("systemInstruction"@) == (17nat, 's', 'y', 's', 'n'),
        mark("toolConfig"@) == (10nat, 't', 'o', 'o', 'g'),
        mark("functionDeclarations"@) == (20nat, 'f', 'u', 'c', 's'),
        mark("maxOutputTokens"@) == (15nat, 'm', 'a', 'u', 's'),
        mark("topP"@) == (4nat, 't', 'o', 'p', 'P'),
        mark("stopSequences"@) == (13nat, 's', 't', 'q', 's'),
        mark("thinkingConfig"@) == (14nat, 't', 'h', 'g', 'g'),
        mark("includeThoughts"@) == (15nat, 'i', 'n', 'T', 's'),
        mark("thinkingLevel"@) == (13nat, 't', 'h', 'n', 'l'),
        mark("thinkingBudget"@) == (14nat, 't', 'h', 'g', 't'),
        mark("finishReason"@) == (12nat, 'f', 'i', 'R', 'n'),
        mark("usageMetadata"@) == (13nat, 'u', 's', 'e', 'a'),
        mark("promptTokenCount"@) == (16nat, 'p', 'r', 'k', 't'),
        mark("candidatesTokenCount"@) == (20nat, 'c', 'a', 'T', 't'),
        mark("totalTokenCount"@) == (15nat, 't', 'o', 'k', 't'),
        mark("content_block"@) == (13nat, 'c', 'o', 't', 'k'),
        mark("partial_json"@) == (12nat, 'p', 'a', 'l', 'n'),
        mark("output_tokens_details"@) == (21nat, 'o', 'u', 'e', 's'),
        mark("reasoning_tokens"@) == (16nat, 'r', 'e', 'g', 's'),
        mark("text_delta"@) == (10nat, 't', 'e', 'd', 'a'),
        mark("thinking_delta"@) == (14nat, 't', 'h', 'g', 'a'),
        mark("input_json_delta"@) == (16nat, 'i', 'n', 'o', 'a'),
        mark("content_block_delta"@) == (19nat, 'c', 'o', 'l', 'a'),
        mark("content_block_start"@) == (19nat, 'c', 'o', 'l', 't'),
        mark("message_delta"@) == (13nat, 'm', 'e', 'e', 'a'),
        mark("tool_use"@) == (8nat, 't', 'o', '_', 'e'),
        mark("response.output_text.delta"@) == (26nat, 'r', 'e', 'u', 'a'),
        mark("response.reasoning_text.delta"@) == (29nat, 'r', 'e', 'n', 'a'),
        mark("response.reasoning.delta"@) == (24nat, 'r', 'e', 's', 'a'),
        mark("response.reasoning_summary_text.delta"@) == (37nat, 'r', 'e', '_', 'a'),
        mark("response.output_item.added"@) == (26nat, 'r', 'e', 'u', 'd'),
        mark("response.function_call_arguments.delta"@) == (38nat, 'r', 'e', 'a', 'a'),
        mark("response.function_call_arguments.done"@) == (37nat, 'r', 'e', 'c', 'e'),
        mark("response.output_item.done"@) == (25nat, 'r', 'e', 'p', 'e'),
        mark("response.completed"@) == (18nat, 'r', 'e', 'c', 'd'),
        mark("function_call"@) == (13nat, 'f', 'u', 'o', 'l'),
        mark("function_call_output"@) == (20nat, 'f', 'u', 'a', 't'),
        mark("tool_result"@) == (11nat, 't', 'o', 'r', 't'),
        mark("user"@) == (4nat, 'u', 's', 'e', 'r'),
        mark("assistant"@) == (9nat, 'a', 's', 's', 't'),
        mark("tool"@) == (4nat, 't', 'o', 'o', 'l'),
        mark("none"@) == (4nat, 'n', 'o', 'n', 'e'),
        mark("disabled"@) == (8nat, 'd', 'i', 'b', 'd'),
        mark("low"@) == (3nat, 'l', 'o', 'o', 'w'),
        mark("medium"@) == (6nat, 'm', 'e', 'i', 'm'),
        mark("high"@) == (4nat, 'h', 'i', 'g', 'h'),
        mark("xhigh"@) == (5nat, 'x', 'h', 'i', 'h'),
        mark("max"@) == (3nat, 'm', 'a', 'a', 'x'),
        mark("minimal"@) == (7nat, 'm', 'i', 'i', 'l'),
        mark("ultra"@) == (5nat, 'u', 'l', 't', 'a'),
        mark("enabled"@) == (7nat, 'e', 'n', 'b', 'd'),
        mark("adaptive"@) == (8nat, 'a', 'd', 't', 'e'),
        mark("auto"@) == (4nat, 'a', 'u', 't', 'o'),
        mark("LOW"@) == (3nat, 'L', 'O', 'O', 'W'),
        mark("MEDIUM"@) == (6nat, 'M', 'E', 'I', 'M'),
        mark("HIGH"@) == (4nat, 'H', 'I', 'G', 'H'),
        mark(json::reserved_name()) == (30nat, '$', 's', 'i', 'e'),
{
    reveal_strlit("id");
    reveal_strlit("type");
    reveal_strlit("function");
    reveal_strlit("name");
    reveal_strlit("arguments");
    reveal_strlit("role");
    reveal_strlit("content");
    reveal_strlit("tool_calls");
    reveal_strlit("tool_call_id");
    reveal_strlit("is_error");
    reveal_strlit("model");
    reveal_strlit("messages");
    reveal_strlit("max_tokens");
    reveal_strlit("temperature");
    reveal_strlit("api_key");
    reveal_strlit("top_p");
    reveal_strlit("stop");
    reveal_strlit("tools");
    reveal_strlit("tool_choice");
    reveal_strlit("parallel_tool_calls");
    reveal_strlit("metadata");
    reveal_strlit("reasoning");
    reveal_strlit("stream");
    reveal_strlit("effort");
    reveal_strlit("description");
    reveal_strlit("parameters");
    reveal_strlit("index");
    reveal_strlit("message");
    reveal_strlit("finish_reason");
    reveal_strlit("object");
    reveal_strlit("created");
    reveal_strlit("choices");
    reveal_strlit("usage");
    reveal_strlit("prompt_tokens");
    reveal_strlit("completion_tokens");
    reveal_strlit("total_tokens");
    reveal_strlit("text");
    reveal_strlit("thinking");
    reveal_strlit("input");
    reveal_strlit("stop_reason");
    reveal_strlit("tool_use_id");
    reveal_strlit("system");
    reveal_strlit("stop_sequences");
    reveal_strlit("output_config");
    reveal_strlit("input_schema");
    reveal_strlit("input_tokens");
    reveal_strlit("output_tokens");
    reveal_strlit("budget_tokens");
    reveal_strlit("call_id");
    reveal_strlit("status");
    reveal_strlit("output");
    reveal_strlit("instructions");
    reveal_strlit("summary");
    reveal_strlit("created_at");
    reveal_strlit("item");
    reveal_strlit("delta");
    reveal_strlit("item_id");
    reveal_strlit("output_index");
    reveal_strlit("response");
    reveal_strlit("candidates");
    reveal_strlit("parts");
    reveal_strlit("functionCall");
    reveal_strlit("functionResponse");
    reveal_strlit("args");
    reveal_strlit("thought");
    reveal_strlit("thoughtSignature");
    reveal_strlit("contents");
    reveal_strlit("generationConfig");
    reveal_strlit("systemInstruction");
    reveal_strlit("toolConfig");
    reveal_strlit("functionDeclarations");
    reveal_strlit("maxOutputTokens");
    reveal_strlit("topP");
    reveal_strlit("stopSequences");
    reveal_strlit("thinkingConfig");
    reveal_strlit("includeThoughts");
    reveal_strlit("thinkingLevel");
    reveal_strlit("thinkingBudget");
    reveal_strlit("finishReason");
    reveal_strlit("usageMetadata");
    reveal_strlit("promptTokenCount");
    reveal_strlit("candidatesTokenCount");
    reveal_strlit("totalTokenCount");
    reveal_strlit("content_block");
    reveal_strlit("partial_json");
    reveal_strlit("output_tokens_details");
    reveal_strlit("reasoning_tokens");
    reveal_strlit("text_delta");
    reveal_strlit("thinking_delta");
    reveal_strlit("input_json_delta");
    reveal_strlit("content_block_delta");
    reveal_strlit("content_block_start");
    reveal_strlit("message_delta");
    reveal_strlit("tool_use");
    reveal_strlit("response.output_text.delta");
    reveal_strlit("response.reasoning_text.delta");
    reveal_strlit("response.reasoning.delta");
    reveal_strlit("response.reasoning_summary_text.delta");
    reveal_strlit("response.output_item.added");
    reveal_strlit("response.function_call_arguments.delta");
    reveal_strlit("response.function_call_arguments.done");
    reveal_strlit("response.output_item.done");
    reveal_strlit("response.completed");
    reveal_strlit("function_call");
    reveal_strlit("function_call_output");
    reveal_strlit("tool_result");
    reveal_strlit("user");
    reveal_strlit("assistant");
    reveal_strlit("tool");
    reveal_strlit("none");
    reveal_strlit("disabled");
    reveal_strlit("low");
    reveal_strlit("medium");
    reveal_strlit("high");
    reveal_strlit("xhigh");
    reveal_strlit("max");
    reveal_strlit("minimal");
    reveal_strlit("ultra");
    reveal_strlit("enabled");
    reveal_strlit("adaptive");
    reveal_strlit("auto");
    reveal_strlit("LOW");
    reveal_strlit("MEDIUM");
    reveal_strlit("HIGH");
    reveal_strlit("$serde_json::private::RawValue");
}

} // verus!
