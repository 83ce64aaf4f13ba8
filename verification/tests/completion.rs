use rig_dynclient::completion::{
    assistant_content_to_raw, tool_call_to_raw, FinalCompletionResponse, RawStreamingChoice,
    Reasoning, ReasoningContent, StreamedAssistantContent, Text, ToolCall, ToolCallDeltaContent,
    ToolFunction, Usage,
};
use serde_json::Value;

fn usage(n: u64) -> Usage {
    Usage {
        input_tokens: n,
        output_tokens: n + 1,
        total_tokens: 2 * n + 1,
        cached_input_tokens: 0,
        cache_creation_input_tokens: 0,
        tool_use_prompt_tokens: 0,
        reasoning_tokens: 0,
    }
}

fn sample_call() -> ToolCall {
    ToolCall {
        id: "call_1".into(),
        call_id: Some("c1".into()),
        function: ToolFunction { name: "add".into(), arguments: Value::String("{\"x\":1}".into()) },
        signature: Some("sig".into()),
        additional_params: Some(Value::Bool(true)),
    }
}

#[test]
fn token_usage_defaults_to_zero() {
    assert_eq!(FinalCompletionResponse { usage: None }.token_usage(), Usage::new());
    assert_eq!(FinalCompletionResponse { usage: Some(usage(3)) }.token_usage(), usage(3));
    let zero = Usage::new();
    assert_eq!(zero.input_tokens + zero.output_tokens + zero.total_tokens + zero.reasoning_tokens, 0);
}

#[test]
fn tool_call_fields_are_lifted() {
    let raw = tool_call_to_raw("internal".into(), sample_call());
    assert_eq!(raw.id, "call_1");
    assert_eq!(raw.internal_call_id, "internal");
    assert_eq!(raw.call_id.as_deref(), Some("c1"));
    assert_eq!(raw.name, "add");
    assert_eq!(raw.arguments, Value::String("{\"x\":1}".into()));
    assert_eq!(raw.signature.as_deref(), Some("sig"));
    assert_eq!(raw.additional_params, Some(Value::Bool(true)));
}

#[test]
fn reasoning_text_joins_shown_blocks() {
    let r = Reasoning {
        id: None,
        content: vec![
            ReasoningContent::Text { text: "first".into(), signature: Some("s".into()) },
            ReasoningContent::Encrypted("secret".into()),
            ReasoningContent::Summary("second".into()),
            ReasoningContent::Redacted { data: "third".into() },
        ],
    };
    assert_eq!(r.display_text(), "first\nsecond\nthird");
    assert_eq!(Reasoning { id: None, content: vec![] }.display_text(), "");
    let only_hidden = Reasoning { id: None, content: vec![ReasoningContent::Encrypted("x".into())] };
    assert_eq!(only_hidden.display_text(), "");
}

fn convert(item: StreamedAssistantContent<u64>) -> RawStreamingChoice<FinalCompletionResponse> {
    assistant_content_to_raw(Ok(item), |n: u64| usage(n)).ok().expect("item")
}

#[test]
fn text_becomes_message() {
    let item = StreamedAssistantContent::Text(Text { text: "hello".into(), additional_params: Some(Value::Null) });
    match convert(item) {
        RawStreamingChoice::Message(m) => assert_eq!(m, "hello"),
        other => panic!("unexpected {:?}", other),
    }
}

#[test]
fn final_response_carries_usage() {
    match convert(StreamedAssistantContent::Final(7)) {
        RawStreamingChoice::FinalResponse(f) => {
            assert_eq!(f.usage, Some(usage(7)));
            assert_eq!(f.token_usage(), usage(7));
        }
        other => panic!("unexpected {:?}", other),
    }
}

#[test]
fn tool_call_becomes_raw_tool_call() {
    let item = StreamedAssistantContent::ToolCall { tool_call: sample_call(), internal_call_id: "i9".into() };
    match convert(item) {
        RawStreamingChoice::ToolCall(raw) => {
            assert_eq!(raw.id, "call_1");
            assert_eq!(raw.internal_call_id, "i9");
            assert_eq!(raw.name, "add");
        }
        other => panic!("unexpected {:?}", other),
    }
}

#[test]
fn deltas_pass_through() {
    let item = StreamedAssistantContent::ToolCallDelta {
        id: "t".into(),
        internal_call_id: "i".into(),
        content: ToolCallDeltaContent::Delta("{\"a\"".into()),
    };
    match convert(item) {
        RawStreamingChoice::ToolCallDelta { id, internal_call_id, content } => {
            assert_eq!(id, "t");
            assert_eq!(internal_call_id, "i");
            assert!(matches!(content, ToolCallDeltaContent::Delta(ref d) if d == "{\"a\""));
        }
        other => panic!("unexpected {:?}", other),
    }
    let item = StreamedAssistantContent::ReasoningDelta { id: Some("r".into()), reasoning: "thinking".into() };
    match convert(item) {
        RawStreamingChoice::ReasoningDelta { id, reasoning } => {
            assert_eq!(id.as_deref(), Some("r"));
            assert_eq!(reasoning, "thinking");
        }
        other => panic!("unexpected {:?}", other),
    }
}

#[test]
fn reasoning_becomes_its_text_without_signature() {
    let item = StreamedAssistantContent::Reasoning(Reasoning {
        id: Some("rs_1".into()),
        content: vec![
            ReasoningContent::Text { text: "a".into(), signature: Some("sig".into()) },
            ReasoningContent::Summary("b".into()),
        ],
    });
    match convert(item) {
        RawStreamingChoice::Reasoning { id, content: ReasoningContent::Text { text, signature } } => {
            assert_eq!(id.as_deref(), Some("rs_1"));
            assert_eq!(text, "a\nb");
            assert_eq!(signature, None);
        }
        other => panic!("unexpected {:?}", other),
    }
}

#[test]
fn errors_pass_through() {
    let err = rig_core::completion::CompletionError::ProviderError("overloaded".into());
    match assistant_content_to_raw::<u64, _>(Err(err), |n: u64| usage(n)) {
        Err(rig_core::completion::CompletionError::ProviderError(m)) => assert_eq!(m, "overloaded"),
        Err(other) => panic!("unexpected {:?}", other),
        Ok(other) => panic!("unexpected {:?}", other),
    }
}
