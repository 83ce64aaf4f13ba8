//! The pieces of a streamed completion, and how a processed stream item is
//! turned back into a raw one, so that a stream of any provider can be
//! replayed through one dynamic model.

use vstd::prelude::*;
use vstd::string::StringExecFns;
use rig_core::completion::CompletionError;
use serde_json::Value;

verus! {

/// `serde_json::Value`, a JSON value; it is only carried through.
#[verifier::external_type_specification]
#[verifier::external_body]
pub struct ExJsonValue(serde_json::Value);

/// The tokens that a completion used. All counters zero means that the
/// provider reported none.
#[derive(Debug, Clone, Copy, PartialEq, Eq, Structural)]
pub struct Usage {
    pub input_tokens: u64,
    pub output_tokens: u64,
    pub total_tokens: u64,
    pub cached_input_tokens: u64,
    pub cache_creation_input_tokens: u64,
    pub tool_use_prompt_tokens: u64,
    pub reasoning_tokens: u64,
}

impl Usage {
    /// The usage with every counter zero.
    pub open spec fn zero() -> Usage {
        Usage {
            input_tokens: 0,
            output_tokens: 0,
            total_tokens: 0,
            cached_input_tokens: 0,
            cache_creation_input_tokens: 0,
            tool_use_prompt_tokens: 0,
            reasoning_tokens: 0,
        }
    }

    /// The usage with every counter zero.
    pub fn new() -> (r: Usage)
        ensures
            r == Usage::zero(),
    {
        Usage {
            input_tokens: 0,
            output_tokens: 0,
            total_tokens: 0,
            cached_input_tokens: 0,
            cache_creation_input_tokens: 0,
            tool_use_prompt_tokens: 0,
            reasoning_tokens: 0,
        }
    }
}

/// The final item of a stream from a dynamic model: the usage that the
/// provider reported, if any.
#[derive(Debug, Clone)]
pub struct FinalCompletionResponse {
    pub usage: Option<Usage>,
}

impl FinalCompletionResponse {
    /// The usage reported, or all counters zero when none was.
    pub fn token_usage(&self) -> (r: Usage)
        ensures
            r == match self.usage {
                Some(u) => u,
                None => Usage::zero(),
            },
    {
        match self.usage {
            Some(u) => u,
            None => Usage::new(),
        }
    }
}

/// A piece of text, with the provider's own fields for it.
#[derive(Debug)]
pub struct Text {
    pub text: String,
    pub additional_params: Option<Value>,
}

/// The function that a tool call asks for, and its JSON arguments.
#[derive(Debug)]
pub struct ToolFunction {
    pub name: String,
    pub arguments: Value,
}

/// A complete tool call of the assistant.
#[derive(Debug)]
pub struct ToolCall {
    /// The provider's identifier of the call.
    pub id: String,
    /// The identifier that some providers use to match the call's result.
    pub call_id: Option<String>,
    pub function: ToolFunction,
    pub signature: Option<String>,
    pub additional_params: Option<Value>,
}

/// The content of a partial tool call: the tool's name or a piece of its arguments.
#[derive(Debug)]
pub enum ToolCallDeltaContent {
    Name(String),
    Delta(String),
}

/// One block of reasoning.
#[derive(Debug)]
pub enum ReasoningContent {
    /// Plain reasoning text, with the provider's signature if any.
    Text { text: String, signature: Option<String> },
    /// Reasoning that the provider encrypted.
    Encrypted(String),
    /// Reasoning that the provider redacted, kept as opaque data.
    Redacted { data: String },
    /// A summary of the reasoning.
    Summary(String),
}

/// The text that a block of reasoning shows, if it shows any: encrypted
/// reasoning shows none.
pub open spec fn shown_text(c: ReasoningContent) -> Option<Seq<char>> {
    match c {
        ReasoningContent::Text { text, .. } => Some(text@),
        ReasoningContent::Summary(summary) => Some(summary@),
        ReasoningContent::Redacted { data } => Some(data@),
        ReasoningContent::Encrypted(_) => None,
    }
}

/// The texts that the blocks show, in order.
pub open spec fn shown_texts(cs: Seq<ReasoningContent>) -> Seq<Seq<char>>
    decreases cs.len(),
{
    if cs.len() == 0 {
        Seq::empty()
    } else {
        match shown_text(cs.last()) {
            Some(t) => shown_texts(cs.drop_last()).push(t),
            None => shown_texts(cs.drop_last()),
        }
    }
}

/// The lines joined by newlines.
pub open spec fn join_lines(lines: Seq<Seq<char>>) -> Seq<char>
    decreases lines.len(),
{
    if lines.len() == 0 {
        Seq::empty()
    } else if lines.len() == 1 {
        lines[0]
    } else {
        join_lines(lines.drop_last()) + seq!['\n'] + lines.last()
    }
}

/// The text that blocks of reasoning show grows block by block: an encrypted
/// block adds nothing; any other block adds its text, after a newline where
/// the blocks before it already show text.
pub proof fn lemma_reasoning_text_step(cs: Seq<ReasoningContent>, b: ReasoningContent)
    ensures
        b is Encrypted ==> join_lines(shown_texts(cs.push(b))) == join_lines(shown_texts(cs)),
        b matches ReasoningContent::Text { text, .. } ==> join_lines(shown_texts(cs.push(b))) == if shown_texts(cs).len() == 0 {
            text@
        } else {
            join_lines(shown_texts(cs)) + seq!['\n'] + text@
        },
        b matches ReasoningContent::Redacted { data } ==> join_lines(shown_texts(cs.push(b))) == if shown_texts(cs).len() == 0 {
            data@
        } else {
            join_lines(shown_texts(cs)) + seq!['\n'] + data@
        },
        b matches ReasoningContent::Summary(summary) ==> join_lines(shown_texts(cs.push(b))) == if shown_texts(cs).len() == 0 {
            summary@
        } else {
            join_lines(shown_texts(cs)) + seq!['\n'] + summary@
        },
{
    assert(cs.push(b).drop_last() =~= cs);
    let before = shown_texts(cs);
    match shown_text(b) {
        Some(t) => {
            assert(before.push(t).drop_last() =~= before);
        },
        None => {},
    }
}

/// The reasoning of the assistant: an optional identifier and its blocks.
#[derive(Debug)]
pub struct Reasoning {
    pub id: Option<String>,
    pub content: Vec<ReasoningContent>,
}

impl Reasoning {
    /// The text that the reasoning shows: the texts of its blocks, encrypted
    /// ones left out, joined by newlines.
    pub open spec fn spec_display_text(&self) -> Seq<char> {
        join_lines(shown_texts(self.content@))
    }

    /// The text that the reasoning shows: the texts of its blocks, encrypted
    /// ones left out, joined by newlines.
    pub fn display_text(&self) -> (r: String)
        ensures
            r@ == self.spec_display_text(),
    {
        let mut out: String = String::new();
        let mut empty: bool = true;
        let n: usize = self.content.len();
        let mut i: usize = 0;
        let newline: &str = "\n";
        proof {
            reveal_strlit("\n");
            assert(self.content@.take(0) =~= Seq::<ReasoningContent>::empty());
        }
        while i < n
            invariant
                n == self.content@.len(),
                i <= n,
                newline@ == seq!['\n'],
                out@ == join_lines(shown_texts(self.content@.take(i as int))),
                empty == (shown_texts(self.content@.take(i as int)).len() == 0),
            decreases n - i,
        {
            let ghost before = shown_texts(self.content@.take(i as int));
            proof {
                assert(self.content@.take(i + 1).drop_last() =~= self.content@.take(i as int));
                assert(self.content@.take(i + 1).last() == self.content@[i as int]);
            }
            let shown: Option<&String> = match &self.content[i] {
                ReasoningContent::Text { text, .. } => Some(text),
                ReasoningContent::Summary(summary) => Some(summary),
                ReasoningContent::Redacted { data } => Some(data),
                ReasoningContent::Encrypted(_) => None,
            };
            match shown {
                Some(t) => {
                    proof {
                        let after = before.push(t@);
                        assert(after.drop_last() =~= before);
                    }
                    if !empty {
                        out.append(newline);
                    }
                    out.append(t.as_str());
                    empty = false;
                },
                None => {},
            }
            i += 1;
        }
        proof {
            assert(self.content@.take(n as int) =~= self.content@);
        }
        out
    }
}

/// An item of a processed stream.
#[derive(Debug)]
pub enum StreamedAssistantContent<R> {
    /// A piece of text.
    Text(Text),
    /// A complete tool call, with the identifier that the stream gave it.
    ToolCall { tool_call: ToolCall, internal_call_id: String },
    /// A piece of a tool call.
    ToolCallDelta { id: String, internal_call_id: String, content: ToolCallDeltaContent },
    /// A complete block of reasoning.
    Reasoning(Reasoning),
    /// A piece of reasoning text.
    ReasoningDelta { id: Option<String>, reasoning: String },
    /// The provider's final response.
    Final(R),
}

/// A complete tool call of a raw stream.
#[derive(Debug)]
pub struct RawStreamingToolCall {
    pub id: String,
    pub internal_call_id: String,
    pub call_id: Option<String>,
    pub name: String,
    pub arguments: Value,
    pub signature: Option<String>,
    pub additional_params: Option<Value>,
}

/// An item of a raw stream.
#[derive(Debug)]
pub enum RawStreamingChoice<R> {
    /// A piece of message text.
    Message(String),
    /// The start of a block of text, with the provider's fields for it.
    TextStart { additional_params: Option<Value> },
    /// The provider's fields for the current block of text.
    TextAdditionalParams(Value),
    /// A complete tool call.
    ToolCall(RawStreamingToolCall),
    /// A piece of a tool call.
    ToolCallDelta { id: String, internal_call_id: String, content: ToolCallDeltaContent },
    /// A complete block of reasoning.
    Reasoning { id: Option<String>, content: ReasoningContent },
    /// A piece of reasoning text.
    ReasoningDelta { id: Option<String>, reasoning: String },
    /// The final response.
    FinalResponse(R),
    /// The provider's identifier of the message.
    MessageId(String),
}

/// The raw form of a tool call: its fields, with the function's name and
/// arguments lifted out and the stream's identifier added.
pub fn tool_call_to_raw(internal_call_id: String, tool_call: ToolCall) -> (r: RawStreamingToolCall)
    ensures
        r.id == tool_call.id,
        r.internal_call_id == internal_call_id,
        r.call_id == tool_call.call_id,
        r.name == tool_call.function.name,
        r.arguments == tool_call.function.arguments,
        r.signature == tool_call.signature,
        r.additional_params == tool_call.additional_params,
{
    RawStreamingToolCall {
        id: tool_call.id,
        internal_call_id,
        call_id: tool_call.call_id,
        name: tool_call.function.name,
        arguments: tool_call.function.arguments,
        signature: tool_call.signature,
        additional_params: tool_call.additional_params,
    }
}

/// Turns an item of a processed stream back into the raw item it came
/// from; an error passes through. Text loses the provider's fields, a block
/// of reasoning becomes its shown text without signature, and a final
/// response becomes the usage that `usage_of` reads from it.
pub fn assistant_content_to_raw<R, F: Fn(R) -> Usage>(
    chunk: Result<StreamedAssistantContent<R>, CompletionError>,
    usage_of: F,
) -> (r: Result<RawStreamingChoice<FinalCompletionResponse>, CompletionError>)
    requires
        forall|f: R| #[trigger] usage_of.requires((f,)),
    ensures
        match chunk {
            Err(e) => r == Err::<RawStreamingChoice<FinalCompletionResponse>, CompletionError>(e),
            Ok(StreamedAssistantContent::Text(text)) => r == Ok::<
                RawStreamingChoice<FinalCompletionResponse>,
                CompletionError,
            >(RawStreamingChoice::Message(text.text)),
            Ok(StreamedAssistantContent::ToolCall { tool_call, internal_call_id }) => (r matches Ok(
                RawStreamingChoice::ToolCall(raw),
            ) && raw.id == tool_call.id && raw.internal_call_id == internal_call_id && raw.call_id
                == tool_call.call_id && raw.name == tool_call.function.name && raw.arguments
                == tool_call.function.arguments && raw.signature == tool_call.signature
                && raw.additional_params == tool_call.additional_params),
            Ok(StreamedAssistantContent::ToolCallDelta { id, internal_call_id, content }) => r
                == Ok::<RawStreamingChoice<FinalCompletionResponse>, CompletionError>(
                RawStreamingChoice::ToolCallDelta { id, internal_call_id, content },
            ),
            Ok(StreamedAssistantContent::Reasoning(reasoning)) => (r matches Ok(
                RawStreamingChoice::Reasoning {
                    id,
                    content: ReasoningContent::Text { text, signature },
                },
            ) && id == reasoning.id && text@ == reasoning.spec_display_text() && signature is None),
            Ok(StreamedAssistantContent::ReasoningDelta { id, reasoning }) => r == Ok::<
                RawStreamingChoice<FinalCompletionResponse>,
                CompletionError,
            >(RawStreamingChoice::ReasoningDelta { id, reasoning }),
            Ok(StreamedAssistantContent::Final(f)) => (r matches Ok(
                RawStreamingChoice::FinalResponse(resp),
            ) && resp.usage matches Some(u) && usage_of.ensures((f,), u)),
        },
{
    let item: StreamedAssistantContent<R> = match chunk {
        Ok(item) => item,
        Err(e) => return Err(e),
    };
    let raw: RawStreamingChoice<FinalCompletionResponse> = match item {
        StreamedAssistantContent::Final(f) => {
            let usage: Usage = usage_of(f);
            RawStreamingChoice::FinalResponse(FinalCompletionResponse { usage: Some(usage) })
        },
        StreamedAssistantContent::Text(text) => RawStreamingChoice::Message(text.text),
        StreamedAssistantContent::ToolCall { tool_call, internal_call_id } => {
            RawStreamingChoice::ToolCall(tool_call_to_raw(internal_call_id, tool_call))
        },
        StreamedAssistantContent::ToolCallDelta { id, internal_call_id, content } => {
            RawStreamingChoice::ToolCallDelta { id, internal_call_id, content }
        },
        StreamedAssistantContent::Reasoning(reasoning) => {
            let text: String = reasoning.display_text();
            RawStreamingChoice::Reasoning {
                id: reasoning.id,
                content: ReasoningContent::Text { text, signature: None },
            }
        },
        StreamedAssistantContent::ReasoningDelta { id, reasoning } => {
            RawStreamingChoice::ReasoningDelta { id, reasoning }
        },
    };
    Ok(raw)
}

} // verus!
