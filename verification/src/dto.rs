//! Provider-neutral conversation turns and the wire record shapes of the two
//! providers.  Fractional sampling parameters are carried as fixed-point
//! integers in millionths of a unit, so `500_000` stands for one half; the
//! serializer renders them back as decimals.  Fields called `type` on the wire
//! are called `kind` here.
use vstd::prelude::*;
use vstd::string::StringExecFns;
use crate::json::{Json, JsonV, view_list};

verus! {

/// One provider-neutral conversation turn, oldest-first in a history.
pub struct VoisiaMessage {
    pub role: String,
    pub content: String,
}

/// Mathematical value of a conversation turn.
pub ghost struct MessageV {
    pub role: Seq<char>,
    pub content: Seq<char>,
}

impl View for VoisiaMessage {
    type V = MessageV;

    open spec fn view(&self) -> MessageV {
        MessageV { role: self.role@, content: self.content@ }
    }
}

/// The turn views of a whole history, oldest first.
pub open spec fn message_views(s: Seq<VoisiaMessage>) -> Seq<MessageV> {
    s.map_values(|m: VoisiaMessage| m@)
}

/// The default reasoning mode when a directive carries none.
pub fn default_thinking_type() -> (r: String)
    ensures
        r@ == "disabled"@,
{
    String::from_str("disabled")
}

/// A reasoning directive for the first provider: a mode (`"enabled"` or
/// `"disabled"`, written as `type` on the wire) and an optional token budget.
pub struct AnthropicThinking {
    pub kind: String,
    pub budget_tokens: Option<u32>,
}

pub ghost struct ThinkingV {
    pub kind: Seq<char>,
    pub budget_tokens: Option<u32>,
}

impl View for AnthropicThinking {
    type V = ThinkingV;

    open spec fn view(&self) -> ThinkingV {
        ThinkingV {
            kind: self.kind@,
            budget_tokens: self.budget_tokens,
        }
    }
}

/// One block of a structured system prompt (`type` is written `kind` here).
pub struct AnthropicSystemMessage {
    pub kind: String,
    pub text: String,
}

pub ghost struct SystemMessageV {
    pub kind: Seq<char>,
    pub text: Seq<char>,
}

impl View for AnthropicSystemMessage {
    type V = SystemMessageV;

    open spec fn view(&self) -> SystemMessageV {
        SystemMessageV { kind: self.kind@, text: self.text@ }
    }
}

pub open spec fn system_views(s: Seq<AnthropicSystemMessage>) -> Seq<SystemMessageV> {
    s.map_values(|m: AnthropicSystemMessage| m@)
}

/// The request record of the first provider.
pub struct AnthropicRequest {
    pub messages: Vec<VoisiaMessage>,
    pub model: String,
    pub max_tokens: u32,
    pub system: Option<Vec<AnthropicSystemMessage>>,
    pub temperature: u32,
    pub top_p: u32,
    pub thinking: Option<AnthropicThinking>,
}

pub ghost struct ARequestV {
    pub messages: Seq<MessageV>,
    pub model: Seq<char>,
    pub max_tokens: u32,
    pub system: Option<Seq<SystemMessageV>>,
    pub temperature: u32,
    pub top_p: u32,
    pub thinking: Option<ThinkingV>,
}

impl View for AnthropicRequest {
    type V = ARequestV;

    open spec fn view(&self) -> ARequestV {
        ARequestV {
            messages: message_views(self.messages@),
            model: self.model@,
            max_tokens: self.max_tokens,
            system: match self.system {
                Some(v) => Some(system_views(v@)),
                None => None,
            },
            temperature: self.temperature,
            top_p: self.top_p,
            thinking: match self.thinking {
                Some(t) => Some(t@),
                None => None,
            },
        }
    }
}

/// The numeric range invariants every request must meet before it is sent:
/// at least one output token, and both sampling parameters within one unit.
pub open spec fn ranges_ok(max_tokens: u32, temperature: u32, top_p: u32) -> bool {
    max_tokens >= 1 && temperature <= 1000000 && top_p <= 1000000
}

/// Checks the shared numeric range invariants, reporting the first violation.
pub fn check_ranges(max_tokens: u32, temperature: u32, top_p: u32) -> (r: Result<(), String>)
    ensures
        r is Ok <==> ranges_ok(max_tokens, temperature, top_p),
        r matches Err(e) ==> e@ == (if max_tokens < 1 {
            "max_tokens must be greater than 1"@
        } else if temperature > 1000000 {
            "Temperature must be between 0 and 1"@
        } else {
            "top_p must be between 0 and 1"@
        }),
{
    if max_tokens < 1 {
        Err(String::from_str("max_tokens must be greater than 1"))
    } else if temperature > 1000000 {
        Err(String::from_str("Temperature must be between 0 and 1"))
    } else if top_p > 1000000 {
        Err(String::from_str("top_p must be between 0 and 1"))
    } else {
        Ok(())
    }
}

impl AnthropicRequest {
    /// Rejects exactly the boundary violations of the range invariants.
    pub fn validate(&self) -> (r: Result<(), String>)
        ensures
            r is Ok <==> ranges_ok(self.max_tokens, self.temperature, self.top_p),
            r matches Err(e) ==> e@ == (if self.max_tokens < 1 {
                "max_tokens must be greater than 1"@
            } else if self.temperature > 1000000 {
                "Temperature must be between 0 and 1"@
            } else {
                "top_p must be between 0 and 1"@
            }),
    {
        check_ranges(self.max_tokens, self.temperature, self.top_p)
    }
}

/// The request record of the second provider.  Its field names differ from
/// the first provider's on purpose: they are the wire names.
pub struct OpenAIRequest {
    pub input: Vec<VoisiaMessage>,
    pub model: String,
    pub max_output_tokens: u32,
    pub store: bool,
    pub instructions: Option<String>,
    pub temperature: u32,
    pub top_p: u32,
}

pub ghost struct ORequestV {
    pub input: Seq<MessageV>,
    pub model: Seq<char>,
    pub max_output_tokens: u32,
    pub store: bool,
    pub instructions: Option<Seq<char>>,
    pub temperature: u32,
    pub top_p: u32,
}

impl View for OpenAIRequest {
    type V = ORequestV;

    open spec fn view(&self) -> ORequestV {
        ORequestV {
            input: message_views(self.input@),
            model: self.model@,
            max_output_tokens: self.max_output_tokens,
            store: self.store,
            instructions: match self.instructions {
                Some(s) => Some(s@),
                None => None,
            },
            temperature: self.temperature,
            top_p: self.top_p,
        }
    }
}

/// One textual content block of a first-provider reply.
pub struct AnthropicContent {
    pub text: String,
    pub kind: String,
}

pub ghost struct ContentBlockV {
    pub text: Seq<char>,
    pub kind: Seq<char>,
}

impl View for AnthropicContent {
    type V = ContentBlockV;

    open spec fn view(&self) -> ContentBlockV {
        ContentBlockV { text: self.text@, kind: self.kind@ }
    }
}

pub open spec fn content_block_views(s: Seq<AnthropicContent>) -> Seq<ContentBlockV> {
    s.map_values(|c: AnthropicContent| c@)
}

/// The textual blocks among a reply's content, in order, as plain text
/// records; reasoning blocks are passed over.
pub open spec fn text_blocks_of(s: Seq<ContentV>) -> Seq<ContentBlockV>
    decreases s.len(),
{
    if s.len() == 0 {
        Seq::empty()
    } else {
        text_blocks_of(s.drop_last()) + (match s.last() {
            ContentV::Text { text } => seq![ContentBlockV { text, kind: "text"@ }],
            _ => Seq::empty(),
        })
    }
}

/// A first-provider reply block: either visible text or a reasoning block.
pub enum AnthropicContentWithThinking {
    Thinking { thinking: String, signature: String },
    Text { text: String },
}

pub ghost enum ContentV {
    Thinking { thinking: Seq<char>, signature: Seq<char> },
    Text { text: Seq<char> },
}

impl View for AnthropicContentWithThinking {
    type V = ContentV;

    open spec fn view(&self) -> ContentV {
        match self {
            AnthropicContentWithThinking::Thinking { thinking, signature } => ContentV::Thinking {
                thinking: thinking@,
                signature: signature@,
            },
            AnthropicContentWithThinking::Text { text } => ContentV::Text { text: text@ },
        }
    }
}

pub open spec fn content_views(s: Seq<AnthropicContentWithThinking>) -> Seq<ContentV> {
    s.map_values(|c: AnthropicContentWithThinking| c@)
}

/// Token accounting of a first-provider reply.
pub struct AnthropicUsage {
    pub input_tokens: u32,
    pub output_tokens: u32,
}

/// A parsed first-provider reply.
pub struct AnthropicResponse {
    pub content: Vec<AnthropicContentWithThinking>,
    pub id: String,
    pub model: String,
    pub role: String,
    pub stop_reason: String,
    pub stop_sequence: Option<String>,
    pub kind: String,
    pub usage: AnthropicUsage,
}

pub ghost struct AResponseV {
    pub content: Seq<ContentV>,
    pub id: Seq<char>,
    pub model: Seq<char>,
    pub role: Seq<char>,
    pub stop_reason: Seq<char>,
    pub stop_sequence: Option<Seq<char>>,
    pub kind: Seq<char>,
    pub input_tokens: u32,
    pub output_tokens: u32,
}

impl View for AnthropicResponse {
    type V = AResponseV;

    open spec fn view(&self) -> AResponseV {
        AResponseV {
            content: content_views(self.content@),
            id: self.id@,
            model: self.model@,
            role: self.role@,
            stop_reason: self.stop_reason@,
            stop_sequence: match self.stop_sequence {
                Some(s) => Some(s@),
                None => None,
            },
            kind: self.kind@,
            input_tokens: self.usage.input_tokens,
            output_tokens: self.usage.output_tokens,
        }
    }
}

impl AnthropicResponse {
    /// The textual blocks of the reply, in order; reasoning blocks are kept
    /// on the reply itself but not surfaced here.
    pub fn text_blocks(&self) -> (r: Vec<AnthropicContent>)
        ensures
            content_block_views(r@) == text_blocks_of(self@.content),
    {
        let ghost cv = self@.content;
        let mut out: Vec<AnthropicContent> = Vec::new();
        let mut i: usize = 0;
        proof {
            assert(cv.take(0) =~= Seq::<ContentV>::empty());
            assert(content_block_views(out@) =~= text_blocks_of(cv.take(0)));
        }
        while i < self.content.len()
            invariant
                i <= self.content@.len(),
                cv == content_views(self.content@),
                cv.len() == self.content@.len(),
                content_block_views(out@) == text_blocks_of(cv.take(i as int)),
            decreases self.content@.len() - i,
        {
            proof {
                assert(cv.take(i + 1).drop_last() =~= cv.take(i as int));
                assert(cv[i as int] == self.content@[i as int]@);
                assert(cv.take(i + 1).last() == cv[i as int]);
            }
            match &self.content[i] {
                AnthropicContentWithThinking::Text { text } => {
                    let ghost outold = out@;
                    out.push(
                        AnthropicContent { text: text.clone(), kind: String::from_str("text") },
                    );
                    proof {
                        assert(content_block_views(out@) =~= content_block_views(outold) + seq![
                            out@.last()@,
                        ]);
                    }
                },
                _ => {
                    proof {
                        assert(content_block_views(out@) + Seq::<ContentBlockV>::empty()
                            =~= content_block_views(out@));
                    }
                },
            }
            i += 1;
        }
        proof {
            assert(cv.take(cv.len() as int) =~= cv);
        }
        out
    }
}

/// Shape descriptor of a second-provider text format.
pub struct OpenAIFormatType {
    pub kind: String,
}

/// Free-form key/value annotations of a second-provider reply; none are read.
pub struct OpenAIMetadata {}

/// Text formatting configuration of a second-provider reply.
pub struct OpenAITextFormat {
    pub format: Option<OpenAIFormatType>,
}

/// Cache and reasoning token detail of the second provider's accounting.
pub struct OpenAITokenDetails {
    pub cached_tokens: Option<u32>,
    pub reasoning_tokens: Option<u32>,
}

/// Token accounting of a second-provider reply.
pub struct OpenAIUsage {
    pub input_tokens: u32,
    pub input_tokens_details: Option<OpenAITokenDetails>,
    pub output_tokens: u32,
    pub output_tokens_details: Option<OpenAITokenDetails>,
    pub total_tokens: u32,
}


/// One annotated text block of a second-provider reply.
pub struct OpenAIOutputContent {
    pub kind: String,
    pub text: String,
    pub annotations: Vec<Json>,
}

pub ghost struct OutputContentV {
    pub kind: Seq<char>,
    pub text: Seq<char>,
    pub annotations: Seq<JsonV>,
}

impl View for OpenAIOutputContent {
    type V = OutputContentV;

    open spec fn view(&self) -> OutputContentV {
        OutputContentV {
            kind: self.kind@,
            text: self.text@,
            annotations: view_list(self.annotations@),
        }
    }
}

pub open spec fn output_content_views(s: Seq<OpenAIOutputContent>) -> Seq<OutputContentV> {
    s.map_values(|c: OpenAIOutputContent| c@)
}

/// One message envelope of a second-provider reply.
pub struct OpenAIOutputMessage {
    pub kind: String,
    pub id: String,
    pub status: String,
    pub role: String,
    pub content: Vec<OpenAIOutputContent>,
}

pub ghost struct OutputMessageV {
    pub kind: Seq<char>,
    pub id: Seq<char>,
    pub status: Seq<char>,
    pub role: Seq<char>,
    pub content: Seq<OutputContentV>,
}

impl View for OpenAIOutputMessage {
    type V = OutputMessageV;

    open spec fn view(&self) -> OutputMessageV {
        OutputMessageV {
            kind: self.kind@,
            id: self.id@,
            status: self.status@,
            role: self.role@,
            content: output_content_views(self.content@),
        }
    }
}

pub open spec fn output_message_views(s: Seq<OpenAIOutputMessage>) -> Seq<OutputMessageV> {
    s.map_values(|m: OpenAIOutputMessage| m@)
}

/// A parsed second-provider reply.  The sampling parameters are kept as the
/// raw number tokens the provider sent; unread members are kept as documents.
pub struct OpenAIResponse {
    pub id: String,
    pub object: String,
    pub created_at: u64,
    pub status: String,
    pub error: Option<Json>,
    pub incomplete_details: Option<Json>,
    pub instructions: Option<Json>,
    pub max_output_tokens: Option<u32>,
    pub model: String,
    pub output: Vec<OpenAIOutputMessage>,
    pub parallel_tool_calls: bool,
    pub previous_response_id: Option<String>,
    pub store: bool,
    pub temperature: String,
    pub tool_choice: String,
    pub tools: Vec<Json>,
    pub top_p: String,
    pub truncation: String,
    pub usage: Option<OpenAIUsage>,
    pub user: Option<String>,
    pub metadata: Option<OpenAIMetadata>,
}

pub ghost struct OResponseV {
    pub id: Seq<char>,
    pub object: Seq<char>,
    pub created_at: u64,
    pub status: Seq<char>,
    pub error: Option<JsonV>,
    pub incomplete_details: Option<JsonV>,
    pub instructions: Option<JsonV>,
    pub max_output_tokens: Option<u32>,
    pub model: Seq<char>,
    pub output: Seq<OutputMessageV>,
    pub parallel_tool_calls: bool,
    pub previous_response_id: Option<Seq<char>>,
    pub store: bool,
    pub temperature: Seq<char>,
    pub tool_choice: Seq<char>,
    pub tools: Seq<JsonV>,
    pub top_p: Seq<char>,
    pub truncation: Seq<char>,
    pub usage: Option<OpenAIUsage>,
    pub user: Option<Seq<char>>,
    pub metadata: Option<OpenAIMetadata>,
}

impl View for OpenAIResponse {
    type V = OResponseV;

    open spec fn view(&self) -> OResponseV {
        OResponseV {
            id: self.id@,
            object: self.object@,
            created_at: self.created_at,
            status: self.status@,
            error: match self.error {
                Some(j) => Some(j@),
                None => None,
            },
            incomplete_details: match self.incomplete_details {
                Some(j) => Some(j@),
                None => None,
            },
            instructions: match self.instructions {
                Some(j) => Some(j@),
                None => None,
            },
            max_output_tokens: self.max_output_tokens,
            model: self.model@,
            output: output_message_views(self.output@),
            parallel_tool_calls: self.parallel_tool_calls,
            previous_response_id: match self.previous_response_id {
                Some(s) => Some(s@),
                None => None,
            },
            store: self.store,
            temperature: self.temperature@,
            tool_choice: self.tool_choice@,
            tools: view_list(self.tools@),
            top_p: self.top_p@,
            truncation: self.truncation@,
            usage: self.usage,
            user: match self.user {
                Some(s) => Some(s@),
                None => None,
            },
            metadata: self.metadata,
        }
    }
}

} // verus!
