//! The command-facade core: building a provider request from the UI-facing
//! arguments, classifying an HTTP reply, and reading the catalog — everything
//! the three UI commands do apart from the I/O itself.  The surrounding shell
//! resolves credentials, performs the HTTP exchange and reads the catalog
//! file, then hands the status and body text back to this layer.
use vstd::prelude::*;
use vstd::string::StringExecFns;
use crate::dto::{
    AnthropicRequest, AnthropicResponse, AnthropicSystemMessage, AnthropicThinking, MessageV,
    OpenAIRequest, OpenAIResponse, SystemMessageV, ThinkingV, VoisiaMessage, check_ranges,
    message_views, ranges_ok,
};
use crate::json::parse_json_s;
use crate::llm::{ModelInfo, catalog_from_text, model_views};
use crate::json::parse_json;
use crate::parse::{a_response_from_json, a_response_of, o_response_from_json, o_response_of};
use crate::text::{dec_seq, push_str_chars, push_u32_dec, string_from_chars};

verus! {

/// Why a command failed, by stage.
#[derive(Debug)]
pub enum ProviderError {
    CredentialMissing(String),
    ValidationError(String),
    TransportError(String),
    UpstreamError(u16, String),
    ParseError(String),
    CatalogIoError(String),
    CatalogParseError(String),
}

pub ghost enum ProviderErrorV {
    CredentialMissing(Seq<char>),
    ValidationError(Seq<char>),
    TransportError(Seq<char>),
    UpstreamError(u16, Seq<char>),
    ParseError(Seq<char>),
    CatalogIoError(Seq<char>),
    CatalogParseError(Seq<char>),
}

impl View for ProviderError {
    type V = ProviderErrorV;

    open spec fn view(&self) -> ProviderErrorV {
        match self {
            ProviderError::CredentialMissing(d) => ProviderErrorV::CredentialMissing(d@),
            ProviderError::ValidationError(d) => ProviderErrorV::ValidationError(d@),
            ProviderError::TransportError(d) => ProviderErrorV::TransportError(d@),
            ProviderError::UpstreamError(s, d) => ProviderErrorV::UpstreamError(*s, d@),
            ProviderError::ParseError(d) => ProviderErrorV::ParseError(d@),
            ProviderError::CatalogIoError(d) => ProviderErrorV::CatalogIoError(d@),
            ProviderError::CatalogParseError(d) => ProviderErrorV::CatalogParseError(d@),
        }
    }
}

/// The human-readable form of a failure: its stage tag, a colon, the detail.
/// A non-success reply carries its status and its body text verbatim.
pub open spec fn message_of(e: ProviderErrorV) -> Seq<char> {
    match e {
        ProviderErrorV::CredentialMissing(d) => "credential: "@ + d,
        ProviderErrorV::ValidationError(d) => "validation: "@ + d,
        ProviderErrorV::TransportError(d) => "http: "@ + d,
        ProviderErrorV::UpstreamError(status, body) => "upstream: "@ + dec_seq(status as int)
            + ": "@ + body,
        ProviderErrorV::ParseError(d) => "parse: "@ + d,
        ProviderErrorV::CatalogIoError(d) => "catalog: "@ + d,
        ProviderErrorV::CatalogParseError(d) => "catalog: "@ + d,
    }
}

impl ProviderError {
    /// Renders the failure as the string the UI shows.
    pub fn message(&self) -> (r: String)
        ensures
            r@ == message_of(self@),
    {
        let mut out: Vec<char> = Vec::new();
        match self {
            ProviderError::CredentialMissing(d) => {
                push_str_chars(&mut out, "credential: ");
                push_str_chars(&mut out, d.as_str());
                proof {
                    assert(out@ =~= message_of(self@));
                }
            },
            ProviderError::ValidationError(d) => {
                push_str_chars(&mut out, "validation: ");
                push_str_chars(&mut out, d.as_str());
                proof {
                    assert(out@ =~= message_of(self@));
                }
            },
            ProviderError::TransportError(d) => {
                push_str_chars(&mut out, "http: ");
                push_str_chars(&mut out, d.as_str());
                proof {
                    assert(out@ =~= message_of(self@));
                }
            },
            ProviderError::UpstreamError(status, body) => {
                push_str_chars(&mut out, "upstream: ");
                push_u32_dec(&mut out, *status as u32);
                push_str_chars(&mut out, ": ");
                push_str_chars(&mut out, body.as_str());
                proof {
                    assert(out@ =~= message_of(self@));
                }
            },
            ProviderError::ParseError(d) => {
                push_str_chars(&mut out, "parse: ");
                push_str_chars(&mut out, d.as_str());
                proof {
                    assert(out@ =~= message_of(self@));
                }
            },
            ProviderError::CatalogIoError(d) => {
                push_str_chars(&mut out, "catalog: ");
                push_str_chars(&mut out, d.as_str());
                proof {
                    assert(out@ =~= message_of(self@));
                }
            },
            ProviderError::CatalogParseError(d) => {
                push_str_chars(&mut out, "catalog: ");
                push_str_chars(&mut out, d.as_str());
                proof {
                    assert(out@ =~= message_of(self@));
                }
            },
        }
        string_from_chars(&out)
    }
}

/// A reasoning directive is acceptable when, if enabled, its budget exists
/// and lies between 1024 and the request's token limit (exclusive).
pub open spec fn thinking_ok(t: Option<ThinkingV>, max_tokens: u32) -> bool {
    match t {
        Some(d) => d.kind == "enabled"@ ==> (match d.budget_tokens {
            Some(b) => 1024 <= b && b < max_tokens,
            None => false,
        }),
        None => true,
    }
}

/// Checks a reasoning directive against the token limit.
fn check_thinking(t: &Option<AnthropicThinking>, max_tokens: u32) -> (r: bool)
    ensures
        r == thinking_ok(
            match t {
                Some(d) => Some(d@),
                None => None,
            },
            max_tokens,
        ),
{
    match t {
        Some(d) => {
            if crate::json::str_eq_chars(d.kind.as_str(), "enabled") {
                match d.budget_tokens {
                    Some(b) => 1024 <= b && b < max_tokens,
                    None => false,
                }
            } else {
                true
            }
        },
        None => true,
    }
}

/// The view of the reasoning directive handed in, if any.
pub open spec fn thinking_view(t: Option<AnthropicThinking>) -> Option<ThinkingV> {
    match t {
        Some(d) => Some(d@),
        None => None,
    }
}

/// Builds the first-provider request from the UI-facing arguments: the
/// history followed by one new user turn, the system prompt wrapped as a
/// single structured text block, and the numeric parameters checked first.
/// Validation failures are reported before anything else happens.
pub fn build_anthropic_request(
    model: String,
    input: String,
    system: Option<String>,
    max_tokens: u32,
    temperature: u32,
    top_p: u32,
    thinking: Option<AnthropicThinking>,
    convo_history: Vec<VoisiaMessage>,
) -> (r: Result<AnthropicRequest, ProviderError>)
    ensures
        r is Ok <==> ranges_ok(max_tokens, temperature, top_p) && thinking_ok(
            thinking_view(thinking),
            max_tokens,
        ),
        r matches Ok(req) ==> {
            &&& req@.messages == message_views(convo_history@) + seq![
                MessageV { role: "user"@, content: input@ },
            ]
            &&& req@.model == model@
            &&& req@.max_tokens == max_tokens
            &&& req@.temperature == temperature
            &&& req@.top_p == top_p
            &&& req@.system == (match system {
                Some(s) => Some(seq![SystemMessageV { kind: "text"@, text: s@ }]),
                None => None::<Seq<SystemMessageV>>,
            })
            &&& req@.thinking == thinking_view(thinking)
        },
        r matches Err(e) ==> e@ == ProviderErrorV::ValidationError(
            if !ranges_ok(max_tokens, temperature, top_p) {
                if max_tokens < 1 {
                    "max_tokens must be greater than 1"@
                } else if temperature > 1000000 {
                    "Temperature must be between 0 and 1"@
                } else {
                    "top_p must be between 0 and 1"@
                }
            } else {
                "budget_tokens must be at least 1024 and less than max_tokens"@
            },
        ),
{
    match check_ranges(max_tokens, temperature, top_p) {
        Ok(()) => {},
        Err(d) => {
            return Err(ProviderError::ValidationError(d));
        },
    }
    if !check_thinking(&thinking, max_tokens) {
        return Err(
            ProviderError::ValidationError(
                String::from_str("budget_tokens must be at least 1024 and less than max_tokens"),
            ),
        );
    }
    let mut messages = convo_history;
    let ghost history = messages@;
    messages.push(VoisiaMessage { role: String::from_str("user"), content: input });
    proof {
        assert(message_views(messages@) =~= message_views(history) + seq![
            MessageV { role: "user"@, content: messages@.last()@.content },
        ]);
    }
    let system_messages = match system {
        Some(s) => Some(
            vec![AnthropicSystemMessage { kind: String::from_str("text"), text: s }],
        ),
        None => None,
    };
    let req = AnthropicRequest {
        messages,
        model,
        max_tokens,
        system: system_messages,
        temperature,
        top_p,
        thinking,
    };
    proof {
        match &req.system {
            Some(v) => {
                assert(crate::dto::system_views(v@) =~= seq![
                    SystemMessageV { kind: "text"@, text: v@[0].text@ },
                ]);
            },
            None => {},
        }
    }
    Ok(req)
}

/// Builds the second-provider request: the same turn handling, with the wire
/// renames (`input`, `max_output_tokens`, `instructions`), the persistence
/// flag passed through, and the system prompt kept as a bare string.
pub fn build_openai_request(
    model: String,
    input: String,
    max_tokens: u32,
    temperature: u32,
    top_p: u32,
    store: bool,
    system: Option<String>,
    conversation_history: Vec<VoisiaMessage>,
) -> (r: Result<OpenAIRequest, ProviderError>)
    ensures
        r is Ok <==> ranges_ok(max_tokens, temperature, top_p),
        r matches Ok(req) ==> {
            &&& req@.input == message_views(conversation_history@) + seq![
                MessageV { role: "user"@, content: input@ },
            ]
            &&& req@.model == model@
            &&& req@.max_output_tokens == max_tokens
            &&& req@.store == store
            &&& req@.temperature == temperature
            &&& req@.top_p == top_p
            &&& req@.instructions == (match system {
                Some(s) => Some(s@),
                None => None::<Seq<char>>,
            })
        },
        r matches Err(e) ==> e@ == ProviderErrorV::ValidationError(
            if max_tokens < 1 {
                "max_tokens must be greater than 1"@
            } else if temperature > 1000000 {
                "Temperature must be between 0 and 1"@
            } else {
                "top_p must be between 0 and 1"@
            },
        ),
{
    match check_ranges(max_tokens, temperature, top_p) {
        Ok(()) => {},
        Err(d) => {
            return Err(ProviderError::ValidationError(d));
        },
    }
    let mut messages = conversation_history;
    let ghost history = messages@;
    messages.push(VoisiaMessage { role: String::from_str("user"), content: input });
    proof {
        assert(message_views(messages@) =~= message_views(history) + seq![
            MessageV { role: "user"@, content: messages@.last()@.content },
        ]);
    }
    Ok(
        OpenAIRequest {
            input: messages,
            model,
            max_output_tokens: max_tokens,
            store,
            instructions: system,
            temperature,
            top_p,
        },
    )
}

/// The first-provider reply a body text denotes, if it parses.
pub open spec fn a_response_from_text(s: Seq<char>) -> Option<crate::dto::AResponseV> {
    match parse_json_s(s) {
        Some(j) => a_response_of(j),
        None => None,
    }
}

/// The second-provider reply a body text denotes, if it parses.
pub open spec fn o_response_from_text(s: Seq<char>) -> Option<crate::dto::OResponseV> {
    match parse_json_s(s) {
        Some(j) => o_response_of(j),
        None => None,
    }
}

/// Classifies a first-provider HTTP exchange: any status in the 200s with a
/// body that reads as a reply is a success carrying exactly that reply; a
/// 200s status with any other body is a parse failure carrying the body; any
/// other status is an upstream failure carrying the status and the body
/// verbatim.
pub fn interpret_anthropic_response(status: u16, body: &str) -> (r: Result<
    AnthropicResponse,
    ProviderError,
>)
    ensures
        200 <= status < 300 ==> (match a_response_from_text(body@) {
            Some(rv) => r matches Ok(resp) && resp@ == rv,
            None => r matches Err(e) && e@ == ProviderErrorV::ParseError(body@),
        }),
        !(200 <= status < 300) ==> (r matches Err(e) && e@ == ProviderErrorV::UpstreamError(
            status,
            body@,
        )),
{
    if 200 <= status && status < 300 {
        match parse_json(body) {
            Some(doc) => match a_response_from_json(&doc) {
                Some(resp) => Ok(resp),
                None => Err(ProviderError::ParseError(String::from_str(body))),
            },
            None => Err(ProviderError::ParseError(String::from_str(body))),
        }
    } else {
        Err(ProviderError::UpstreamError(status, String::from_str(body)))
    }
}

/// Classifies a second-provider HTTP exchange, exactly as for the first.
pub fn interpret_openai_response(status: u16, body: &str) -> (r: Result<
    OpenAIResponse,
    ProviderError,
>)
    ensures
        200 <= status < 300 ==> (match o_response_from_text(body@) {
            Some(rv) => r matches Ok(resp) && resp@ == rv,
            None => r matches Err(e) && e@ == ProviderErrorV::ParseError(body@),
        }),
        !(200 <= status < 300) ==> (r matches Err(e) && e@ == ProviderErrorV::UpstreamError(
            status,
            body@,
        )),
{
    if 200 <= status && status < 300 {
        match parse_json(body) {
            Some(doc) => match o_response_from_json(&doc) {
                Some(resp) => Ok(resp),
                None => Err(ProviderError::ParseError(String::from_str(body))),
            },
            None => Err(ProviderError::ParseError(String::from_str(body))),
        }
    } else {
        Err(ProviderError::UpstreamError(status, String::from_str(body)))
    }
}

/// Reads the model catalog from its document text, in file order; a document
/// that does not read as a catalog is a catalog parse failure.
pub fn models_from_text(text: &str) -> (r: Result<Vec<ModelInfo>, ProviderError>)
    ensures
        match catalog_from_text(text@) {
            Some(rootv) => r matches Ok(ms) && model_views(ms@) == rootv.models,
            None => r matches Err(e) && e@ == ProviderErrorV::CatalogParseError(
                "malformed catalog document"@,
            ),
        },
{
    match crate::llm::parse_catalog(text) {
        Some(root) => Ok(root.models),
        None => Err(
            ProviderError::CatalogParseError(String::from_str("malformed catalog document")),
        ),
    }
}

} // verus!
