//! Typed extraction of provider replies from parsed JSON documents.  Each
//! extractor is proved to return exactly the record its spec-level reading
//! denotes; members the records do not mention are ignored, which keeps the
//! readers tolerant of provider evolution.
use vstd::prelude::*;
use crate::dto::{
    AResponseV, AnthropicContentWithThinking, AnthropicResponse, AnthropicUsage, ContentV,
    OResponseV, OpenAIMetadata, OpenAIOutputContent, OpenAIOutputMessage, OpenAIResponse,
    OpenAITokenDetails, OpenAIUsage, OutputContentV, OutputMessageV, content_views,
    output_content_views, output_message_views,
};
use crate::json::{
    Json, JsonV, as_u32, as_u64, json_clone, json_u32, json_u64, lemma_view_list_index, lookup,
    obj_get, str_eq_chars, view_list, view_members,
};

verus! {

/// A member that must hold a string.
pub open spec fn str_field(m: Seq<(Seq<char>, JsonV)>, key: Seq<char>) -> Option<Seq<char>> {
    match lookup(m, key) {
        Some(JsonV::Str(s)) => Some(s),
        _ => None,
    }
}

/// A member that must hold an unsigned 32-bit number.
pub open spec fn u32_field(m: Seq<(Seq<char>, JsonV)>, key: Seq<char>) -> Option<u32> {
    match lookup(m, key) {
        Some(j) => as_u32(j),
        None => None,
    }
}

/// A member that must hold an unsigned 64-bit number.
pub open spec fn u64_field(m: Seq<(Seq<char>, JsonV)>, key: Seq<char>) -> Option<u64> {
    match lookup(m, key) {
        Some(j) => as_u64(j),
        None => None,
    }
}

/// A member that must hold a boolean.
pub open spec fn bool_field(m: Seq<(Seq<char>, JsonV)>, key: Seq<char>) -> Option<bool> {
    match lookup(m, key) {
        Some(JsonV::Bool(b)) => Some(b),
        _ => None,
    }
}

/// A member that must hold a number; its raw token is kept.
pub open spec fn num_raw_field(m: Seq<(Seq<char>, JsonV)>, key: Seq<char>) -> Option<Seq<char>> {
    match lookup(m, key) {
        Some(JsonV::Num(raw)) => Some(raw),
        _ => None,
    }
}

/// An optional string member: absent or null reads as nothing, a string as
/// itself, anything else as a malformed reply (outer `None`).
pub open spec fn opt_str_field(m: Seq<(Seq<char>, JsonV)>, key: Seq<char>) -> Option<
    Option<Seq<char>>,
> {
    match lookup(m, key) {
        None => Some(None),
        Some(JsonV::Null) => Some(None),
        Some(JsonV::Str(s)) => Some(Some(s)),
        Some(_) => None,
    }
}

/// An optional unsigned 32-bit member, read like `opt_str_field`.
pub open spec fn opt_u32_field(m: Seq<(Seq<char>, JsonV)>, key: Seq<char>) -> Option<Option<u32>> {
    match lookup(m, key) {
        None => Some(None),
        Some(JsonV::Null) => Some(None),
        Some(j) => match as_u32(j) {
            Some(n) => Some(Some(n)),
            None => None,
        },
    }
}

/// An optional member kept as a document: absent or null reads as nothing.
pub open spec fn opt_json_field(m: Seq<(Seq<char>, JsonV)>, key: Seq<char>) -> Option<JsonV> {
    match lookup(m, key) {
        None => None,
        Some(JsonV::Null) => None,
        Some(j) => Some(j),
    }
}

/// Reads a member that must hold a string.
pub fn get_str_field(members: &Vec<(String, Json)>, key: &str) -> (r: Option<String>)
    ensures
        match r {
            Some(s) => str_field(view_members(members@), key@) == Some(s@),
            None => str_field(view_members(members@), key@) is None,
        },
{
    match obj_get(members, key) {
        Some(Json::Str(s)) => Some(s.clone()),
        _ => None,
    }
}

/// Reads a member that must hold an unsigned 32-bit number.
pub fn get_u32_field(members: &Vec<(String, Json)>, key: &str) -> (r: Option<u32>)
    ensures
        r == u32_field(view_members(members@), key@),
{
    match obj_get(members, key) {
        Some(j) => json_u32(j),
        None => None,
    }
}

/// Reads a member that must hold an unsigned 64-bit number.
pub fn get_u64_field(members: &Vec<(String, Json)>, key: &str) -> (r: Option<u64>)
    ensures
        r == u64_field(view_members(members@), key@),
{
    match obj_get(members, key) {
        Some(j) => json_u64(j),
        None => None,
    }
}

/// Reads a member that must hold a boolean.
pub fn get_bool_field(members: &Vec<(String, Json)>, key: &str) -> (r: Option<bool>)
    ensures
        r == bool_field(view_members(members@), key@),
{
    match obj_get(members, key) {
        Some(Json::Bool(b)) => Some(*b),
        _ => None,
    }
}

/// Reads a number member, keeping its raw token.
pub fn get_num_raw_field(members: &Vec<(String, Json)>, key: &str) -> (r: Option<String>)
    ensures
        match r {
            Some(s) => num_raw_field(view_members(members@), key@) == Some(s@),
            None => num_raw_field(view_members(members@), key@) is None,
        },
{
    match obj_get(members, key) {
        Some(Json::Num(s)) => Some(s.clone()),
        _ => None,
    }
}

/// Reads an optional string member.
pub fn get_opt_str_field(members: &Vec<(String, Json)>, key: &str) -> (r: Option<Option<String>>)
    ensures
        match r {
            Some(Some(s)) => opt_str_field(view_members(members@), key@) == Some(Some(s@)),
            Some(None) => opt_str_field(view_members(members@), key@) == Some(None::<Seq<char>>),
            None => opt_str_field(view_members(members@), key@) is None,
        },
{
    match obj_get(members, key) {
        None => Some(None),
        Some(Json::Null) => Some(None),
        Some(Json::Str(s)) => Some(Some(s.clone())),
        Some(_) => None,
    }
}

/// Reads an optional unsigned 32-bit member.
pub fn get_opt_u32_field(members: &Vec<(String, Json)>, key: &str) -> (r: Option<Option<u32>>)
    ensures
        r == opt_u32_field(view_members(members@), key@),
{
    match obj_get(members, key) {
        None => Some(None),
        Some(Json::Null) => Some(None),
        Some(j) => match json_u32(j) {
            Some(n) => Some(Some(n)),
            None => None,
        },
    }
}

/// Reads an optional member kept as a document.
pub fn get_opt_json_field(members: &Vec<(String, Json)>, key: &str) -> (r: Option<Json>)
    ensures
        match r {
            Some(j) => opt_json_field(view_members(members@), key@) == Some(j@),
            None => opt_json_field(view_members(members@), key@) is None,
        },
{
    match obj_get(members, key) {
        None => None,
        Some(Json::Null) => None,
        Some(j) => Some(json_clone(j)),
    }
}

/// One first-provider content block: a text block or a reasoning block,
/// discriminated by its `type` member.
pub open spec fn a_content_of(j: JsonV) -> Option<ContentV> {
    match j {
        JsonV::Obj(m) => match str_field(m, "type"@) {
            Some(t) => if t == "text"@ {
                match str_field(m, "text"@) {
                    Some(x) => Some(ContentV::Text { text: x }),
                    None => None,
                }
            } else if t == "thinking"@ {
                match (str_field(m, "thinking"@), str_field(m, "signature"@)) {
                    (Some(th), Some(sg)) => Some(ContentV::Thinking { thinking: th, signature: sg }),
                    _ => None,
                }
            } else {
                None
            },
            None => None,
        },
        _ => None,
    }
}

pub open spec fn a_contents_of(items: Seq<JsonV>) -> Option<Seq<ContentV>>
    decreases items.len(),
{
    if items.len() == 0 {
        Some(Seq::empty())
    } else {
        match a_content_of(items[0]) {
            Some(c) => match a_contents_of(items.drop_first()) {
                Some(rest) => Some(seq![c] + rest),
                None => None,
            },
            None => None,
        }
    }
}

/// The token accounting of a first-provider reply.
pub open spec fn a_usage_of(m: Seq<(Seq<char>, JsonV)>) -> Option<(u32, u32)> {
    match lookup(m, "usage"@) {
        Some(JsonV::Obj(um)) => match (u32_field(um, "input_tokens"@), u32_field(
            um,
            "output_tokens"@,
        )) {
            (Some(it), Some(ot)) => Some((it, ot)),
            _ => None,
        },
        _ => None,
    }
}

/// The whole first-provider reply, read from a parsed document.
pub open spec fn a_response_of(j: JsonV) -> Option<AResponseV> {
    match j {
        JsonV::Obj(m) => {
            let content = match lookup(m, "content"@) {
                Some(JsonV::Arr(items)) => a_contents_of(items),
                _ => None,
            };
            let id = str_field(m, "id"@);
            let model = str_field(m, "model"@);
            let role = str_field(m, "role"@);
            let stop_reason = str_field(m, "stop_reason"@);
            let stop_sequence = opt_str_field(m, "stop_sequence"@);
            let kind = str_field(m, "type"@);
            let usage = a_usage_of(m);
            if content is Some && id is Some && model is Some && role is Some && stop_reason
                is Some && stop_sequence is Some && kind is Some && usage is Some {
                let u = usage->0;
                Some(
                    AResponseV {
                        content: content->0,
                        id: id->0,
                        model: model->0,
                        role: role->0,
                        stop_reason: stop_reason->0,
                        stop_sequence: stop_sequence->0,
                        kind: kind->0,
                        input_tokens: u.0,
                        output_tokens: u.1,
                    },
                )
            } else {
                None
            }
        },
        _ => None,
    }
}

/// Reads one first-provider content block.
fn a_content_from_json(j: &Json) -> (r: Option<AnthropicContentWithThinking>)
    ensures
        match r {
            Some(c) => a_content_of(j@) == Some(c@),
            None => a_content_of(j@) is None,
        },
{
    let members = match j {
        Json::Obj(m) => m,
        _ => {
            return None;
        },
    };
    let t = match get_str_field(members, "type") {
        Some(t) => t,
        None => {
            return None;
        },
    };
    if str_eq_chars(t.as_str(), "text") {
        match get_str_field(members, "text") {
            Some(x) => Some(AnthropicContentWithThinking::Text { text: x }),
            None => None,
        }
    } else if str_eq_chars(t.as_str(), "thinking") {
        let th = match get_str_field(members, "thinking") {
            Some(th) => th,
            None => {
                return None;
            },
        };
        match get_str_field(members, "signature") {
            Some(sg) => Some(
                AnthropicContentWithThinking::Thinking { thinking: th, signature: sg },
            ),
            None => None,
        }
    } else {
        None
    }
}

/// Reads the content blocks of a first-provider reply.
fn a_contents_from_json(items: &Vec<Json>) -> (r: Option<Vec<AnthropicContentWithThinking>>)
    ensures
        match r {
            Some(cs) => a_contents_of(view_list(items@)) == Some(content_views(cs@)),
            None => a_contents_of(view_list(items@)) is None,
        },
{
    let ghost vl = view_list(items@);
    proof {
        lemma_view_list_index(items@);
    }
    let mut acc: Vec<AnthropicContentWithThinking> = Vec::new();
    let mut i: usize = 0;
    proof {
        assert(vl.skip(0) =~= vl);
        assert(content_views(acc@) =~= Seq::<ContentV>::empty());
    }
    while i < items.len()
        invariant
            i <= items@.len(),
            acc@.len() == i,
            vl == view_list(items@),
            vl.len() == items@.len(),
            forall|t: int| 0 <= t < items@.len() ==> vl[t] == items@[t]@,
            a_contents_of(vl) == (match a_contents_of(vl.skip(i as int)) {
                Some(rest) => Some(content_views(acc@) + rest),
                None => None::<Seq<ContentV>>,
            }),
        decreases items@.len() - i,
    {
        proof {
            assert(vl.skip(i as int).len() == vl.len() - i);
            assert(vl.skip(i as int)[0] == vl[i as int]);
            assert(vl.skip(i as int).drop_first() =~= vl.skip(i + 1));
        }
        match a_content_from_json(&items[i]) {
            Some(c) => {
                let ghost accold = acc@;
                acc.push(c);
                proof {
                    assert(content_views(acc@) =~= content_views(accold) + seq![acc@[i as int]@]);
                }
            },
            None => {
                return None;
            },
        }
        i += 1;
    }
    proof {
        assert(vl.skip(items@.len() as int) =~= Seq::<JsonV>::empty());
        assert(content_views(acc@) + Seq::<ContentV>::empty() =~= content_views(acc@));
    }
    Some(acc)
}

/// Reads a whole first-provider reply from a parsed document.
pub fn a_response_from_json(j: &Json) -> (r: Option<AnthropicResponse>)
    ensures
        match r {
            Some(resp) => a_response_of(j@) == Some(resp@),
            None => a_response_of(j@) is None,
        },
{
    let members = match j {
        Json::Obj(m) => m,
        _ => {
            return None;
        },
    };
    let content = match obj_get(members, "content") {
        Some(Json::Arr(items)) => match a_contents_from_json(items) {
            Some(cs) => cs,
            None => {
                return None;
            },
        },
        _ => {
            return None;
        },
    };
    let id = match get_str_field(members, "id") {
        Some(s) => s,
        None => {
            return None;
        },
    };
    let model = match get_str_field(members, "model") {
        Some(s) => s,
        None => {
            return None;
        },
    };
    let role = match get_str_field(members, "role") {
        Some(s) => s,
        None => {
            return None;
        },
    };
    let stop_reason = match get_str_field(members, "stop_reason") {
        Some(s) => s,
        None => {
            return None;
        },
    };
    let stop_sequence = match get_opt_str_field(members, "stop_sequence") {
        Some(o) => o,
        None => {
            return None;
        },
    };
    let kind = match get_str_field(members, "type") {
        Some(s) => s,
        None => {
            return None;
        },
    };
    let usage_members = match obj_get(members, "usage") {
        Some(Json::Obj(um)) => um,
        _ => {
            return None;
        },
    };
    let input_tokens = match get_u32_field(usage_members, "input_tokens") {
        Some(n) => n,
        None => {
            return None;
        },
    };
    let output_tokens = match get_u32_field(usage_members, "output_tokens") {
        Some(n) => n,
        None => {
            return None;
        },
    };
    Some(
        AnthropicResponse {
            content,
            id,
            model,
            role,
            stop_reason,
            stop_sequence,
            kind,
            usage: AnthropicUsage { input_tokens, output_tokens },
        },
    )
}


/// Token detail of the second provider's accounting.
pub open spec fn token_details_of(j: JsonV) -> Option<OpenAITokenDetails> {
    match j {
        JsonV::Obj(m) => match (opt_u32_field(m, "cached_tokens"@), opt_u32_field(
            m,
            "reasoning_tokens"@,
        )) {
            (Some(c), Some(r)) => Some(OpenAITokenDetails { cached_tokens: c, reasoning_tokens: r }),
            _ => None,
        },
        _ => None,
    }
}

/// An optional token-detail member.
pub open spec fn opt_details_field(m: Seq<(Seq<char>, JsonV)>, key: Seq<char>) -> Option<
    Option<OpenAITokenDetails>,
> {
    match lookup(m, key) {
        None => Some(None),
        Some(JsonV::Null) => Some(None),
        Some(j) => match token_details_of(j) {
            Some(d) => Some(Some(d)),
            None => None,
        },
    }
}

/// The second provider's token accounting.
pub open spec fn o_usage_of(j: JsonV) -> Option<OpenAIUsage> {
    match j {
        JsonV::Obj(m) => {
            let it = u32_field(m, "input_tokens"@);
            let itd = opt_details_field(m, "input_tokens_details"@);
            let ot = u32_field(m, "output_tokens"@);
            let otd = opt_details_field(m, "output_tokens_details"@);
            let tt = u32_field(m, "total_tokens"@);
            if it is Some && itd is Some && ot is Some && otd is Some && tt is Some {
                Some(
                    OpenAIUsage {
                        input_tokens: it->0,
                        input_tokens_details: itd->0,
                        output_tokens: ot->0,
                        output_tokens_details: otd->0,
                        total_tokens: tt->0,
                    },
                )
            } else {
                None
            }
        },
        _ => None,
    }
}

/// An optional accounting member.
pub open spec fn opt_usage_field(m: Seq<(Seq<char>, JsonV)>) -> Option<Option<OpenAIUsage>> {
    match lookup(m, "usage"@) {
        None => Some(None),
        Some(JsonV::Null) => Some(None),
        Some(j) => match o_usage_of(j) {
            Some(u) => Some(Some(u)),
            None => None,
        },
    }
}

/// An optional free-form annotation object.
pub open spec fn opt_metadata_field(m: Seq<(Seq<char>, JsonV)>) -> Option<Option<OpenAIMetadata>> {
    match lookup(m, "metadata"@) {
        None => Some(None),
        Some(JsonV::Null) => Some(None),
        Some(JsonV::Obj(_)) => Some(Some(OpenAIMetadata {  })),
        Some(_) => None,
    }
}

/// One annotated text block of a second-provider reply.
pub open spec fn o_output_content_of(j: JsonV) -> Option<OutputContentV> {
    match j {
        JsonV::Obj(m) => {
            let kind = str_field(m, "type"@);
            let text = str_field(m, "text"@);
            let ann = match lookup(m, "annotations"@) {
                Some(JsonV::Arr(items)) => Some(items),
                _ => None,
            };
            if kind is Some && text is Some && ann is Some {
                Some(OutputContentV { kind: kind->0, text: text->0, annotations: ann->0 })
            } else {
                None
            }
        },
        _ => None,
    }
}

pub open spec fn o_output_contents_of(items: Seq<JsonV>) -> Option<Seq<OutputContentV>>
    decreases items.len(),
{
    if items.len() == 0 {
        Some(Seq::empty())
    } else {
        match o_output_content_of(items[0]) {
            Some(c) => match o_output_contents_of(items.drop_first()) {
                Some(rest) => Some(seq![c] + rest),
                None => None,
            },
            None => None,
        }
    }
}

/// One message envelope of a second-provider reply.
pub open spec fn o_output_message_of(j: JsonV) -> Option<OutputMessageV> {
    match j {
        JsonV::Obj(m) => {
            let kind = str_field(m, "type"@);
            let id = str_field(m, "id"@);
            let status = str_field(m, "status"@);
            let role = str_field(m, "role"@);
            let content = match lookup(m, "content"@) {
                Some(JsonV::Arr(items)) => o_output_contents_of(items),
                _ => None,
            };
            if kind is Some && id is Some && status is Some && role is Some && content is Some {
                Some(
                    OutputMessageV {
                        kind: kind->0,
                        id: id->0,
                        status: status->0,
                        role: role->0,
                        content: content->0,
                    },
                )
            } else {
                None
            }
        },
        _ => None,
    }
}

pub open spec fn o_output_messages_of(items: Seq<JsonV>) -> Option<Seq<OutputMessageV>>
    decreases items.len(),
{
    if items.len() == 0 {
        Some(Seq::empty())
    } else {
        match o_output_message_of(items[0]) {
            Some(c) => match o_output_messages_of(items.drop_first()) {
                Some(rest) => Some(seq![c] + rest),
                None => None,
            },
            None => None,
        }
    }
}

/// The whole second-provider reply, read from a parsed document.
pub open spec fn o_response_of(j: JsonV) -> Option<OResponseV> {
    match j {
        JsonV::Obj(m) => {
            let id = str_field(m, "id"@);
            let object = str_field(m, "object"@);
            let created_at = u64_field(m, "created_at"@);
            let status = str_field(m, "status"@);
            let max_out = opt_u32_field(m, "max_output_tokens"@);
            let model = str_field(m, "model"@);
            let output = match lookup(m, "output"@) {
                Some(JsonV::Arr(items)) => o_output_messages_of(items),
                _ => None,
            };
            let ptc = bool_field(m, "parallel_tool_calls"@);
            let prev = opt_str_field(m, "previous_response_id"@);
            let store = bool_field(m, "store"@);
            let temperature = num_raw_field(m, "temperature"@);
            let tool_choice = str_field(m, "tool_choice"@);
            let tools = match lookup(m, "tools"@) {
                Some(JsonV::Arr(items)) => Some(items),
                _ => None,
            };
            let top_p = num_raw_field(m, "top_p"@);
            let truncation = str_field(m, "truncation"@);
            let usage = opt_usage_field(m);
            let user = opt_str_field(m, "user"@);
            let metadata = opt_metadata_field(m);
            if id is Some && object is Some && created_at is Some && status is Some && max_out
                is Some && model is Some && output is Some && ptc is Some && prev is Some && store
                is Some && temperature is Some && tool_choice is Some && tools is Some && top_p
                is Some && truncation is Some && usage is Some && user is Some && metadata
                is Some {
                Some(
                    OResponseV {
                        id: id->0,
                        object: object->0,
                        created_at: created_at->0,
                        status: status->0,
                        error: opt_json_field(m, "error"@),
                        incomplete_details: opt_json_field(m, "incomplete_details"@),
                        instructions: opt_json_field(m, "instructions"@),
                        max_output_tokens: max_out->0,
                        model: model->0,
                        output: output->0,
                        parallel_tool_calls: ptc->0,
                        previous_response_id: prev->0,
                        store: store->0,
                        temperature: temperature->0,
                        tool_choice: tool_choice->0,
                        tools: tools->0,
                        top_p: top_p->0,
                        truncation: truncation->0,
                        usage: usage->0,
                        user: user->0,
                        metadata: metadata->0,
                    },
                )
            } else {
                None
            }
        },
        _ => None,
    }
}

/// Structural copies of a list of documents.
fn clone_json_list(v: &Vec<Json>) -> (r: Vec<Json>)
    ensures
        view_list(r@) == view_list(v@),
{
    let mut out: Vec<Json> = Vec::new();
    let mut i: usize = 0;
    while i < v.len()
        invariant
            i <= v@.len(),
            out@.len() == i,
            forall|t: int| 0 <= t < i ==> out@[t]@ == v@[t]@,
        decreases v@.len() - i,
    {
        let c = json_clone(&v[i]);
        out.push(c);
        i += 1;
    }
    proof {
        lemma_view_list_index(v@);
        lemma_view_list_index(out@);
        assert(view_list(out@) =~= view_list(v@));
    }
    out
}

/// Reads one token-detail object.
fn token_details_from_json(j: &Json) -> (r: Option<OpenAITokenDetails>)
    ensures
        r == token_details_of(j@),
{
    let members = match j {
        Json::Obj(m) => m,
        _ => {
            return None;
        },
    };
    let c = match get_opt_u32_field(members, "cached_tokens") {
        Some(c) => c,
        None => {
            return None;
        },
    };
    match get_opt_u32_field(members, "reasoning_tokens") {
        Some(r) => Some(OpenAITokenDetails { cached_tokens: c, reasoning_tokens: r }),
        None => None,
    }
}

/// Reads an optional token-detail member.
fn get_opt_details_field(members: &Vec<(String, Json)>, key: &str) -> (r: Option<
    Option<OpenAITokenDetails>,
>)
    ensures
        r == opt_details_field(view_members(members@), key@),
{
    match obj_get(members, key) {
        None => Some(None),
        Some(Json::Null) => Some(None),
        Some(j) => match token_details_from_json(j) {
            Some(d) => Some(Some(d)),
            None => None,
        },
    }
}

/// Reads the second provider's accounting object.
fn o_usage_from_json(j: &Json) -> (r: Option<OpenAIUsage>)
    ensures
        r == o_usage_of(j@),
{
    let members = match j {
        Json::Obj(m) => m,
        _ => {
            return None;
        },
    };
    let it = match get_u32_field(members, "input_tokens") {
        Some(n) => n,
        None => {
            return None;
        },
    };
    let itd = match get_opt_details_field(members, "input_tokens_details") {
        Some(d) => d,
        None => {
            return None;
        },
    };
    let ot = match get_u32_field(members, "output_tokens") {
        Some(n) => n,
        None => {
            return None;
        },
    };
    let otd = match get_opt_details_field(members, "output_tokens_details") {
        Some(d) => d,
        None => {
            return None;
        },
    };
    match get_u32_field(members, "total_tokens") {
        Some(tt) => Some(
            OpenAIUsage {
                input_tokens: it,
                input_tokens_details: itd,
                output_tokens: ot,
                output_tokens_details: otd,
                total_tokens: tt,
            },
        ),
        None => None,
    }
}

/// Reads one annotated text block.
fn o_output_content_from_json(j: &Json) -> (r: Option<OpenAIOutputContent>)
    ensures
        match r {
            Some(c) => o_output_content_of(j@) == Some(c@),
            None => o_output_content_of(j@) is None,
        },
{
    let members = match j {
        Json::Obj(m) => m,
        _ => {
            return None;
        },
    };
    let kind = match get_str_field(members, "type") {
        Some(s) => s,
        None => {
            return None;
        },
    };
    let text = match get_str_field(members, "text") {
        Some(s) => s,
        None => {
            return None;
        },
    };
    match obj_get(members, "annotations") {
        Some(Json::Arr(items)) => {
            let ann = clone_json_list(items);
            Some(OpenAIOutputContent { kind, text, annotations: ann })
        },
        _ => None,
    }
}

/// Reads the text blocks of one message envelope.
fn o_output_contents_from_json(items: &Vec<Json>) -> (r: Option<Vec<OpenAIOutputContent>>)
    ensures
        match r {
            Some(cs) => o_output_contents_of(view_list(items@)) == Some(output_content_views(cs@)),
            None => o_output_contents_of(view_list(items@)) is None,
        },
{
    let ghost vl = view_list(items@);
    proof {
        lemma_view_list_index(items@);
    }
    let mut acc: Vec<OpenAIOutputContent> = Vec::new();
    let mut i: usize = 0;
    proof {
        assert(vl.skip(0) =~= vl);
        assert(output_content_views(acc@) =~= Seq::<OutputContentV>::empty());
    }
    while i < items.len()
        invariant
            i <= items@.len(),
            acc@.len() == i,
            vl == view_list(items@),
            vl.len() == items@.len(),
            forall|t: int| 0 <= t < items@.len() ==> vl[t] == items@[t]@,
            o_output_contents_of(vl) == (match o_output_contents_of(vl.skip(i as int)) {
                Some(rest) => Some(output_content_views(acc@) + rest),
                None => None::<Seq<OutputContentV>>,
            }),
        decreases items@.len() - i,
    {
        proof {
            assert(vl.skip(i as int).len() == vl.len() - i);
            assert(vl.skip(i as int)[0] == vl[i as int]);
            assert(vl.skip(i as int).drop_first() =~= vl.skip(i + 1));
        }
        match o_output_content_from_json(&items[i]) {
            Some(c) => {
                let ghost accold = acc@;
                acc.push(c);
                proof {
                    assert(output_content_views(acc@) =~= output_content_views(accold) + seq![
                        acc@[i as int]@,
                    ]);
                }
            },
            None => {
                return None;
            },
        }
        i += 1;
    }
    proof {
        assert(vl.skip(items@.len() as int) =~= Seq::<JsonV>::empty());
        assert(output_content_views(acc@) + Seq::<OutputContentV>::empty() =~= output_content_views(
            acc@,
        ));
    }
    Some(acc)
}

/// Reads one message envelope.
fn o_output_message_from_json(j: &Json) -> (r: Option<OpenAIOutputMessage>)
    ensures
        match r {
            Some(c) => o_output_message_of(j@) == Some(c@),
            None => o_output_message_of(j@) is None,
        },
{
    let members = match j {
        Json::Obj(m) => m,
        _ => {
            return None;
        },
    };
    let kind = match get_str_field(members, "type") {
        Some(s) => s,
        None => {
            return None;
        },
    };
    let id = match get_str_field(members, "id") {
        Some(s) => s,
        None => {
            return None;
        },
    };
    let status = match get_str_field(members, "status") {
        Some(s) => s,
        None => {
            return None;
        },
    };
    let role = match get_str_field(members, "role") {
        Some(s) => s,
        None => {
            return None;
        },
    };
    match obj_get(members, "content") {
        Some(Json::Arr(items)) => match o_output_contents_from_json(items) {
            Some(content) => Some(OpenAIOutputMessage { kind, id, status, role, content }),
            None => None,
        },
        _ => None,
    }
}

/// Reads the message envelopes of a second-provider reply.
fn o_output_messages_from_json(items: &Vec<Json>) -> (r: Option<Vec<OpenAIOutputMessage>>)
    ensures
        match r {
            Some(cs) => o_output_messages_of(view_list(items@)) == Some(output_message_views(cs@)),
            None => o_output_messages_of(view_list(items@)) is None,
        },
{
    let ghost vl = view_list(items@);
    proof {
        lemma_view_list_index(items@);
    }
    let mut acc: Vec<OpenAIOutputMessage> = Vec::new();
    let mut i: usize = 0;
    proof {
        assert(vl.skip(0) =~= vl);
        assert(output_message_views(acc@) =~= Seq::<OutputMessageV>::empty());
    }
    while i < items.len()
        invariant
            i <= items@.len(),
            acc@.len() == i,
            vl == view_list(items@),
            vl.len() == items@.len(),
            forall|t: int| 0 <= t < items@.len() ==> vl[t] == items@[t]@,
            o_output_messages_of(vl) == (match o_output_messages_of(vl.skip(i as int)) {
                Some(rest) => Some(output_message_views(acc@) + rest),
                None => None::<Seq<OutputMessageV>>,
            }),
        decreases items@.len() - i,
    {
        proof {
            assert(vl.skip(i as int).len() == vl.len() - i);
            assert(vl.skip(i as int)[0] == vl[i as int]);
            assert(vl.skip(i as int).drop_first() =~= vl.skip(i + 1));
        }
        match o_output_message_from_json(&items[i]) {
            Some(c) => {
                let ghost accold = acc@;
                acc.push(c);
                proof {
                    assert(output_message_views(acc@) =~= output_message_views(accold) + seq![
                        acc@[i as int]@,
                    ]);
                }
            },
            None => {
                return None;
            },
        }
        i += 1;
    }
    proof {
        assert(vl.skip(items@.len() as int) =~= Seq::<JsonV>::empty());
        assert(output_message_views(acc@) + Seq::<OutputMessageV>::empty() =~= output_message_views(
            acc@,
        ));
    }
    Some(acc)
}

/// Reads a whole second-provider reply from a parsed document.
pub fn o_response_from_json(j: &Json) -> (r: Option<OpenAIResponse>)
    ensures
        match r {
            Some(resp) => o_response_of(j@) == Some(resp@),
            None => o_response_of(j@) is None,
        },
{
    let members = match j {
        Json::Obj(m) => m,
        _ => {
            return None;
        },
    };
    let id = match get_str_field(members, "id") {
        Some(s) => s,
        None => {
            return None;
        },
    };
    let object = match get_str_field(members, "object") {
        Some(s) => s,
        None => {
            return None;
        },
    };
    let created_at = match get_u64_field(members, "created_at") {
        Some(n) => n,
        None => {
            return None;
        },
    };
    let status = match get_str_field(members, "status") {
        Some(s) => s,
        None => {
            return None;
        },
    };
    let max_output_tokens = match get_opt_u32_field(members, "max_output_tokens") {
        Some(o) => o,
        None => {
            return None;
        },
    };
    let model = match get_str_field(members, "model") {
        Some(s) => s,
        None => {
            return None;
        },
    };
    let output = match obj_get(members, "output") {
        Some(Json::Arr(items)) => match o_output_messages_from_json(items) {
            Some(ms) => ms,
            None => {
                return None;
            },
        },
        _ => {
            return None;
        },
    };
    let parallel_tool_calls = match get_bool_field(members, "parallel_tool_calls") {
        Some(b) => b,
        None => {
            return None;
        },
    };
    let previous_response_id = match get_opt_str_field(members, "previous_response_id") {
        Some(o) => o,
        None => {
            return None;
        },
    };
    let store = match get_bool_field(members, "store") {
        Some(b) => b,
        None => {
            return None;
        },
    };
    let temperature = match get_num_raw_field(members, "temperature") {
        Some(s) => s,
        None => {
            return None;
        },
    };
    let tool_choice = match get_str_field(members, "tool_choice") {
        Some(s) => s,
        None => {
            return None;
        },
    };
    let tools = match obj_get(members, "tools") {
        Some(Json::Arr(items)) => clone_json_list(items),
        _ => {
            return None;
        },
    };
    let top_p = match get_num_raw_field(members, "top_p") {
        Some(s) => s,
        None => {
            return None;
        },
    };
    let truncation = match get_str_field(members, "truncation") {
        Some(s) => s,
        None => {
            return None;
        },
    };
    let usage = match obj_get(members, "usage") {
        None => None,
        Some(Json::Null) => None,
        Some(u) => match o_usage_from_json(u) {
            Some(u2) => Some(u2),
            None => {
                return None;
            },
        },
    };
    let user = match get_opt_str_field(members, "user") {
        Some(o) => o,
        None => {
            return None;
        },
    };
    let metadata = match obj_get(members, "metadata") {
        None => None,
        Some(Json::Null) => None,
        Some(Json::Obj(_)) => Some(OpenAIMetadata {  }),
        Some(_) => {
            return None;
        },
    };
    let error = get_opt_json_field(members, "error");
    let incomplete_details = get_opt_json_field(members, "incomplete_details");
    let instructions = get_opt_json_field(members, "instructions");
    Some(
        OpenAIResponse {
            id,
            object,
            created_at,
            status,
            error,
            incomplete_details,
            instructions,
            max_output_tokens,
            model,
            output,
            parallel_tool_calls,
            previous_response_id,
            store,
            temperature,
            tool_choice,
            tools,
            top_p,
            truncation,
            usage,
            user,
            metadata,
        },
    )
}

} // verus!
