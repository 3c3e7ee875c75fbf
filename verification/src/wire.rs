//! Explicit assembly of the two providers' JSON request payloads.  Each
//! serializer's contract pins the whole body, character for character, to a
//! spec-level rendering; the optional members (`system`, `thinking`,
//! `instructions`) are elided from the rendering when absent, never written
//! as null.
use vstd::prelude::*;
use vstd::string::StrSliceExecFns;
use vstd::seq_lib::lemma_concat_associative;
use crate::dto::{
    ARequestV, AnthropicRequest, AnthropicSystemMessage, MessageV, ORequestV, OpenAIRequest,
    SystemMessageV, ThinkingV, VoisiaMessage, message_views, system_views,
};
use crate::text::{
    dec_seq, lemma_flat3, lemma_flat5, micros_seq, push_micros, push_str_chars, push_u32_dec,
    string_from_chars,
};

verus! {

/// Lower-case hexadecimal digit character for a value below sixteen.
pub open spec fn hex_char(d: int) -> char {
    if d < 10 {
        (48 + d) as char
    } else {
        (87 + d) as char
    }
}

/// How one character appears inside a JSON string literal: quote, backslash
/// and the named control characters take two-character escapes, the other
/// control characters a `\u00..` escape, everything else stands as itself.
pub open spec fn escape_char(c: char) -> Seq<char> {
    if c == '"' {
        seq!['\\', '"']
    } else if c == '\\' {
        seq!['\\', '\\']
    } else if c == '\u{8}' {
        seq!['\\', 'b']
    } else if c == '\u{c}' {
        seq!['\\', 'f']
    } else if c == '\n' {
        seq!['\\', 'n']
    } else if c == '\r' {
        seq!['\\', 'r']
    } else if c == '\t' {
        seq!['\\', 't']
    } else if (c as u32) < 32 {
        seq!['\\', 'u', '0', '0', hex_char((c as u32) as int / 16), hex_char(
            (c as u32) as int % 16,
        )]
    } else {
        seq![c]
    }
}

/// The body of a JSON string literal holding the characters of `s`.
pub open spec fn escape_seq(s: Seq<char>) -> Seq<char>
    decreases s.len(),
{
    if s.len() == 0 {
        Seq::empty()
    } else {
        escape_seq(s.drop_last()) + escape_char(s.last())
    }
}

/// A whole JSON string literal: quotes around the escaped characters.
pub open spec fn jstr(s: Seq<char>) -> Seq<char> {
    seq!['"'] + escape_seq(s) + seq!['"']
}

/// One conversation turn as a JSON object.
pub open spec fn message_json(m: MessageV) -> Seq<char> {
    "{\"role\":"@ + jstr(m.role) + ",\"content\":"@ + jstr(m.content) + seq!['}']
}

/// Comma-joined conversation turns.
pub open spec fn messages_json(s: Seq<MessageV>) -> Seq<char>
    decreases s.len(),
{
    if s.len() == 0 {
        Seq::empty()
    } else if s.len() == 1 {
        message_json(s[0])
    } else {
        messages_json(s.drop_last()) + seq![','] + message_json(s.last())
    }
}

/// A JSON array of conversation turns.
pub open spec fn messages_arr(s: Seq<MessageV>) -> Seq<char> {
    seq!['['] + messages_json(s) + seq![']']
}

/// One system-prompt block as a JSON object, `type` before `text`.
pub open spec fn system_message_json(m: SystemMessageV) -> Seq<char> {
    "{\"type\":"@ + jstr(m.kind) + ",\"text\":"@ + jstr(m.text) + seq!['}']
}

pub open spec fn system_json(s: Seq<SystemMessageV>) -> Seq<char>
    decreases s.len(),
{
    if s.len() == 0 {
        Seq::empty()
    } else if s.len() == 1 {
        system_message_json(s[0])
    } else {
        system_json(s.drop_last()) + seq![','] + system_message_json(s.last())
    }
}

pub open spec fn system_arr(s: Seq<SystemMessageV>) -> Seq<char> {
    seq!['['] + system_json(s) + seq![']']
}

/// A reasoning directive as a JSON object; the budget member is elided when
/// the directive carries none.
pub open spec fn thinking_json(t: ThinkingV) -> Seq<char> {
    "{\"type\":"@ + jstr(t.kind) + (match t.budget_tokens {
        Some(b) => ",\"budget_tokens\":"@ + dec_seq(b as int),
        None => Seq::empty(),
    }) + seq!['}']
}

/// The entire first-provider request body.  The `system` and `thinking`
/// members appear exactly when the request carries them.
pub open spec fn a_body(r: ARequestV) -> Seq<char> {
    "{\"messages\":"@ + messages_arr(r.messages) + ",\"model\":"@ + jstr(r.model)
        + ",\"max_tokens\":"@ + dec_seq(r.max_tokens as int) + (match r.system {
        Some(s) => ",\"system\":"@ + system_arr(s),
        None => Seq::empty(),
    }) + ",\"temperature\":"@ + micros_seq(r.temperature as int) + ",\"top_p\":"@ + micros_seq(
        r.top_p as int,
    ) + (match r.thinking {
        Some(t) => ",\"thinking\":"@ + thinking_json(t),
        None => Seq::empty(),
    }) + seq!['}']
}

/// The entire second-provider request body.  Its members are named `input`,
/// `max_output_tokens` and `instructions` — never `messages`, `max_tokens`
/// or `system` — and `instructions` appears exactly when one is supplied,
/// as a bare string rather than a structured block.
pub open spec fn o_body(r: ORequestV) -> Seq<char> {
    "{\"input\":"@ + messages_arr(r.input) + ",\"model\":"@ + jstr(r.model)
        + ",\"max_output_tokens\":"@ + dec_seq(r.max_output_tokens as int) + ",\"store\":"@ + (if r.store {
        "true"@
    } else {
        "false"@
    }) + (match r.instructions {
        Some(s) => ",\"instructions\":"@ + jstr(s),
        None => Seq::empty(),
    }) + ",\"temperature\":"@ + micros_seq(r.temperature as int) + ",\"top_p\":"@ + micros_seq(
        r.top_p as int,
    ) + seq!['}']
}

/// When no system prompt and no reasoning directive are supplied, the body is
/// exactly the five-member chain: nothing named `system` or `thinking` is
/// rendered anywhere in it.
pub proof fn lemma_a_body_base(r: ARequestV)
    requires
        r.system is None,
        r.thinking is None,
    ensures
        a_body(r) == "{\"messages\":"@ + messages_arr(r.messages) + ",\"model\":"@ + jstr(r.model)
            + ",\"max_tokens\":"@ + dec_seq(r.max_tokens as int) + ",\"temperature\":"@
            + micros_seq(r.temperature as int) + ",\"top_p\":"@ + micros_seq(r.top_p as int)
            + seq!['}'],
{
    assert(a_body(r) =~= "{\"messages\":"@ + messages_arr(r.messages) + ",\"model\":"@ + jstr(
        r.model,
    ) + ",\"max_tokens\":"@ + dec_seq(r.max_tokens as int) + ",\"temperature\":"@ + micros_seq(
        r.temperature as int,
    ) + ",\"top_p\":"@ + micros_seq(r.top_p as int) + seq!['}']);
}

/// When a system prompt is supplied, the body carries a `system` member whose
/// value is the array of structured text blocks, placed between the token
/// limit and the sampling parameters.
pub proof fn lemma_a_body_with_system(r: ARequestV, s: Seq<SystemMessageV>)
    requires
        r.system == Some(s),
        r.thinking is None,
    ensures
        a_body(r) == "{\"messages\":"@ + messages_arr(r.messages) + ",\"model\":"@ + jstr(r.model)
            + ",\"max_tokens\":"@ + dec_seq(r.max_tokens as int) + ",\"system\":"@ + system_arr(s)
            + ",\"temperature\":"@ + micros_seq(r.temperature as int) + ",\"top_p\":"@
            + micros_seq(r.top_p as int) + seq!['}'],
{
    assert(a_body(r) =~= "{\"messages\":"@ + messages_arr(r.messages) + ",\"model\":"@ + jstr(
        r.model,
    ) + ",\"max_tokens\":"@ + dec_seq(r.max_tokens as int) + ",\"system\":"@ + system_arr(s)
        + ",\"temperature\":"@ + micros_seq(r.temperature as int) + ",\"top_p\":"@ + micros_seq(
        r.top_p as int,
    ) + seq!['}']);
}

/// A second-provider body without instructions is exactly the six-member
/// chain: nothing named `instructions`, `messages`, `max_tokens` or `system`
/// is rendered in it.
pub proof fn lemma_o_body_base(r: ORequestV)
    requires
        r.instructions is None,
    ensures
        o_body(r) == "{\"input\":"@ + messages_arr(r.input) + ",\"model\":"@ + jstr(r.model)
            + ",\"max_output_tokens\":"@ + dec_seq(r.max_output_tokens as int) + ",\"store\":"@ + (
        if r.store {
            "true"@
        } else {
            "false"@
        }) + ",\"temperature\":"@ + micros_seq(r.temperature as int) + ",\"top_p\":"@ + micros_seq(
            r.top_p as int,
        ) + seq!['}'],
{
    assert(o_body(r) =~= "{\"input\":"@ + messages_arr(r.input) + ",\"model\":"@ + jstr(r.model)
        + ",\"max_output_tokens\":"@ + dec_seq(r.max_output_tokens as int) + ",\"store\":"@ + (
    if r.store {
        "true"@
    } else {
        "false"@
    }) + ",\"temperature\":"@ + micros_seq(r.temperature as int) + ",\"top_p\":"@ + micros_seq(
        r.top_p as int,
    ) + seq!['}']);
}

/// Appends the characters of `s` as a JSON string literal.
pub fn push_json_string(out: &mut Vec<char>, s: &str)
    ensures
        final(out)@ == old(out)@ + jstr(s@),
{
    out.push('"');
    let n = s.unicode_len();
    let mut i: usize = 0;
    while i < n
        invariant
            n == s@.len(),
            i <= n,
            out@ == old(out)@ + seq!['"'] + escape_seq(s@.take(i as int)),
        decreases n - i,
    {
        let c = s.get_char(i);
        let u = c as u32;
        if c == '"' {
            out.push('\\');
            out.push('"');
        } else if c == '\\' {
            out.push('\\');
            out.push('\\');
        } else if u == 8 {
            out.push('\\');
            out.push('b');
        } else if u == 12 {
            out.push('\\');
            out.push('f');
        } else if c == '\n' {
            out.push('\\');
            out.push('n');
        } else if c == '\r' {
            out.push('\\');
            out.push('r');
        } else if c == '\t' {
            out.push('\\');
            out.push('t');
        } else if u < 32 {
            out.push('\\');
            out.push('u');
            out.push('0');
            out.push('0');
            let hi = u / 16;
            let lo = u % 16;
            out.push(if hi < 10 { (48u8 + hi as u8) as char } else { (87u8 + hi as u8) as char });
            out.push(if lo < 10 { (48u8 + lo as u8) as char } else { (87u8 + lo as u8) as char });
        } else {
            out.push(c);
        }
        proof {
            assert(s@.take(i + 1).drop_last() =~= s@.take(i as int));
            assert(s@.take(i + 1).last() == s@[i as int]);
            assert(out@ =~= old(out)@ + seq!['"'] + (escape_seq(s@.take(i as int)) + escape_char(
                s@[i as int],
            )));
        }
        i += 1;
    }
    out.push('"');
    proof {
        assert(s@.take(n as int) =~= s@);
        assert(out@ =~= old(out)@ + jstr(s@));
    }
}

/// Appends one conversation turn as a JSON object.
fn push_message_obj(out: &mut Vec<char>, m: &VoisiaMessage)
    ensures
        final(out)@ == old(out)@ + message_json(m@),
{
    push_str_chars(out, "{\"role\":");
    push_json_string(out, m.role.as_str());
    push_str_chars(out, ",\"content\":");
    push_json_string(out, m.content.as_str());
    let ghost pre = out@;
    out.push('}');
    proof {
        assert(out@ =~= pre + seq!['}']);
        lemma_flat5(
            old(out)@,
            "{\"role\":"@,
            jstr(m.role@),
            ",\"content\":"@,
            jstr(m.content@),
            seq!['}'],
        );
    }
}

/// Appends one system-prompt block as a JSON object.
fn push_system_obj(out: &mut Vec<char>, m: &AnthropicSystemMessage)
    ensures
        final(out)@ == old(out)@ + system_message_json(m@),
{
    push_str_chars(out, "{\"type\":");
    push_json_string(out, m.kind.as_str());
    push_str_chars(out, ",\"text\":");
    push_json_string(out, m.text.as_str());
    let ghost pre = out@;
    out.push('}');
    proof {
        assert(out@ =~= pre + seq!['}']);
        lemma_flat5(
            old(out)@,
            "{\"type\":"@,
            jstr(m.kind@),
            ",\"text\":"@,
            jstr(m.text@),
            seq!['}'],
        );
    }
}

/// Appends a JSON array of conversation turns.
pub fn push_messages(out: &mut Vec<char>, msgs: &Vec<VoisiaMessage>)
    ensures
        final(out)@ == old(out)@ + messages_arr(message_views(msgs@)),
{
    let ghost base = old(out)@ + seq!['['];
    out.push('[');
    proof {
        assert(out@ =~= base);
        assert(message_views(msgs@).take(0) =~= Seq::<MessageV>::empty());
        assert(base + messages_json(message_views(msgs@).take(0)) =~= base);
    }
    let mut i: usize = 0;
    while i < msgs.len()
        invariant
            i <= msgs@.len(),
            base == old(out)@ + seq!['['],
            out@ == base + messages_json(message_views(msgs@).take(i as int)),
        decreases msgs@.len() - i,
    {
        let ghost mv = message_views(msgs@);
        let ghost prefix = messages_json(mv.take(i as int));
        if i > 0 {
            let ghost pre = out@;
            out.push(',');
            proof {
                assert(out@ =~= pre + seq![',']);
            }
        }
        push_message_obj(out, &msgs[i]);
        proof {
            assert(mv[i as int] == msgs@[i as int]@);
            assert(mv.take(i + 1).drop_last() =~= mv.take(i as int));
            assert(mv.take(i + 1).last() == mv[i as int]);
            if i == 0 {
                assert(prefix =~= Seq::<char>::empty());
                assert((base + prefix) =~= base);
                assert(messages_json(mv.take(1)) == message_json(mv.take(1)[0]));
            } else {
                lemma_concat_associative(base, prefix, seq![',']);
                lemma_concat_associative(base, prefix + seq![','], message_json(mv[i as int]));
            }
        }
        i += 1;
    }
    let ghost pre = out@;
    out.push(']');
    proof {
        assert(message_views(msgs@).take(msgs@.len() as int) =~= message_views(msgs@));
        assert(out@ =~= pre + seq![']']);
        lemma_flat3(old(out)@, seq!['['], messages_json(message_views(msgs@)), seq![']']);
    }
}

/// Appends a JSON array of system-prompt blocks.
pub fn push_system(out: &mut Vec<char>, blocks: &Vec<AnthropicSystemMessage>)
    ensures
        final(out)@ == old(out)@ + system_arr(system_views(blocks@)),
{
    let ghost base = old(out)@ + seq!['['];
    out.push('[');
    proof {
        assert(out@ =~= base);
        assert(system_views(blocks@).take(0) =~= Seq::<SystemMessageV>::empty());
        assert(base + system_json(system_views(blocks@).take(0)) =~= base);
    }
    let mut i: usize = 0;
    while i < blocks.len()
        invariant
            i <= blocks@.len(),
            base == old(out)@ + seq!['['],
            out@ == base + system_json(system_views(blocks@).take(i as int)),
        decreases blocks@.len() - i,
    {
        let ghost sv = system_views(blocks@);
        let ghost prefix = system_json(sv.take(i as int));
        if i > 0 {
            let ghost pre = out@;
            out.push(',');
            proof {
                assert(out@ =~= pre + seq![',']);
            }
        }
        push_system_obj(out, &blocks[i]);
        proof {
            assert(sv[i as int] == blocks@[i as int]@);
            assert(sv.take(i + 1).drop_last() =~= sv.take(i as int));
            assert(sv.take(i + 1).last() == sv[i as int]);
            if i == 0 {
                assert(prefix =~= Seq::<char>::empty());
                assert((base + prefix) =~= base);
                assert(system_json(sv.take(1)) == system_message_json(sv.take(1)[0]));
            } else {
                lemma_concat_associative(base, prefix, seq![',']);
                lemma_concat_associative(base, prefix + seq![','], system_message_json(
                    sv[i as int],
                ));
            }
        }
        i += 1;
    }
    let ghost pre = out@;
    out.push(']');
    proof {
        assert(system_views(blocks@).take(blocks@.len() as int) =~= system_views(blocks@));
        assert(out@ =~= pre + seq![']']);
        lemma_flat3(old(out)@, seq!['['], system_json(system_views(blocks@)), seq![']']);
    }
}

/// Serializes a first-provider request into its exact JSON body.
pub fn serialize_anthropic_request(req: &AnthropicRequest) -> (r: String)
    requires
        req.temperature <= 1000000,
        req.top_p <= 1000000,
    ensures
        r@ == a_body(req@),
{
    let mut out: Vec<char> = Vec::new();
    push_str_chars(&mut out, "{\"messages\":");
    proof {
        assert(out@ =~= "{\"messages\":"@);
    }
    push_messages(&mut out, &req.messages);
    push_str_chars(&mut out, ",\"model\":");
    push_json_string(&mut out, req.model.as_str());
    push_str_chars(&mut out, ",\"max_tokens\":");
    push_u32_dec(&mut out, req.max_tokens);
    match &req.system {
        Some(blocks) => {
            let mut seg: Vec<char> = Vec::new();
            push_str_chars(&mut seg, ",\"system\":");
            proof {
                assert(seg@ =~= ",\"system\":"@);
            }
            push_system(&mut seg, blocks);
            out.append(&mut seg);
        },
        None => {
            proof {
                assert(out@ + Seq::<char>::empty() =~= out@);
            }
        },
    }
    push_str_chars(&mut out, ",\"temperature\":");
    push_micros(&mut out, req.temperature);
    push_str_chars(&mut out, ",\"top_p\":");
    push_micros(&mut out, req.top_p);
    match &req.thinking {
        Some(t) => {
            let mut seg: Vec<char> = Vec::new();
            push_str_chars(&mut seg, ",\"thinking\":");
            proof {
                assert(seg@ =~= ",\"thinking\":"@);
            }
            let mut tj: Vec<char> = Vec::new();
            push_str_chars(&mut tj, "{\"type\":");
            proof {
                assert(tj@ =~= "{\"type\":"@);
            }
            push_json_string(&mut tj, t.kind.as_str());
            match t.budget_tokens {
                Some(b) => {
                    let mut bseg: Vec<char> = Vec::new();
                    push_str_chars(&mut bseg, ",\"budget_tokens\":");
                    proof {
                        assert(bseg@ =~= ",\"budget_tokens\":"@);
                    }
                    push_u32_dec(&mut bseg, b);
                    tj.append(&mut bseg);
                },
                None => {
                    proof {
                        assert(tj@ + Seq::<char>::empty() =~= tj@);
                    }
                },
            }
            let ghost tpre = tj@;
            tj.push('}');
            proof {
                assert(tj@ =~= tpre + seq!['}']);
                assert(tj@ == thinking_json(t@));
            }
            seg.append(&mut tj);
            out.append(&mut seg);
        },
        None => {
            proof {
                assert(out@ + Seq::<char>::empty() =~= out@);
            }
        },
    }
    let ghost pre = out@;
    out.push('}');
    proof {
        assert(out@ =~= pre + seq!['}']);
        assert(out@ == a_body(req@));
    }
    string_from_chars(&out)
}

/// Serializes a second-provider request into its exact JSON body.
pub fn serialize_openai_request(req: &OpenAIRequest) -> (r: String)
    requires
        req.temperature <= 1000000,
        req.top_p <= 1000000,
    ensures
        r@ == o_body(req@),
{
    let mut out: Vec<char> = Vec::new();
    push_str_chars(&mut out, "{\"input\":");
    proof {
        assert(out@ =~= "{\"input\":"@);
    }
    push_messages(&mut out, &req.input);
    push_str_chars(&mut out, ",\"model\":");
    push_json_string(&mut out, req.model.as_str());
    push_str_chars(&mut out, ",\"max_output_tokens\":");
    push_u32_dec(&mut out, req.max_output_tokens);
    push_str_chars(&mut out, ",\"store\":");
    if req.store {
        push_str_chars(&mut out, "true");
    } else {
        push_str_chars(&mut out, "false");
    }
    match &req.instructions {
        Some(s) => {
            let mut seg: Vec<char> = Vec::new();
            push_str_chars(&mut seg, ",\"instructions\":");
            proof {
                assert(seg@ =~= ",\"instructions\":"@);
            }
            push_json_string(&mut seg, s.as_str());
            out.append(&mut seg);
        },
        None => {
            proof {
                assert(out@ + Seq::<char>::empty() =~= out@);
            }
        },
    }
    push_str_chars(&mut out, ",\"temperature\":");
    push_micros(&mut out, req.temperature);
    push_str_chars(&mut out, ",\"top_p\":");
    push_micros(&mut out, req.top_p);
    let ghost pre = out@;
    out.push('}');
    proof {
        assert(out@ =~= pre + seq!['}']);
        assert(out@ == o_body(req@));
    }
    string_from_chars(&out)
}

} // verus!
