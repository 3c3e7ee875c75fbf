//! Reply classification: success statuses with parseable bodies, parse
//! failures, upstream failures carried verbatim, and the typed readers.
use voisia::cmd::{interpret_anthropic_response, interpret_openai_response};
use voisia::dto::AnthropicContentWithThinking;
use voisia::json::{parse_json, Json};

const A_BODY: &str = "{\"id\":\"msg_1\",\"type\":\"message\",\"role\":\"assistant\",\
    \"model\":\"a-model-x\",\"content\":[{\"type\":\"text\",\"text\":\"hello\"}],\
    \"stop_reason\":\"end_turn\",\"stop_sequence\":null,\
    \"usage\":{\"input_tokens\":12,\"output_tokens\":7}}";

#[test]
fn success_status_with_parseable_body_yields_ok() {
    let resp = interpret_anthropic_response(200, A_BODY).unwrap();
    assert_eq!(resp.id, "msg_1");
    assert_eq!(resp.kind, "message");
    assert_eq!(resp.role, "assistant");
    assert_eq!(resp.model, "a-model-x");
    assert_eq!(resp.stop_reason, "end_turn");
    assert!(resp.stop_sequence.is_none());
    assert_eq!(resp.usage.input_tokens, 12);
    assert_eq!(resp.usage.output_tokens, 7);
    assert_eq!(resp.content.len(), 1);
    match &resp.content[0] {
        AnthropicContentWithThinking::Text { text } => assert_eq!(text, "hello"),
        _ => panic!("expected a text block"),
    }
}

#[test]
fn every_status_in_the_two_hundreds_is_a_success() {
    assert!(interpret_anthropic_response(299, A_BODY).is_ok());
    assert!(interpret_anthropic_response(204, A_BODY).is_ok());
}

#[test]
fn thinking_blocks_are_accepted_and_retained() {
    let body = "{\"id\":\"msg_2\",\"type\":\"message\",\"role\":\"assistant\",\
        \"model\":\"a-model-x\",\"content\":[\
        {\"type\":\"thinking\",\"thinking\":\"step one\",\"signature\":\"sig\"},\
        {\"type\":\"text\",\"text\":\"done\"}],\
        \"stop_reason\":\"end_turn\",\
        \"usage\":{\"input_tokens\":1,\"output_tokens\":2}}";
    let resp = interpret_anthropic_response(200, body).unwrap();
    assert_eq!(resp.content.len(), 2);
    match &resp.content[0] {
        AnthropicContentWithThinking::Thinking { thinking, signature } => {
            assert_eq!(thinking, "step one");
            assert_eq!(signature, "sig");
        }
        _ => panic!("expected a thinking block"),
    }
    let texts = resp.text_blocks();
    assert_eq!(texts.len(), 1);
    assert_eq!(texts[0].text, "done");
    assert_eq!(texts[0].kind, "text");
}

#[test]
fn unknown_members_are_ignored() {
    let body = "{\"id\":\"msg_3\",\"type\":\"message\",\"role\":\"assistant\",\
        \"model\":\"a-model-x\",\"content\":[{\"type\":\"text\",\"text\":\"ok\"}],\
        \"stop_reason\":\"end_turn\",\"brand_new_field\":{\"deep\":[1,2,3]},\
        \"usage\":{\"input_tokens\":1,\"output_tokens\":1,\"surprise\":true}}";
    assert!(interpret_anthropic_response(200, body).is_ok());
}

#[test]
fn non_success_status_carries_status_and_body_verbatim() {
    let body = "{\"error\":\"rate_limited\"}";
    match interpret_anthropic_response(429, body) {
        Err(e) => {
            let m = e.message();
            assert_eq!(m, "upstream: 429: {\"error\":\"rate_limited\"}");
            assert!(m.contains("429"));
            assert!(m.contains(body));
        }
        Ok(_) => panic!("a 429 must not be a success"),
    }
    match interpret_openai_response(500, "oops") {
        Err(e) => assert_eq!(e.message(), "upstream: 500: oops"),
        Ok(_) => panic!("a 500 must not be a success"),
    }
}

#[test]
fn success_status_with_malformed_body_is_a_parse_failure() {
    match interpret_anthropic_response(200, "not json at all") {
        Err(e) => assert_eq!(e.message(), "parse: not json at all"),
        Ok(_) => panic!("garbage must not parse"),
    }
    match interpret_anthropic_response(200, "{\"id\":\"x\"}") {
        Err(e) => assert!(e.message().starts_with("parse: ")),
        Ok(_) => panic!("an incomplete reply must not parse"),
    }
}

#[test]
fn statuses_just_outside_the_two_hundreds_are_upstream_failures() {
    assert!(interpret_anthropic_response(199, A_BODY).is_err());
    assert!(interpret_anthropic_response(300, A_BODY).is_err());
}

#[test]
fn openai_reply_is_read_in_full() {
    let body = "{\"id\":\"resp_1\",\"object\":\"response\",\"created_at\":1741476542,\
        \"status\":\"completed\",\"error\":null,\"incomplete_details\":null,\
        \"instructions\":null,\"max_output_tokens\":50,\"model\":\"gpt-x\",\
        \"output\":[{\"type\":\"message\",\"id\":\"m1\",\"status\":\"completed\",\
        \"role\":\"assistant\",\"content\":[{\"type\":\"output_text\",\"text\":\"hi there\",\
        \"annotations\":[]}]}],\"parallel_tool_calls\":true,\"previous_response_id\":null,\
        \"store\":true,\"temperature\":0.2,\"tool_choice\":\"auto\",\"tools\":[],\
        \"top_p\":0.9,\"truncation\":\"disabled\",\
        \"usage\":{\"input_tokens\":5,\"input_tokens_details\":{\"cached_tokens\":0},\
        \"output_tokens\":3,\"output_tokens_details\":{\"reasoning_tokens\":0},\
        \"total_tokens\":8},\"user\":null,\"metadata\":{}}";
    let resp = interpret_openai_response(200, body).unwrap();
    assert_eq!(resp.id, "resp_1");
    assert_eq!(resp.object, "response");
    assert_eq!(resp.created_at, 1741476542);
    assert_eq!(resp.status, "completed");
    assert!(resp.error.is_none());
    assert_eq!(resp.max_output_tokens, Some(50));
    assert_eq!(resp.model, "gpt-x");
    assert_eq!(resp.output.len(), 1);
    assert_eq!(resp.output[0].role, "assistant");
    assert_eq!(resp.output[0].content[0].text, "hi there");
    assert!(resp.output[0].content[0].annotations.is_empty());
    assert!(resp.parallel_tool_calls);
    assert!(resp.store);
    assert_eq!(resp.temperature, "0.2");
    assert_eq!(resp.tool_choice, "auto");
    assert!(resp.tools.is_empty());
    assert_eq!(resp.top_p, "0.9");
    assert_eq!(resp.truncation, "disabled");
    let usage = resp.usage.unwrap();
    assert_eq!(usage.input_tokens, 5);
    assert_eq!(usage.total_tokens, 8);
    assert_eq!(usage.input_tokens_details.unwrap().cached_tokens, Some(0));
    assert!(resp.user.is_none());
    assert!(resp.metadata.is_some());
}

#[test]
fn openai_error_member_is_kept_as_a_document() {
    let body = "{\"id\":\"resp_2\",\"object\":\"response\",\"created_at\":1,\
        \"status\":\"failed\",\"error\":{\"code\":\"bad\"},\"max_output_tokens\":null,\
        \"model\":\"gpt-x\",\"output\":[],\"parallel_tool_calls\":false,\
        \"store\":false,\"temperature\":1.0,\"tool_choice\":\"none\",\"tools\":[],\
        \"top_p\":1.0,\"truncation\":\"auto\",\"usage\":null}";
    let resp = interpret_openai_response(200, body).unwrap();
    match resp.error {
        Some(Json::Obj(members)) => {
            assert_eq!(members.len(), 1);
            assert_eq!(members[0].0, "code");
        }
        _ => panic!("the error member must be kept"),
    }
    assert!(resp.usage.is_none());
    assert_eq!(resp.max_output_tokens, None);
}

#[test]
fn string_escapes_are_decoded() {
    let body = "{\"id\":\"m\",\"type\":\"message\",\"role\":\"assistant\",\
        \"model\":\"x\",\"content\":[{\"type\":\"text\",\
        \"text\":\"line\\none \\\"q\\\" \\u0041\\t\\u00e9\"}],\
        \"stop_reason\":\"end\",\"usage\":{\"input_tokens\":1,\"output_tokens\":1}}";
    let resp = interpret_anthropic_response(200, body).unwrap();
    match &resp.content[0] {
        AnthropicContentWithThinking::Text { text } => {
            assert_eq!(text, "line\none \"q\" A\t\u{e9}");
        }
        _ => panic!("expected a text block"),
    }
}

#[test]
fn surrogate_pair_escapes_are_combined() {
    let doc = parse_json("\"\\ud83d\\ude00\"").unwrap();
    match doc {
        Json::Str(s) => assert_eq!(s, "\u{1f600}"),
        _ => panic!("expected a string document"),
    }
    assert!(parse_json("\"\\ud83d\"").is_none());
}

#[test]
fn documents_parse_and_malformed_text_does_not() {
    assert!(parse_json(" { \"a\" : [ 1 , true , null , \"s\" ] } ").is_some());
    assert!(parse_json("{\"a\":1,}").is_none());
    assert!(parse_json("[1 2]").is_none());
    assert!(parse_json("").is_none());
    assert!(parse_json("{} trailing").is_none());
    match parse_json("[-12.5e3]").unwrap() {
        Json::Arr(items) => match &items[0] {
            Json::Num(raw) => assert_eq!(raw, "-12.5e3"),
            _ => panic!("expected a number token"),
        },
        _ => panic!("expected an array"),
    }
}

#[test]
fn numbers_too_large_for_their_field_are_parse_failures() {
    let body = "{\"id\":\"m\",\"type\":\"message\",\"role\":\"assistant\",\
        \"model\":\"x\",\"content\":[{\"type\":\"text\",\"text\":\"ok\"}],\
        \"stop_reason\":\"end\",\
        \"usage\":{\"input_tokens\":4294967296,\"output_tokens\":1}}";
    assert!(interpret_anthropic_response(200, body).is_err());
    let ok = body.replace("4294967296", "4294967295");
    assert!(interpret_anthropic_response(200, &ok).is_ok());
}
