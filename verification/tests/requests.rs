//! Request building and serialization: exact bodies, optional-member
//! elision, and the numeric validation boundaries.
use voisia::cmd::{build_anthropic_request, build_openai_request, ProviderError};
use voisia::dto::{check_ranges, AnthropicRequest, AnthropicThinking, VoisiaMessage};
use voisia::wire::{serialize_anthropic_request, serialize_openai_request};

fn msg(role: &str, content: &str) -> VoisiaMessage {
    VoisiaMessage { role: role.to_string(), content: content.to_string() }
}

#[test]
fn anthropic_minimal_body_has_exactly_five_members() {
    let req = build_anthropic_request(
        "a-model-x".to_string(),
        "hi".to_string(),
        None,
        100,
        500_000,
        1_000_000,
        None,
        Vec::new(),
    )
    .unwrap();
    let body = serialize_anthropic_request(&req);
    assert_eq!(
        body,
        "{\"messages\":[{\"role\":\"user\",\"content\":\"hi\"}],\"model\":\"a-model-x\",\
         \"max_tokens\":100,\"temperature\":0.5,\"top_p\":1.0}"
    );
    assert!(!body.contains("\"system\""));
    assert!(!body.contains("\"thinking\""));
}

#[test]
fn anthropic_system_prompt_is_a_structured_block() {
    let req = build_anthropic_request(
        "a-model-x".to_string(),
        "hi".to_string(),
        Some("be terse".to_string()),
        100,
        500_000,
        1_000_000,
        None,
        Vec::new(),
    )
    .unwrap();
    let body = serialize_anthropic_request(&req);
    assert_eq!(
        body,
        "{\"messages\":[{\"role\":\"user\",\"content\":\"hi\"}],\"model\":\"a-model-x\",\
         \"max_tokens\":100,\"system\":[{\"type\":\"text\",\"text\":\"be terse\"}],\
         \"temperature\":0.5,\"top_p\":1.0}"
    );
}

#[test]
fn anthropic_thinking_directive_is_serialized_when_valid() {
    let req = build_anthropic_request(
        "a-model-x".to_string(),
        "hi".to_string(),
        None,
        4096,
        500_000,
        1_000_000,
        Some(AnthropicThinking { kind: "enabled".to_string(), budget_tokens: Some(2048) }),
        Vec::new(),
    )
    .unwrap();
    let body = serialize_anthropic_request(&req);
    assert_eq!(
        body,
        "{\"messages\":[{\"role\":\"user\",\"content\":\"hi\"}],\"model\":\"a-model-x\",\
         \"max_tokens\":4096,\"temperature\":0.5,\"top_p\":1.0,\
         \"thinking\":{\"type\":\"enabled\",\"budget_tokens\":2048}}"
    );
}

#[test]
fn anthropic_thinking_budget_at_or_above_limit_is_rejected_before_any_io() {
    let r = build_anthropic_request(
        "a-model-x".to_string(),
        "hi".to_string(),
        None,
        1024,
        500_000,
        1_000_000,
        Some(AnthropicThinking { kind: "enabled".to_string(), budget_tokens: Some(2048) }),
        Vec::new(),
    );
    match r {
        Err(e) => assert_eq!(
            e.message(),
            "validation: budget_tokens must be at least 1024 and less than max_tokens"
        ),
        Ok(_) => panic!("a budget at the token limit must be rejected"),
    }
}

#[test]
fn anthropic_disabled_thinking_needs_no_budget() {
    let r = build_anthropic_request(
        "a-model-x".to_string(),
        "hi".to_string(),
        None,
        100,
        0,
        0,
        Some(AnthropicThinking { kind: "disabled".to_string(), budget_tokens: None }),
        Vec::new(),
    );
    assert!(r.is_ok());
}

#[test]
fn openai_body_uses_the_wire_member_names() {
    let history = vec![msg("user", "a"), msg("assistant", "b")];
    let req = build_openai_request(
        "gpt-x".to_string(),
        "c".to_string(),
        50,
        200_000,
        900_000,
        true,
        None,
        history,
    )
    .unwrap();
    let body = serialize_openai_request(&req);
    assert_eq!(
        body,
        "{\"input\":[{\"role\":\"user\",\"content\":\"a\"},{\"role\":\"assistant\",\"content\":\"b\"},\
         {\"role\":\"user\",\"content\":\"c\"}],\"model\":\"gpt-x\",\"max_output_tokens\":50,\
         \"store\":true,\"temperature\":0.2,\"top_p\":0.9}"
    );
    assert!(!body.contains("\"messages\""));
    assert!(!body.contains("\"max_tokens\""));
    assert!(!body.contains("\"system\""));
    assert!(!body.contains("\"instructions\""));
}

#[test]
fn openai_instructions_are_a_bare_string() {
    let req = build_openai_request(
        "gpt-x".to_string(),
        "c".to_string(),
        50,
        200_000,
        900_000,
        false,
        Some("short".to_string()),
        Vec::new(),
    )
    .unwrap();
    let body = serialize_openai_request(&req);
    assert!(body.contains("\"instructions\":\"short\""));
    assert!(body.contains("\"store\":false"));
}

#[test]
fn history_is_extended_not_replaced() {
    let history = vec![msg("user", "one"), msg("assistant", "two")];
    let req = build_anthropic_request(
        "m".to_string(),
        "three".to_string(),
        None,
        10,
        0,
        0,
        None,
        history,
    )
    .unwrap();
    assert_eq!(req.messages.len(), 3);
    assert_eq!(req.messages[0].content, "one");
    assert_eq!(req.messages[1].content, "two");
    assert_eq!(req.messages[2].role, "user");
    assert_eq!(req.messages[2].content, "three");
}

#[test]
fn validation_rejects_exactly_the_boundary_violations() {
    assert!(check_ranges(1, 0, 0).is_ok());
    assert!(check_ranges(1, 1_000_000, 1_000_000).is_ok());
    assert_eq!(check_ranges(0, 0, 0).unwrap_err(), "max_tokens must be greater than 1");
    assert_eq!(check_ranges(1, 1_000_001, 0).unwrap_err(), "Temperature must be between 0 and 1");
    assert_eq!(check_ranges(1, 0, 1_000_001).unwrap_err(), "top_p must be between 0 and 1");
}

#[test]
fn request_validate_matches_the_shared_check() {
    let req = AnthropicRequest {
        messages: Vec::new(),
        model: "m".to_string(),
        max_tokens: 0,
        system: None,
        temperature: 0,
        top_p: 0,
        thinking: None,
    };
    assert_eq!(req.validate().unwrap_err(), "max_tokens must be greater than 1");
}

#[test]
fn string_content_is_escaped() {
    let req = build_anthropic_request(
        "m".to_string(),
        "say \"hi\"\nplease\tnow \\ ok".to_string(),
        None,
        10,
        0,
        0,
        None,
        Vec::new(),
    )
    .unwrap();
    let body = serialize_anthropic_request(&req);
    assert!(body.contains("say \\\"hi\\\"\\nplease\\tnow \\\\ ok"));
}

#[test]
fn fixed_point_parameters_render_like_shortest_decimals() {
    let cases: Vec<(u32, &str)> = vec![
        (0, "0.0"),
        (500_000, "0.5"),
        (1_000_000, "1.0"),
        (123_456, "0.123456"),
        (700_000, "0.7"),
        (250_000, "0.25"),
    ];
    for (micros, expect) in cases {
        let req = build_anthropic_request(
            "m".to_string(),
            "x".to_string(),
            None,
            10,
            micros,
            0,
            None,
            Vec::new(),
        )
        .unwrap();
        let body = serialize_anthropic_request(&req);
        assert!(
            body.contains(&format!("\"temperature\":{},", expect)),
            "{} should render as {} in {}",
            micros,
            expect,
            body
        );
    }
}

#[test]
fn validation_error_message_carries_the_stage_tag() {
    let r = build_openai_request(
        "m".to_string(),
        "x".to_string(),
        0,
        0,
        0,
        false,
        None,
        Vec::new(),
    );
    match r {
        Err(e) => assert_eq!(e.message(), "validation: max_tokens must be greater than 1"),
        Ok(_) => panic!("zero max_tokens must be rejected"),
    }
    let tr = ProviderError::TransportError("connection reset".to_string());
    assert_eq!(tr.message(), "http: connection reset");
    let cm = ProviderError::CredentialMissing("Anthropic API key is not found".to_string());
    assert_eq!(cm.message(), "credential: Anthropic API key is not found");
    let cio = ProviderError::CatalogIoError("no such file".to_string());
    assert_eq!(cio.message(), "catalog: no such file");
}
