//! The model catalog reader and the small record defaults.
use voisia::cmd::models_from_text;
use voisia::dto::default_thinking_type;
use voisia::llm::{ModelInfo, ModelParams};

#[test]
fn one_entry_catalog_is_returned_verbatim() {
    let text = "{\"models\":[{\"id\":\"m1\",\"display_name\":\"M1\",\"provider\":\"A\",\
        \"tags\":[\"chat\"],\"params\":{\"max_tokens\":8000,\"temperature\":0.7,\
        \"top_p\":1.0}}]}";
    let models = models_from_text(text).unwrap();
    assert_eq!(models.len(), 1);
    assert_eq!(models[0].id, "m1");
    assert_eq!(models[0].display_name, "M1");
    assert_eq!(models[0].provider, "A");
    assert_eq!(models[0].tags, vec!["chat".to_string()]);
    assert_eq!(models[0].params.max_tokens, 8000);
    assert_eq!(models[0].params.temperature, 700_000);
    assert_eq!(models[0].params.top_p, 1_000_000);
}

#[test]
fn catalog_order_is_file_order() {
    let text = "{\"models\":[\
        {\"id\":\"b\",\"display_name\":\"B\",\"provider\":\"O\",\"tags\":[],\
         \"params\":{\"max_tokens\":1,\"temperature\":0,\"top_p\":1}},\
        {\"id\":\"a\",\"display_name\":\"A\",\"provider\":\"A\",\"tags\":[\"x\",\"y\"],\
         \"params\":{\"max_tokens\":2,\"temperature\":0.25,\"top_p\":0.5}}]}";
    let models = models_from_text(text).unwrap();
    assert_eq!(models.len(), 2);
    assert_eq!(models[0].id, "b");
    assert_eq!(models[0].params.top_p, 1_000_000);
    assert_eq!(models[1].id, "a");
    assert_eq!(models[1].tags, vec!["x".to_string(), "y".to_string()]);
    assert_eq!(models[1].params.temperature, 250_000);
    assert_eq!(models[1].params.top_p, 500_000);
}

#[test]
fn malformed_catalog_is_a_catalog_failure() {
    match models_from_text("{\"models\":") {
        Err(e) => assert_eq!(e.message(), "catalog: malformed catalog document"),
        Ok(_) => panic!("a truncated document must fail"),
    }
    match models_from_text("{\"models\":[{\"id\":\"m\"}]}") {
        Err(e) => assert!(e.message().starts_with("catalog: ")),
        Ok(_) => panic!("a record without its members must fail"),
    }
}

#[test]
fn default_records_are_empty() {
    let m = ModelInfo::default();
    assert_eq!(m.id, "");
    assert_eq!(m.display_name, "");
    assert_eq!(m.provider, "");
    assert!(m.tags.is_empty());
    assert_eq!(m.params.max_tokens, 0);
    let p = ModelParams::default();
    assert_eq!(p.temperature, 0);
    assert_eq!(p.top_p, 0);
}

#[test]
fn the_default_thinking_mode_is_disabled() {
    assert_eq!(default_thinking_type(), "disabled");
}

#[test]
fn integer_parameters_are_scaled_to_millionths() {
    let text = "{\"models\":[{\"id\":\"m\",\"display_name\":\"M\",\"provider\":\"A\",\
        \"tags\":[],\"params\":{\"max_tokens\":5,\"temperature\":1,\"top_p\":0.25}}]}";
    let models = models_from_text(text).unwrap();
    assert_eq!(models[0].params.temperature, 1_000_000);
    assert_eq!(models[0].params.top_p, 250_000);
}

#[test]
fn out_of_range_parameters_are_rejected() {
    let text = "{\"models\":[{\"id\":\"m\",\"display_name\":\"M\",\"provider\":\"A\",\
        \"tags\":[],\"params\":{\"max_tokens\":5,\"temperature\":1e3,\"top_p\":1}}]}";
    assert!(models_from_text(text).is_err());
    let text2 = "{\"models\":[{\"id\":\"m\",\"display_name\":\"M\",\"provider\":\"A\",\
        \"tags\":[],\"params\":{\"max_tokens\":5,\"temperature\":0.1234567,\"top_p\":1}}]}";
    assert!(models_from_text(text2).is_err());
}
