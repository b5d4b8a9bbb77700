use pdf_reviewer::error::CompletionError;
use pdf_reviewer::json::Json;
use pdf_reviewer::response::{completion_from, narrow, parse_completion};

const ONE_CHOICE: &str = "{\"id\":\"chatcmpl-1\",\"object\":\"chat.completion\",\"created\":1677652288,\"model\":\"gpt-3.5-turbo\",\"usage\":{\"prompt_tokens\":9,\"completion_tokens\":12,\"total_tokens\":21},\"choices\":[{\"message\":{\"role\":\"assistant\",\"content\":\"Test summary\"},\"finish_reason\":\"stop\",\"index\":0}]}";

#[test]
fn parses_first_choice_content() {
    let reply = parse_completion(ONE_CHOICE).unwrap();
    assert_eq!(reply.first_choice_content().unwrap(), "Test summary");
    assert_eq!(reply.id, "chatcmpl-1");
    assert_eq!(reply.created, 1677652288);
    assert_eq!(reply.model, "gpt-3.5-turbo");
    assert_eq!(reply.usage.prompt_tokens, 9);
    assert_eq!(reply.usage.completion_tokens, 12);
    assert_eq!(reply.usage.total_tokens, 21);
    assert_eq!(reply.choices.len(), 1);
    assert_eq!(reply.choices[0].message.role, "assistant");
    assert_eq!(reply.choices[0].finish_reason, "stop");
    assert_eq!(reply.choices[0].index, 0);
}

#[test]
fn missing_choices_is_a_schema_error() {
    let body = "{\"id\":\"x\",\"object\":\"chat.completion\",\"created\":1,\"model\":\"m\",\"usage\":{\"prompt_tokens\":1,\"completion_tokens\":1,\"total_tokens\":2}}";
    assert_eq!(parse_completion(body).err(), Some(CompletionError::Schema));
}

#[test]
fn wrongly_typed_field_is_a_schema_error() {
    let body = ONE_CHOICE.replace("\"created\":1677652288", "\"created\":\"soon\"");
    assert_eq!(parse_completion(&body).err(), Some(CompletionError::Schema));
}

#[test]
fn count_beyond_i32_is_a_schema_error() {
    let body = ONE_CHOICE.replace("\"total_tokens\":21", "\"total_tokens\":3000000000");
    assert_eq!(parse_completion(&body).err(), Some(CompletionError::Schema));
}

#[test]
fn non_json_body_is_malformed() {
    assert_eq!(parse_completion("<html>busy</html>").err(), Some(CompletionError::Malformed));
}

#[test]
fn empty_choices_reports_no_choices() {
    let body = ONE_CHOICE.replace(
        "[{\"message\":{\"role\":\"assistant\",\"content\":\"Test summary\"},\"finish_reason\":\"stop\",\"index\":0}]",
        "[]",
    );
    let reply = parse_completion(&body).unwrap();
    assert_eq!(reply.choices.len(), 0);
    assert_eq!(reply.first_choice_content().err(), Some(CompletionError::NoChoices));
}

#[test]
fn narrow_checks_the_i32_range() {
    assert_eq!(narrow(-2147483648), Ok(-2147483648));
    assert_eq!(narrow(2147483647), Ok(2147483647));
    assert_eq!(narrow(2147483648), Err(CompletionError::Schema));
    assert_eq!(narrow(-2147483649), Err(CompletionError::Schema));
}

#[test]
fn float_where_an_integer_belongs_is_a_schema_error() {
    let body = ONE_CHOICE.replace("\"created\":1677652288", "\"created\":1.5");
    assert_eq!(parse_completion(&body).err(), Some(CompletionError::Schema));
}

#[test]
fn choices_keep_their_order() {
    let body = ONE_CHOICE.replace(
        "\"index\":0}]",
        "\"index\":0},{\"message\":{\"role\":\"assistant\",\"content\":\"Second\"},\"finish_reason\":\"length\",\"index\":1}]",
    );
    let reply = parse_completion(&body).unwrap();
    assert_eq!(reply.choices.len(), 2);
    assert_eq!(reply.choices[0].message.content, "Test summary");
    assert_eq!(reply.choices[1].message.content, "Second");
    assert_eq!(reply.choices[1].finish_reason, "length");
    assert_eq!(reply.choices[1].index, 1);
}

#[test]
fn tree_without_choices_is_a_schema_error() {
    let usage = Json::Object(vec![
        ("prompt_tokens".to_string(), Json::Int(1)),
        ("completion_tokens".to_string(), Json::Int(1)),
        ("total_tokens".to_string(), Json::Int(2)),
    ]);
    let tree = Json::Object(vec![
        ("id".to_string(), Json::Str("x".to_string())),
        ("created".to_string(), Json::Int(0)),
        ("model".to_string(), Json::Str("m".to_string())),
        ("usage".to_string(), usage),
    ]);
    assert_eq!(completion_from(&tree).err(), Some(CompletionError::Schema));
}

#[test]
fn tree_with_empty_choices_reads() {
    let usage = Json::Object(vec![
        ("prompt_tokens".to_string(), Json::Int(1)),
        ("completion_tokens".to_string(), Json::Int(1)),
        ("total_tokens".to_string(), Json::Int(2)),
    ]);
    let tree = Json::Object(vec![
        ("id".to_string(), Json::Str("x".to_string())),
        ("created".to_string(), Json::Int(7)),
        ("model".to_string(), Json::Str("m".to_string())),
        ("usage".to_string(), usage),
        ("choices".to_string(), Json::Array(Vec::new())),
    ]);
    let reply = completion_from(&tree).unwrap();
    assert_eq!(reply.created, 7);
    assert_eq!(reply.usage.total_tokens, 2);
    assert_eq!(reply.choices.len(), 0);
}
