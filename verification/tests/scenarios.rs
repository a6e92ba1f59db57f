use prompt_schema::{
    decode_chat, decode_completion, Chat, Completion, DecodeError, Function, FunctionCall,
    FunctionParameter, Message, Parameter,
};
use serde_json::{Number, Value};

fn number(x: f64) -> Value {
    Value::Number(Number::from_f64(x).unwrap())
}

fn user(content: &str) -> Message {
    Message {
        role: "user".to_string(),
        name: None,
        content: Some(content.to_string()),
        function_call: None,
    }
}

#[test]
fn basic_chat_decodes_to_its_fields() {
    let text = r#"{"version":"0.2","engine":"chat-bison","messages":[{"role":"user","content":"Write a hello world in js"}],"parameters":[{"name":"temperature","value":0.1}]}"#;
    let chat = decode_chat(text).unwrap();
    let expected = Chat {
        version: "0.2".to_string(),
        engine: "chat-bison".to_string(),
        context: None,
        parameters: Some(vec![Parameter { name: "temperature".to_string(), value: number(0.1) }]),
        examples: None,
        messages: vec![user("Write a hello world in js")],
        functions: None,
    };
    assert_eq!(chat, expected);
    assert_eq!(chat.messages[0].name, None);
    assert_eq!(chat.messages[0].function_call, None);
    assert_eq!(chat.parameters.unwrap()[0].value, 0.1);
}

#[test]
fn chat_with_functions_keeps_messages_in_order() {
    let text = r#"{
        "version": "0.3",
        "engine": "chat-bison",
        "messages": [
            {"role": "user", "content": "What is the weather today in Beijing?"},
            {"role": "assistant", "function_call": {"name": "get_weather", "arguments": "{\"city\":\"Beijing\",\"time\":\"today\"}"}},
            {"role": "function", "name": "get_weather", "content": "{\"weather\": \"sunny, 25C\"}"}
        ],
        "functions": [
            {"name": "get_weather", "description": "Get the weather today", "parameters": [
                {"name": "city", "type": "string", "enums": ["Wuhan", "Beijing"], "description": "City name", "required": true}
            ]}
        ]
    }"#;
    let chat = decode_chat(text).unwrap();
    let expected = Chat {
        version: "0.3".to_string(),
        engine: "chat-bison".to_string(),
        context: None,
        parameters: None,
        examples: None,
        messages: vec![
            user("What is the weather today in Beijing?"),
            Message {
                role: "assistant".to_string(),
                name: None,
                content: None,
                function_call: Some(FunctionCall {
                    name: "get_weather".to_string(),
                    arguments: "{\"city\":\"Beijing\",\"time\":\"today\"}".to_string(),
                }),
            },
            Message {
                role: "function".to_string(),
                name: Some("get_weather".to_string()),
                content: Some("{\"weather\": \"sunny, 25C\"}".to_string()),
                function_call: None,
            },
        ],
        functions: Some(vec![Function {
            name: "get_weather".to_string(),
            description: Some("Get the weather today".to_string()),
            parameters: vec![FunctionParameter {
                name: "city".to_string(),
                parameter_type: "string".to_string(),
                required: Some(true),
                description: Some("City name".to_string()),
                enums: Some(vec!["Wuhan".to_string(), "Beijing".to_string()]),
            }],
        }]),
    };
    assert_eq!(chat, expected);
    let functions = chat.functions.unwrap();
    assert_eq!(
        functions[0].parameters[0].enums,
        Some(vec!["Wuhan".to_string(), "Beijing".to_string()])
    );
}

#[test]
fn empty_object_misses_version_as_chat_and_as_completion() {
    assert_eq!(decode_chat("{}"), Err(DecodeError::MissingField("version".to_string())));
    assert_eq!(decode_completion("{}"), Err(DecodeError::MissingField("version".to_string())));
}

#[test]
fn basic_completion_decodes_to_its_fields() {
    let text = r#"{"version":"0.2","engine":"text-bison","prompt":"I'm hungry and I want to","parameters":[{"name":"temperature","value":0.1}]}"#;
    let completion = decode_completion(text).unwrap();
    let expected = Completion {
        version: "0.2".to_string(),
        engine: "text-bison".to_string(),
        prompt: "I'm hungry and I want to".to_string(),
        parameters: Some(vec![Parameter { name: "temperature".to_string(), value: number(0.1) }]),
    };
    assert_eq!(completion, expected);
}

#[test]
fn decoding_twice_gives_equal_results() {
    let text = r#"{"version":"0.2","engine":"chat-bison","context":"c","messages":[{"role":"user","content":"hi"}],"examples":[{"role":"user","content":"a"},{"role":"assistant","content":"b"}]}"#;
    let first = decode_chat(text);
    let second = decode_chat(text);
    assert!(first.is_ok());
    assert_eq!(first, second);
    let bad = r#"{"version":"0.2","engine":7}"#;
    assert!(decode_chat(bad).is_err());
    assert_eq!(decode_chat(bad), decode_chat(bad));
    assert_eq!(decode_chat("{"), decode_chat("{"));
    assert_eq!(decode_completion(text), decode_completion(text));
}

#[test]
fn associated_functions_agree_with_the_entry_points() {
    let chat = r#"{"version":"1","engine":"e","messages":[]}"#;
    assert_eq!(Chat::from(chat), decode_chat(chat));
    let completion = r#"{"version":"1","engine":"e","prompt":"p"}"#;
    assert_eq!(Completion::from(completion), decode_completion(completion));
    assert_eq!(Chat::from("[]"), decode_chat("[]"));
    assert_eq!(Completion::from("nul"), decode_completion("nul"));
}

#[test]
fn examples_and_context_are_read() {
    let text = r#"{"version":"0.2","engine":"chat-bison","context":"be brief","messages":[],"examples":[{"role":"user","content":"a"},{"role":"assistant","content":"b"}]}"#;
    let chat = decode_chat(text).unwrap();
    assert_eq!(chat.context, Some("be brief".to_string()));
    assert_eq!(chat.messages, vec![]);
    let examples = chat.examples.unwrap();
    assert_eq!(examples.len(), 2);
    assert_eq!(examples[0], user("a"));
    assert_eq!(examples[1].role, "assistant");
    assert_eq!(examples[1].content, Some("b".to_string()));
}
