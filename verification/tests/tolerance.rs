use prompt_schema::{decode_chat, decode_completion, DecodeError, JsonKind};
use serde_json::Value;

#[test]
fn unknown_fields_are_ignored_at_every_level() {
    let text = r#"{"$schema":"s","version":"1","engine":"e","extra":{"a":[1,2]},
        "messages":[{"role":"user","content":"hi","mood":"fine","function_call":{"name":"f","arguments":"{}","id":7}}],
        "parameters":[{"name":"t","value":1,"unit":null}],
        "functions":[{"name":"f","parameters":[{"name":"x","type":"string","deprecated":true}],"since":"0.3"}]}"#;
    let chat = decode_chat(text).unwrap();
    assert_eq!(chat.version, "1");
    assert_eq!(chat.messages.len(), 1);
    assert_eq!(chat.messages[0].function_call.as_ref().unwrap().name, "f");
    assert_eq!(chat.parameters.unwrap()[0].name, "t");
    assert_eq!(chat.functions.unwrap()[0].parameters[0].name, "x");
}

#[test]
fn an_empty_messages_array_is_accepted() {
    let chat = decode_chat(r#"{"version":"0.2","engine":"chat-bison","messages":[]}"#).unwrap();
    assert!(chat.messages.is_empty());
    assert_eq!(chat.context, None);
    assert!(chat.parameters.is_none());
    assert!(chat.examples.is_none());
    assert!(chat.functions.is_none());
}

#[test]
fn an_optional_field_that_is_null_is_present_with_the_wrong_kind() {
    let null_at = |path: &str, expected: JsonKind| {
        Err(DecodeError::TypeMismatch(path.to_string(), expected, JsonKind::Null))
    };
    let chat = |rest: &str| format!(r#"{{"version":"1","engine":"e","messages":[]{}}}"#, rest);
    assert_eq!(decode_chat(&chat(r#","context":null"#)), null_at("context", JsonKind::String));
    assert_eq!(decode_chat(&chat(r#","parameters":null"#)), null_at("parameters", JsonKind::Array));
    assert_eq!(decode_chat(&chat(r#","examples":null"#)), null_at("examples", JsonKind::Array));
    assert_eq!(decode_chat(&chat(r#","functions":null"#)), null_at("functions", JsonKind::Array));

    let message = |rest: &str| {
        format!(r#"{{"version":"1","engine":"e","messages":[{{"role":"user"{}}}]}}"#, rest)
    };
    assert_eq!(
        decode_chat(&message(r#","name":null"#)),
        null_at("messages[0].name", JsonKind::String)
    );
    assert_eq!(
        decode_chat(&message(r#","content":null"#)),
        null_at("messages[0].content", JsonKind::String)
    );
    assert_eq!(
        decode_chat(&message(r#","function_call":null"#)),
        null_at("messages[0].function_call", JsonKind::Object)
    );

    assert_eq!(
        decode_chat(&chat(r#","functions":[{"name":"f","parameters":[],"description":null}]"#)),
        null_at("functions[0].description", JsonKind::String)
    );
    let parameter = |rest: &str| {
        chat(&format!(
            r#","functions":[{{"name":"f","parameters":[{{"name":"x","type":"string"{}}}]}}]"#,
            rest
        ))
    };
    assert_eq!(
        decode_chat(&parameter(r#","required":null"#)),
        null_at("functions[0].parameters[0].required", JsonKind::Boolean)
    );
    assert_eq!(
        decode_chat(&parameter(r#","description":null"#)),
        null_at("functions[0].parameters[0].description", JsonKind::String)
    );
    assert_eq!(
        decode_chat(&parameter(r#","enums":null"#)),
        null_at("functions[0].parameters[0].enums", JsonKind::Array)
    );

    assert_eq!(
        decode_completion(r#"{"version":"1","engine":"e","prompt":"","parameters":null}"#),
        Err(DecodeError::TypeMismatch("parameters".to_string(), JsonKind::Array, JsonKind::Null))
    );
}

#[test]
fn an_optional_field_that_is_left_out_is_none() {
    let text = r#"{"version":"1","engine":"e","messages":[{"role":"user"}],
        "functions":[{"name":"f","parameters":[{"name":"x","type":"string"}]}]}"#;
    let chat = decode_chat(text).unwrap();
    assert_eq!(chat.context, None);
    assert!(chat.parameters.is_none());
    assert!(chat.examples.is_none());
    assert_eq!(chat.messages[0].name, None);
    assert_eq!(chat.messages[0].content, None);
    assert_eq!(chat.messages[0].function_call, None);
    let functions = chat.functions.unwrap();
    assert_eq!(functions[0].description, None);
    assert_eq!(functions[0].parameters[0].required, None);
    assert_eq!(functions[0].parameters[0].description, None);
    assert_eq!(functions[0].parameters[0].enums, None);

    let completion = decode_completion(r#"{"version":"1","engine":"e","prompt":""}"#).unwrap();
    assert!(completion.parameters.is_none());
    assert_eq!(completion.prompt, "");
}

#[test]
fn optional_arrays_may_be_empty() {
    let text = r#"{"version":"1","engine":"e","messages":[],"parameters":[],"examples":[],
        "functions":[{"name":"f","parameters":[{"name":"x","type":"string","enums":[],"required":false}]}]}"#;
    let chat = decode_chat(text).unwrap();
    assert_eq!(chat.parameters, Some(vec![]));
    assert_eq!(chat.examples, Some(vec![]));
    let functions = chat.functions.unwrap();
    assert_eq!(functions[0].parameters[0].enums, Some(vec![]));
    assert_eq!(functions[0].parameters[0].required, Some(false));
    let text = r#"{"version":"1","engine":"e","messages":[],"functions":[{"name":"f","parameters":[]}]}"#;
    assert!(decode_chat(text).unwrap().functions.unwrap()[0].parameters.is_empty());
}

#[test]
fn a_parameter_value_may_be_any_json() {
    let text = r#"{"version":"1","engine":"e","prompt":"p","parameters":[
        {"name":"a","value":null},
        {"name":"b","value":true},
        {"name":"c","value":42},
        {"name":"d","value":-0.5},
        {"name":"e","value":"text"},
        {"name":"f","value":[1,"two",[3]]},
        {"name":"g","value":{"k":{"n":null}}}
    ]}"#;
    let parameters = decode_completion(text).unwrap().parameters.unwrap();
    assert_eq!(parameters.len(), 7);
    assert_eq!(parameters[0].value, Value::Null);
    assert_eq!(parameters[1].value, true);
    assert_eq!(parameters[2].value, 42);
    assert_eq!(parameters[3].value, -0.5);
    assert_eq!(parameters[4].value, "text");
    assert_eq!(parameters[5].value, serde_json::from_str::<Value>(r#"[1,"two",[3]]"#).unwrap());
    assert_eq!(parameters[6].value, serde_json::from_str::<Value>(r#"{"k":{"n":null}}"#).unwrap());
    let names: Vec<&str> = parameters.iter().map(|p| p.name.as_str()).collect();
    assert_eq!(names, vec!["a", "b", "c", "d", "e", "f", "g"]);
}

#[test]
fn any_text_is_accepted_as_a_role_or_a_name() {
    let text = r#"{"version":"","engine":"","messages":[{"role":"critic"},{"role":""},{"role":"système"}]}"#;
    let chat = decode_chat(text).unwrap();
    assert_eq!(chat.version, "");
    assert_eq!(chat.messages[0].role, "critic");
    assert_eq!(chat.messages[1].role, "");
    assert_eq!(chat.messages[2].role, "système");
}

#[test]
fn a_message_may_carry_content_and_call_together_or_neither() {
    let text = r#"{"version":"1","engine":"e","messages":[
        {"role":"assistant","content":"calling","function_call":{"name":"f","arguments":"{}"}},
        {"role":"function"}
    ]}"#;
    let chat = decode_chat(text).unwrap();
    assert_eq!(chat.messages[0].content, Some("calling".to_string()));
    assert_eq!(chat.messages[0].function_call.as_ref().unwrap().arguments, "{}");
    assert_eq!(chat.messages[1].name, None);
    assert_eq!(chat.messages[1].content, None);
}

#[test]
fn functions_may_share_a_name() {
    let text = r#"{"version":"1","engine":"e","messages":[],"functions":[{"name":"f","parameters":[]},{"name":"f","parameters":[]}]}"#;
    let functions = decode_chat(text).unwrap().functions.unwrap();
    assert_eq!(functions.len(), 2);
    assert_eq!(functions[0], functions[1]);
}

#[test]
fn a_repeated_key_keeps_its_last_value() {
    let text = r#"{"version":"1","version":"2","engine":"e","messages":[]}"#;
    assert_eq!(decode_chat(text).unwrap().version, "2");
}

#[test]
fn strings_keep_escapes_and_unicode() {
    let text = r#"{"version":"1","engine":"e","prompt":"line\nbreak \"quoted\" é 😀 tab\t"}"#;
    let completion = decode_completion(text).unwrap();
    assert_eq!(completion.prompt, "line\nbreak \"quoted\" é 😀 tab\t");
}
