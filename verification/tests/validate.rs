use prompt_schema::decode_chat;

fn chat_with_functions(names: &[&str]) -> String {
    let functions: Vec<String> = names
        .iter()
        .map(|name| format!(r#"{{"name":"{}","parameters":[]}}"#, name))
        .collect();
    format!(
        r#"{{"version":"1","engine":"e","messages":[],"functions":[{}]}}"#,
        functions.join(",")
    )
}

#[test]
fn distinct_function_names_pass() {
    let chat = decode_chat(&chat_with_functions(&["get_weather", "get_time", "get"])).unwrap();
    assert!(chat.has_distinct_function_names());
    let chat = decode_chat(&chat_with_functions(&["only"])).unwrap();
    assert!(chat.has_distinct_function_names());
}

#[test]
fn a_chat_without_functions_passes() {
    let chat = decode_chat(r#"{"version":"1","engine":"e","messages":[]}"#).unwrap();
    assert!(chat.has_distinct_function_names());
    let chat = decode_chat(&chat_with_functions(&[])).unwrap();
    assert!(chat.has_distinct_function_names());
}

#[test]
fn a_repeated_function_name_is_found() {
    let chat = decode_chat(&chat_with_functions(&["a", "a"])).unwrap();
    assert!(!chat.has_distinct_function_names());
    let chat = decode_chat(&chat_with_functions(&["a", "b", "c", "a"])).unwrap();
    assert!(!chat.has_distinct_function_names());
    let chat = decode_chat(&chat_with_functions(&["a", "b", "c", "c"])).unwrap();
    assert!(!chat.has_distinct_function_names());
    let chat = decode_chat(&chat_with_functions(&["x", "b", "b", "y"])).unwrap();
    assert!(!chat.has_distinct_function_names());
}

#[test]
fn names_that_differ_in_case_or_length_are_distinct() {
    let chat = decode_chat(&chat_with_functions(&["f", "F", "ff", ""])).unwrap();
    assert!(chat.has_distinct_function_names());
}
