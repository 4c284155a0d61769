use cliff::{answer_of, extract_answer, simple_path, FirstSelected};

#[test]
fn answer_is_the_selected_string() {
    assert_eq!(extract_answer(r#"{"answer": "test answer"}"#, "$.answer"), Ok("test answer".to_string()));
    assert_eq!(
        extract_answer(r#"{"choices": [{"text": "first"}, {"text": "second"}]}"#, "$.choices[*].text"),
        Ok("first".to_string())
    );
}

#[test]
fn response_that_is_not_json_fails() {
    assert_eq!(
        extract_answer("<html>", "$.answer"),
        Err("Failed to parse LLM response as JSON. Raw response:\\n<html>".to_string())
    );
}

#[test]
fn path_selecting_nothing_fails() {
    assert_eq!(
        extract_answer(r#"{"a": 1}"#, "$.b"),
        Err("Could not extract the value using the defined path, response='{\"a\":1}', path = '$.b'".to_string())
    );
}

#[test]
fn selected_value_that_is_not_a_string_fails() {
    let r = extract_answer(r#"{"n": 1}"#, "$.n");
    assert_eq!(r, Err("Expected a string at JSONPath '$.n', but found: Number(1)".to_string()));
}

#[test]
fn unsupported_path_is_refused_before_selection() {
    let msg = "Unsupported JSONPath '$[0:2:0]': use $ followed by .key, ..key, .*, ..*, [index], [*] or ['key'] steps";
    assert_eq!(extract_answer("[1, 2, 3]", "$[0:2:0]"), Err(msg.to_string()));
    assert!(extract_answer(r#"{"n": 1}"#, "$.[").unwrap_err().starts_with("Unsupported JSONPath"));
    assert!(extract_answer(r#"[{"a": 1}]"#, "$[?(@.a == 1)]").unwrap_err().starts_with("Unsupported JSONPath"));
}

#[test]
fn simple_paths_are_recognised() {
    assert!(simple_path("$"));
    assert!(simple_path("$.answer"));
    assert!(simple_path("$.choices[0].message.content"));
    assert!(simple_path("$.choices[*].text"));
    assert!(simple_path("$.*"));
    assert!(simple_path("$[12][*]"));
    assert!(!simple_path(""));
    assert!(!simple_path("answer"));
    assert!(!simple_path("$."));
    assert!(simple_path("$..a"));
    assert!(!simple_path("$[0:2:0]"));
    assert!(!simple_path("$[0,1]"));
    assert!(simple_path("$['a']"));
    assert!(simple_path("$[\"content-type\"].x"));
    assert!(simple_path("$['a b,c']"));
    assert!(simple_path("$..answer"));
    assert!(simple_path("$..*"));
    assert!(simple_path("$.a..b[0]"));
    assert!(!simple_path("$..[0]"));
    assert!(!simple_path("$..."));
    assert!(!simple_path("$['a','b']"));
    assert!(!simple_path("$['a\\'b']"));
    assert!(!simple_path("$['a'"));
    assert!(!simple_path("$['a\"]"));
    assert!(!simple_path("$[?(@.a)]"));
    assert!(!simple_path("$[]"));
    assert!(!simple_path("$.a b"));
}

#[test]
fn answer_of_each_selection() {
    assert_eq!(answer_of(FirstSelected::Text("x".to_string()), "$.a", "{}"), Ok("x".to_string()));
    assert_eq!(
        answer_of(FirstSelected::Other("Bool(true)".to_string()), "$.a", "{}"),
        Err("Expected a string at JSONPath '$.a', but found: Bool(true)".to_string())
    );
    assert_eq!(
        answer_of(FirstSelected::Nothing, "$.a", "{\"b\":1}"),
        Err("Could not extract the value using the defined path, response='{\"b\":1}', path = '$.a'".to_string())
    );
}

#[test]
fn index_path_selects_array_element() {
    assert_eq!(extract_answer(r#"{"c": ["zero", "one"]}"#, "$.c[1]"), Ok("one".to_string()));
}

#[test]
fn recursive_and_quoted_paths_find_the_answer() {
    let body = r#"{"data": {"inner": {"answer": "deep"}}, "content-type": "text"}"#;
    assert_eq!(extract_answer(body, "$..answer"), Ok("deep".to_string()));
    assert_eq!(extract_answer(body, "$['content-type']"), Ok("text".to_string()));
    assert_eq!(extract_answer(body, "$[\"data\"].inner.answer"), Ok("deep".to_string()));
    assert_eq!(extract_answer(r#"["only"]"#, "$..*"), Ok("only".to_string()));
}
