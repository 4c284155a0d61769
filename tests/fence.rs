use cliff::{fence_contents, strip_json_fence};

#[test]
fn test_strip_json_fence() {
    let input = r#"
        ```json
        {
          "steps": [
            {
              "action": "create_file",
              "path": "hello.py",
              "content": "print('Hello, world!')"
            }
          ]
        }
        ```"#;
    let expected = r#"{
          "steps": [
            {
              "action": "create_file",
              "path": "hello.py",
              "content": "print('Hello, world!')"
            }
          ]
        }"#;
    let result = strip_json_fence(input);
    assert_eq!(result, expected)
}

#[test]
fn unfenced_reply_comes_back_unchanged() {
    let input = "  {\"steps\": []}  ";
    assert_eq!(strip_json_fence(input), input);
}

#[test]
fn fence_without_closing_is_left_alone() {
    let input = "```json\n{}";
    assert_eq!(strip_json_fence(input), input);
}

#[test]
fn other_fence_label_is_left_alone() {
    let input = "```rust\n{}\n```";
    assert_eq!(strip_json_fence(input), input);
}

#[test]
fn empty_fence_gives_empty_text() {
    assert_eq!(strip_json_fence("```json```"), "");
    assert_eq!(fence_contents("```json```"), Some(""));
}

#[test]
fn fence_contents_takes_text_between_markers() {
    assert_eq!(fence_contents("```json {\"a\":1} ```"), Some(" {\"a\":1} "));
    assert_eq!(fence_contents("```json"), None);
    assert_eq!(fence_contents("{}"), None);
}
