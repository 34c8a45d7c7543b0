use groqai::api::batches::list_params;
use groqai::api::files::{check_line, find_invalid_line, FileCreateRequest};
use groqai::api::fine_tunings::FineTuningCreateRequest;
use groqai::error::GroqError;
use groqai::types::{
    ChatMessage, FunctionCall, ImageUrl, KnownModel, MessageContent, MessagePart, Role, ToolCall,
};
use std::path::PathBuf;

#[test]
fn text_message() {
    let msg = ChatMessage::new_text(Role::User, "Hello");
    assert_eq!(msg.role, Role::User);
    assert_eq!(msg.content, MessageContent::Text("Hello".to_string()));
    assert!(msg.tool_calls.is_none());
    assert!(msg.tool_call_id.is_none());
}

#[test]
fn multimodal_message() {
    let parts = vec![
        MessagePart::Text { text: "look".to_string() },
        MessagePart::ImageUrl { image_url: ImageUrl::new("http://x/i.png") },
    ];
    let msg = ChatMessage::new_multimodal(Role::User, parts.clone());
    assert_eq!(msg.role, Role::User);
    assert_eq!(msg.content, MessageContent::Parts(parts));
    assert!(msg.tool_calls.is_none());
    assert!(msg.tool_call_id.is_none());
}

#[test]
fn tool_response_message() {
    let msg = ChatMessage::tool_response("call_9".to_string(), "42");
    assert_eq!(msg.role, Role::Tool);
    assert_eq!(msg.content, MessageContent::Text("42".to_string()));
    assert!(msg.tool_calls.is_none());
    assert_eq!(msg.tool_call_id, Some("call_9".to_string()));
}

#[test]
fn message_with_tool_calls() {
    let call = ToolCall {
        id: "c".to_string(),
        type_: "function".to_string(),
        function: FunctionCall { name: "f".to_string(), arguments: "{}".to_string() },
    };
    let msg = ChatMessage::new_text(Role::Assistant, "").with_tool_calls(vec![call]);
    assert_eq!(msg.role, Role::Assistant);
    let calls = msg.tool_calls.unwrap();
    assert_eq!(calls.len(), 1);
    assert_eq!(calls[0].function.name, "f");
}

#[test]
fn content_constructors() {
    assert_eq!(MessageContent::text("t"), MessageContent::Text("t".to_string()));
    assert_eq!(
        MessageContent::image("u"),
        MessageContent::ImageUrl(ImageUrl { url: "u".to_string(), detail: None })
    );
    assert_eq!(MessageContent::parts(vec![]), MessageContent::Parts(vec![]));
    let image = ImageUrl::new("http://x");
    assert_eq!(image.url, "http://x");
    assert_eq!(image.detail, None);
}

#[test]
fn model_names() {
    assert_eq!(KnownModel::Llama3_1_8bInstant.to_string(), "llama-3.1-8b-instant");
    assert_eq!(KnownModel::Llama3_1_70bVersatile.to_string(), "llama-3.1-70b-versatile");
    assert_eq!(KnownModel::Llama3_1_405bReasoning.to_string(), "llama-3.1-405b-reasoning");
    assert_eq!(KnownModel::Mixtral8x7b32768.to_string(), "mixtral-8x7b-32768");
    assert_eq!(KnownModel::Gemma2_9bIt.to_string(), "gemma2-9b-it");
    assert_eq!(KnownModel::Qwen2_5_72bInstruct.to_string(), "qwen2.5-72b-instruct");
    assert_eq!(KnownModel::Other("mine".to_string()).to_string(), "mine");
    assert_eq!(KnownModel::Other("mine".to_string()).into_string(), "mine");
    assert_eq!(KnownModel::Gemma2_9bIt.into_string(), "gemma2-9b-it");
}

#[test]
fn test_file_create_invalid_extension() {
    let req = FileCreateRequest::new(PathBuf::from("test.txt"), "batch".to_string(), "");
    assert!(req.is_err());
    assert!(matches!(req, Err(GroqError::InvalidMessage(m)) if m == "File must have .jsonl extension"));
}

#[test]
fn file_request_checks_extension_and_content() {
    let good = "{\"a\":1}\n\n   \n[1,2]\r\n\"last\"";
    let req = FileCreateRequest::new(PathBuf::from("dir/data.jsonl"), "batch".to_string(), good).unwrap();
    assert_eq!(req.file, PathBuf::from("dir/data.jsonl"));
    assert_eq!(req.purpose, "batch");
    for path in ["data", ".jsonl", "data.json", "data.jsonl.txt", "data.JSONL", "jsonl"] {
        assert!(FileCreateRequest::new(PathBuf::from(path), "batch".to_string(), good).is_err(), "{}", path);
    }
    let bad = FileCreateRequest::new(PathBuf::from("data.jsonl"), "batch".to_string(), "{\"a\":1}\nnot json\n");
    assert!(matches!(bad, Err(GroqError::InvalidMessage(m)) if m.starts_with("Invalid JSONL at line 2: ") && m.len() > 25));
    let by_hand = FileCreateRequest::checked(PathBuf::from("x"), "p".to_string(), Some("jsonl"), "1\n2\n");
    assert!(by_hand.is_ok());
    assert!(FileCreateRequest::checked(PathBuf::from("x.jsonl"), "p".to_string(), None, "1\n").is_err());
}

#[test]
fn first_invalid_line_is_found() {
    assert!(find_invalid_line("").is_none());
    assert!(find_invalid_line("\n\n").is_none());
    assert!(find_invalid_line("{}\n{}\n").is_none());
    assert!(find_invalid_line("{}\n{}").is_none());
    assert_eq!(find_invalid_line("x").map(|found| found.0), Some(1));
    assert_eq!(find_invalid_line("{}\n\nx\n{}").map(|found| found.0), Some(3));
    assert_eq!(find_invalid_line("{}\n{}\n{").map(|found| found.0), Some(3));
    assert_eq!(find_invalid_line("{}\r\n{}\r\nx\r\n").map(|found| found.0), Some(3));
    assert!(!find_invalid_line("{").unwrap().1.message().is_empty());
    assert!(find_invalid_line(" \t\u{a0}\n1").is_none());
    assert!(check_line(&"  ".chars().collect()));
    assert!(check_line(&" 1 ".chars().collect()));
    assert!(!check_line(&" 1 2 ".chars().collect()));
}

#[test]
fn fine_tuning_request_holds_its_fields() {
    let req = FineTuningCreateRequest {
        base_model: "b".to_string(),
        input_file_id: "f".to_string(),
        name: "n".to_string(),
        type_: "lora".to_string(),
    };
    let copy = req.clone();
    assert_eq!(copy.base_model, "b");
    assert_eq!(copy.input_file_id, "f");
    assert_eq!(copy.name, "n");
    assert_eq!(copy.type_, "lora");
}

#[test]
fn list_queries() {
    assert_eq!(list_params(None, None), vec![]);
    assert_eq!(
        list_params(Some("batch_123".to_string()), None),
        vec![("after".to_string(), "batch_123".to_string())]
    );
    assert_eq!(list_params(None, Some(10)), vec![("limit".to_string(), "10".to_string())]);
    assert_eq!(
        list_params(Some("b".to_string()), Some(u32::MAX)),
        vec![
            ("after".to_string(), "b".to_string()),
            ("limit".to_string(), "4294967295".to_string())
        ]
    );
}
