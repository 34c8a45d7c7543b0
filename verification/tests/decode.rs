use groqai::decode::{
    decode_choice, decode_chunk, decode_content, decode_delta, decode_image_url,
    decode_message_part, decode_role, decode_tool_call, decode_tool_calls,
};
use groqai::json::{Json, JsonNumber};
use groqai::types::{ImageUrl, MessageContent, MessagePart, Role};

fn doc(text: &str) -> Json {
    Json::parse_str(text).unwrap()
}

#[test]
fn parser_reads_every_kind_of_value() {
    let parsed = doc(" {\"b\":[1,-2,3.5,\"x\",null,true,false,{}],\"a\":18446744073709551615} ");
    match parsed {
        Json::Object(members) => {
            assert_eq!(members.len(), 2);
            let mut keys: Vec<&str> = members.iter().map(|(k, _)| k.as_str()).collect();
            keys.sort();
            assert_eq!(keys, vec!["a", "b"]);
        }
        other => panic!("expected an object, got {:?}", other),
    }
    let parsed = doc("{\"b\":[1,-2,3.5,\"x\",null,true,false,{}],\"a\":18446744073709551615}");
    assert!(matches!(parsed.get("a"), Some(Json::Number(JsonNumber::PosInt(u64::MAX)))));
    let items = parsed.get("b").unwrap().as_array().unwrap();
    assert_eq!(items.len(), 8);
    assert!(matches!(items[0], Json::Number(JsonNumber::PosInt(1))));
    assert!(matches!(items[1], Json::Number(JsonNumber::NegInt(-2))));
    assert!(matches!(items[2], Json::Number(JsonNumber::Float)));
    assert!(matches!(&items[3], Json::String(s) if s == "x"));
    assert!(items[4].is_null());
    assert!(matches!(items[5], Json::Bool(true)));
    assert!(matches!(items[6], Json::Bool(false)));
    assert!(items[7].is_object());
    assert!(parsed.get("c").is_none());
    assert!(items[0].get("a").is_none());
}

#[test]
fn parser_refuses_what_is_not_json() {
    for text in ["", "{", "{\"a\":}", "[1,]", "nul", "{\"a\":1} x", "'a'", "{a:1}"] {
        assert!(Json::parse_str(text).is_none(), "{:?}", text);
    }
    let chars: Vec<char> = "[1]".chars().collect();
    assert!(Json::parse(&chars).is_some());
    assert!(Json::parse_or_explain(&chars).is_ok());
    let broken: Vec<char> = "[1".chars().collect();
    let explained = Json::parse_or_explain(&broken).unwrap_err();
    assert!(!explained.message().is_empty());
    assert!(explained.to_string().starts_with("JSON serialization error: "));
}

#[test]
fn integers_by_width() {
    assert_eq!(doc("5").as_i64(), Some(5));
    assert_eq!(doc("-5").as_i64(), Some(-5));
    assert_eq!(doc("9223372036854775807").as_i64(), Some(i64::MAX));
    assert_eq!(doc("9223372036854775808").as_i64(), None);
    assert_eq!(doc("-9223372036854775808").as_i64(), Some(i64::MIN));
    assert_eq!(doc("5.0").as_i64(), None);
    assert_eq!(doc("\"5\"").as_i64(), None);
    assert_eq!(doc("2147483647").as_i32(), Some(i32::MAX));
    assert_eq!(doc("2147483648").as_i32(), None);
    assert_eq!(doc("-2147483648").as_i32(), Some(i32::MIN));
    assert_eq!(doc("-2147483649").as_i32(), None);
}

#[test]
fn roles() {
    assert_eq!(decode_role(&doc("\"system\"")), Some(Role::System));
    assert_eq!(decode_role(&doc("\"user\"")), Some(Role::User));
    assert_eq!(decode_role(&doc("\"assistant\"")), Some(Role::Assistant));
    assert_eq!(decode_role(&doc("\"tool\"")), Some(Role::Tool));
    assert_eq!(decode_role(&doc("\"User\"")), None);
    assert_eq!(decode_role(&doc("\"\"")), None);
    assert_eq!(decode_role(&doc("1")), None);
}

#[test]
fn image_references() {
    assert_eq!(
        decode_image_url(&doc("{\"url\":\"http://x/y.png\"}")),
        Some(ImageUrl { url: "http://x/y.png".to_string(), detail: None })
    );
    assert_eq!(
        decode_image_url(&doc("{\"url\":\"u\",\"detail\":\"high\",\"more\":1}")),
        Some(ImageUrl { url: "u".to_string(), detail: Some("high".to_string()) })
    );
    assert_eq!(
        decode_image_url(&doc("{\"url\":\"u\",\"detail\":null}")),
        Some(ImageUrl { url: "u".to_string(), detail: None })
    );
    assert_eq!(decode_image_url(&doc("{\"detail\":\"high\"}")), None);
    assert_eq!(decode_image_url(&doc("{\"url\":1}")), None);
    assert_eq!(decode_image_url(&doc("{\"url\":\"u\",\"detail\":1}")), None);
    assert_eq!(decode_image_url(&doc("\"u\"")), None);
}

#[test]
fn message_parts() {
    assert_eq!(
        decode_message_part(&doc("{\"type\":\"text\",\"text\":\"hi\"}")),
        Some(MessagePart::Text { text: "hi".to_string() })
    );
    assert_eq!(
        decode_message_part(&doc("{\"type\":\"image_url\",\"image_url\":{\"url\":\"u\"}}")),
        Some(MessagePart::ImageUrl { image_url: ImageUrl::new("u") })
    );
    assert_eq!(decode_message_part(&doc("{\"type\":\"audio\",\"text\":\"hi\"}")), None);
    assert_eq!(decode_message_part(&doc("{\"text\":\"hi\"}")), None);
    assert_eq!(decode_message_part(&doc("{\"type\":\"text\"}")), None);
    assert_eq!(decode_message_part(&doc("{\"type\":\"image_url\",\"image_url\":\"u\"}")), None);
}

#[test]
fn content_in_its_three_forms() {
    assert_eq!(decode_content(&doc("\"plain\"")), Some(MessageContent::text("plain")));
    assert_eq!(decode_content(&doc("{\"url\":\"u\"}")), Some(MessageContent::image("u")));
    assert_eq!(
        decode_content(&doc("[{\"type\":\"text\",\"text\":\"a\"},{\"type\":\"image_url\",\"image_url\":{\"url\":\"u\"}}]")),
        Some(MessageContent::parts(vec![
            MessagePart::Text { text: "a".to_string() },
            MessagePart::ImageUrl { image_url: ImageUrl::new("u") },
        ]))
    );
    assert_eq!(decode_content(&doc("[]")), Some(MessageContent::Parts(vec![])));
    assert_eq!(decode_content(&doc("[{\"type\":\"text\",\"text\":\"a\"},5]")), None);
    assert_eq!(decode_content(&doc("{\"no\":\"url\"}")), None);
    assert_eq!(decode_content(&doc("5")), None);
    assert_eq!(decode_content(&doc("true")), None);
}

#[test]
fn tool_calls() {
    let call = decode_tool_call(&doc(
        "{\"id\":\"c\",\"type\":\"function\",\"function\":{\"name\":\"f\",\"arguments\":\"{\\\"a\\\":1}\"}}",
    ))
    .unwrap();
    assert_eq!(call.id, "c");
    assert_eq!(call.type_, "function");
    assert_eq!(call.function.name, "f");
    assert_eq!(call.function.arguments, "{\"a\":1}");
    assert!(decode_tool_call(&doc("{\"id\":\"c\",\"type\":\"function\"}")).is_none());
    assert!(decode_tool_call(&doc("{\"id\":\"c\",\"type\":\"function\",\"function\":{\"name\":\"f\"}}")).is_none());
    assert!(decode_tool_call(&doc("{\"type\":\"function\",\"function\":{\"name\":\"f\",\"arguments\":\"\"}}")).is_none());
    assert_eq!(decode_tool_calls(&doc("[]")).unwrap().len(), 0);
    assert!(decode_tool_calls(&doc("{}")).is_none());
    assert!(decode_tool_calls(&doc("[1]")).is_none());
}

#[test]
fn deltas() {
    let empty = decode_delta(&doc("{}")).unwrap();
    assert_eq!(empty.role, None);
    assert_eq!(empty.content, None);
    assert!(empty.tool_calls.is_none());
    let nulls = decode_delta(&doc("{\"role\":null,\"content\":null,\"tool_calls\":null}")).unwrap();
    assert_eq!(nulls.role, None);
    assert_eq!(nulls.content, None);
    assert!(nulls.tool_calls.is_none());
    let full = decode_delta(&doc("{\"role\":\"user\",\"content\":\"c\",\"tool_calls\":[]}")).unwrap();
    assert_eq!(full.role, Some(Role::User));
    assert_eq!(full.content, Some(MessageContent::text("c")));
    assert_eq!(full.tool_calls.unwrap().len(), 0);
    assert!(decode_delta(&doc("{\"role\":\"nobody\"}")).is_none());
    assert!(decode_delta(&doc("{\"content\":1}")).is_none());
    assert!(decode_delta(&doc("{\"tool_calls\":{}}")).is_none());
    assert!(decode_delta(&doc("5")).is_none());
    assert!(decode_delta(&doc("[]")).is_none());
    assert!(decode_delta(&doc("null")).is_none());
}

#[test]
fn choices() {
    let choice = decode_choice(&doc("{\"index\":3,\"delta\":{},\"finish_reason\":\"stop\"}")).unwrap();
    assert_eq!(choice.index, 3);
    assert_eq!(choice.finish_reason, Some("stop".to_string()));
    assert!(decode_choice(&doc("{\"index\":3,\"delta\":{}}")).unwrap().finish_reason.is_none());
    assert!(decode_choice(&doc("{\"delta\":{}}")).is_none());
    assert!(decode_choice(&doc("{\"index\":3}")).is_none());
    assert!(decode_choice(&doc("{\"index\":\"3\",\"delta\":{}}")).is_none());
    assert!(decode_choice(&doc("{\"index\":3.0,\"delta\":{}}")).is_none());
    assert!(decode_choice(&doc("{\"index\":2147483648,\"delta\":{}}")).is_none());
    assert!(decode_choice(&doc("{\"index\":3,\"delta\":{},\"finish_reason\":1}")).is_none());
}

#[test]
fn chunks_need_their_members() {
    let whole = "{\"id\":\"i\",\"object\":\"o\",\"created\":1,\"model\":\"m\",\"choices\":[]}";
    assert!(decode_chunk(&doc(whole)).is_some());
    for missing in ["id", "object", "created", "model", "choices"] {
        let members: Vec<String> = [
            ("id", "\"i\""),
            ("object", "\"o\""),
            ("created", "1"),
            ("model", "\"m\""),
            ("choices", "[]"),
        ]
        .iter()
        .filter(|(k, _)| *k != missing)
        .map(|(k, v)| format!("\"{}\":{}", k, v))
        .collect();
        let text = format!("{{{}}}", members.join(","));
        assert!(decode_chunk(&doc(&text)).is_none(), "without {}", missing);
    }
    assert!(decode_chunk(&doc("{\"id\":\"i\",\"object\":\"o\",\"created\":1.5,\"model\":\"m\",\"choices\":[]}")).is_none());
    assert!(decode_chunk(&doc("{\"id\":\"i\",\"object\":\"o\",\"created\":1,\"model\":\"m\",\"choices\":{}}")).is_none());
    assert!(decode_chunk(&doc("{\"id\":\"i\",\"object\":\"o\",\"created\":1,\"model\":\"m\",\"choices\":[{}]}")).is_none());
    assert!(decode_chunk(&doc("{\"id\":null,\"object\":\"o\",\"created\":1,\"model\":\"m\",\"choices\":[]}")).is_none());
    assert!(decode_chunk(&doc("[]")).is_none());
    assert!(decode_chunk(&doc("\"chunk\"")).is_none());
}
