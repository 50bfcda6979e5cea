use agent_workflow::decode::{decode_arguments, decode_value};
use agent_workflow::error::{DecodeFailure, ToolError};
use agent_workflow::schema::{ArgValue, Argument, ParamKind, ParameterSchema, ToolArgs};

fn schema() -> ParameterSchema {
    ParameterSchema::empty()
        .with_property("city", ParamKind::Text, "where", true)
        .with_property("days", ParamKind::Integer, "how long", false)
        .with_property("metric", ParamKind::Boolean, "units", true)
}

fn argument(name: &str, value: ArgValue) -> Argument {
    Argument { name: name.to_string(), value }
}

#[test]
fn arguments_come_in_the_order_of_the_schema() {
    let decoded =
        decode_arguments(&schema(), r#"{"metric": false, "days": -3, "city": "Oslo", "x": 1}"#);
    assert_eq!(
        decoded,
        Ok(ToolArgs {
            entries: vec![
                argument("city", ArgValue::Text("Oslo".to_string())),
                argument("days", ArgValue::Integer(-3)),
                argument("metric", ArgValue::Boolean(false)),
            ],
        })
    );
}

#[test]
fn optional_property_may_be_absent() {
    let decoded = decode_arguments(&schema(), r#"{"city": "Oslo", "metric": true}"#).unwrap();
    assert_eq!(decoded.entries.len(), 2);
    assert_eq!(decoded.text("city"), Some("Oslo"));
    assert_eq!(decoded.get("days"), None);
    assert_eq!(decoded.get("metric"), Some(&ArgValue::Boolean(true)));
    assert_eq!(decoded.text("metric"), None);
}

#[test]
fn first_failing_property_is_reported() {
    assert_eq!(
        decode_arguments(&schema(), r#"{"city": 1, "days": "x"}"#),
        Err(DecodeFailure::WrongType("city".to_string()))
    );
    assert_eq!(
        decode_arguments(&schema(), r#"{"city": "Oslo", "days": "x"}"#),
        Err(DecodeFailure::WrongType("days".to_string()))
    );
    assert_eq!(
        decode_arguments(&schema(), r#"{"city": "Oslo", "days": 2}"#),
        Err(DecodeFailure::MissingProperty("metric".to_string()))
    );
}

#[test]
fn integers_must_fit_sixty_four_bits() {
    let schema = ParameterSchema::empty().with_property("n", ParamKind::Integer, "", true);
    assert_eq!(
        decode_arguments(&schema, r#"{"n": 9223372036854775807}"#).unwrap().entries,
        vec![argument("n", ArgValue::Integer(i64::MAX))]
    );
    assert_eq!(
        decode_arguments(&schema, r#"{"n": -9223372036854775808}"#).unwrap().entries,
        vec![argument("n", ArgValue::Integer(i64::MIN))]
    );
    for raw in [r#"{"n": 9223372036854775808}"#, r#"{"n": 1.0}"#, r#"{"n": 1e3}"#, r#"{"n": true}"#] {
        assert_eq!(
            decode_arguments(&schema, raw),
            Err(DecodeFailure::WrongType("n".to_string())),
            "payload {}",
            raw
        );
    }
}

#[test]
fn payload_must_be_one_json_object() {
    for raw in ["", "   ", "{", "{\"city\": }", "{} {}", "nul"] {
        assert_eq!(decode_arguments(&schema(), raw), Err(DecodeFailure::InvalidJson), "{:?}", raw);
    }
    for raw in ["null", "1", "\"text\"", "[1, 2]", "true"] {
        assert_eq!(decode_arguments(&schema(), raw), Err(DecodeFailure::NotAnObject), "{:?}", raw);
    }
}

#[test]
fn empty_schema_accepts_every_object() {
    let schema = ParameterSchema::empty();
    assert_eq!(decode_arguments(&schema, "{}"), Ok(ToolArgs { entries: Vec::new() }));
    assert_eq!(
        decode_arguments(&schema, r#"{"anything": [1, {"a": null}]}"#),
        Ok(ToolArgs { entries: Vec::new() })
    );
    assert_eq!(decode_arguments(&schema, "[]"), Err(DecodeFailure::NotAnObject));
}

#[test]
fn parsed_documents_decode_the_same() {
    let document: serde_json::Value =
        serde_json::from_str(r#"{"city": "Oslo", "metric": true}"#).unwrap();
    assert_eq!(
        decode_value(&schema(), &document).unwrap().entries,
        vec![
            argument("city", ArgValue::Text("Oslo".to_string())),
            argument("metric", ArgValue::Boolean(true)),
        ]
    );
    let array: serde_json::Value = serde_json::from_str("[1]").unwrap();
    assert_eq!(decode_value(&schema(), &array), Err(DecodeFailure::NotAnObject));
    let nested: serde_json::Value =
        serde_json::from_str(r#"{"city": {"name": "Oslo"}, "metric": true}"#).unwrap();
    assert_eq!(
        decode_value(&schema(), &nested),
        Err(DecodeFailure::WrongType("city".to_string()))
    );
}

#[test]
fn repeated_key_counts_once() {
    let decoded =
        decode_arguments(&schema(), r#"{"city": "Oslo", "city": "Bergen", "metric": true}"#).unwrap();
    assert_eq!(decoded.text("city"), Some("Bergen"));
    assert_eq!(decoded.entries.len(), 2);
}

#[test]
fn failures_describe_themselves() {
    assert_eq!(
        DecodeFailure::InvalidJson.describe(),
        "ArgumentDecodeError: the arguments are not valid JSON"
    );
    assert_eq!(
        DecodeFailure::NotAnObject.describe(),
        "ArgumentDecodeError: the arguments are not a JSON object"
    );
    assert_eq!(
        DecodeFailure::MissingProperty("city".to_string()).describe(),
        "ArgumentDecodeError: missing required property city"
    );
    assert_eq!(
        ToolError::ArgumentDecodeError(DecodeFailure::WrongType("days".to_string())).describe(),
        "ArgumentDecodeError: wrong type for property days"
    );
    assert_eq!(ToolError::ToolCallError("boom".to_string()).describe(), "ToolCallError: boom");
    assert_eq!(ToolError::ToolNotFound("x".to_string()).describe(), "ToolNotFound: x");
}
