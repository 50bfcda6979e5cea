use std::sync::atomic::{AtomicUsize, Ordering};
use std::sync::Arc;

use agent_workflow::calculator::CalculateTool;
use agent_workflow::error::{DecodeFailure, ToolError};
use agent_workflow::registry::ToolRegistry;
use agent_workflow::schema::{ParamKind, ParameterSchema, ToolArgs};
use agent_workflow::tool::{Tool, ToolCallRequest, ToolDefinition};

fn request(name: &str, raw_args: &str) -> ToolCallRequest {
    ToolCallRequest { name: name.to_string(), raw_args: raw_args.to_string() }
}

/// A tool that counts how often it is called and echoes its `text` argument.
struct CountingEcho {
    calls: Arc<AtomicUsize>,
}

impl Tool for CountingEcho {
    fn definition(&self) -> ToolDefinition {
        ToolDefinition {
            name: "echo".to_string(),
            description: "Echoes the text".to_string(),
            parameters: ParameterSchema::empty()
                .with_property("text", ParamKind::Text, "what to echo", true)
                .with_property("times", ParamKind::Integer, "how often", false)
                .with_property("loud", ParamKind::Boolean, "upper case", false),
        }
    }

    fn call(&self, args: &ToolArgs) -> Result<String, String> {
        self.calls.fetch_add(1, Ordering::SeqCst);
        match args.text("text") {
            Some(text) if text == "fail" => Err("asked to fail".to_string()),
            Some(text) => Ok(text.to_string()),
            None => Err("no text".to_string()),
        }
    }
}

#[test]
fn dispatch_returns_tool_output_unchanged() {
    let registry = ToolRegistry::new().register(CalculateTool);
    let out = registry.dispatch(&request("calculate_tool", r#"{"expression": "2 + 2"}"#));
    assert_eq!(out, Ok("4".to_string()));
}

#[test]
fn dispatch_unknown_tool_is_not_found() {
    let registry = ToolRegistry::new().register(CalculateTool);
    let out = registry.dispatch(&request("weather", r#"{"expression": "2 + 2"}"#));
    assert_eq!(out, Err(ToolError::ToolNotFound("weather".to_string())));
}

#[test]
fn dispatch_malformed_arguments_never_invoke_the_tool() {
    let calls = Arc::new(AtomicUsize::new(0));
    let registry = ToolRegistry::new().register(CountingEcho { calls: calls.clone() });
    let cases: Vec<(&str, DecodeFailure)> = vec![
        ("{not json", DecodeFailure::InvalidJson),
        ("", DecodeFailure::InvalidJson),
        ("[\"hello\"]", DecodeFailure::NotAnObject),
        ("\"hello\"", DecodeFailure::NotAnObject),
        ("{}", DecodeFailure::MissingProperty("text".to_string())),
        (r#"{"times": 2}"#, DecodeFailure::MissingProperty("text".to_string())),
        (r#"{"text": 5}"#, DecodeFailure::WrongType("text".to_string())),
        (r#"{"text": null}"#, DecodeFailure::WrongType("text".to_string())),
        (r#"{"text": "a", "times": 1.5}"#, DecodeFailure::WrongType("times".to_string())),
        (r#"{"text": "a", "times": "2"}"#, DecodeFailure::WrongType("times".to_string())),
        (r#"{"text": "a", "loud": 1}"#, DecodeFailure::WrongType("loud".to_string())),
        (
            r#"{"text": "a", "times": 9223372036854775808}"#,
            DecodeFailure::WrongType("times".to_string()),
        ),
    ];
    for (raw, why) in cases {
        let out = registry.dispatch(&request("echo", raw));
        assert_eq!(out, Err(ToolError::ArgumentDecodeError(why)), "payload {:?}", raw);
        assert_eq!(calls.load(Ordering::SeqCst), 0);
    }
    assert_eq!(registry.dispatch(&request("other", "{}")), Err(ToolError::ToolNotFound("other".to_string())));
    assert_eq!(calls.load(Ordering::SeqCst), 0);
    let ok = registry.dispatch(&request("echo", r#"{"text": "hi", "times": 2, "extra": []}"#));
    assert_eq!(ok, Ok("hi".to_string()));
    assert_eq!(calls.load(Ordering::SeqCst), 1);
}

#[test]
fn dispatch_wraps_tool_failure() {
    let calls = Arc::new(AtomicUsize::new(0));
    let registry = ToolRegistry::new().register(CountingEcho { calls: calls.clone() });
    let out = registry.dispatch(&request("echo", r#"{"text": "fail"}"#));
    assert_eq!(calls.load(Ordering::SeqCst), 1);
    assert_eq!(out, Err(ToolError::ToolCallError("asked to fail".to_string())));
    let bad = ToolRegistry::new()
        .register(CalculateTool)
        .dispatch(&request("calculate_tool", r#"{"expression": "2 +"}"#));
    assert_eq!(
        bad,
        Err(ToolError::ToolCallError(
            "Parse error: Missing argument at the end of expression.".to_string()
        ))
    );
}

#[test]
fn blank_expression_is_an_error_not_a_panic() {
    let tool = CalculateTool;
    let nothing = Err("Parse error: Missing argument at the end of expression.".to_string());
    assert_eq!(tool.evaluate(""), nothing);
    assert_eq!(tool.evaluate(" \t\r\n"), nothing);
    assert_eq!(tool.evaluate("\n"), nothing);
    assert!(tool.evaluate(" ").is_err());
    assert_eq!(tool.evaluate(" 2 + 2 "), Ok("4".to_string()));
}

#[test]
fn plain_arithmetic_has_its_value() {
    let tool = CalculateTool;
    let cases = [
        ("2 + 2", "4"),
        ("2 + 3 * 4", "14"),
        ("7 / 2", "3.5"),
        ("(1 + 2) * (3 - 5)", "-6"),
        ("10 % 4", "2"),
        ("-3", "-3"),
        ("0.1 + 0.2", "0.30000000000000004"),
        ("100 * 1.4 * 0.6", "84"),
        ("1 / 0", "inf"),
    ];
    for (expression, value) in cases {
        assert_eq!(tool.evaluate(expression), Ok(value.to_string()), "{}", expression);
        assert_eq!(tool.evaluate(expression), tool.evaluate(expression));
    }
}

#[test]
fn what_cannot_be_evaluated_fails_with_the_evaluators_message() {
    let tool = CalculateTool;
    let cases = [
        ("2 +", "Parse error: Missing argument at the end of expression."),
        ("(1 + 2", "Parse error: Missing 1 right parenthesis."),
        ("1 + 2)", "Parse error: Unexpected token at byte 5."),
        ("two", "Evaluation error: unknown variable `two`."),
        ("2 $ 3", "Parse error: Unexpected token at byte 2."),
        ("é", "Parse error: Unexpected token at byte 0."),
    ];
    for (expression, message) in cases {
        assert_eq!(tool.evaluate(expression), Err(message.to_string()), "{}", expression);
    }
    let long = "1 + ".repeat(5000) + "1";
    assert_eq!(tool.evaluate(&long), Ok("5001".to_string()));
    assert!(tool.evaluate("sqrt(16) + 2 ^ 3").is_ok());
    assert!(tool.evaluate("sin(1, 2)").is_err());
}

#[test]
fn tool_failure_is_never_a_decode_failure() {
    let registry = ToolRegistry::new().register(CalculateTool);
    for expression in ["", " ", "2 +", "(", "x", "1 +* 2"] {
        let raw = serde_json::Value::from(expression).to_string();
        let raw = format!("{{\"expression\": {}}}", raw);
        match registry.dispatch(&request("calculate_tool", &raw)) {
            Err(ToolError::ToolCallError(_)) => {}
            other => panic!("{:?} gave {:?}", expression, other),
        }
    }
}
