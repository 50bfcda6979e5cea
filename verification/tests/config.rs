use agent_workflow::calculator::CalculateTool;
use agent_workflow::config::AgentConfig;
use agent_workflow::registry::ToolRegistry;
use agent_workflow::schema::{ParamKind, ParameterSchema, ToolArgs};
use agent_workflow::tool::{Tool, ToolCallRequest, ToolDefinition};

#[test]
fn default_configuration() {
    let config = AgentConfig::new();
    assert_eq!(config.name, "Agent");
    assert_eq!(config.user_name, "User");
    assert_eq!(config.system_prompt, "");
    assert_eq!(config.temperature_millis, 0);
    assert_eq!(config.max_tokens, 8192);
    assert_eq!(config.max_turns, 1);
    assert!(config.stop_markers.is_empty());
}

#[test]
fn builder_sets_each_field() {
    let config = AgentConfig::new()
        .agent_name("The Working Agent")
        .system_prompt("You solve math problems.")
        .user_name("Worker")
        .temperature_millis(100)
        .max_tokens(4096)
        .max_turns(3)
        .add_stop_word("<DONE>");
    assert_eq!(config.name, "The Working Agent");
    assert_eq!(config.system_prompt, "You solve math problems.");
    assert_eq!(config.user_name, "Worker");
    assert_eq!(config.temperature_millis, 100);
    assert_eq!(config.max_tokens, 4096);
    assert_eq!(config.max_turns, 3);
    assert_eq!(config.stop_markers, vec!["<DONE>".to_string()]);
    assert_eq!(config.clone(), config);
}

#[test]
fn stop_markers_are_a_set() {
    let config = AgentConfig::new()
        .add_stop_word("<DONE>")
        .add_stop_word("STOP")
        .add_stop_word("<DONE>");
    assert_eq!(config.stop_markers, vec!["<DONE>".to_string(), "STOP".to_string()]);
}

#[test]
fn calculator_definition() {
    let definition = CalculateTool.definition();
    assert_eq!(definition.name, "calculate_tool");
    assert_eq!(
        definition.description,
        "Evaluates a mathematical expression and returns the result"
    );
    assert_eq!(definition.parameters.properties.len(), 1);
    let property = &definition.parameters.properties[0];
    assert_eq!(property.name, "expression");
    assert_eq!(property.kind, ParamKind::Text);
    assert_eq!(
        property.description,
        "A mathematical expression to evaluate (e.g., '2 + 2', '3.14 * 5')"
    );
    assert!(property.required);
    assert_eq!(definition.clone(), definition);
}

#[test]
fn calculator_call() {
    let registry = ToolRegistry::new().register(CalculateTool);
    let (at, args) = registry
        .resolve(&ToolCallRequest {
            name: "calculate_tool".to_string(),
            raw_args: r#"{"expression": "3.5 * 2"}"#.to_string(),
        })
        .unwrap();
    assert_eq!(at, 0);
    assert_eq!(args.text("expression"), Some("3.5 * 2"));
    assert_eq!(CalculateTool.call(&args), Ok("7".to_string()));
    let none = ToolArgs { entries: Vec::new() };
    assert_eq!(
        CalculateTool.call(&none),
        Err("the argument `expression` is missing".to_string())
    );
}

struct Named(&'static str, &'static str);

impl Tool for Named {
    fn definition(&self) -> ToolDefinition {
        ToolDefinition {
            name: self.0.to_string(),
            description: String::new(),
            parameters: ParameterSchema::empty(),
        }
    }

    fn call(&self, _args: &ToolArgs) -> Result<String, String> {
        Ok(self.1.to_string())
    }
}

fn call(registry: &ToolRegistry<Named>, name: &str) -> Result<String, String> {
    registry
        .dispatch(&ToolCallRequest { name: name.to_string(), raw_args: "{}".to_string() })
        .map_err(|e| e.describe())
}

#[test]
fn last_registration_wins() {
    let registry = ToolRegistry::new()
        .register(Named("a", "first a"))
        .register(Named("b", "only b"))
        .register(Named("a", "second a"));
    assert_eq!(registry.len(), 2);
    assert_eq!(registry.position("a"), Some(0));
    assert_eq!(registry.position("b"), Some(1));
    assert_eq!(registry.position("c"), None);
    assert_eq!(call(&registry, "a"), Ok("second a".to_string()));
    assert_eq!(call(&registry, "b"), Ok("only b".to_string()));
    assert_eq!(call(&registry, "c"), Err("ToolNotFound: c".to_string()));
    let published = registry.published();
    assert_eq!(published.len(), 2);
    assert_eq!(published[0].name, "a");
    assert_eq!(published[1].name, "b");
}

#[test]
fn empty_registry_knows_no_tool() {
    let registry: ToolRegistry<Named> = ToolRegistry::new();
    assert_eq!(registry.len(), 0);
    assert_eq!(call(&registry, "a"), Err("ToolNotFound: a".to_string()));
}

#[test]
fn schema_document_lists_types_and_required_names() {
    let schema = ParameterSchema::empty()
        .with_property("city", ParamKind::Text, "where", true)
        .with_property("days", ParamKind::Integer, "how long", false)
        .with_property("metric", ParamKind::Boolean, "units", true);
    let document = schema.document();
    assert_eq!(document.declared_type, "object");
    let listed: Vec<(&str, &str, &str)> = document
        .properties
        .iter()
        .map(|p| (p.name.as_str(), p.declared_type.as_str(), p.description.as_str()))
        .collect();
    assert_eq!(
        listed,
        vec![
            ("city", "string", "where"),
            ("days", "integer", "how long"),
            ("metric", "boolean", "units"),
        ]
    );
    assert_eq!(document.required, vec!["city".to_string(), "metric".to_string()]);
    assert_eq!(ParamKind::Text.declared_type(), "string");

    let calculator = CalculateTool.definition().parameters.document();
    assert_eq!(calculator.declared_type, "object");
    assert_eq!(calculator.properties.len(), 1);
    assert_eq!(calculator.properties[0].name, "expression");
    assert_eq!(calculator.properties[0].declared_type, "string");
    assert_eq!(calculator.required, vec!["expression".to_string()]);

    let none = ParameterSchema::empty().document();
    assert!(none.properties.is_empty());
    assert!(none.required.is_empty());
}
