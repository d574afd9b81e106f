use agent_orchestration::config::{AgentDomain, AgentType};
use agent_orchestration::json::JsonDoc;
use agent_orchestration::registry::{
    tool_definition_of, AgentCapabilityRecord, DiscoveryError, DiscoveryRegistry, TaskDefinition,
    ToolDescriptor,
};

fn empty_object() -> JsonDoc {
    JsonDoc::from_bytes(b"{}".to_vec())
}

fn task(id: &str, name: &str, description: &str) -> TaskDefinition {
    TaskDefinition {
        id: id.to_string(),
        name: name.to_string(),
        description: description.to_string(),
        input_schema: empty_object(),
        output_schema: empty_object(),
    }
}

#[test]
fn greeting_registration_round_trips() {
    let mut registry = DiscoveryRegistry::new();
    let def = task("greeting", "Say Hello", "Say hello to somebody");
    assert!(registry.register_task(&def).is_ok());
    let found = registry.lookup_task(&"greeting".to_string()).expect("registered task");
    assert_eq!(found, &def);
}

#[test]
fn reregistration_overwrites_without_duplication() {
    let mut registry = DiscoveryRegistry::new();
    let first = task("greeting", "Say Hello", "Say hello to somebody");
    let second = task("greeting", "Wave", "Wave at somebody");
    assert!(registry.register_task(&first).is_ok());
    assert!(registry.register_task(&second).is_ok());
    assert_eq!(registry.task_count(), 1);
    let found = registry.lookup_task(&"greeting".to_string()).expect("registered task");
    assert_eq!(found, &second);
}

#[test]
fn malformed_definition_is_rejected() {
    let mut registry = DiscoveryRegistry::new();
    let nameless = task("", "Say Hello", "Say hello to somebody");
    assert_eq!(registry.register_task(&nameless), Err(DiscoveryError::InvalidDefinition));
    let mut bad_schema = task("greeting", "Say Hello", "Say hello to somebody");
    bad_schema.input_schema = JsonDoc::from_bytes(b"[]".to_vec());
    assert_eq!(registry.register_task(&bad_schema), Err(DiscoveryError::InvalidDefinition));
    assert_eq!(registry.task_count(), 0);
}

#[test]
fn tool_mirror_keeps_identity_and_defaults_schemas() {
    let descriptor = ToolDescriptor {
        name: "search".to_string(),
        description: "Find things".to_string(),
        input_schema: Some(JsonDoc::from_bytes(b"{\"type\":\"object\"}".to_vec())),
        output_schema: None,
    };
    let def = tool_definition_of(&descriptor);
    assert_eq!(def.id, "search");
    assert_eq!(def.name, "search");
    assert_eq!(def.description, "Find things");
    assert_eq!(def.input_schema.bytes, b"{\"type\":\"object\"}".to_vec());
    assert_eq!(def.output_schema.bytes, b"{}".to_vec());
}

#[test]
fn agent_record_registration_and_resolution() {
    let mut registry = DiscoveryRegistry::new();
    let executor = AgentCapabilityRecord {
        id: "Executor_Agent".to_string(),
        address: "http://127.0.0.1:9580".to_string(),
        domain: AgentDomain::General,
        agent_type: AgentType::Executor,
    };
    let planner = AgentCapabilityRecord {
        id: "Planner_Agent".to_string(),
        address: "http://127.0.0.1:9590".to_string(),
        domain: AgentDomain::General,
        agent_type: AgentType::Planner,
    };
    assert!(registry.register_agent(&executor).is_ok());
    assert!(registry.register_agent(&planner).is_ok());
    assert_eq!(registry.agent_count(), 2);
    let found = registry
        .resolve_agent(AgentDomain::General, AgentType::Executor)
        .expect("executor registered");
    assert_eq!(found.address, "http://127.0.0.1:9580");
    assert!(registry.resolve_agent(AgentDomain::General, AgentType::Specialist).is_none());
}

#[test]
fn json_doc_object_shape() {
    assert!(JsonDoc::empty_object().is_object());
    assert!(JsonDoc::from_bytes(b"{\"a\":1}".to_vec()).is_object());
    assert!(!JsonDoc::from_bytes(b"[]".to_vec()).is_object());
    assert!(!JsonDoc::from_bytes(b"".to_vec()).is_object());
}
