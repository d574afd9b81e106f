use agent_orchestration::config::{
    AgentDomain, AgentType, ConfigError, FactoryAgentConfig, FactoryConfig, FactoryMcpRuntimeConfig,
    LlmProviderUrl,
};
use agent_orchestration::driver::{
    launch_all, register_tasks, register_tools, run_orchestration, setup_agent_invoker_v2,
    setup_discovery_service, setup_evaluation_service, setup_memory_service, setup_task_invoker,
    setup_tool_invoker, summarize_outcomes, AgentOutcome, LaunchRequest, PollDecision,
    ReadinessPoll,
};
use agent_orchestration::facade::WorkFlowInvokers;
use agent_orchestration::factory::{
    interpret_start_event, AgentFactory, LaunchError, LaunchStep, StartEvent,
};
use agent_orchestration::invoker::{
    interpret_outcome, A2AAgentInvoker, InvocationError, ListToolsOutcome, McpRuntimeToolInvoker,
    ResolutionBackoff, ResolveDecision, TransportOutcome,
};
use agent_orchestration::json::JsonDoc;
use agent_orchestration::registry::{AgentCapabilityRecord, DiscoveryError, DiscoveryRegistry,
    ToolDescriptor};
use agent_orchestration::services::DiscoveryServiceAdapter;

fn agent_config(agent_type: AgentType, url: &str, id: &str) -> FactoryAgentConfig {
    let builder = FactoryAgentConfig::builder()
        .with_factory_agent_url(url.to_string())
        .with_factory_agent_type(agent_type)
        .with_factory_agent_domains(AgentDomain::General)
        .with_factory_agent_name(id.to_string())
        .with_factory_agent_id(id.to_string())
        .with_factory_agent_description("An Agent that answers Basic Questions".to_string())
        .with_factory_agent_llm_provider_url(LlmProviderUrl::Groq)
        .with_factory_agent_llm_provider_api_key("test-api-key".to_string())
        .with_factory_agent_llm_model_id("openai/gpt-oss-20b".to_string());
    let builder = if matches!(agent_type, AgentType::Planner) {
        builder.with_factory_agent_executor_url("http://127.0.0.1:9580".to_string())
    } else {
        builder
    };
    builder.build().expect("complete agent config")
}

fn mcp_config() -> FactoryMcpRuntimeConfig {
    FactoryMcpRuntimeConfig::builder()
        .with_factory_mcp_llm_provider_url(LlmProviderUrl::Groq)
        .with_factory_mcp_llm_provider_api_key("test-api-key".to_string())
        .with_factory_mcp_llm_model_id("openai/gpt-oss-20b".to_string())
        .with_factory_mcp_server_url("http://localhost:8000/sse".to_string())
        .with_factory_mcp_server_api_key("".to_string())
        .build()
        .expect("complete mcp config")
}

fn factory_config() -> FactoryConfig {
    FactoryConfig {
        factory_discovery_url: "http://127.0.0.1:4000".to_string(),
        factory_memory_service_url: Some("http://127.0.0.1:5000".to_string()),
        factory_evaluation_service_url: Some("http://127.0.0.1:7000".to_string()),
        factory_default_llm_model_id: None,
    }
}

fn factory() -> AgentFactory {
    let config = factory_config();
    let discovery = setup_discovery_service(&config.factory_discovery_url);
    let memory = setup_memory_service(config.factory_memory_service_url.as_ref().unwrap());
    let evaluation =
        setup_evaluation_service(config.factory_evaluation_service_url.as_ref().unwrap());
    AgentFactory::new(config, discovery, memory, evaluation, None)
}

fn search_tool() -> ToolDescriptor {
    ToolDescriptor {
        name: "search".to_string(),
        description: "Find things".to_string(),
        input_schema: None,
        output_schema: None,
    }
}

#[test]
fn builder_reports_first_missing_field() {
    assert_eq!(FactoryAgentConfig::builder().build().unwrap_err(), ConfigError::MissingUrl);
    assert_eq!(
        FactoryAgentConfig::builder()
            .with_factory_agent_url("http://127.0.0.1:8080".to_string())
            .build()
            .unwrap_err(),
        ConfigError::MissingAgentType
    );
    assert_eq!(
        FactoryAgentConfig::builder()
            .with_factory_agent_url("http://127.0.0.1:8080".to_string())
            .with_factory_agent_type(AgentType::Specialist)
            .build()
            .unwrap_err(),
        ConfigError::MissingDomain
    );
    assert_eq!(
        FactoryAgentConfig::builder()
            .with_factory_agent_url("http://127.0.0.1:8080".to_string())
            .with_factory_agent_type(AgentType::Specialist)
            .with_factory_agent_domains(AgentDomain::General)
            .build()
            .unwrap_err(),
        ConfigError::MissingName
    );
    assert_eq!(
        FactoryAgentConfig::builder()
            .with_factory_agent_url("http://127.0.0.1:8080".to_string())
            .with_factory_agent_type(AgentType::Specialist)
            .with_factory_agent_domains(AgentDomain::General)
            .with_factory_agent_name("Basic_Agent".to_string())
            .build()
            .unwrap_err(),
        ConfigError::MissingId
    );
    assert_eq!(
        FactoryAgentConfig::builder()
            .with_factory_agent_url("http://127.0.0.1:8080".to_string())
            .with_factory_agent_type(AgentType::Specialist)
            .with_factory_agent_domains(AgentDomain::General)
            .with_factory_agent_name("Basic_Agent".to_string())
            .with_factory_agent_id("Basic_Agent".to_string())
            .build()
            .unwrap_err(),
        ConfigError::MissingDescription
    );
    assert_eq!(
        FactoryAgentConfig::builder()
            .with_factory_agent_url("http://127.0.0.1:8080".to_string())
            .with_factory_agent_type(AgentType::Specialist)
            .with_factory_agent_domains(AgentDomain::General)
            .with_factory_agent_name("Basic_Agent".to_string())
            .with_factory_agent_id("Basic_Agent".to_string())
            .with_factory_agent_description("Answers questions".to_string())
            .build()
            .unwrap_err(),
        ConfigError::MissingLlmProviderUrl
    );
    assert_eq!(
        FactoryAgentConfig::builder()
            .with_factory_agent_url("http://127.0.0.1:8080".to_string())
            .with_factory_agent_type(AgentType::Specialist)
            .with_factory_agent_domains(AgentDomain::General)
            .with_factory_agent_name("Basic_Agent".to_string())
            .with_factory_agent_id("Basic_Agent".to_string())
            .with_factory_agent_description("Answers questions".to_string())
            .with_factory_agent_llm_provider_url(LlmProviderUrl::Groq)
            .build()
            .unwrap_err(),
        ConfigError::MissingLlmApiKey
    );
    assert_eq!(
        FactoryAgentConfig::builder()
            .with_factory_agent_url("http://127.0.0.1:8080".to_string())
            .with_factory_agent_type(AgentType::Specialist)
            .with_factory_agent_domains(AgentDomain::General)
            .with_factory_agent_name("Basic_Agent".to_string())
            .with_factory_agent_id("Basic_Agent".to_string())
            .with_factory_agent_description("Answers questions".to_string())
            .with_factory_agent_llm_provider_url(LlmProviderUrl::Groq)
            .with_factory_agent_llm_provider_api_key("test-api-key".to_string())
            .build()
            .unwrap_err(),
        ConfigError::MissingLlmModelId
    );
}

#[test]
fn planner_without_executor_url_is_rejected() {
    let err = FactoryAgentConfig::builder()
        .with_factory_agent_url("http://127.0.0.1:9590".to_string())
        .with_factory_agent_type(AgentType::Planner)
        .with_factory_agent_domains(AgentDomain::General)
        .with_factory_agent_name("Planner_Agent".to_string())
        .with_factory_agent_id("Planner_Agent".to_string())
        .with_factory_agent_description("Plans workflows".to_string())
        .with_factory_agent_llm_provider_url(LlmProviderUrl::Groq)
        .with_factory_agent_llm_provider_api_key("test-api-key".to_string())
        .with_factory_agent_llm_model_id("openai/gpt-oss-20b".to_string())
        .build()
        .unwrap_err();
    assert_eq!(err, ConfigError::MissingExecutorUrl);
}

#[test]
fn mcp_builder_reports_missing_fields() {
    assert_eq!(
        FactoryMcpRuntimeConfig::builder().build().unwrap_err(),
        ConfigError::MissingMcpLlmProviderUrl
    );
    assert_eq!(
        FactoryMcpRuntimeConfig::builder()
            .with_factory_mcp_llm_provider_url(LlmProviderUrl::Groq)
            .build()
            .unwrap_err(),
        ConfigError::MissingMcpLlmApiKey
    );
    assert_eq!(
        FactoryMcpRuntimeConfig::builder()
            .with_factory_mcp_llm_provider_url(LlmProviderUrl::Groq)
            .with_factory_mcp_llm_provider_api_key("test-api-key".to_string())
            .build()
            .unwrap_err(),
        ConfigError::MissingMcpLlmModelId
    );
    assert_eq!(
        FactoryMcpRuntimeConfig::builder()
            .with_factory_mcp_llm_provider_url(LlmProviderUrl::Groq)
            .with_factory_mcp_llm_provider_api_key("test-api-key".to_string())
            .with_factory_mcp_llm_model_id("openai/gpt-oss-20b".to_string())
            .build()
            .unwrap_err(),
        ConfigError::MissingMcpServerUrl
    );
    assert_eq!(
        FactoryMcpRuntimeConfig::builder()
            .with_factory_mcp_llm_provider_url(LlmProviderUrl::Groq)
            .with_factory_mcp_llm_provider_api_key("test-api-key".to_string())
            .with_factory_mcp_llm_model_id("openai/gpt-oss-20b".to_string())
            .with_factory_mcp_server_url("http://localhost:8000/sse".to_string())
            .build()
            .unwrap_err(),
        ConfigError::MissingMcpServerApiKey
    );
}

#[test]
fn executor_without_mcp_plans_no_tool_runtime() {
    let factory = factory();
    let config = agent_config(AgentType::Executor, "http://127.0.0.1:9580", "Executor_Agent");
    let handle = factory.launch_agent(&config, None, AgentType::Executor).expect("valid config");
    assert!(!handle.plan.contains(&LaunchStep::ConnectToolRuntime));
    assert_eq!(handle.plan.last(), Some(&LaunchStep::SelfRegister));
}

#[test]
fn specialist_with_mcp_plans_tool_runtime_before_bind() {
    let factory = factory();
    let config = agent_config(AgentType::Specialist, "http://127.0.0.1:8080", "Basic_Agent");
    let mcp = mcp_config();
    let handle =
        factory.launch_agent(&config, Some(&mcp), AgentType::Specialist).expect("valid config");
    let connect = handle
        .plan
        .iter()
        .position(|s| *s == LaunchStep::ConnectToolRuntime)
        .expect("tool runtime planned");
    let bind = handle.plan.iter().position(|s| *s == LaunchStep::Bind).expect("bind planned");
    let register =
        handle.plan.iter().position(|s| *s == LaunchStep::SelfRegister).expect("register planned");
    assert!(connect < bind && bind < register);
    assert_eq!(register, handle.plan.len() - 1);
}

#[test]
fn facade_init_fails_atomically() {
    let task = setup_task_invoker();
    let agent = A2AAgentInvoker::new_with_discovery(&DiscoveryServiceAdapter::new(
        &"http://127.0.0.1:4000".to_string(),
    ));
    let tool = setup_tool_invoker(&mcp_config(), ListToolsOutcome::Unreachable);
    assert!(tool.is_err());
    let facade = WorkFlowInvokers::init(task, agent, tool);
    assert_eq!(facade.unwrap_err(), InvocationError::Unreachable);

    let task = setup_task_invoker();
    let agent = A2AAgentInvoker::new_with_discovery(&DiscoveryServiceAdapter::new(
        &"http://127.0.0.1:4000".to_string(),
    ));
    let tool = setup_tool_invoker(&mcp_config(), ListToolsOutcome::Listed(vec![search_tool()]));
    assert!(WorkFlowInvokers::init(task, agent, tool).is_ok());
}

#[test]
fn launch_all_isolates_the_invalid_config() {
    let factory = factory();
    let requests = vec![
        LaunchRequest {
            config: agent_config(AgentType::Specialist, "http://127.0.0.1:8080", "Basic_Agent"),
            mcp_config: Some(mcp_config()),
            agent_type: AgentType::Specialist,
        },
        LaunchRequest {
            // a planner's config handed over under the executor archetype
            config: agent_config(AgentType::Planner, "http://127.0.0.1:9590", "Planner_Agent"),
            mcp_config: None,
            agent_type: AgentType::Executor,
        },
        LaunchRequest {
            config: agent_config(AgentType::Executor, "http://127.0.0.1:9580", "Executor_Agent"),
            mcp_config: None,
            agent_type: AgentType::Executor,
        },
    ];
    let results = launch_all(&factory, &requests);
    assert_eq!(results.len(), 3);
    assert!(results[0].is_ok());
    assert_eq!(results[1].as_ref().unwrap_err(), &LaunchError::ConfigInvalid);
    assert!(results[2].is_ok());
    assert_eq!(results[2].as_ref().unwrap().agent_id, "Executor_Agent");
}

#[test]
fn enumerated_tool_round_trips_through_discovery() {
    let mut registry = DiscoveryRegistry::new();
    let listing = ListToolsOutcome::Listed(vec![search_tool()]);
    assert_eq!(register_tools(listing, &mut registry), Ok(1));
    let def = registry.lookup_tool(&"search".to_string()).expect("mirrored tool");
    assert_eq!(def.name, "search");
    assert_eq!(def.description, "Find things");
    assert_eq!(def.input_schema.bytes, b"{}".to_vec());
    assert_eq!(def.output_schema.bytes, b"{}".to_vec());
}

#[test]
fn repeated_tool_name_keeps_the_last_descriptor() {
    let mut registry = DiscoveryRegistry::new();
    let older = search_tool();
    let newer = ToolDescriptor {
        name: "search".to_string(),
        description: "Find things, faster".to_string(),
        input_schema: None,
        output_schema: None,
    };
    assert_eq!(register_tools(ListToolsOutcome::Listed(vec![older, newer]), &mut registry), Ok(2));
    assert_eq!(registry.tool_count(), 1);
    let def = registry.lookup_tool(&"search".to_string()).expect("mirrored tool");
    assert_eq!(def.description, "Find things, faster");
}

#[test]
fn empty_listing_registers_nothing() {
    let mut registry = DiscoveryRegistry::new();
    assert_eq!(register_tools(ListToolsOutcome::Listed(vec![]), &mut registry), Ok(0));
    assert_eq!(registry.tool_count(), 0);
}

#[test]
fn unreachable_runtime_fails_tool_registration() {
    let mut registry = DiscoveryRegistry::new();
    assert_eq!(
        register_tools(ListToolsOutcome::Unreachable, &mut registry),
        Err(DiscoveryError::Unreachable)
    );
    assert_eq!(registry.tool_count(), 0);
}

#[test]
fn invalid_tool_stops_registration_after_the_valid_prefix() {
    let nameless = || ToolDescriptor {
        name: "".to_string(),
        description: "Anonymous".to_string(),
        input_schema: None,
        output_schema: None,
    };
    let trailing = || ToolDescriptor {
        name: "late".to_string(),
        description: "Never reached".to_string(),
        input_schema: None,
        output_schema: None,
    };

    // the valid tool before the failure stays registered; the one after is
    // never touched
    let mut registry = DiscoveryRegistry::new();
    assert_eq!(
        register_tools(
            ListToolsOutcome::Listed(vec![search_tool(), nameless(), trailing()]),
            &mut registry
        ),
        Err(DiscoveryError::InvalidDefinition)
    );
    assert_eq!(registry.tool_count(), 1);
    assert!(registry.lookup_tool(&"search".to_string()).is_some());
    assert!(registry.lookup_tool(&"late".to_string()).is_none());

    // a failure at the first tool registers nothing
    let mut registry = DiscoveryRegistry::new();
    assert_eq!(
        register_tools(ListToolsOutcome::Listed(vec![nameless(), search_tool()]), &mut registry),
        Err(DiscoveryError::InvalidDefinition)
    );
    assert_eq!(registry.tool_count(), 0);
}

#[test]
fn resolution_backoff_retries_then_gives_up() {
    let mut backoff = ResolutionBackoff::new(2);
    assert_eq!(backoff.step(false), ResolveDecision::RetryAfterBackoff);
    assert_eq!(backoff.step(false), ResolveDecision::RetryAfterBackoff);
    assert_eq!(backoff.step(false), ResolveDecision::GiveUp);
    let mut resolved = ResolutionBackoff::new(0);
    assert_eq!(resolved.step(true), ResolveDecision::Deliver);
}

#[test]
fn greeting_task_registers_and_invokes() {
    let mut registry = DiscoveryRegistry::new();
    assert!(register_tasks(&mut registry).is_ok());
    let def = registry.lookup_task(&"greeting".to_string()).expect("greeting registered");
    assert_eq!(def.name, "Say Hello");
    assert_eq!(def.description, "Say hello to somebody");
    let invoker = setup_task_invoker().expect("task invoker");
    let response =
        invoker.invoke(&"greeting".to_string(), &JsonDoc::empty_object()).expect("known task");
    assert_eq!(response.bytes, b"{}".to_vec());
    assert_eq!(
        invoker.invoke(&"unknown".to_string(), &JsonDoc::empty_object()),
        Err(InvocationError::NotFound)
    );
}

#[test]
fn planner_launches_against_a_not_yet_started_executor() {
    let factory = factory();
    let planner = agent_config(AgentType::Planner, "http://127.0.0.1:9590", "Planner_Agent");
    let handle = factory.launch_agent(&planner, None, AgentType::Planner);
    assert!(handle.is_ok());

    // only a later invocation against the executor's address surfaces it
    let mut registry = DiscoveryRegistry::new();
    registry
        .register_agent(&AgentCapabilityRecord {
            id: "Executor_Agent".to_string(),
            address: "http://127.0.0.1:9580".to_string(),
            domain: AgentDomain::General,
            agent_type: AgentType::Executor,
        })
        .expect("valid record");
    let invoker = A2AAgentInvoker::new_with_discovery(&DiscoveryServiceAdapter::new(
        &"http://127.0.0.1:4000".to_string(),
    ))
    .expect("constructed");
    let result = invoker.invoke(
        &registry,
        AgentDomain::General,
        AgentType::Executor,
        &JsonDoc::empty_object(),
        TransportOutcome::TransportDown,
    );
    assert_eq!(result, Err(InvocationError::Unreachable));
}

#[test]
fn transport_outcomes_map_to_invocation_errors() {
    assert_eq!(
        interpret_outcome(TransportOutcome::Delivered(JsonDoc::empty_object())).unwrap().bytes,
        b"{}".to_vec()
    );
    assert_eq!(
        interpret_outcome(TransportOutcome::TransportDown),
        Err(InvocationError::Unreachable)
    );
    assert_eq!(interpret_outcome(TransportOutcome::TimedOut), Err(InvocationError::Timeout));
    assert_eq!(
        interpret_outcome(TransportOutcome::RemoteFailure("tool crashed".to_string())),
        Err(InvocationError::ExecutionFailed("tool crashed".to_string()))
    );
}

#[test]
fn tool_invoker_decides_not_found_locally() {
    let invoker =
        McpRuntimeToolInvoker::connect(&mcp_config(), ListToolsOutcome::Listed(vec![search_tool()]))
            .expect("listed");
    assert_eq!(invoker.list_tools().len(), 1);
    assert!(invoker.has_tool(&"search".to_string()));
    let miss = invoker.invoke(
        &"absent".to_string(),
        &JsonDoc::empty_object(),
        TransportOutcome::Delivered(JsonDoc::empty_object()),
    );
    assert_eq!(miss, Err(InvocationError::NotFound));
    let hit = invoker.invoke(
        &"search".to_string(),
        &JsonDoc::empty_object(),
        TransportOutcome::TimedOut,
    );
    assert_eq!(hit, Err(InvocationError::Timeout));
}

#[test]
fn start_events_map_to_launch_errors() {
    assert!(interpret_start_event(&StartEvent::Started).is_ok());
    assert_eq!(interpret_start_event(&StartEvent::PortInUse), Err(LaunchError::BindFailed));
    assert_eq!(
        interpret_start_event(&StartEvent::ServiceUnreachable),
        Err(LaunchError::DependencyUnavailable)
    );
}

#[test]
fn outcome_summary_counts_every_agent() {
    let outcomes = vec![
        AgentOutcome::Success,
        AgentOutcome::Failed("executor refused".to_string()),
        AgentOutcome::Success,
        AgentOutcome::Panicked("task panicked".to_string()),
    ];
    let report = summarize_outcomes(&outcomes);
    assert_eq!(report.succeeded, 2);
    assert_eq!(report.failed, 1);
    assert_eq!(report.panicked, 1);
}

#[test]
fn readiness_poll_retries_then_gives_up() {
    let mut poll = ReadinessPoll::new(2);
    assert_eq!(poll.step(false), PollDecision::RetryAfterDelay);
    assert_eq!(poll.step(false), PollDecision::RetryAfterDelay);
    assert_eq!(poll.step(false), PollDecision::GiveUp);
    let mut ready = ReadinessPoll::new(0);
    assert_eq!(ready.step(true), PollDecision::Proceed);
}

#[test]
fn orchestration_runs_end_to_end() {
    let mut registry = DiscoveryRegistry::new();
    let requests = vec![
        LaunchRequest {
            config: agent_config(AgentType::Specialist, "http://127.0.0.1:8080", "Basic_Agent"),
            mcp_config: Some(mcp_config()),
            agent_type: AgentType::Specialist,
        },
        LaunchRequest {
            config: agent_config(AgentType::Executor, "http://127.0.0.1:9580", "Executor_Agent"),
            mcp_config: None,
            agent_type: AgentType::Executor,
        },
        LaunchRequest {
            config: agent_config(AgentType::Planner, "http://127.0.0.1:9590", "Planner_Agent"),
            mcp_config: None,
            agent_type: AgentType::Planner,
        },
    ];
    let handles = run_orchestration(
        factory_config(),
        &mcp_config(),
        ListToolsOutcome::Listed(vec![search_tool()]),
        ListToolsOutcome::Listed(vec![search_tool()]),
        &requests,
        &mut registry,
    )
    .expect("orchestration succeeds");
    assert_eq!(handles.len(), 3);
    assert!(handles.iter().all(|h| h.is_ok()));
    assert_eq!(registry.task_count(), 1);
    assert_eq!(registry.tool_count(), 1);
    assert!(registry.lookup_tool(&"search".to_string()).is_some());

    let unreachable = run_orchestration(
        factory_config(),
        &mcp_config(),
        ListToolsOutcome::Unreachable,
        ListToolsOutcome::Listed(vec![search_tool()]),
        &requests,
        &mut DiscoveryRegistry::new(),
    );
    assert_eq!(unreachable.unwrap_err(), DiscoveryError::Unreachable);
}

#[test]
fn aborted_orchestration_keeps_the_greeting_and_the_tool_prefix() {
    let nameless = ToolDescriptor {
        name: "".to_string(),
        description: "Anonymous".to_string(),
        input_schema: None,
        output_schema: None,
    };
    let requests: Vec<LaunchRequest> = vec![];

    // a malformed mirror aborts tool registration, but the greeting task
    // and the valid prefix of the enumeration are already in the registry
    let mut registry = DiscoveryRegistry::new();
    let invalid = run_orchestration(
        factory_config(),
        &mcp_config(),
        ListToolsOutcome::Listed(vec![search_tool(), nameless]),
        ListToolsOutcome::Listed(vec![search_tool()]),
        &requests,
        &mut registry,
    );
    assert_eq!(invalid.unwrap_err(), DiscoveryError::InvalidDefinition);
    assert!(registry.lookup_task(&"greeting".to_string()).is_some());
    assert_eq!(registry.tool_count(), 1);
    assert!(registry.lookup_tool(&"search".to_string()).is_some());

    // a tool invoker that cannot enumerate fails the facade after every
    // tool was registered
    let mut registry = DiscoveryRegistry::new();
    let facade_failed = run_orchestration(
        factory_config(),
        &mcp_config(),
        ListToolsOutcome::Listed(vec![search_tool()]),
        ListToolsOutcome::Unreachable,
        &requests,
        &mut registry,
    );
    assert_eq!(facade_failed.unwrap_err(), DiscoveryError::Unreachable);
    assert!(registry.lookup_task(&"greeting".to_string()).is_some());
    assert_eq!(registry.tool_count(), 1);
}
