use vstd::prelude::*;
use crate::config::{
    AgentType, FactoryAgentConfig, FactoryAgentConfigView, FactoryConfig, FactoryMcpRuntimeConfig,
};
use crate::facade::WorkFlowInvokers;
use crate::registry::{valid_record, AgentCapabilityRecord, AgentCapabilityRecordView};
use crate::services::{DiscoveryServiceAdapter, EvaluationServiceAdapter, MemoryServiceAdapter};

verus! {

/// Why launching an agent failed: its configuration does not fit the
/// requested archetype, its endpoint could not bind, or a service it must
/// be wired to was unavailable.
#[derive(Clone, Copy, Debug, PartialEq, Eq, Structural)]
pub enum LaunchError {
    ConfigInvalid,
    BindFailed,
    DependencyUnavailable,
}

/// One step of an agent's startup, performed by the host runtime in plan
/// order.
#[derive(Clone, Copy, Debug, PartialEq, Eq, Structural)]
pub enum LaunchStep {
    WireDiscovery,
    WireMemory,
    WireEvaluation,
    WireWorkflow,
    ConnectToolRuntime,
    Bind,
    SelfRegister,
}

/// The startup plan of a launched agent: wiring first — discovery, then the
/// optional memory and evaluation services, then the workflow facade, then
/// the tool runtime if one was configured — and only after all wiring the
/// bind of the serving endpoint and the agent's self-registration into
/// discovery.
pub open spec fn spec_launch_plan(has_mcp: bool, has_memory: bool, has_evaluation: bool) -> Seq<
    LaunchStep,
> {
    seq![LaunchStep::WireDiscovery] + (if has_memory {
        seq![LaunchStep::WireMemory]
    } else {
        Seq::<LaunchStep>::empty()
    }) + (if has_evaluation {
        seq![LaunchStep::WireEvaluation]
    } else {
        Seq::<LaunchStep>::empty()
    }) + seq![LaunchStep::WireWorkflow] + (if has_mcp {
        seq![LaunchStep::ConnectToolRuntime]
    } else {
        Seq::<LaunchStep>::empty()
    }) + seq![LaunchStep::Bind, LaunchStep::SelfRegister]
}

/// Whether a configuration can launch under the requested archetype: the
/// archetypes agree, a planner names the executor it delegates to, and the
/// agent carries an identity to register under.
pub open spec fn launch_config_ok(c: FactoryAgentConfigView, agent_type: AgentType) -> bool {
    &&& c.agent_type == agent_type
    &&& (agent_type == AgentType::Planner ==> c.executor_url is Some)
    &&& c.id.len() > 0
}

/// The capability record a launched agent registers for itself.
pub open spec fn spec_capability_record(c: FactoryAgentConfigView) -> AgentCapabilityRecordView {
    AgentCapabilityRecordView { id: c.id, address: c.url, domain: c.domain, agent_type: c.agent_type }
}

/// The lifecycle handle of a launched agent: its identity, the capability
/// record it will register for itself once it accepts invocations, and the
/// startup plan its host runtime performs, in order.
#[derive(Debug, PartialEq, Eq)]
pub struct AgentHandle {
    pub agent_id: String,
    pub record: AgentCapabilityRecord,
    pub plan: Vec<LaunchStep>,
}

/// What the host runtime observed while performing a launch plan.
#[derive(Clone, Copy, Debug, PartialEq, Eq, Structural)]
pub enum StartEvent {
    Started,
    PortInUse,
    ServiceUnreachable,
}

/// Maps what the host runtime observed during startup to the launch
/// outcome: a port already in use is a bind failure, an unreachable wired
/// service is an unavailable dependency.
pub fn interpret_start_event(ev: &StartEvent) -> (r: Result<(), LaunchError>)
    ensures
        match ev {
            StartEvent::Started => r is Ok,
            StartEvent::PortInUse => r == Err::<(), LaunchError>(LaunchError::BindFailed),
            StartEvent::ServiceUnreachable => r == Err::<(), LaunchError>(
                LaunchError::DependencyUnavailable,
            ),
        },
{
    match ev {
        StartEvent::Started => Ok(()),
        StartEvent::PortInUse => Err(LaunchError::BindFailed),
        StartEvent::ServiceUnreachable => Err(LaunchError::DependencyUnavailable),
    }
}

/// Constructs and launches agents from declarative configuration, wiring
/// each to the shared services and the workflow invoker facade.
#[derive(Debug)]
pub struct AgentFactory {
    pub config: FactoryConfig,
    pub discovery_service: DiscoveryServiceAdapter,
    pub memory_service: Option<MemoryServiceAdapter>,
    pub evaluation_service: Option<EvaluationServiceAdapter>,
    pub workflow_invokers: Option<WorkFlowInvokers>,
}

impl AgentFactory {
    /// A factory over the given process-wide configuration and service
    /// wiring. The memory service, the evaluation service and the workflow
    /// facade are optional.
    pub fn new(
        config: FactoryConfig,
        discovery_service: DiscoveryServiceAdapter,
        memory_service: Option<MemoryServiceAdapter>,
        evaluation_service: Option<EvaluationServiceAdapter>,
        workflow_invokers: Option<WorkFlowInvokers>,
    ) -> (r: AgentFactory)
        ensures
            r.config == config,
            r.discovery_service == discovery_service,
            r.memory_service == memory_service,
            r.evaluation_service == evaluation_service,
            r.workflow_invokers == workflow_invokers,
    {
        AgentFactory {
            config,
            discovery_service,
            memory_service,
            evaluation_service,
            workflow_invokers,
        }
    }

    /// The startup plan this factory issues for an agent, given whether a
    /// tool runtime is configured for it.
    pub open spec fn spec_plan(&self, has_mcp: bool) -> Seq<LaunchStep> {
        spec_launch_plan(has_mcp, self.memory_service is Some, self.evaluation_service is Some)
    }

    /// Launches one agent: validates the configuration against the
    /// requested archetype and, when it fits, returns the lifecycle handle —
    /// the capability record the agent will self-register and the startup
    /// plan for the host runtime. Launching probes nothing: no address in
    /// the configuration is contacted, so a planner whose executor is not
    /// yet serving still launches. A tool runtime connection is planned
    /// exactly when a tool runtime configuration is supplied.
    pub fn launch_agent(
        &self,
        config: &FactoryAgentConfig,
        mcp_config: Option<&FactoryMcpRuntimeConfig>,
        agent_type: AgentType,
    ) -> (r: Result<AgentHandle, LaunchError>)
        ensures
            (r is Ok) <==> launch_config_ok(config@, agent_type),
            !launch_config_ok(config@, agent_type) ==> r == Err::<AgentHandle, LaunchError>(
                LaunchError::ConfigInvalid,
            ),
            r is Ok ==> {
                &&& r->Ok_0.agent_id@ == config@.id
                &&& r->Ok_0.record@ == spec_capability_record(config@)
                &&& valid_record(r->Ok_0.record@)
                &&& r->Ok_0.plan@ == self.spec_plan(mcp_config is Some)
            },
    {
        if config.agent_type != agent_type {
            return Err(LaunchError::ConfigInvalid);
        }
        if matches!(agent_type, AgentType::Planner) && config.executor_url.is_none() {
            return Err(LaunchError::ConfigInvalid);
        }
        if config.id.as_str().is_empty() {
            return Err(LaunchError::ConfigInvalid);
        }
        let record = AgentCapabilityRecord {
            id: config.id.clone(),
            address: config.url.clone(),
            domain: config.domain,
            agent_type: config.agent_type,
        };
        let mut plan: Vec<LaunchStep> = Vec::new();
        plan.push(LaunchStep::WireDiscovery);
        if self.memory_service.is_some() {
            plan.push(LaunchStep::WireMemory);
        }
        if self.evaluation_service.is_some() {
            plan.push(LaunchStep::WireEvaluation);
        }
        plan.push(LaunchStep::WireWorkflow);
        if mcp_config.is_some() {
            plan.push(LaunchStep::ConnectToolRuntime);
        }
        plan.push(LaunchStep::Bind);
        plan.push(LaunchStep::SelfRegister);
        proof {
            assert(plan@ =~= self.spec_plan(mcp_config is Some));
        }
        Ok(AgentHandle { agent_id: config.id.clone(), record, plan })
    }
}

/// Law: a launch that is handed no tool runtime configuration plans no tool
/// runtime connection — whatever the archetype and whatever optional
/// services the factory wires.
pub proof fn lemma_no_mcp_no_tool_runtime(has_memory: bool, has_evaluation: bool)
    ensures
        !spec_launch_plan(false, has_memory, has_evaluation).contains(
            LaunchStep::ConnectToolRuntime,
        ),
{
    let p = spec_launch_plan(false, has_memory, has_evaluation);
    assert forall|i: int| 0 <= i < p.len() implies p[i] != LaunchStep::ConnectToolRuntime by {
        assert(p.len() <= 6);
    }
}

/// Law: in every launch plan the agent's self-registration comes last —
/// after its serving endpoint is bound, which itself comes after all
/// wiring — so a peer can resolve the agent only once it accepts
/// invocations.
pub proof fn lemma_self_register_last(has_mcp: bool, has_memory: bool, has_evaluation: bool)
    ensures
        spec_launch_plan(has_mcp, has_memory, has_evaluation).last() == LaunchStep::SelfRegister,
        spec_launch_plan(has_mcp, has_memory, has_evaluation)[spec_launch_plan(
            has_mcp,
            has_memory,
            has_evaluation,
        ).len() - 2] == LaunchStep::Bind,
        forall|i: int|
            0 <= i < spec_launch_plan(has_mcp, has_memory, has_evaluation).len() - 1
                ==> spec_launch_plan(has_mcp, has_memory, has_evaluation)[i]
                != LaunchStep::SelfRegister,
{
    let p = spec_launch_plan(has_mcp, has_memory, has_evaluation);
    assert(p.len() <= 7);
    assert forall|i: int| 0 <= i < p.len() - 1 implies p[i] != LaunchStep::SelfRegister by {
        assert(p.len() >= 4);
    }
}

} // verus!
