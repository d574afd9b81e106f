use vstd::prelude::*;
use crate::config::{AgentDomain, AgentType};
use crate::invoker::{
    interpret_matches, A2AAgentInvoker, InvocationError, McpRuntimeToolInvoker, StaticTaskInvoker,
    TransportOutcome,
};
use crate::json::JsonDoc;
use crate::registry::DiscoveryRegistry;

verus! {

/// The workflow invoker facade: exactly one task invoker, one agent invoker
/// and one tool invoker composed into the single capability object an agent
/// uses for all of its sub-work, whatever the resource kind.
#[derive(Debug)]
pub struct WorkFlowInvokers {
    pub task_invoker: StaticTaskInvoker,
    pub agent_invoker: A2AAgentInvoker,
    pub tool_invoker: McpRuntimeToolInvoker,
}

impl WorkFlowInvokers {
    /// Composes the three sub-invokers, each handed over as the result of
    /// its own construction. Composition fails atomically: if any one
    /// construction failed, the facade fails to construct — with the first
    /// failure, in task, agent, tool order — and no partially wired facade
    /// is ever produced.
    pub fn init(
        task_invoker: Result<StaticTaskInvoker, InvocationError>,
        agent_invoker: Result<A2AAgentInvoker, InvocationError>,
        tool_invoker: Result<McpRuntimeToolInvoker, InvocationError>,
    ) -> (r: Result<WorkFlowInvokers, InvocationError>)
        ensures
            (r is Ok) <==> (task_invoker is Ok && agent_invoker is Ok && tool_invoker is Ok),
            r is Ok ==> {
                &&& r->Ok_0.task_invoker == task_invoker->Ok_0
                &&& r->Ok_0.agent_invoker == agent_invoker->Ok_0
                &&& r->Ok_0.tool_invoker == tool_invoker->Ok_0
            },
            r is Err ==> r->Err_0 == if task_invoker is Err {
                task_invoker->Err_0
            } else if agent_invoker is Err {
                agent_invoker->Err_0
            } else {
                tool_invoker->Err_0
            },
    {
        let task_invoker = match task_invoker {
            Ok(t) => t,
            Err(e) => { return Err(e) },
        };
        let agent_invoker = match agent_invoker {
            Ok(a) => a,
            Err(e) => { return Err(e) },
        };
        let tool_invoker = match tool_invoker {
            Ok(t) => t,
            Err(e) => { return Err(e) },
        };
        Ok(WorkFlowInvokers { task_invoker, agent_invoker, tool_invoker })
    }

    /// Executes a statically known task through the facade; the task
    /// invoker's contract applies unchanged.
    pub fn invoke_task(&self, name: &String, arguments: &JsonDoc) -> (r: Result<
        JsonDoc,
        InvocationError,
    >)
        ensures
            match self.task_invoker.spec_task(name@) {
                Some(t) => match r {
                    Ok(doc) => doc@ == t.response,
                    Err(_) => false,
                },
                None => r == Err::<JsonDoc, InvocationError>(InvocationError::NotFound),
            },
    {
        self.task_invoker.invoke(name, arguments)
    }

    /// Executes a remote tool through the facade; the tool invoker's
    /// contract applies unchanged.
    pub fn invoke_tool(&self, name: &String, arguments: &JsonDoc, outcome: TransportOutcome) -> (r:
        Result<JsonDoc, InvocationError>)
        ensures
            !self.tool_invoker.spec_has_tool(name@) ==> r == Err::<JsonDoc, InvocationError>(
                InvocationError::NotFound,
            ),
            self.tool_invoker.spec_has_tool(name@) ==> interpret_matches(outcome, r),
    {
        self.tool_invoker.invoke(name, arguments, outcome)
    }

    /// Delegates to a peer agent through the facade; the agent invoker's
    /// contract applies unchanged.
    pub fn invoke_agent(
        &self,
        registry: &DiscoveryRegistry,
        domain: AgentDomain,
        agent_type: AgentType,
        arguments: &JsonDoc,
        outcome: TransportOutcome,
    ) -> (r: Result<JsonDoc, InvocationError>)
        ensures
            registry.spec_resolve_agent(domain, agent_type) is None ==> r == Err::<
                JsonDoc,
                InvocationError,
            >(InvocationError::NotFound),
            registry.spec_resolve_agent(domain, agent_type) is Some ==> interpret_matches(
                outcome,
                r,
            ),
    {
        self.agent_invoker.invoke(registry, domain, agent_type, arguments, outcome)
    }
}

} // verus!
