use vstd::prelude::*;
use crate::config::{AgentDomain, AgentType, FactoryMcpRuntimeConfig};
use crate::json::JsonDoc;
use crate::registry::{DiscoveryRegistry, ToolDescriptor};
use crate::services::DiscoveryServiceAdapter;
use crate::table::{RegistryEntry, RegistryTable};

verus! {

/// Why an invocation failed: the name is unknown, the remote resource could
/// not be reached, the remote side failed while executing, or the call
/// timed out.
#[derive(Debug, PartialEq, Eq)]
pub enum InvocationError {
    NotFound,
    Unreachable,
    ExecutionFailed(String),
    Timeout,
}

/// What one attempt to call a remote resource came back with. The transport
/// itself lives outside the library; its outcome is handed in as a value.
#[derive(Debug, PartialEq, Eq)]
pub enum TransportOutcome {
    Delivered(JsonDoc),
    TransportDown,
    TimedOut,
    RemoteFailure(String),
}

/// How an invoker answers for a transport outcome: a delivered document is
/// the result, a dead transport is `Unreachable`, an expired call is
/// `Timeout`, and a remote-side failure is `ExecutionFailed` with its
/// detail.
pub open spec fn interpret_matches(o: TransportOutcome, r: Result<JsonDoc, InvocationError>) -> bool {
    match o {
        TransportOutcome::Delivered(d) => match r {
            Ok(doc) => doc@ == d@,
            Err(_) => false,
        },
        TransportOutcome::TransportDown => r == Err::<JsonDoc, InvocationError>(
            InvocationError::Unreachable,
        ),
        TransportOutcome::TimedOut => r == Err::<JsonDoc, InvocationError>(
            InvocationError::Timeout,
        ),
        TransportOutcome::RemoteFailure(s) => match r {
            Ok(_) => false,
            Err(InvocationError::ExecutionFailed(m)) => m@ == s@,
            Err(_) => false,
        },
    }
}

/// Turns a transport outcome into the invoker's answer.
pub fn interpret_outcome(o: TransportOutcome) -> (r: Result<JsonDoc, InvocationError>)
    ensures
        interpret_matches(o, r),
{
    match o {
        TransportOutcome::Delivered(d) => Ok(d),
        TransportOutcome::TransportDown => Err(InvocationError::Unreachable),
        TransportOutcome::TimedOut => Err(InvocationError::Timeout),
        TransportOutcome::RemoteFailure(s) => Err(InvocationError::ExecutionFailed(s)),
    }
}

/// A statically known, locally implemented unit of work: its name and the
/// response document it answers with.
#[derive(Debug)]
pub struct StaticTask {
    pub name: String,
    pub response: JsonDoc,
}

/// The view of a static task.
pub struct StaticTaskView {
    pub name: Seq<char>,
    pub response: Seq<u8>,
}

impl View for StaticTask {
    type V = StaticTaskView;

    open spec fn view(&self) -> StaticTaskView {
        StaticTaskView { name: self.name@, response: self.response@ }
    }
}

impl RegistryEntry for StaticTask {
    open spec fn key_of(v: StaticTaskView) -> Seq<char> {
        v.name
    }

    fn key_matches(&self, other: &Self) -> (b: bool) {
        self.name == other.name
    }

    fn key_is(&self, k: &String) -> (b: bool) {
        self.name == *k
    }
}

/// Invokes statically known, locally implemented tasks by name. Side
/// effects are none: a task answers with its configured response document.
#[derive(Debug)]
pub struct StaticTaskInvoker {
    pub tasks: RegistryTable<StaticTask>,
}

impl StaticTaskInvoker {
    pub open spec fn wf(&self) -> bool {
        self.tasks.wf()
    }

    /// What an invocation by name finds.
    pub open spec fn spec_task(&self, name: Seq<char>) -> Option<StaticTaskView> {
        self.tasks.spec_get(name)
    }

    /// An invoker with no task yet.
    pub fn new() -> (r: StaticTaskInvoker)
        ensures
            r.wf(),
            forall|k: Seq<char>| r.spec_task(k) is None,
    {
        StaticTaskInvoker { tasks: RegistryTable::new() }
    }

    /// Adds a task, overwriting any earlier task of the same name.
    pub fn add_task(&mut self, t: StaticTask)
        requires
            old(self).wf(),
        ensures
            final(self).wf(),
            final(self).spec_task(t@.name) == Some(t@),
            forall|k: Seq<char>| k != t@.name ==> final(self).spec_task(k) == old(self).spec_task(k),
    {
        self.tasks.upsert(t);
    }

    /// Invokes a task by name: the configured response for a known name,
    /// `NotFound` for an unknown one. The arguments are accepted for
    /// uniformity with the remote invokers; a static task's answer does not
    /// depend on them.
    pub fn invoke(&self, name: &String, _arguments: &JsonDoc) -> (r: Result<
        JsonDoc,
        InvocationError,
    >)
        ensures
            match self.spec_task(name@) {
                Some(t) => match r {
                    Ok(doc) => doc@ == t.response,
                    Err(_) => false,
                },
                None => r == Err::<JsonDoc, InvocationError>(InvocationError::NotFound),
            },
    {
        match self.tasks.get(name) {
            Some(t) => Ok(t.response.clone_doc()),
            None => Err(InvocationError::NotFound),
        }
    }
}

/// What a tool runtime's enumeration attempt returned: its tools, or
/// nothing because the runtime could not be reached.
#[derive(Debug, PartialEq, Eq)]
pub enum ListToolsOutcome {
    Listed(Vec<ToolDescriptor>),
    Unreachable,
}

/// Invokes tools exposed by a remote runtime. Holds the runtime's address
/// and the snapshot of tools enumerated when the connection was made;
/// whether a name is invocable is decided against that snapshot, before any
/// transport is attempted.
#[derive(Debug)]
pub struct McpRuntimeToolInvoker {
    pub server_url: String,
    pub tools: Vec<ToolDescriptor>,
}

impl McpRuntimeToolInvoker {
    /// Whether the enumerated snapshot exposes a tool under this name.
    pub open spec fn spec_has_tool(&self, name: Seq<char>) -> bool {
        exists|i: int| 0 <= i < self.tools@.len() && (#[trigger] self.tools@[i])@.name == name
    }

    /// Connects to a tool runtime: keeps its address and the tools its
    /// enumeration reported. Fails exactly when the runtime could not be
    /// enumerated.
    pub fn connect(config: &FactoryMcpRuntimeConfig, listing: ListToolsOutcome) -> (r: Result<
        McpRuntimeToolInvoker,
        InvocationError,
    >)
        ensures
            match listing {
                ListToolsOutcome::Listed(ts) => match r {
                    Ok(inv) => inv.server_url@ == config.server_url@ && inv.tools == ts,
                    Err(_) => false,
                },
                ListToolsOutcome::Unreachable => r == Err::<McpRuntimeToolInvoker, InvocationError>(
                    InvocationError::Unreachable,
                ),
            },
    {
        match listing {
            ListToolsOutcome::Listed(ts) => Ok(
                McpRuntimeToolInvoker { server_url: config.server_url.clone(), tools: ts },
            ),
            ListToolsOutcome::Unreachable => Err(InvocationError::Unreachable),
        }
    }

    /// The tools the runtime reported when the connection was made.
    pub fn list_tools(&self) -> (r: &Vec<ToolDescriptor>)
        ensures
            r == &self.tools,
    {
        &self.tools
    }

    /// Whether the snapshot exposes a tool under this name.
    pub fn has_tool(&self, name: &String) -> (b: bool)
        ensures
            b == self.spec_has_tool(name@),
    {
        let n = self.tools.len();
        let mut i: usize = 0;
        while i < n
            invariant
                i <= n,
                n == self.tools@.len(),
                forall|j: int| 0 <= j < i ==> (#[trigger] self.tools@[j])@.name != name@,
            decreases n - i,
        {
            if self.tools[i].name == *name {
                return true;
            }
            i = i + 1;
        }
        false
    }

    /// Invokes a tool by name. An unknown name fails locally with
    /// `NotFound` — no transport is attempted for it; for a known name the
    /// transport outcome, supplied by the caller's runtime, decides.
    pub fn invoke(&self, name: &String, _arguments: &JsonDoc, outcome: TransportOutcome) -> (r:
        Result<JsonDoc, InvocationError>)
        ensures
            !self.spec_has_tool(name@) ==> r == Err::<JsonDoc, InvocationError>(
                InvocationError::NotFound,
            ),
            self.spec_has_tool(name@) ==> interpret_matches(outcome, r),
    {
        if !self.has_tool(name) {
            Err(InvocationError::NotFound)
        } else {
            interpret_outcome(outcome)
        }
    }
}

/// Invokes peer agents by logical identity. Peers are resolved through the
/// discovery registry at invocation time: the invoker owns no static peer
/// list, only the discovery endpoint it was constructed against.
#[derive(Debug)]
pub struct A2AAgentInvoker {
    pub discovery_url: String,
}

impl A2AAgentInvoker {
    /// Discovery-backed construction: the invoker keeps the discovery
    /// endpoint and nothing else. Construction probes nothing and cannot
    /// fail.
    pub fn new_with_discovery(discovery: &DiscoveryServiceAdapter) -> (r: Result<
        A2AAgentInvoker,
        InvocationError,
    >)
        ensures
            match r {
                Ok(inv) => inv.discovery_url@ == discovery.url@,
                Err(_) => false,
            },
    {
        Ok(A2AAgentInvoker { discovery_url: discovery.url.clone() })
    }

    /// Resolves a peer agent by domain and archetype against the registry:
    /// the address of the first matching capability record, or `NotFound`
    /// when no registered agent serves the domain under that archetype.
    ///
    /// One call is one lookup against one observation of the registry. A
    /// peer may be asked for before its self-registration has landed; the
    /// host tolerates that race by looping — resolving a fresh observation
    /// after each backoff — under a `ResolutionBackoff` decision.
    pub fn resolve(
        &self,
        registry: &DiscoveryRegistry,
        domain: AgentDomain,
        agent_type: AgentType,
    ) -> (r: Result<String, InvocationError>)
        ensures
            match registry.spec_resolve_agent(domain, agent_type) {
                Some(a) => match r {
                    Ok(addr) => addr@ == a.address,
                    Err(_) => false,
                },
                None => r == Err::<String, InvocationError>(InvocationError::NotFound),
            },
    {
        match registry.resolve_agent(domain, agent_type) {
            Some(a) => Ok(a.address.clone()),
            None => Err(InvocationError::NotFound),
        }
    }

    /// Invokes a peer agent resolved by domain and archetype. An
    /// unresolvable peer fails locally with `NotFound` — no transport is
    /// attempted for it; for a resolved peer the transport outcome decides.
    pub fn invoke(
        &self,
        registry: &DiscoveryRegistry,
        domain: AgentDomain,
        agent_type: AgentType,
        _arguments: &JsonDoc,
        outcome: TransportOutcome,
    ) -> (r: Result<JsonDoc, InvocationError>)
        ensures
            registry.spec_resolve_agent(domain, agent_type) is None ==> r == Err::<
                JsonDoc,
                InvocationError,
            >(InvocationError::NotFound),
            registry.spec_resolve_agent(domain, agent_type) is Some ==> interpret_matches(
                outcome,
                r,
            ),
    {
        match registry.resolve_agent(domain, agent_type) {
            Some(_) => interpret_outcome(outcome),
            None => Err(InvocationError::NotFound),
        }
    }
}

/// What a resolution retry decides after one lookup: deliver the peer it
/// found, resolve again after a backoff, or give up on the peer.
#[derive(Clone, Copy, Debug, PartialEq, Eq, Structural)]
pub enum ResolveDecision {
    Deliver,
    RetryAfterBackoff,
    GiveUp,
}

/// The agent invoker's tolerance for the registration race: a peer may be
/// resolved before its self-registration has landed in discovery, so a
/// failed lookup is retried with backoff under a bounded budget rather than
/// reported at once. The host performs the backoff and the fresh lookup;
/// this holds the budget and decides.
#[derive(Debug)]
pub struct ResolutionBackoff {
    pub attempts_left: u32,
}

impl ResolutionBackoff {
    /// A resolution retry with the given budget.
    pub fn new(attempts: u32) -> (r: ResolutionBackoff)
        ensures
            r.attempts_left == attempts,
    {
        ResolutionBackoff { attempts_left: attempts }
    }

    /// Decides on one lookup's outcome: deliver a resolved peer, retry
    /// after a backoff while budget remains, give up when it is spent.
    pub fn step(&mut self, resolved: bool) -> (d: ResolveDecision)
        ensures
            resolved ==> d == ResolveDecision::Deliver && *final(self) == *old(self),
            !resolved && old(self).attempts_left == 0 ==> d == ResolveDecision::GiveUp
                && *final(self) == *old(self),
            !resolved && old(self).attempts_left > 0 ==> d == ResolveDecision::RetryAfterBackoff
                && final(self).attempts_left == old(self).attempts_left - 1,
    {
        if resolved {
            ResolveDecision::Deliver
        } else if self.attempts_left == 0 {
            ResolveDecision::GiveUp
        } else {
            self.attempts_left = self.attempts_left - 1;
            ResolveDecision::RetryAfterBackoff
        }
    }
}

} // verus!
