use vstd::prelude::*;
use vstd::string::StringExecFns;
use crate::config::{AgentType, FactoryAgentConfig, FactoryConfig, FactoryMcpRuntimeConfig};
use crate::facade::WorkFlowInvokers;
use crate::factory::{
    launch_config_ok, spec_capability_record, AgentFactory, AgentHandle, LaunchError,
};
use crate::invoker::{
    A2AAgentInvoker, InvocationError, ListToolsOutcome, McpRuntimeToolInvoker, StaticTask,
    StaticTaskInvoker, StaticTaskView,
};
use crate::json::{empty_object_bytes, JsonDoc};
use crate::registry::{
    spec_mirror_tool, tool_definition_of, valid_definition, valid_record, DefinitionView,
    DiscoveryError, DiscoveryRegistry, TaskDefinition, ToolDescriptor, ToolDescriptorView,
};
use crate::services::{DiscoveryServiceAdapter, EvaluationServiceAdapter, MemoryServiceAdapter};

verus! {

/// Constructs the client adapter for the evaluation service endpoint.
pub fn setup_evaluation_service(evaluation_service_url: &String) -> (r: Option<
    EvaluationServiceAdapter,
>)
    ensures
        match r {
            Some(a) => a.url@ == evaluation_service_url@,
            None => false,
        },
{
    Some(EvaluationServiceAdapter::new(evaluation_service_url))
}

/// Constructs the client adapter for the memory service endpoint.
pub fn setup_memory_service(memory_service_url: &String) -> (r: Option<MemoryServiceAdapter>)
    ensures
        match r {
            Some(a) => a.url@ == memory_service_url@,
            None => false,
        },
{
    Some(MemoryServiceAdapter::new(memory_service_url))
}

/// Constructs the client adapter for the discovery service endpoint.
pub fn setup_discovery_service(discovery_service_url: &String) -> (r: DiscoveryServiceAdapter)
    ensures
        r.url@ == discovery_service_url@,
{
    DiscoveryServiceAdapter::new(discovery_service_url)
}

/// The one static task this driver ships: the greeting task.
pub open spec fn spec_greeting_def() -> DefinitionView {
    DefinitionView {
        id: "greeting"@,
        name: "Say Hello"@,
        description: "Say hello to somebody"@,
        input_schema: empty_object_bytes(),
        output_schema: empty_object_bytes(),
    }
}

/// The greeting task's registry definition.
pub fn greeting_task_definition() -> (r: TaskDefinition)
    ensures
        r@ == spec_greeting_def(),
        valid_definition(r@),
    {
    proof {
        reveal_strlit("greeting");
    }
    TaskDefinition {
        id: String::from_str("greeting"),
        name: String::from_str("Say Hello"),
        description: String::from_str("Say hello to somebody"),
        input_schema: JsonDoc::empty_object(),
        output_schema: JsonDoc::empty_object(),
    }
}

/// Constructs the task invoker over the statically known tasks: the
/// greeting task, answering with the empty object document.
pub fn setup_task_invoker() -> (r: Result<StaticTaskInvoker, InvocationError>)
    ensures
        r is Ok,
        r->Ok_0.wf(),
        r->Ok_0.spec_task("greeting"@) == Some(
            StaticTaskView { name: "greeting"@, response: empty_object_bytes() },
        ),
        forall|k: Seq<char>| k != "greeting"@ ==> r->Ok_0.spec_task(k) is None,
{
    let mut invoker = StaticTaskInvoker::new();
    invoker.add_task(
        StaticTask { name: String::from_str("greeting"), response: JsonDoc::empty_object() },
    );
    Ok(invoker)
}

/// Constructs the tool invoker against the configured runtime, from what
/// the runtime's enumeration attempt returned.
pub fn setup_tool_invoker(
    mcp_config: &FactoryMcpRuntimeConfig,
    listing: ListToolsOutcome,
) -> (r: Result<McpRuntimeToolInvoker, InvocationError>)
    ensures
        match listing {
            ListToolsOutcome::Listed(ts) => match r {
                Ok(inv) => inv.server_url@ == mcp_config.server_url@ && inv.tools == ts,
                Err(_) => false,
            },
            ListToolsOutcome::Unreachable => r == Err::<McpRuntimeToolInvoker, InvocationError>(
                InvocationError::Unreachable,
            ),
        },
{
    McpRuntimeToolInvoker::connect(mcp_config, listing)
}

/// Constructs the agent invoker, backed by discovery for peer resolution.
pub fn setup_agent_invoker_v2(discovery_service_adapter: &DiscoveryServiceAdapter) -> (r: Result<
    A2AAgentInvoker,
    InvocationError,
>)
    ensures
        r is Ok,
        r->Ok_0.discovery_url@ == discovery_service_adapter.url@,
{
    A2AAgentInvoker::new_with_discovery(discovery_service_adapter)
}

/// Registers the static tasks into the discovery registry. The greeting
/// task is valid, so registration always succeeds; no other namespace and
/// no other task id is disturbed.
pub fn register_tasks(discovery_service: &mut DiscoveryRegistry) -> (r: Result<(), DiscoveryError>)
    requires
        old(discovery_service).wf(),
    ensures
        final(discovery_service).wf(),
        r is Ok,
        final(discovery_service).spec_task("greeting"@) == Some(spec_greeting_def()),
        forall|k: Seq<char>|
            k != "greeting"@ ==> final(discovery_service).spec_task(k) == old(
                discovery_service,
            ).spec_task(k),
        final(discovery_service).tools == old(discovery_service).tools,
        final(discovery_service).agents == old(discovery_service).agents,
{
    let def = greeting_task_definition();
    discovery_service.register_task(&def)
}

/// The views of a runtime's descriptors, in enumeration order.
pub open spec fn descriptor_views(ts: Seq<ToolDescriptor>) -> Seq<ToolDescriptorView> {
    ts.map_values(|d: ToolDescriptor| d@)
}

/// What mirroring a descriptor sequence leaves under a tool id: the mirror
/// of the last descriptor carrying that name, since later registrations
/// overwrite earlier ones.
pub open spec fn spec_mirrored(ts: Seq<ToolDescriptorView>, k: Seq<char>) -> Option<DefinitionView>
    decreases ts.len(),
{
    if ts.len() == 0 {
        None
    } else if ts.last().name == k {
        Some(spec_mirror_tool(ts.last()))
    } else {
        spec_mirrored(ts.drop_last(), k)
    }
}

/// Whether every descriptor in the sequence mirrors to a definition the
/// registry accepts.
pub open spec fn all_mirrors_valid(ts: Seq<ToolDescriptorView>) -> bool {
    forall|i: int| 0 <= i < ts.len() ==> valid_definition(spec_mirror_tool(#[trigger] ts[i]))
}

/// How far registering an enumeration gets before it stops: the index of
/// the first descriptor whose mirror the registry rejects, or the whole
/// length when every mirror is valid.
pub open spec fn spec_registered_prefix(ts: Seq<ToolDescriptorView>) -> int
    decreases ts.len(),
{
    if ts.len() == 0 {
        0
    } else if !valid_definition(spec_mirror_tool(ts[0])) {
        0
    } else {
        1 + spec_registered_prefix(ts.skip(1))
    }
}

/// The registered prefix ends exactly at the first invalid mirror: when the
/// first `i` mirrors are valid and either the sequence ends there or the
/// mirror at `i` is invalid, the prefix is `i`.
pub proof fn lemma_registered_prefix(ts: Seq<ToolDescriptorView>, i: int)
    requires
        0 <= i <= ts.len(),
        forall|j: int| 0 <= j < i ==> valid_definition(spec_mirror_tool(#[trigger] ts[j])),
        i < ts.len() ==> !valid_definition(spec_mirror_tool(ts[i])),
    ensures
        spec_registered_prefix(ts) == i,
    decreases ts.len(),
{
    if i == 0 {
        if ts.len() > 0 {
            assert(!valid_definition(spec_mirror_tool(ts[0])));
        }
    } else {
        assert(valid_definition(spec_mirror_tool(ts[0])));
        assert forall|j: int|
            0 <= j < i - 1 implies valid_definition(
            spec_mirror_tool(#[trigger] ts.skip(1)[j]),
        ) by {
            assert(ts.skip(1)[j] == ts[j + 1]);
        }
        assert(i - 1 < ts.skip(1).len() ==> !valid_definition(spec_mirror_tool(ts.skip(1)[i - 1])));
        lemma_registered_prefix(ts.skip(1), i - 1);
    }
}

/// Mirrors the tools a runtime enumerated into the discovery registry, one
/// definition per tool, in enumeration order. An unreachable runtime fails
/// with `Unreachable` and writes nothing. A tool that mirrors to a
/// malformed definition stops the registration there with
/// `InvalidDefinition`: the tools before it stay registered — a prefix of
/// the enumeration — and none after it is touched. On success every
/// enumerated tool is resolvable, the last descriptor winning a repeated
/// name. The task and agent namespaces are never disturbed.
pub fn register_tools(listing: ListToolsOutcome, discovery_service: &mut DiscoveryRegistry) -> (r:
    Result<usize, DiscoveryError>)
    requires
        old(discovery_service).wf(),
    ensures
        final(discovery_service).wf(),
        final(discovery_service).tasks == old(discovery_service).tasks,
        final(discovery_service).agents == old(discovery_service).agents,
        match listing {
            ListToolsOutcome::Unreachable => r == Err::<usize, DiscoveryError>(
                DiscoveryError::Unreachable,
            ) && final(discovery_service).tools == old(discovery_service).tools,
            ListToolsOutcome::Listed(ts) => {
                &&& ((r is Ok) <==> all_mirrors_valid(descriptor_views(ts@)))
                &&& (r is Ok ==> r->Ok_0 == ts@.len() && forall|k: Seq<char>|
                    final(discovery_service).spec_tool(k) == (match spec_mirrored(
                        descriptor_views(ts@),
                        k,
                    ) {
                        Some(d) => Some(d),
                        None => old(discovery_service).spec_tool(k),
                    }))
                &&& (r is Err ==> r == Err::<usize, DiscoveryError>(
                    DiscoveryError::InvalidDefinition,
                ))
                &&& forall|k: Seq<char>|
                    final(discovery_service).spec_tool(k) == (match spec_mirrored(
                        descriptor_views(ts@).take(spec_registered_prefix(descriptor_views(ts@))),
                        k,
                    ) {
                        Some(d) => Some(d),
                        None => old(discovery_service).spec_tool(k),
                    })
            },
        },
{
    let ts = match listing {
        ListToolsOutcome::Listed(ts) => ts,
        ListToolsOutcome::Unreachable => { return Err(DiscoveryError::Unreachable) },
    };
    let n = ts.len();
    let ghost orig = *old(discovery_service);
    let ghost dviews = descriptor_views(ts@);
    let mut i: usize = 0;
    while i < n
        invariant
            i <= n,
            n == ts@.len(),
            listing == ListToolsOutcome::Listed(ts),
            dviews == descriptor_views(ts@),
            orig == *old(discovery_service),
            discovery_service.wf(),
            discovery_service.tasks == orig.tasks,
            discovery_service.agents == orig.agents,
            forall|j: int| 0 <= j < i ==> valid_definition(spec_mirror_tool(#[trigger] dviews[j])),
            forall|k: Seq<char>|
                discovery_service.spec_tool(k) == (match spec_mirrored(dviews.take(i as int), k) {
                    Some(d) => Some(d),
                    None => orig.spec_tool(k),
                }),
        decreases n - i,
    {
        let ghost before = *discovery_service;
        let def = tool_definition_of(&ts[i]);
        proof {
            assert(dviews[i as int] == ts@[i as int]@);
        }
        match discovery_service.register_tool(&def) {
            Ok(_) => {},
            Err(e) => {
                proof {
                    assert(!valid_definition(spec_mirror_tool(dviews[i as int])));
                    lemma_registered_prefix(dviews, i as int);
                }
                return Err(e);
            },
        }
        proof {
            assert(valid_definition(spec_mirror_tool(dviews[i as int])));
            assert(dviews.take(i + 1).drop_last() =~= dviews.take(i as int));
            assert(dviews.take(i + 1).last() == dviews[i as int]);
            assert forall|k: Seq<char>|
                discovery_service.spec_tool(k) == (match spec_mirrored(dviews.take(i + 1), k) {
                    Some(d) => Some(d),
                    None => orig.spec_tool(k),
                }) by {
                if k == def@.id {
                    assert(discovery_service.spec_tool(k) == Some(def@));
                    assert(spec_mirrored(dviews.take(i + 1), k) == Some(
                        spec_mirror_tool(dviews[i as int]),
                    ));
                } else {
                    assert(discovery_service.spec_tool(k) == before.spec_tool(k));
                    assert(spec_mirrored(dviews.take(i + 1), k) == spec_mirrored(
                        dviews.take(i as int),
                        k,
                    ));
                }
            }
        }
        i = i + 1;
    }
    proof {
        lemma_registered_prefix(dviews, n as int);
        assert(dviews.take(n as int) =~= dviews);
    }
    Ok(n)
}

/// One agent to launch: its configuration, its optional tool runtime
/// configuration, and the archetype requested for it.
#[derive(Debug)]
pub struct LaunchRequest {
    pub config: FactoryAgentConfig,
    pub mcp_config: Option<FactoryMcpRuntimeConfig>,
    pub agent_type: AgentType,
}

/// Launches every configured agent in declared order and collects one
/// outcome per request: a failed launch yields its error in that request's
/// slot — reported exactly once — and blocks no other request from
/// launching.
pub fn launch_all(agent_factory: &AgentFactory, requests: &Vec<LaunchRequest>) -> (r: Vec<
    Result<AgentHandle, LaunchError>,
>)
    ensures
        r@.len() == requests@.len(),
        forall|i: int|
            0 <= i < requests@.len() ==> match #[trigger] r@[i] {
                Ok(h) => {
                    &&& launch_config_ok(requests@[i].config@, requests@[i].agent_type)
                    &&& h.agent_id@ == requests@[i].config@.id
                    &&& h.record@ == spec_capability_record(requests@[i].config@)
                    &&& valid_record(h.record@)
                    &&& h.plan@ == agent_factory.spec_plan(requests@[i].mcp_config is Some)
                },
                Err(e) => !launch_config_ok(requests@[i].config@, requests@[i].agent_type) && e
                    == LaunchError::ConfigInvalid,
            },
{
    let n = requests.len();
    let mut results: Vec<Result<AgentHandle, LaunchError>> = Vec::new();
    let mut i: usize = 0;
    while i < n
        invariant
            i <= n,
            n == requests@.len(),
            results@.len() == i,
            forall|j: int|
                0 <= j < i ==> match #[trigger] results@[j] {
                    Ok(h) => {
                        &&& launch_config_ok(requests@[j].config@, requests@[j].agent_type)
                        &&& h.agent_id@ == requests@[j].config@.id
                        &&& h.record@ == spec_capability_record(requests@[j].config@)
                        &&& valid_record(h.record@)
                        &&& h.plan@ == agent_factory.spec_plan(requests@[j].mcp_config is Some)
                    },
                    Err(e) => !launch_config_ok(requests@[j].config@, requests@[j].agent_type) && e
                        == LaunchError::ConfigInvalid,
                },
        decreases n - i,
    {
        let rq = &requests[i];
        let mcp_ref = match &rq.mcp_config {
            Some(m) => Some(m),
            None => None,
        };
        let res = agent_factory.launch_agent(&rq.config, mcp_ref, rq.agent_type);
        results.push(res);
        i = i + 1;
    }
    results
}

/// How one awaited agent ended: it ran to completion, it failed with an
/// execution error, or its task panicked.
#[derive(Debug, PartialEq, Eq)]
pub enum AgentOutcome {
    Success,
    Failed(String),
    Panicked(String),
}

/// How many outcomes in a sequence are successes.
pub open spec fn count_success(s: Seq<AgentOutcome>) -> int
    decreases s.len(),
{
    if s.len() == 0 {
        0
    } else {
        count_success(s.drop_last()) + if s.last() is Success {
            1int
        } else {
            0int
        }
    }
}

/// How many outcomes in a sequence are execution failures.
pub open spec fn count_failed(s: Seq<AgentOutcome>) -> int
    decreases s.len(),
{
    if s.len() == 0 {
        0
    } else {
        count_failed(s.drop_last()) + if s.last() is Failed {
            1int
        } else {
            0int
        }
    }
}

/// How many outcomes in a sequence are panics.
pub open spec fn count_panicked(s: Seq<AgentOutcome>) -> int
    decreases s.len(),
{
    if s.len() == 0 {
        0
    } else {
        count_panicked(s.drop_last()) + if s.last() is Panicked {
            1int
        } else {
            0int
        }
    }
}

/// The aggregate of the awaited agents' outcomes.
#[derive(Clone, Copy, Debug, PartialEq, Eq, Structural)]
pub struct OutcomeReport {
    pub succeeded: usize,
    pub failed: usize,
    pub panicked: usize,
}

/// Aggregates per-agent outcomes: every outcome is counted in its class,
/// and none suppresses the visibility of another — the three counts always
/// add up to the number of agents awaited.
pub fn summarize_outcomes(outcomes: &Vec<AgentOutcome>) -> (r: OutcomeReport)
    ensures
        r.succeeded == count_success(outcomes@),
        r.failed == count_failed(outcomes@),
        r.panicked == count_panicked(outcomes@),
        r.succeeded + r.failed + r.panicked == outcomes@.len(),
{
    let n = outcomes.len();
    let mut succeeded: usize = 0;
    let mut failed: usize = 0;
    let mut panicked: usize = 0;
    let mut i: usize = 0;
    while i < n
        invariant
            i <= n,
            n == outcomes@.len(),
            succeeded == count_success(outcomes@.take(i as int)),
            failed == count_failed(outcomes@.take(i as int)),
            panicked == count_panicked(outcomes@.take(i as int)),
            succeeded + failed + panicked == i,
        decreases n - i,
    {
        proof {
            assert(outcomes@.take(i + 1).drop_last() =~= outcomes@.take(i as int));
            assert(outcomes@.take(i + 1).last() == outcomes@[i as int]);
        }
        match outcomes[i] {
            AgentOutcome::Success => { succeeded = succeeded + 1 },
            AgentOutcome::Failed(_) => { failed = failed + 1 },
            AgentOutcome::Panicked(_) => { panicked = panicked + 1 },
        }
        i = i + 1;
    }
    proof {
        assert(outcomes@.take(n as int) =~= outcomes@);
    }
    OutcomeReport { succeeded, failed, panicked }
}

/// What the startup wait decides after one readiness probe of the
/// auxiliary services.
#[derive(Clone, Copy, Debug, PartialEq, Eq, Structural)]
pub enum PollDecision {
    Proceed,
    RetryAfterDelay,
    GiveUp,
}

/// The startup wait as an explicit readiness poll with a bounded retry
/// budget, in place of a fixed grace period: the driver probes the
/// auxiliary services, retries while the budget lasts, and gives up — a
/// reportable failure, not a silent proceed — when it is exhausted.
#[derive(Debug)]
pub struct ReadinessPoll {
    pub attempts_left: u32,
}

impl ReadinessPoll {
    /// A poll with the given retry budget.
    pub fn new(attempts: u32) -> (r: ReadinessPoll)
        ensures
            r.attempts_left == attempts,
    {
        ReadinessPoll { attempts_left: attempts }
    }

    /// Decides on one probe's observation: proceed once the services are
    /// reachable, retry after a delay while budget remains, give up when it
    /// is spent.
    pub fn step(&mut self, observed_ready: bool) -> (d: PollDecision)
        ensures
            observed_ready ==> d == PollDecision::Proceed && *final(self) == *old(self),
            !observed_ready && old(self).attempts_left == 0 ==> d == PollDecision::GiveUp
                && *final(self) == *old(self),
            !observed_ready && old(self).attempts_left > 0 ==> d == PollDecision::RetryAfterDelay
                && final(self).attempts_left == old(self).attempts_left - 1,
    {
        if observed_ready {
            PollDecision::Proceed
        } else if self.attempts_left == 0 {
            PollDecision::GiveUp
        } else {
            self.attempts_left = self.attempts_left - 1;
            PollDecision::RetryAfterDelay
        }
    }
}

/// Law: a mirrored descriptor keeps the tool's identity — the definition's
/// id and name are the tool's name, the description is the tool's
/// description — and a schema the runtime left absent defaults to the
/// empty schema object.
pub proof fn lemma_mirror_identity(d: ToolDescriptorView)
    ensures
        spec_mirror_tool(d).id == d.name,
        spec_mirror_tool(d).name == d.name,
        spec_mirror_tool(d).description == d.description,
        d.input_schema is None ==> spec_mirror_tool(d).input_schema == empty_object_bytes(),
        d.output_schema is None ==> spec_mirror_tool(d).output_schema == empty_object_bytes(),
{
}

/// Law: a tool enumerated from the runtime and mirrored into the registry
/// round-trips — what the registry then holds under the tool's name is the
/// mirror of one of the enumerated descriptors with exactly that name, so
/// its name and description come back unchanged.
pub proof fn lemma_tool_round_trip(ts: Seq<ToolDescriptorView>, k: Seq<char>)
    requires
        spec_mirrored(ts, k) is Some,
    ensures
        spec_mirrored(ts, k)->0.id == k,
        spec_mirrored(ts, k)->0.name == k,
        exists|i: int|
            0 <= i < ts.len() && (#[trigger] ts[i]).name == k && spec_mirrored(ts, k) == Some(
                spec_mirror_tool(ts[i]),
            ) && spec_mirrored(ts, k)->0.description == ts[i].description,
    decreases ts.len(),
{
    if ts.last().name == k {
        assert(ts[ts.len() - 1] == ts.last());
    } else {
        lemma_tool_round_trip(ts.drop_last(), k);
        let i = choose|i: int|
            0 <= i < ts.drop_last().len() && (#[trigger] ts.drop_last()[i]).name == k
                && spec_mirrored(ts.drop_last(), k) == Some(spec_mirror_tool(ts.drop_last()[i]));
        assert(ts.drop_last()[i] == ts[i]);
        assert(0 <= i < ts.len() && ts[i].name == k && spec_mirrored(ts, k) == Some(
            spec_mirror_tool(ts[i]),
        ));
    }
}

/// Runs the orchestration sequence over a discovery registry: constructs
/// the service adapters, registers the static tasks and the enumerated
/// tools, wires the three invokers into the workflow facade, constructs the
/// factory and launches every configured agent. Registration failures and a
/// facade that could not be wired abort the run; per-agent launch failures
/// do not — each sits in its request's slot of the returned outcomes.
///
/// An aborted run still has effects: the greeting task is registered before
/// anything can fail, so it is in the registry on every path, and a tool
/// registration stopped by a malformed mirror leaves the valid prefix of
/// the enumeration registered. The error says what went wrong:
/// `Unreachable` for an enumeration that could not be made — the
/// registration's, or the tool invoker's, which fails the facade — and
/// `InvalidDefinition` for a tool that mirrored to a malformed definition.
///
/// The runtime's tools are enumerated twice, as two outcomes: once for
/// registration and once for the tool invoker's own connection.
pub fn run_orchestration(
    factory_config: FactoryConfig,
    mcp_config: &FactoryMcpRuntimeConfig,
    registration_listing: ListToolsOutcome,
    invoker_listing: ListToolsOutcome,
    requests: &Vec<LaunchRequest>,
    discovery_registry: &mut DiscoveryRegistry,
) -> (r: Result<Vec<Result<AgentHandle, LaunchError>>, DiscoveryError>)
    requires
        old(discovery_registry).wf(),
    ensures
        final(discovery_registry).wf(),
        final(discovery_registry).spec_task("greeting"@) == Some(spec_greeting_def()),
        forall|k: Seq<char>|
            k != "greeting"@ ==> final(discovery_registry).spec_task(k) == old(
                discovery_registry,
            ).spec_task(k),
        final(discovery_registry).agents == old(discovery_registry).agents,
        match registration_listing {
            ListToolsOutcome::Unreachable => final(discovery_registry).tools == old(
                discovery_registry,
            ).tools,
            ListToolsOutcome::Listed(ts) => forall|k: Seq<char>|
                final(discovery_registry).spec_tool(k) == (match spec_mirrored(
                    descriptor_views(ts@).take(spec_registered_prefix(descriptor_views(ts@))),
                    k,
                ) {
                    Some(d) => Some(d),
                    None => old(discovery_registry).spec_tool(k),
                }),
        },
        (r is Ok) <==> (match registration_listing {
            ListToolsOutcome::Listed(ts) => all_mirrors_valid(descriptor_views(ts@))
                && invoker_listing is Listed,
            ListToolsOutcome::Unreachable => false,
        }),
        r is Err ==> r->Err_0 == (match registration_listing {
            ListToolsOutcome::Unreachable => DiscoveryError::Unreachable,
            ListToolsOutcome::Listed(ts) => if !all_mirrors_valid(descriptor_views(ts@)) {
                DiscoveryError::InvalidDefinition
            } else {
                DiscoveryError::Unreachable
            },
        }),
        r is Ok ==> {
            &&& (match registration_listing {
                ListToolsOutcome::Listed(ts) => forall|k: Seq<char>|
                    final(discovery_registry).spec_tool(k) == (match spec_mirrored(
                        descriptor_views(ts@),
                        k,
                    ) {
                        Some(d) => Some(d),
                        None => old(discovery_registry).spec_tool(k),
                    }),
                ListToolsOutcome::Unreachable => false,
            })
            &&& r->Ok_0@.len() == requests@.len()
            &&& forall|i: int|
                0 <= i < requests@.len() ==> match #[trigger] r->Ok_0@[i] {
                    Ok(h) => {
                        &&& launch_config_ok(requests@[i].config@, requests@[i].agent_type)
                        &&& h.record@ == spec_capability_record(requests@[i].config@)
                        &&& h.plan@ == crate::factory::spec_launch_plan(
                            requests@[i].mcp_config is Some,
                            factory_config.factory_memory_service_url is Some,
                            factory_config.factory_evaluation_service_url is Some,
                        )
                    },
                    Err(e) => !launch_config_ok(requests@[i].config@, requests@[i].agent_type) && e
                        == LaunchError::ConfigInvalid,
                }
        },
{
    let discovery_service = setup_discovery_service(&factory_config.factory_discovery_url);
    let memory_service = match &factory_config.factory_memory_service_url {
        Some(u) => setup_memory_service(u),
        None => None,
    };
    let evaluation_service = match &factory_config.factory_evaluation_service_url {
        Some(u) => setup_evaluation_service(u),
        None => None,
    };
    match register_tasks(discovery_registry) {
        Ok(_) => {},
        Err(e) => { return Err(e) },
    }
    match register_tools(registration_listing, discovery_registry) {
        Ok(_) => {},
        Err(e) => { return Err(e) },
    }
    let task_invoker = setup_task_invoker();
    let tool_invoker = setup_tool_invoker(mcp_config, invoker_listing);
    let agent_invoker = setup_agent_invoker_v2(&discovery_service);
    let workflow_invokers = match WorkFlowInvokers::init(task_invoker, agent_invoker, tool_invoker)
        {
        Ok(w) => Some(w),
        Err(_) => { return Err(DiscoveryError::Unreachable) },
    };
    let agent_factory = AgentFactory::new(
        factory_config,
        discovery_service,
        memory_service,
        evaluation_service,
        workflow_invokers,
    );
    let handles = launch_all(&agent_factory, requests);
    Ok(handles)
}

} // verus!
