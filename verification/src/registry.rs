use vstd::prelude::*;
use crate::config::{AgentDomain, AgentType};
use crate::json::{empty_object_bytes, object_shaped, JsonDoc};
use crate::table::{RegistryEntry, RegistryTable};

verus! {

/// A statically known task: identity, human-readable name and description,
/// and the JSON schemas of its input and output.
#[derive(Debug, PartialEq, Eq)]
pub struct TaskDefinition {
    pub id: String,
    pub name: String,
    pub description: String,
    pub input_schema: JsonDoc,
    pub output_schema: JsonDoc,
}

/// A tool mirrored into the registry from a tool runtime's enumeration;
/// same shape as a task definition.
#[derive(Debug, PartialEq, Eq)]
pub struct ToolDefinition {
    pub id: String,
    pub name: String,
    pub description: String,
    pub input_schema: JsonDoc,
    pub output_schema: JsonDoc,
}

/// The view shared by task and tool definitions.
pub struct DefinitionView {
    pub id: Seq<char>,
    pub name: Seq<char>,
    pub description: Seq<char>,
    pub input_schema: Seq<u8>,
    pub output_schema: Seq<u8>,
}

impl View for TaskDefinition {
    type V = DefinitionView;

    open spec fn view(&self) -> DefinitionView {
        DefinitionView {
            id: self.id@,
            name: self.name@,
            description: self.description@,
            input_schema: self.input_schema@,
            output_schema: self.output_schema@,
        }
    }
}

impl View for ToolDefinition {
    type V = DefinitionView;

    open spec fn view(&self) -> DefinitionView {
        DefinitionView {
            id: self.id@,
            name: self.name@,
            description: self.description@,
            input_schema: self.input_schema@,
            output_schema: self.output_schema@,
        }
    }
}

impl RegistryEntry for TaskDefinition {
    open spec fn key_of(v: DefinitionView) -> Seq<char> {
        v.id
    }

    fn key_matches(&self, other: &Self) -> (b: bool) {
        self.id == other.id
    }

    fn key_is(&self, k: &String) -> (b: bool) {
        self.id == *k
    }
}

impl RegistryEntry for ToolDefinition {
    open spec fn key_of(v: DefinitionView) -> Seq<char> {
        v.id
    }

    fn key_matches(&self, other: &Self) -> (b: bool) {
        self.id == other.id
    }

    fn key_is(&self, k: &String) -> (b: bool) {
        self.id == *k
    }
}

/// A definition the registry accepts: it carries an identity and both of its
/// schemas are shaped like JSON objects. Anything else is malformed.
pub open spec fn valid_definition(d: DefinitionView) -> bool {
    &&& d.id.len() > 0
    &&& object_shaped(d.input_schema)
    &&& object_shaped(d.output_schema)
}

impl TaskDefinition {
    /// Whether the registry accepts this definition.
    pub fn is_valid(&self) -> (b: bool)
        ensures
            b == valid_definition(self@),
    {
        !self.id.as_str().is_empty() && self.input_schema.is_object()
            && self.output_schema.is_object()
    }

    /// An identical copy of the definition.
    pub fn clone_def(&self) -> (r: TaskDefinition)
        ensures
            r@ == self@,
    {
        TaskDefinition {
            id: self.id.clone(),
            name: self.name.clone(),
            description: self.description.clone(),
            input_schema: self.input_schema.clone_doc(),
            output_schema: self.output_schema.clone_doc(),
        }
    }
}

impl ToolDefinition {
    /// Whether the registry accepts this definition.
    pub fn is_valid(&self) -> (b: bool)
        ensures
            b == valid_definition(self@),
    {
        !self.id.as_str().is_empty() && self.input_schema.is_object()
            && self.output_schema.is_object()
    }

    /// An identical copy of the definition.
    pub fn clone_def(&self) -> (r: ToolDefinition)
        ensures
            r@ == self@,
    {
        ToolDefinition {
            id: self.id.clone(),
            name: self.name.clone(),
            description: self.description.clone(),
            input_schema: self.input_schema.clone_doc(),
            output_schema: self.output_schema.clone_doc(),
        }
    }
}

/// What a tool runtime reports about one of its callable tools. The schemas
/// are optional: the runtime may expose a tool without either.
#[derive(Debug, PartialEq, Eq)]
pub struct ToolDescriptor {
    pub name: String,
    pub description: String,
    pub input_schema: Option<JsonDoc>,
    pub output_schema: Option<JsonDoc>,
}

/// The view of a tool descriptor.
pub struct ToolDescriptorView {
    pub name: Seq<char>,
    pub description: Seq<char>,
    pub input_schema: Option<Seq<u8>>,
    pub output_schema: Option<Seq<u8>>,
}

impl View for ToolDescriptor {
    type V = ToolDescriptorView;

    open spec fn view(&self) -> ToolDescriptorView {
        ToolDescriptorView {
            name: self.name@,
            description: self.description@,
            input_schema: match self.input_schema {
                Some(ref d) => Some(d@),
                None => None,
            },
            output_schema: match self.output_schema {
                Some(ref d) => Some(d@),
                None => None,
            },
        }
    }
}

/// The definition under which a descriptor is mirrored into the registry:
/// the tool's name doubles as its id, and a schema the runtime left absent
/// defaults to the empty schema object.
pub open spec fn spec_mirror_tool(d: ToolDescriptorView) -> DefinitionView {
    DefinitionView {
        id: d.name,
        name: d.name,
        description: d.description,
        input_schema: match d.input_schema {
            Some(s) => s,
            None => empty_object_bytes(),
        },
        output_schema: match d.output_schema {
            Some(s) => s,
            None => empty_object_bytes(),
        },
    }
}

/// Mirrors a runtime's tool descriptor into a registry definition.
pub fn tool_definition_of(d: &ToolDescriptor) -> (r: ToolDefinition)
    ensures
        r@ == spec_mirror_tool(d@),
{
    ToolDefinition {
        id: d.name.clone(),
        name: d.name.clone(),
        description: d.description.clone(),
        input_schema: match d.input_schema {
            Some(ref s) => s.clone_doc(),
            None => JsonDoc::empty_object(),
        },
        output_schema: match d.output_schema {
            Some(ref s) => s.clone_doc(),
            None => JsonDoc::empty_object(),
        },
    }
}

/// The capability record an agent registers for itself once it accepts
/// invocations: identity, network address, domain and archetype.
#[derive(Debug, PartialEq, Eq)]
pub struct AgentCapabilityRecord {
    pub id: String,
    pub address: String,
    pub domain: AgentDomain,
    pub agent_type: AgentType,
}

/// The view of an agent capability record.
pub struct AgentCapabilityRecordView {
    pub id: Seq<char>,
    pub address: Seq<char>,
    pub domain: AgentDomain,
    pub agent_type: AgentType,
}

impl View for AgentCapabilityRecord {
    type V = AgentCapabilityRecordView;

    open spec fn view(&self) -> AgentCapabilityRecordView {
        AgentCapabilityRecordView {
            id: self.id@,
            address: self.address@,
            domain: self.domain,
            agent_type: self.agent_type,
        }
    }
}

impl RegistryEntry for AgentCapabilityRecord {
    open spec fn key_of(v: AgentCapabilityRecordView) -> Seq<char> {
        v.id
    }

    fn key_matches(&self, other: &Self) -> (b: bool) {
        self.id == other.id
    }

    fn key_is(&self, k: &String) -> (b: bool) {
        self.id == *k
    }
}

/// A capability record the registry accepts: it carries an identity.
pub open spec fn valid_record(v: AgentCapabilityRecordView) -> bool {
    v.id.len() > 0
}

impl AgentCapabilityRecord {
    /// Whether the registry accepts this record.
    pub fn is_valid(&self) -> (b: bool)
        ensures
            b == valid_record(self@),
    {
        !self.id.as_str().is_empty()
    }

    /// An identical copy of the record.
    pub fn clone_record(&self) -> (r: AgentCapabilityRecord)
        ensures
            r@ == self@,
    {
        AgentCapabilityRecord {
            id: self.id.clone(),
            address: self.address.clone(),
            domain: self.domain,
            agent_type: self.agent_type,
        }
    }
}

/// Why a registry operation failed: the service could not be reached, or the
/// definition offered was malformed.
#[derive(Clone, Copy, Debug, PartialEq, Eq, Structural)]
pub enum DiscoveryError {
    Unreachable,
    InvalidDefinition,
}

/// The first record in a sequence that serves a domain under an archetype,
/// scanning front to back.
pub open spec fn seq_find_agent(
    s: Seq<AgentCapabilityRecordView>,
    domain: AgentDomain,
    agent_type: AgentType,
) -> Option<AgentCapabilityRecordView>
    decreases s.len(),
{
    if s.len() == 0 {
        None
    } else if s[0].domain == domain && s[0].agent_type == agent_type {
        Some(s[0])
    } else {
        seq_find_agent(s.skip(1), domain, agent_type)
    }
}

/// A resolution by domain and archetype skips a prefix in which no record
/// matches.
proof fn lemma_find_agent_skip(
    s: Seq<AgentCapabilityRecordView>,
    domain: AgentDomain,
    agent_type: AgentType,
    i: int,
)
    requires
        0 <= i <= s.len(),
        forall|j: int|
            0 <= j < i ==> !((#[trigger] s[j]).domain == domain && s[j].agent_type == agent_type),
    ensures
        seq_find_agent(s, domain, agent_type) == seq_find_agent(s.skip(i), domain, agent_type),
    decreases i,
{
    if i > 0 {
        assert(s.skip(1).skip(i - 1) =~= s.skip(i));
        lemma_find_agent_skip(s.skip(1), domain, agent_type, i - 1);
    } else {
        assert(s.skip(0) =~= s);
    }
}

/// The model of the discovery service's shared registry: three namespaces —
/// tasks, tools and agent capabilities — each addressed by id with
/// idempotent upsert-by-id writes.
#[derive(Debug)]
pub struct DiscoveryRegistry {
    pub tasks: RegistryTable<TaskDefinition>,
    pub tools: RegistryTable<ToolDefinition>,
    pub agents: RegistryTable<AgentCapabilityRecord>,
}

impl DiscoveryRegistry {
    /// Each namespace holds at most one entry per id.
    pub open spec fn wf(&self) -> bool {
        &&& self.tasks.wf()
        &&& self.tools.wf()
        &&& self.agents.wf()
    }

    /// What a task lookup by id finds.
    pub open spec fn spec_task(&self, id: Seq<char>) -> Option<DefinitionView> {
        self.tasks.spec_get(id)
    }

    /// What a tool lookup by id finds.
    pub open spec fn spec_tool(&self, id: Seq<char>) -> Option<DefinitionView> {
        self.tools.spec_get(id)
    }

    /// What an agent lookup by id finds.
    pub open spec fn spec_agent(&self, id: Seq<char>) -> Option<AgentCapabilityRecordView> {
        self.agents.spec_get(id)
    }

    /// What a resolution by domain and archetype finds.
    pub open spec fn spec_resolve_agent(
        &self,
        domain: AgentDomain,
        agent_type: AgentType,
    ) -> Option<AgentCapabilityRecordView> {
        seq_find_agent(self.agents.views(), domain, agent_type)
    }

    /// How many task definitions the registry holds.
    pub open spec fn spec_task_count(&self) -> int {
        self.tasks.views().len() as int
    }

    /// How many tool definitions the registry holds.
    pub open spec fn spec_tool_count(&self) -> int {
        self.tools.views().len() as int
    }

    /// How many agent capability records the registry holds.
    pub open spec fn spec_agent_count(&self) -> int {
        self.agents.views().len() as int
    }

    /// An empty registry.
    pub fn new() -> (r: DiscoveryRegistry)
        ensures
            r.wf(),
            forall|k: Seq<char>| r.spec_task(k) is None,
            forall|k: Seq<char>| r.spec_tool(k) is None,
            forall|k: Seq<char>| r.spec_agent(k) is None,
            r.spec_task_count() == 0,
            r.spec_tool_count() == 0,
            r.spec_agent_count() == 0,
            forall|d: AgentDomain, t: AgentType| r.spec_resolve_agent(d, t) is None,
    {
        let r = DiscoveryRegistry {
            tasks: RegistryTable::new(),
            tools: RegistryTable::new(),
            agents: RegistryTable::new(),
        };
        r
    }

    /// How many task definitions the registry holds.
    pub fn task_count(&self) -> (n: usize)
        ensures
            n == self.spec_task_count(),
    {
        self.tasks.len()
    }

    /// How many tool definitions the registry holds.
    pub fn tool_count(&self) -> (n: usize)
        ensures
            n == self.spec_tool_count(),
    {
        self.tools.len()
    }

    /// How many agent capability records the registry holds.
    pub fn agent_count(&self) -> (n: usize)
        ensures
            n == self.spec_agent_count(),
    {
        self.agents.len()
    }

    /// Registers a task definition: an idempotent upsert keyed by id. A
    /// malformed definition is rejected; an id registered before is
    /// overwritten, never duplicated.
    pub fn register_task(&mut self, def: &TaskDefinition) -> (r: Result<(), DiscoveryError>)
        requires
            old(self).wf(),
        ensures
            final(self).wf(),
            (r is Ok) <==> valid_definition(def@),
            !valid_definition(def@) ==> r == Err::<(), DiscoveryError>(
                DiscoveryError::InvalidDefinition,
            ) && *final(self) == *old(self),
            valid_definition(def@) ==> {
                &&& final(self).spec_task(def@.id) == Some(def@)
                &&& forall|k: Seq<char>|
                    k != def@.id ==> final(self).spec_task(k) == old(self).spec_task(k)
                &&& final(self).tools == old(self).tools
                &&& final(self).agents == old(self).agents
                &&& final(self).spec_task_count() == old(self).spec_task_count() + if old(
                    self,
                ).spec_task(def@.id) is Some {
                    0int
                } else {
                    1int
                }
            },
    {
        if !def.is_valid() {
            return Err(DiscoveryError::InvalidDefinition);
        }
        self.tasks.upsert(def.clone_def());
        Ok(())
    }

    /// Registers a tool definition: an idempotent upsert keyed by id, with
    /// the same overwrite semantics as task registration.
    pub fn register_tool(&mut self, def: &ToolDefinition) -> (r: Result<(), DiscoveryError>)
        requires
            old(self).wf(),
        ensures
            final(self).wf(),
            (r is Ok) <==> valid_definition(def@),
            !valid_definition(def@) ==> r == Err::<(), DiscoveryError>(
                DiscoveryError::InvalidDefinition,
            ) && *final(self) == *old(self),
            valid_definition(def@) ==> {
                &&& final(self).spec_tool(def@.id) == Some(def@)
                &&& forall|k: Seq<char>|
                    k != def@.id ==> final(self).spec_tool(k) == old(self).spec_tool(k)
                &&& final(self).tasks == old(self).tasks
                &&& final(self).agents == old(self).agents
                &&& final(self).spec_tool_count() == old(self).spec_tool_count() + if old(
                    self,
                ).spec_tool(def@.id) is Some {
                    0int
                } else {
                    1int
                }
            },
    {
        if !def.is_valid() {
            return Err(DiscoveryError::InvalidDefinition);
        }
        self.tools.upsert(def.clone_def());
        Ok(())
    }

    /// Registers an agent's capability record. Re-registration under the
    /// same id overwrites the earlier record: one admissible policy for an
    /// agent that comes back under a new address.
    pub fn register_agent(&mut self, rec: &AgentCapabilityRecord) -> (r: Result<
        (),
        DiscoveryError,
    >)
        requires
            old(self).wf(),
        ensures
            final(self).wf(),
            (r is Ok) <==> valid_record(rec@),
            !valid_record(rec@) ==> r == Err::<(), DiscoveryError>(
                DiscoveryError::InvalidDefinition,
            ) && *final(self) == *old(self),
            valid_record(rec@) ==> {
                &&& final(self).spec_agent(rec@.id) == Some(rec@)
                &&& forall|k: Seq<char>|
                    k != rec@.id ==> final(self).spec_agent(k) == old(self).spec_agent(k)
                &&& final(self).tasks == old(self).tasks
                &&& final(self).tools == old(self).tools
                &&& final(self).spec_agent_count() == old(self).spec_agent_count() + if old(
                    self,
                ).spec_agent(rec@.id) is Some {
                    0int
                } else {
                    1int
                }
            },
    {
        if !rec.is_valid() {
            return Err(DiscoveryError::InvalidDefinition);
        }
        self.agents.upsert(rec.clone_record());
        Ok(())
    }

    /// Looks a task up by id.
    pub fn lookup_task(&self, id: &String) -> (r: Option<&TaskDefinition>)
        ensures
            match r {
                Some(d) => self.spec_task(id@) == Some(d@),
                None => self.spec_task(id@) is None,
            },
    {
        self.tasks.get(id)
    }

    /// Looks a tool up by id.
    pub fn lookup_tool(&self, id: &String) -> (r: Option<&ToolDefinition>)
        ensures
            match r {
                Some(d) => self.spec_tool(id@) == Some(d@),
                None => self.spec_tool(id@) is None,
            },
    {
        self.tools.get(id)
    }

    /// Looks an agent's capability record up by id.
    pub fn lookup_agent(&self, id: &String) -> (r: Option<&AgentCapabilityRecord>)
        ensures
            match r {
                Some(a) => self.spec_agent(id@) == Some(a@),
                None => self.spec_agent(id@) is None,
            },
    {
        self.agents.get(id)
    }

    /// Resolves an agent by domain and archetype: the first registered
    /// record that serves the domain under that archetype.
    pub fn resolve_agent(&self, domain: AgentDomain, agent_type: AgentType) -> (r: Option<
        &AgentCapabilityRecord,
    >)
        ensures
            match r {
                Some(a) => self.spec_resolve_agent(domain, agent_type) == Some(a@),
                None => self.spec_resolve_agent(domain, agent_type) is None,
            },
    {
        let n = self.agents.len();
        let mut i: usize = 0;
        while i < n
            invariant
                i <= n,
                n == self.agents.views().len(),
                forall|j: int|
                    0 <= j < i ==> !((#[trigger] self.agents.views()[j]).domain == domain
                        && self.agents.views()[j].agent_type == agent_type),
            decreases n - i,
        {
            let a = self.agents.entry_at(i);
            if a.domain == domain && a.agent_type == agent_type {
                proof {
                    lemma_find_agent_skip(self.agents.views(), domain, agent_type, i as int);
                    assert(self.agents.views().skip(i as int)[0] == self.agents.views()[i as int]);
                }
                return Some(a);
            }
            i = i + 1;
        }
        proof {
            lemma_find_agent_skip(self.agents.views(), domain, agent_type, n as int);
            assert(self.agents.views().skip(n as int) =~= Seq::<AgentCapabilityRecordView>::empty());
        }
        None
    }
}

/// Law: registering two definitions under the same id, one after the other,
/// leaves the registry reflecting only the second — the first is overwritten,
/// not duplicated, and no other id is disturbed.
///
/// The premises are exactly what two successive `register_task` calls ensure
/// on a registry `r0` for valid definitions `d1` and `d2` sharing an id.
pub proof fn lemma_register_twice_overwrites(
    r0: DiscoveryRegistry,
    r1: DiscoveryRegistry,
    r2: DiscoveryRegistry,
    d1: DefinitionView,
    d2: DefinitionView,
)
    requires
        d1.id == d2.id,
        r1.spec_task(d1.id) == Some(d1),
        forall|k: Seq<char>| k != d1.id ==> r1.spec_task(k) == r0.spec_task(k),
        r1.spec_task_count() == r0.spec_task_count() + if r0.spec_task(d1.id) is Some {
            0int
        } else {
            1int
        },
        r2.spec_task(d2.id) == Some(d2),
        forall|k: Seq<char>| k != d2.id ==> r2.spec_task(k) == r1.spec_task(k),
        r2.spec_task_count() == r1.spec_task_count() + if r1.spec_task(d2.id) is Some {
            0int
        } else {
            1int
        },
    ensures
        r2.spec_task(d1.id) == Some(d2),
        forall|k: Seq<char>| k != d1.id ==> r2.spec_task(k) == r0.spec_task(k),
        r2.spec_task_count() == r0.spec_task_count() + if r0.spec_task(d1.id) is Some {
            0int
        } else {
            1int
        },
{
}

} // verus!
