use vstd::prelude::*;

verus! {

/// The archetype of a launched agent: a domain specialist, a planner that
/// decomposes goals and delegates, or an executor that carries out delegated
/// sub-plans.
#[derive(Clone, Copy, Debug, PartialEq, Eq, Structural)]
pub enum AgentType {
    Specialist,
    Planner,
    Executor,
}

/// The domain tag under which an agent registers and is resolved.
#[derive(Clone, Copy, Debug, PartialEq, Eq, Structural)]
pub enum AgentDomain {
    General,
}

/// The LLM provider an agent talks to.
#[derive(Clone, Copy, Debug, PartialEq, Eq, Structural)]
pub enum LlmProviderUrl {
    Groq,
    OpenAi,
}

/// Why building a configuration failed: the required field that was missing.
#[derive(Clone, Copy, Debug, PartialEq, Eq, Structural)]
pub enum ConfigError {
    MissingUrl,
    MissingAgentType,
    MissingDomain,
    MissingName,
    MissingId,
    MissingDescription,
    MissingLlmProviderUrl,
    MissingLlmApiKey,
    MissingLlmModelId,
    MissingExecutorUrl,
    MissingMcpLlmProviderUrl,
    MissingMcpLlmApiKey,
    MissingMcpLlmModelId,
    MissingMcpServerUrl,
    MissingMcpServerApiKey,
}

/// Process-wide factory configuration: the service endpoints and defaults,
/// loaded once and read-only afterwards. The memory and evaluation services
/// are optional; an agent may run without either.
#[derive(Debug)]
pub struct FactoryConfig {
    pub factory_discovery_url: String,
    pub factory_memory_service_url: Option<String>,
    pub factory_evaluation_service_url: Option<String>,
    pub factory_default_llm_model_id: Option<String>,
}

/// The configuration of one agent to be launched.
#[derive(Debug)]
pub struct FactoryAgentConfig {
    pub url: String,
    pub agent_type: AgentType,
    pub domain: AgentDomain,
    pub name: String,
    pub id: String,
    pub description: String,
    pub llm_provider_url: LlmProviderUrl,
    pub llm_api_key: String,
    pub llm_model_id: String,
    pub executor_url: Option<String>,
}

/// The view of an agent configuration.
pub struct FactoryAgentConfigView {
    pub url: Seq<char>,
    pub agent_type: AgentType,
    pub domain: AgentDomain,
    pub name: Seq<char>,
    pub id: Seq<char>,
    pub description: Seq<char>,
    pub llm_provider_url: LlmProviderUrl,
    pub llm_api_key: Seq<char>,
    pub llm_model_id: Seq<char>,
    pub executor_url: Option<Seq<char>>,
}

impl View for FactoryAgentConfig {
    type V = FactoryAgentConfigView;

    open spec fn view(&self) -> FactoryAgentConfigView {
        FactoryAgentConfigView {
            url: self.url@,
            agent_type: self.agent_type,
            domain: self.domain,
            name: self.name@,
            id: self.id@,
            description: self.description@,
            llm_provider_url: self.llm_provider_url,
            llm_api_key: self.llm_api_key@,
            llm_model_id: self.llm_model_id@,
            executor_url: match self.executor_url {
                Some(u) => Some(u@),
                None => None,
            },
        }
    }
}

/// Accumulates the fields of a `FactoryAgentConfig`; `build` validates them
/// at one finalization point.
#[derive(Debug)]
pub struct FactoryAgentConfigBuilder {
    pub url: Option<String>,
    pub agent_type: Option<AgentType>,
    pub domain: Option<AgentDomain>,
    pub name: Option<String>,
    pub id: Option<String>,
    pub description: Option<String>,
    pub llm_provider_url: Option<LlmProviderUrl>,
    pub llm_api_key: Option<String>,
    pub llm_model_id: Option<String>,
    pub executor_url: Option<String>,
}

/// The first invariant of an agent configuration that the builder's fields
/// break, if any: every required field must be present, and a planner must
/// name the executor it delegates to.
pub open spec fn spec_agent_build_error(b: FactoryAgentConfigBuilder) -> Option<ConfigError> {
    if b.url is None {
        Some(ConfigError::MissingUrl)
    } else if b.agent_type is None {
        Some(ConfigError::MissingAgentType)
    } else if b.domain is None {
        Some(ConfigError::MissingDomain)
    } else if b.name is None {
        Some(ConfigError::MissingName)
    } else if b.id is None {
        Some(ConfigError::MissingId)
    } else if b.description is None {
        Some(ConfigError::MissingDescription)
    } else if b.llm_provider_url is None {
        Some(ConfigError::MissingLlmProviderUrl)
    } else if b.llm_api_key is None {
        Some(ConfigError::MissingLlmApiKey)
    } else if b.llm_model_id is None {
        Some(ConfigError::MissingLlmModelId)
    } else if b.agent_type == Some(AgentType::Planner) && b.executor_url is None {
        Some(ConfigError::MissingExecutorUrl)
    } else {
        None
    }
}

impl FactoryAgentConfigBuilder {
    pub fn with_factory_agent_url(self, url: String) -> (r: Self)
        ensures
            r == (FactoryAgentConfigBuilder { url: Some(url), ..self }),
    {
        FactoryAgentConfigBuilder { url: Some(url), ..self }
    }

    pub fn with_factory_agent_type(self, agent_type: AgentType) -> (r: Self)
        ensures
            r == (FactoryAgentConfigBuilder { agent_type: Some(agent_type), ..self }),
    {
        FactoryAgentConfigBuilder { agent_type: Some(agent_type), ..self }
    }

    pub fn with_factory_agent_domains(self, domain: AgentDomain) -> (r: Self)
        ensures
            r == (FactoryAgentConfigBuilder { domain: Some(domain), ..self }),
    {
        FactoryAgentConfigBuilder { domain: Some(domain), ..self }
    }

    pub fn with_factory_agent_name(self, name: String) -> (r: Self)
        ensures
            r == (FactoryAgentConfigBuilder { name: Some(name), ..self }),
    {
        FactoryAgentConfigBuilder { name: Some(name), ..self }
    }

    pub fn with_factory_agent_id(self, id: String) -> (r: Self)
        ensures
            r == (FactoryAgentConfigBuilder { id: Some(id), ..self }),
    {
        FactoryAgentConfigBuilder { id: Some(id), ..self }
    }

    pub fn with_factory_agent_description(self, description: String) -> (r: Self)
        ensures
            r == (FactoryAgentConfigBuilder { description: Some(description), ..self }),
    {
        FactoryAgentConfigBuilder { description: Some(description), ..self }
    }

    pub fn with_factory_agent_llm_provider_url(self, llm_provider_url: LlmProviderUrl) -> (r: Self)
        ensures
            r == (FactoryAgentConfigBuilder {
                llm_provider_url: Some(llm_provider_url),
                ..self
            }),
    {
        FactoryAgentConfigBuilder { llm_provider_url: Some(llm_provider_url), ..self }
    }

    pub fn with_factory_agent_llm_provider_api_key(self, llm_api_key: String) -> (r: Self)
        ensures
            r == (FactoryAgentConfigBuilder { llm_api_key: Some(llm_api_key), ..self }),
    {
        FactoryAgentConfigBuilder { llm_api_key: Some(llm_api_key), ..self }
    }

    pub fn with_factory_agent_llm_model_id(self, llm_model_id: String) -> (r: Self)
        ensures
            r == (FactoryAgentConfigBuilder { llm_model_id: Some(llm_model_id), ..self }),
    {
        FactoryAgentConfigBuilder { llm_model_id: Some(llm_model_id), ..self }
    }

    pub fn with_factory_agent_executor_url(self, executor_url: String) -> (r: Self)
        ensures
            r == (FactoryAgentConfigBuilder { executor_url: Some(executor_url), ..self }),
    {
        FactoryAgentConfigBuilder { executor_url: Some(executor_url), ..self }
    }

    /// Validates the accumulated fields and produces the configuration.
    /// Fails with the first broken invariant; succeeds exactly when none is
    /// broken, and then carries every field as it was set.
    pub fn build(self) -> (r: Result<FactoryAgentConfig, ConfigError>)
        ensures
            match spec_agent_build_error(self) {
                Some(e) => r == Err::<FactoryAgentConfig, ConfigError>(e),
                None => match r {
                    Ok(c) => {
                        &&& c.url == self.url->0
                        &&& c.agent_type == self.agent_type->0
                        &&& c.domain == self.domain->0
                        &&& c.name == self.name->0
                        &&& c.id == self.id->0
                        &&& c.description == self.description->0
                        &&& c.llm_provider_url == self.llm_provider_url->0
                        &&& c.llm_api_key == self.llm_api_key->0
                        &&& c.llm_model_id == self.llm_model_id->0
                        &&& c.executor_url == self.executor_url
                    },
                    Err(_) => false,
                },
            },
    {
        let FactoryAgentConfigBuilder {
            url,
            agent_type,
            domain,
            name,
            id,
            description,
            llm_provider_url,
            llm_api_key,
            llm_model_id,
            executor_url,
        } = self;
        let url = match url {
            Some(v) => v,
            None => { return Err(ConfigError::MissingUrl) },
        };
        let agent_type = match agent_type {
            Some(v) => v,
            None => { return Err(ConfigError::MissingAgentType) },
        };
        let domain = match domain {
            Some(v) => v,
            None => { return Err(ConfigError::MissingDomain) },
        };
        let name = match name {
            Some(v) => v,
            None => { return Err(ConfigError::MissingName) },
        };
        let id = match id {
            Some(v) => v,
            None => { return Err(ConfigError::MissingId) },
        };
        let description = match description {
            Some(v) => v,
            None => { return Err(ConfigError::MissingDescription) },
        };
        let llm_provider_url = match llm_provider_url {
            Some(v) => v,
            None => { return Err(ConfigError::MissingLlmProviderUrl) },
        };
        let llm_api_key = match llm_api_key {
            Some(v) => v,
            None => { return Err(ConfigError::MissingLlmApiKey) },
        };
        let llm_model_id = match llm_model_id {
            Some(v) => v,
            None => { return Err(ConfigError::MissingLlmModelId) },
        };
        if matches!(agent_type, AgentType::Planner) && executor_url.is_none() {
            return Err(ConfigError::MissingExecutorUrl);
        }
        Ok(
            FactoryAgentConfig {
                url,
                agent_type,
                domain,
                name,
                id,
                description,
                llm_provider_url,
                llm_api_key,
                llm_model_id,
                executor_url,
            },
        )
    }
}

impl FactoryAgentConfig {
    /// A builder with no field set yet.
    pub fn builder() -> (r: FactoryAgentConfigBuilder)
        ensures
            r.url is None,
            r.agent_type is None,
            r.domain is None,
            r.name is None,
            r.id is None,
            r.description is None,
            r.llm_provider_url is None,
            r.llm_api_key is None,
            r.llm_model_id is None,
            r.executor_url is None,
    {
        FactoryAgentConfigBuilder {
            url: None,
            agent_type: None,
            domain: None,
            name: None,
            id: None,
            description: None,
            llm_provider_url: None,
            llm_api_key: None,
            llm_model_id: None,
            executor_url: None,
        }
    }
}

/// The configuration of the tool runtime an agent may attach: the LLM that
/// drives tool selection and the runtime server to call.
#[derive(Debug)]
pub struct FactoryMcpRuntimeConfig {
    pub llm_provider_url: LlmProviderUrl,
    pub llm_api_key: String,
    pub llm_model_id: String,
    pub server_url: String,
    pub server_api_key: String,
}

/// Accumulates the fields of a `FactoryMcpRuntimeConfig`.
#[derive(Debug)]
pub struct FactoryMcpRuntimeConfigBuilder {
    pub llm_provider_url: Option<LlmProviderUrl>,
    pub llm_api_key: Option<String>,
    pub llm_model_id: Option<String>,
    pub server_url: Option<String>,
    pub server_api_key: Option<String>,
}

/// The first required field of a tool-runtime configuration that is missing,
/// if any.
pub open spec fn spec_mcp_build_error(b: FactoryMcpRuntimeConfigBuilder) -> Option<ConfigError> {
    if b.llm_provider_url is None {
        Some(ConfigError::MissingMcpLlmProviderUrl)
    } else if b.llm_api_key is None {
        Some(ConfigError::MissingMcpLlmApiKey)
    } else if b.llm_model_id is None {
        Some(ConfigError::MissingMcpLlmModelId)
    } else if b.server_url is None {
        Some(ConfigError::MissingMcpServerUrl)
    } else if b.server_api_key is None {
        Some(ConfigError::MissingMcpServerApiKey)
    } else {
        None
    }
}

impl FactoryMcpRuntimeConfigBuilder {
    pub fn with_factory_mcp_llm_provider_url(self, llm_provider_url: LlmProviderUrl) -> (r: Self)
        ensures
            r == (FactoryMcpRuntimeConfigBuilder {
                llm_provider_url: Some(llm_provider_url),
                ..self
            }),
    {
        FactoryMcpRuntimeConfigBuilder { llm_provider_url: Some(llm_provider_url), ..self }
    }

    pub fn with_factory_mcp_llm_provider_api_key(self, llm_api_key: String) -> (r: Self)
        ensures
            r == (FactoryMcpRuntimeConfigBuilder { llm_api_key: Some(llm_api_key), ..self }),
    {
        FactoryMcpRuntimeConfigBuilder { llm_api_key: Some(llm_api_key), ..self }
    }

    pub fn with_factory_mcp_llm_model_id(self, llm_model_id: String) -> (r: Self)
        ensures
            r == (FactoryMcpRuntimeConfigBuilder { llm_model_id: Some(llm_model_id), ..self }),
    {
        FactoryMcpRuntimeConfigBuilder { llm_model_id: Some(llm_model_id), ..self }
    }

    pub fn with_factory_mcp_server_url(self, server_url: String) -> (r: Self)
        ensures
            r == (FactoryMcpRuntimeConfigBuilder { server_url: Some(server_url), ..self }),
    {
        FactoryMcpRuntimeConfigBuilder { server_url: Some(server_url), ..self }
    }

    pub fn with_factory_mcp_server_api_key(self, server_api_key: String) -> (r: Self)
        ensures
            r == (FactoryMcpRuntimeConfigBuilder { server_api_key: Some(server_api_key), ..self }),
    {
        FactoryMcpRuntimeConfigBuilder { server_api_key: Some(server_api_key), ..self }
    }

    /// Validates the accumulated fields and produces the configuration;
    /// fails with the first missing field.
    pub fn build(self) -> (r: Result<FactoryMcpRuntimeConfig, ConfigError>)
        ensures
            match spec_mcp_build_error(self) {
                Some(e) => r == Err::<FactoryMcpRuntimeConfig, ConfigError>(e),
                None => match r {
                    Ok(c) => {
                        &&& c.llm_provider_url == self.llm_provider_url->0
                        &&& c.llm_api_key == self.llm_api_key->0
                        &&& c.llm_model_id == self.llm_model_id->0
                        &&& c.server_url == self.server_url->0
                        &&& c.server_api_key == self.server_api_key->0
                    },
                    Err(_) => false,
                },
            },
    {
        let FactoryMcpRuntimeConfigBuilder {
            llm_provider_url,
            llm_api_key,
            llm_model_id,
            server_url,
            server_api_key,
        } = self;
        let llm_provider_url = match llm_provider_url {
            Some(v) => v,
            None => { return Err(ConfigError::MissingMcpLlmProviderUrl) },
        };
        let llm_api_key = match llm_api_key {
            Some(v) => v,
            None => { return Err(ConfigError::MissingMcpLlmApiKey) },
        };
        let llm_model_id = match llm_model_id {
            Some(v) => v,
            None => { return Err(ConfigError::MissingMcpLlmModelId) },
        };
        let server_url = match server_url {
            Some(v) => v,
            None => { return Err(ConfigError::MissingMcpServerUrl) },
        };
        let server_api_key = match server_api_key {
            Some(v) => v,
            None => { return Err(ConfigError::MissingMcpServerApiKey) },
        };
        Ok(
            FactoryMcpRuntimeConfig {
                llm_provider_url,
                llm_api_key,
                llm_model_id,
                server_url,
                server_api_key,
            },
        )
    }
}

impl FactoryMcpRuntimeConfig {
    /// A builder with no field set yet.
    pub fn builder() -> (r: FactoryMcpRuntimeConfigBuilder)
        ensures
            r.llm_provider_url is None,
            r.llm_api_key is None,
            r.llm_model_id is None,
            r.server_url is None,
            r.server_api_key is None,
    {
        FactoryMcpRuntimeConfigBuilder {
            llm_provider_url: None,
            llm_api_key: None,
            llm_model_id: None,
            server_url: None,
            server_api_key: None,
        }
    }
}

} // verus!
