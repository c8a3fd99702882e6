//! The module's configuration, as a host hands it over.
//!
//! The module carries no credentials: embeddings go over the bus to the host,
//! which holds the inference key. The nested memory config is carried
//! verbatim, though, and it has a field for a remote backend's bearer token —
//! so the module strips it at setup rather than trusting a field list.

use vstd::prelude::*;

verus! {

/// The engine's memory settings, as far as this module reads them.
#[derive(Debug)]
pub struct MemoryConfig {
    /// Bearer token for a remote memory backend. The module serves the local
    /// engine only and never keeps it.
    pub agentmemory_secret: Option<String>,
}

/// The driver id of the engine this module carries.
pub const TINYCORTEX_DRIVER_ID: &'static str = "tinycortex";

/// The module's configuration.
#[derive(Debug)]
pub struct ModuleConfig {
    /// Where the memory store lives. The one field with no defensible
    /// default.
    pub workspace_dir: String,
    /// The driver id reported in status output and audit events.
    pub driver_id: String,
    pub ollama_base_url: String,
    pub cloud_embedding_model: String,
    pub cloud_embedding_dimensions: usize,
    pub models_supporting_dimensions: Vec<String>,
    pub memory: MemoryConfig,
    /// The source registry, as JSON text, handed back to the engine verbatim.
    pub memory_sources: String,
}

impl Default for ModuleConfig {
    fn default() -> (r: Self)
        ensures
            r.workspace_dir@.len() == 0,
            r.driver_id@ == TINYCORTEX_DRIVER_ID@,
            r.ollama_base_url@.len() == 0,
            r.cloud_embedding_model@.len() == 0,
            r.cloud_embedding_dimensions == 0,
            r.models_supporting_dimensions@.len() == 0,
            r.memory.agentmemory_secret is None,
            r.memory_sources@.len() == 0,
    {
        ModuleConfig {
            workspace_dir: String::new(),
            driver_id: TINYCORTEX_DRIVER_ID.to_owned(),
            ollama_base_url: String::new(),
            cloud_embedding_model: String::new(),
            cloud_embedding_dimensions: 0,
            models_supporting_dimensions: Vec::new(),
            memory: MemoryConfig { agentmemory_secret: None },
            memory_sources: String::new(),
        }
    }
}

impl ModuleConfig {
    /// Refuse a config without a workspace. Silently resolving an empty path
    /// against the working directory would put a user's memory store where
    /// nobody would look for it. The refusal names the field, never a path.
    pub fn validate(&self) -> (r: Result<(), String>)
        ensures
            r is Ok <==> self.workspace_dir@.len() > 0,
            r matches Err(e) ==> e@ == "workspace_dir must be set"@,
    {
        if self.workspace_dir.as_str().is_empty() {
            return Err("workspace_dir must be set".to_owned());
        }
        Ok(())
    }

    /// Discard any credential carried in the nested memory config. Returns
    /// whether one was removed, so the caller warns only when it was.
    pub fn strip_host_credentials(&mut self) -> (removed: bool)
        ensures
            removed == (old(self).memory.agentmemory_secret is Some),
            final(self).memory.agentmemory_secret is None,
            final(self).workspace_dir == old(self).workspace_dir,
            final(self).driver_id == old(self).driver_id,
            final(self).ollama_base_url == old(self).ollama_base_url,
            final(self).cloud_embedding_model == old(self).cloud_embedding_model,
            final(self).cloud_embedding_dimensions == old(self).cloud_embedding_dimensions,
            final(self).models_supporting_dimensions == old(self).models_supporting_dimensions,
            final(self).memory_sources == old(self).memory_sources,
    {
        let removed = self.memory.agentmemory_secret.is_some();
        self.memory.agentmemory_secret = None;
        removed
    }
}

/// The refusal of a second setup in one process.
pub const ALREADY_SET_UP: &'static str = "this module is already set up in this process; it installs a process-global host callbacks and cannot be served twice";

/// This process's single setup slot. Setup installs process-global host
/// callbacks, so a second setup would split embeds across two connections
/// with no error anywhere; the honest outcome is to refuse it.
pub struct ProcessSetupSlot {
    pub claimed: bool,
}

impl ProcessSetupSlot {
    pub fn new() -> (r: Self)
        ensures
            !r.claimed,
    {
        ProcessSetupSlot { claimed: false }
    }

    /// Claim the slot: the first claim succeeds, every later one is refused.
    pub fn claim_process_setup(&mut self) -> (r: Result<(), String>)
        ensures
            r is Ok <==> !old(self).claimed,
            r matches Err(e) ==> e@ == ALREADY_SET_UP@,
            final(self).claimed,
    {
        if self.claimed {
            return Err(ALREADY_SET_UP.to_owned());
        }
        self.claimed = true;
        Ok(())
    }
}

/// The checks a setup makes before it installs anything: the config must
/// name a workspace (a refused config claims nothing), the process must not
/// be set up already, and any carried credential is discarded. `Ok` says
/// whether a credential was discarded, so the caller warns only then.
pub fn prepare_setup(config: &mut ModuleConfig, slot: &mut ProcessSetupSlot) -> (r: Result<
    bool,
    String,
>)
    ensures
        old(config).workspace_dir@.len() == 0 ==> {
            &&& r matches Err(e) && e@ == "workspace_dir must be set"@
            &&& final(slot).claimed == old(slot).claimed
            &&& final(config).memory.agentmemory_secret == old(config).memory.agentmemory_secret
        },
        old(config).workspace_dir@.len() > 0 && old(slot).claimed ==> {
            &&& r matches Err(e) && e@ == ALREADY_SET_UP@
            &&& final(slot).claimed
            &&& final(config).memory.agentmemory_secret == old(config).memory.agentmemory_secret
        },
        old(config).workspace_dir@.len() > 0 && !old(slot).claimed ==> {
            &&& r == Ok::<bool, String>(old(config).memory.agentmemory_secret is Some)
            &&& final(slot).claimed
            &&& final(config).memory.agentmemory_secret is None
        },
        final(config).workspace_dir == old(config).workspace_dir,
        final(config).driver_id == old(config).driver_id,
        final(config).ollama_base_url == old(config).ollama_base_url,
        final(config).cloud_embedding_model == old(config).cloud_embedding_model,
        final(config).cloud_embedding_dimensions == old(config).cloud_embedding_dimensions,
        final(config).models_supporting_dimensions == old(config).models_supporting_dimensions,
        final(config).memory_sources == old(config).memory_sources,
{
    match config.validate() {
        Err(e) => return Err(e),
        Ok(()) => {},
    }
    match slot.claim_process_setup() {
        Err(e) => return Err(e),
        Ok(()) => {},
    }
    Ok(config.strip_host_credentials())
}


} // verus!
