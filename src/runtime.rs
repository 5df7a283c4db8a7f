use vstd::prelude::*;
use crate::draft::ConfigValue;
use crate::settings::duplicate_strings;

verus! {

/// The merged configuration derived from the profile chain.
pub struct IRuntime {
    /// The merged document as YAML text; absent before the first generation.
    pub config: Option<String>,
    /// The keys that were present in the source before merging.
    pub exists_keys: Vec<String>,
    /// One diagnostic entry per step of the merge chain.
    pub chain_logs: Vec<String>,
}

/// The observable content of a runtime configuration.
pub struct RuntimeView {
    pub config: Option<Seq<char>>,
    pub exists_keys: Seq<String>,
    pub chain_logs: Seq<String>,
}

impl View for IRuntime {
    type V = RuntimeView;

    open spec fn view(&self) -> RuntimeView {
        RuntimeView {
            config: match self.config {
                Some(c) => Some(c@),
                None => None,
            },
            exists_keys: self.exists_keys@,
            chain_logs: self.chain_logs@,
        }
    }
}

impl IRuntime {
    /// A runtime configuration that has not been generated yet.
    pub fn new() -> (r: IRuntime)
        ensures
            r.config.is_none(),
            r.exists_keys@.len() == 0,
            r.chain_logs@.len() == 0,
    {
        IRuntime { config: None, exists_keys: Vec::new(), chain_logs: Vec::new() }
    }
}

impl ConfigValue for IRuntime {
    fn duplicate(&self) -> (r: IRuntime) {
        let config = match &self.config {
            Some(c) => Some(c.clone()),
            None => None,
        };
        IRuntime {
            config,
            exists_keys: duplicate_strings(&self.exists_keys),
            chain_logs: duplicate_strings(&self.chain_logs),
        }
    }
}

} // verus!
