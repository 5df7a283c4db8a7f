use vstd::prelude::*;
use vstd::string::StringExecFns;
use crate::draft::Draft;
use crate::profiles::{ensured_items, IProfiles};
use crate::runtime::IRuntime;
use crate::settings::{IClashTemp, IVerge};

verus! {

/// Where a runtime configuration file goes: the live file that the engine
/// loads, or a side copy used only to probe a configuration.
#[derive(Clone, Copy, PartialEq, Eq, Structural, Debug)]
pub enum ConfigType {
    Run,
    Check,
}

/// The name of the file written for `typ`, under the application's home
/// directory.
pub open spec fn config_file_name(typ: ConfigType) -> Seq<char> {
    match typ {
        ConfigType::Run => "clash-verge.yaml"@,
        ConfigType::Check => "clash-verge-check.yaml"@,
    }
}

/// The comment that heads every generated configuration file.
pub open spec fn generated_header() -> Seq<char> {
    "# Generated by Clash Verge"@
}

/// The text of a generated file holding the YAML document `doc`.
pub open spec fn generated_contents(doc: Seq<char>) -> Seq<char> {
    generated_header() + "\n\n"@ + doc
}

/// The file that a runtime configuration gives for `typ`: its name and its
/// text, or the error when nothing was generated yet.
pub open spec fn file_for(runtime: IRuntime, typ: ConfigType) -> Result<
    (Seq<char>, Seq<char>),
    ConfigError,
> {
    match runtime.config {
        None => Err(ConfigError::NoRuntimeConfig),
        Some(doc) => Ok((config_file_name(typ), generated_contents(doc@))),
    }
}

impl ConfigType {
    /// The file name for this kind of runtime file.
    pub fn file_name(&self) -> (r: &'static str)
        ensures
            r@ == config_file_name(*self),
    {
        match self {
            ConfigType::Run => "clash-verge.yaml",
            ConfigType::Check => "clash-verge-check.yaml",
        }
    }
}

/// Why a runtime configuration file could not be produced.
#[derive(Clone, Copy, PartialEq, Eq, Structural, Debug)]
pub enum ConfigError {
    /// The runtime configuration has not been generated yet.
    NoRuntimeConfig,
}

impl ConfigError {
    /// A message for the user.
    pub fn message(&self) -> (r: &'static str)
        ensures
            r@ == "failed to get runtime config"@,
    {
        "failed to get runtime config"
    }
}

/// A runtime configuration file ready to be written: its name under the
/// application's home directory and its full text.
pub struct RuntimeFile {
    pub file_name: String,
    pub contents: String,
}

/// The registry of the four configuration domains, each a transactional
/// cell.
pub struct Config {
    clash_config: Draft<IClashTemp>,
    verge_config: Draft<IVerge>,
    profiles_config: Draft<IProfiles>,
    runtime_config: Draft<IRuntime>,
}

impl Config {
    /// The engine template cell.
    pub closed spec fn clash_cell(&self) -> Draft<IClashTemp> {
        self.clash_config
    }

    /// The application settings cell.
    pub closed spec fn verge_cell(&self) -> Draft<IVerge> {
        self.verge_config
    }

    /// The profile list cell.
    pub closed spec fn profiles_cell(&self) -> Draft<IProfiles> {
        self.profiles_config
    }

    /// The runtime configuration cell.
    pub closed spec fn runtime_cell(&self) -> Draft<IRuntime> {
        self.runtime_config
    }

    /// The runtime configuration that readers see.
    pub open spec fn runtime_latest(&self) -> IRuntime {
        self.runtime_cell()@.latest()
    }

    /// A registry whose four cells hold their initial values and no drafts.
    pub fn new() -> (r: Config)
        ensures
            r.clash_cell()@.committed@ == Seq::<crate::settings::Setting>::empty(),
            r.clash_cell()@.pending.is_none(),
            r.verge_cell()@.committed@ == Seq::<crate::settings::Setting>::empty(),
            r.verge_cell()@.pending.is_none(),
            r.profiles_cell()@.committed@ == Seq::<crate::profiles::PrfItem>::empty(),
            r.profiles_cell()@.pending.is_none(),
            r.runtime_cell()@.committed.config.is_none(),
            r.runtime_cell()@.pending.is_none(),
    {
        Config {
            clash_config: Draft::new(IClashTemp::new()),
            verge_config: Draft::new(IVerge::new()),
            profiles_config: Draft::new(IProfiles::new()),
            runtime_config: Draft::new(IRuntime::new()),
        }
    }

    /// The engine template cell.
    pub fn clash(&self) -> (r: &Draft<IClashTemp>)
        ensures
            *r == self.clash_cell(),
    {
        &self.clash_config
    }

    /// The application settings cell.
    pub fn verge(&self) -> (r: &Draft<IVerge>)
        ensures
            *r == self.verge_cell(),
    {
        &self.verge_config
    }

    /// The profile list cell.
    pub fn profiles(&self) -> (r: &Draft<IProfiles>)
        ensures
            *r == self.profiles_cell(),
    {
        &self.profiles_config
    }

    /// The runtime configuration cell.
    pub fn runtime(&self) -> (r: &Draft<IRuntime>)
        ensures
            *r == self.runtime_cell(),
    {
        &self.runtime_config
    }

    /// The engine template cell, for editing.
    pub fn clash_mut(&mut self) -> (r: &mut Draft<IClashTemp>)
        ensures
            *r == old(self).clash_cell(),
            final(self).clash_cell() == *final(r),
            final(self).verge_cell() == old(self).verge_cell(),
            final(self).profiles_cell() == old(self).profiles_cell(),
            final(self).runtime_cell() == old(self).runtime_cell(),
    {
        &mut self.clash_config
    }

    /// The application settings cell, for editing.
    pub fn verge_mut(&mut self) -> (r: &mut Draft<IVerge>)
        ensures
            *r == old(self).verge_cell(),
            final(self).verge_cell() == *final(r),
            final(self).clash_cell() == old(self).clash_cell(),
            final(self).profiles_cell() == old(self).profiles_cell(),
            final(self).runtime_cell() == old(self).runtime_cell(),
    {
        &mut self.verge_config
    }

    /// The profile list cell, for editing.
    pub fn profiles_mut(&mut self) -> (r: &mut Draft<IProfiles>)
        ensures
            *r == old(self).profiles_cell(),
            final(self).profiles_cell() == *final(r),
            final(self).clash_cell() == old(self).clash_cell(),
            final(self).verge_cell() == old(self).verge_cell(),
            final(self).runtime_cell() == old(self).runtime_cell(),
    {
        &mut self.profiles_config
    }

    /// The runtime configuration cell, for editing.
    pub fn runtime_mut(&mut self) -> (r: &mut Draft<IRuntime>)
        ensures
            *r == old(self).runtime_cell(),
            final(self).runtime_cell() == *final(r),
            final(self).clash_cell() == old(self).clash_cell(),
            final(self).verge_cell() == old(self).verge_cell(),
            final(self).profiles_cell() == old(self).profiles_cell(),
    {
        &mut self.runtime_config
    }

    /// Adds the synthetic "Merge" and "Script" items that the committed
    /// profile list lacks.
    pub fn ensure_synthetic_profiles(&mut self)
        ensures
            ensured_items(old(self).profiles_cell()@.committed@, final(self).profiles_cell()@.committed@),
            final(self).profiles_cell()@.pending == old(self).profiles_cell()@.pending,
            final(self).clash_cell() == old(self).clash_cell(),
            final(self).verge_cell() == old(self).verge_cell(),
            final(self).runtime_cell() == old(self).runtime_cell(),
    {
        self.profiles_config.data_mut().ensure_synthetic();
    }

    /// Installs the outcome of the merge pipeline as the runtime
    /// configuration, committed at once with no draft left pending.
    pub fn generate(&mut self, config: String, exists_keys: Vec<String>, chain_logs: Vec<String>)
        ensures
            final(self).runtime_cell()@.committed == (IRuntime {
                config: Some(config),
                exists_keys,
                chain_logs,
            }),
            final(self).runtime_cell()@.pending.is_none(),
            final(self).clash_cell() == old(self).clash_cell(),
            final(self).verge_cell() == old(self).verge_cell(),
            final(self).profiles_cell() == old(self).profiles_cell(),
    {
        let runtime = IRuntime { config: Some(config), exists_keys, chain_logs };
        self.runtime_config.commit_value(runtime);
    }

    /// The file for `typ` holding the latest runtime configuration under a
    /// header comment; fails when no runtime configuration was generated.
    pub fn generate_file(&self, typ: ConfigType) -> (r: Result<RuntimeFile, ConfigError>)
        ensures
            match r {
                Ok(f) => file_for(self.runtime_latest(), typ) == Ok::<
                    (Seq<char>, Seq<char>),
                    ConfigError,
                >((f.file_name@, f.contents@)),
                Err(e) => file_for(self.runtime_latest(), typ) == Err::<
                    (Seq<char>, Seq<char>),
                    ConfigError,
                >(e),
            },
    {
        let runtime = self.runtime_config.latest();
        match &runtime.config {
            None => Err(ConfigError::NoRuntimeConfig),
            Some(doc) => {
                let mut contents = String::from_str("# Generated by Clash Verge");
                contents.append("\n\n");
                contents.append(doc.as_str());
                Ok(RuntimeFile { file_name: String::from_str(typ.file_name()), contents })
            },
        }
    }
}

/// A registry whose runtime cell was never generated, as `Config::new`
/// leaves it, gives no runtime file of either kind.
pub proof fn law_no_file_before_generation(c: Config, typ: ConfigType)
    requires
        c.runtime_cell()@.committed.config.is_none(),
        c.runtime_cell()@.pending.is_none(),
    ensures
        file_for(c.runtime_latest(), typ) == Err::<(Seq<char>, Seq<char>), ConfigError>(
            ConfigError::NoRuntimeConfig,
        ),
{
}

/// After `generate` with the document `doc`, the runtime file of either kind
/// holds that document under the header comment.
pub proof fn law_file_after_generation(c: Config, doc: String, typ: ConfigType)
    requires
        c.runtime_cell()@.committed.config == Some(doc),
        c.runtime_cell()@.pending.is_none(),
    ensures
        file_for(c.runtime_latest(), typ) == Ok::<(Seq<char>, Seq<char>), ConfigError>(
            (config_file_name(typ), generated_header() + "\n\n"@ + doc@),
        ),
{
}

} // verus!
