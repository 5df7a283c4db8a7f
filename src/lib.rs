//! Layered application configuration: transactional configuration cells,
//! the registry of the four configuration domains, the derived runtime
//! configuration, and the startup validation state machine.

pub mod config;
pub mod draft;
pub mod profiles;
pub mod runtime;
pub mod settings;
pub mod startup;

pub use config::{Config, ConfigError, ConfigType, RuntimeFile};
pub use draft::{ConfigValue, Draft, DraftState};
pub use profiles::{IProfiles, ItemType, PrfItem};
pub use runtime::{IRuntime, RuntimeView};
pub use settings::{IClashTemp, IVerge, Setting};
pub use startup::{validation_outcome, Action, Event, Outcome, OutcomeKind, Startup, ValidatorResult};
