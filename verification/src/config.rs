//! The Observatory's runtime configuration and its validation.
use vstd::prelude::*;

use crate::text::{copy_str, push_str, str_eq, trim, trimmed};

verus! {

/// The Observatory's configuration file.
#[derive(Debug, Clone)]
pub struct ObservatoryConfig {
    /// Defaults to `development`.
    pub environment: String,
    pub hub: HubConfig,
    pub local: LocalTelemetryConfig,
}

/// Where the Fleet Hub listens.
#[derive(Debug, Clone)]
pub struct HubConfig {
    pub endpoint: String,
}

/// The local telemetry collector.
#[derive(Debug, Clone)]
pub struct LocalTelemetryConfig {
    pub enabled: bool,
    /// Defaults to `127.0.0.1:4767`.
    pub endpoint: String,
}

/// The environment of a configuration that names none.
pub fn default_environment() -> (r: String)
    ensures
        r@ == "development"@,
{
    copy_str("development")
}

/// The local collector's endpoint where the configuration names none.
pub fn default_local_endpoint() -> (r: String)
    ensures
        r@ == "127.0.0.1:4767"@,
{
    copy_str("127.0.0.1:4767")
}

impl Default for LocalTelemetryConfig {
    fn default() -> (r: LocalTelemetryConfig)
        ensures
            !r.enabled,
            r.endpoint@ == "127.0.0.1:4767"@,
    {
        LocalTelemetryConfig { enabled: false, endpoint: default_local_endpoint() }
    }
}

/// A configuration value that is blank.
#[derive(Debug, Clone, PartialEq, Eq)]
pub struct EmptyField {
    pub field: String,
}

impl EmptyField {
    /// The message that the Observatory reports.
    pub fn message(&self) -> (r: String)
        ensures
            r@ == "Observatory config field `"@ + self.field@ + "` cannot be empty"@,
    {
        let mut r = copy_str("Observatory config field `");
        push_str(&mut r, self.field.as_str());
        push_str(&mut r, "` cannot be empty");
        r
    }
}

/// Refuses a value that is empty or only white space.
pub fn require_value(field: &str, value: &str) -> (r: Result<(), EmptyField>)
    ensures
        trim(value@).len() == 0 ==> (r matches Err(e) && e.field@ == field@),
        trim(value@).len() > 0 ==> r is Ok,
{
    let t = trimmed(value);
    if t.as_str().is_empty() {
        return Err(EmptyField { field: copy_str(field) });
    }
    Ok(())
}

impl ObservatoryConfig {
    /// The Hub endpoint must not be blank, nor the local endpoint where the
    /// local collector is enabled.
    pub fn validate(&self) -> (r: Result<(), EmptyField>)
        ensures
            trim(self.hub.endpoint@).len() == 0 ==> (r matches Err(e) && e.field@
                == "hub.endpoint"@),
            trim(self.hub.endpoint@).len() > 0 && self.local.enabled && trim(
                self.local.endpoint@,
            ).len() == 0 ==> (r matches Err(e) && e.field@ == "local.endpoint"@),
            trim(self.hub.endpoint@).len() > 0 && !(self.local.enabled && trim(
                self.local.endpoint@,
            ).len() == 0) ==> r is Ok,
    {
        match require_value("hub.endpoint", self.hub.endpoint.as_str()) {
            Err(e) => {
                return Err(e);
            },
            Ok(()) => {},
        }
        if self.local.enabled {
            match require_value("local.endpoint", self.local.endpoint.as_str()) {
                Err(e) => {
                    return Err(e);
                },
                Ok(()) => {},
            }
        }
        Ok(())
    }
}

/// Where the configuration file is read from.
#[derive(Debug, Clone, Copy, PartialEq, Eq, Structural)]
pub enum ConfigPath {
    /// The command-line argument at this position, which follows `--config`.
    Argument(usize),
    /// The path in `WYNCOMMAND_OBSERVATORY_CONFIG`.
    Environment,
    /// `wyncommand-observatory.toml`, in the working directory.
    DefaultFile,
}

/// The file read where neither the command line nor the environment names
/// one.
pub fn default_config_file() -> (r: String)
    ensures
        r@ == "wyncommand-observatory.toml"@,
{
    copy_str("wyncommand-observatory.toml")
}

/// Chooses the configuration file from the arguments that follow the
/// program's name and whether `WYNCOMMAND_OBSERVATORY_CONFIG` is set: the
/// argument after the first `--config` where there is one, else the
/// environment's path, else the default file.
pub fn config_path_from_args(args: &Vec<String>, environment_set: bool) -> (r: ConfigPath)
    ensures
        match r {
            ConfigPath::Argument(k) => {
                &&& 1 <= k < args.len()
                &&& args@[k - 1]@ == "--config"@
                &&& forall|j: int| 0 <= j < k - 1 ==> args@[j]@ != "--config"@
            },
            _ => forall|j: int| 0 <= j < args.len() - 1 ==> args@[j]@ != "--config"@,
        },
        (r == ConfigPath::Environment) == (!(r is Argument) && environment_set),
{
    let mut i: usize = 0;
    while i < args.len()
        invariant
            i <= args.len(),
            forall|j: int| 0 <= j < i ==> args@[j]@ != "--config"@,
        ensures
            forall|j: int| 0 <= j < args.len() - 1 ==> args@[j]@ != "--config"@,
        decreases args.len() - i,
    {
        if str_eq(args[i].as_str(), "--config") {
            if i + 1 < args.len() {
                return ConfigPath::Argument(i + 1);
            }
            break;
        }
        i += 1;
    }
    if environment_set {
        ConfigPath::Environment
    } else {
        ConfigPath::DefaultFile
    }
}

} // verus!
