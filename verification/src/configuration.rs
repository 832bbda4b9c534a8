//! Where the configuration is read from: the base file, the file of the
//! environment, and the environment variables that override both.

use vstd::prelude::*;
use crate::environment::{environment_from_name, environment_name, Environment};
use crate::settings::DatabaseSettings;

verus! {

/// The sources of the configuration, in the order in which they are layered:
/// later sources override earlier ones.
pub struct ConfigurationSources {
    /// The environment that was selected.
    pub environment: Environment,
    /// The file read first, relative to the configuration directory.
    pub base_file: String,
    /// The file of the selected environment, read second.
    pub environment_file: String,
    /// The prefix of the environment variables read last.
    pub env_prefix: &'static str,
    /// What separates the prefix from the rest of a variable's name.
    pub prefix_separator: &'static str,
    /// What separates nested keys in a variable's name.
    pub separator: &'static str,
}

/// The environment variable that names the environment.
pub fn environment_variable() -> (name: &'static str)
    ensures
        name@ == "ZERO2PROD_ENV"@,
{
    "ZERO2PROD_ENV"
}

/// The directory, under the working directory, that holds the configuration
/// files of the server.
pub fn configuration_directory() -> (name: &'static str)
    ensures
        name@ == "configuration"@,
{
    "configuration"
}

impl ConfigurationSources {
    /// The sources for an environment: `base.yaml`, then `{environment}.yaml`,
    /// then the variables `ZERO2PROD_...`, with `__` between nested keys.
    pub fn for_environment(environment: Environment) -> (sources: ConfigurationSources)
        ensures
            sources.environment == environment,
            sources.base_file@ == "base.yaml"@,
            sources.environment_file@ == environment_name(environment) + ".yaml"@,
            sources.env_prefix@ == "ZERO2PROD"@,
            sources.prefix_separator@ == "_"@,
            sources.separator@ == "__"@,
    {
        proof {
            reveal_strlit(".yaml");
        }
        let environment_file = environment.file_name();
        assert(environment_file@ =~= environment_name(environment) + ".yaml"@);
        ConfigurationSources {
            environment,
            base_file: "base.yaml".to_owned(),
            environment_file,
            env_prefix: "ZERO2PROD",
            prefix_separator: "_",
            separator: "__",
        }
    }

    /// The sources selected by the value of `ZERO2PROD_ENV`, or by its
    /// absence, which selects the local environment.
    pub fn for_variable(value: Option<String>) -> (sources: ConfigurationSources)
        ensures
            sources.environment == (match value {
                Some(s) => environment_from_name(s@),
                None => Environment::Local,
            }),
            sources.base_file@ == "base.yaml"@,
            sources.environment_file@ == environment_name(sources.environment) + ".yaml"@,
            sources.env_prefix@ == "ZERO2PROD"@,
            sources.prefix_separator@ == "_"@,
            sources.separator@ == "__"@,
    {
        ConfigurationSources::for_environment(Environment::from_variable(value))
    }
}

/// The settings that the server reads.
#[derive(Clone)]
pub struct ServerSettings {
    pub host: String,
    pub port: u16,
    pub database: DatabaseSettings,
}

} // verus!
