use zero2prod::configuration::{configuration_directory, environment_variable, ConfigurationSources};
use zero2prod::environment::Environment;

#[test]
fn as_str_names_each_environment() {
    assert_eq!(Environment::Local.as_str(), "local");
    assert_eq!(Environment::Production.as_str(), "production");
}

#[test]
fn from_reads_production_in_any_case() {
    assert_eq!(Environment::from("production".to_string()), Environment::Production);
    assert_eq!(Environment::from("PRODUCTION".to_string()), Environment::Production);
    assert_eq!(Environment::from("Production".to_string()), Environment::Production);
}

#[test]
fn from_reads_every_other_name_as_local() {
    assert_eq!(Environment::from("local".to_string()), Environment::Local);
    assert_eq!(Environment::from("LOCAL".to_string()), Environment::Local);
    assert_eq!(Environment::from("staging".to_string()), Environment::Local);
    assert_eq!(Environment::from(String::new()), Environment::Local);
    assert_eq!(Environment::from(" production".to_string()), Environment::Local);
}

#[test]
fn name_round_trips_through_from() {
    for env in [Environment::Local, Environment::Production] {
        assert_eq!(Environment::from(env.as_str().to_string()), env);
    }
}

#[test]
fn from_lowercase_name_compares_exactly() {
    assert_eq!(Environment::from_lowercase_name("production"), Environment::Production);
    assert_eq!(Environment::from_lowercase_name("PRODUCTION"), Environment::Local);
}

#[test]
fn missing_variable_selects_local() {
    assert_eq!(Environment::from_variable(None), Environment::Local);
    assert_eq!(Environment::from_variable(Some("Production".to_string())), Environment::Production);
}

#[test]
fn file_name_appends_yaml() {
    assert_eq!(Environment::Local.file_name(), "local.yaml");
    assert_eq!(Environment::Production.file_name(), "production.yaml");
}

#[test]
fn sources_layer_base_environment_and_variables() {
    let sources = ConfigurationSources::for_variable(Some("PRODUCTION".to_string()));
    assert_eq!(sources.environment, Environment::Production);
    assert_eq!(sources.base_file, "base.yaml");
    assert_eq!(sources.environment_file, "production.yaml");
    assert_eq!(sources.env_prefix, "ZERO2PROD");
    assert_eq!(sources.prefix_separator, "_");
    assert_eq!(sources.separator, "__");

    let sources = ConfigurationSources::for_variable(None);
    assert_eq!(sources.environment, Environment::Local);
    assert_eq!(sources.environment_file, "local.yaml");
}

#[test]
fn configuration_names() {
    assert_eq!(environment_variable(), "ZERO2PROD_ENV");
    assert_eq!(configuration_directory(), "configuration");
}
