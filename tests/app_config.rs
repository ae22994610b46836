use bt_core_config::app_config::{resolve_environment, AppConfig};
use bt_core_config::app_info::{AppInfo, CargoPkg};
use bt_core_config::document::{boolean_or, first_document, port_or, string_or, LoadError};
use yaml_rust2::Yaml;

const APP_YAML: &str = "\
environment: devNone
app_name: BACHUETECH AI
devNone:
  api_path: /none/api/
dev:
  end_points:
    - id: chat
    - id: models
      path: /api/models
jeremy_dev:
  app_path: /jeremy
  api_path: /ai/api/
  agent:
    host: localhost
    port: 23332
    secure: false
    end_point: /ai/api/chat
embed_dev:
  app_path: /embeded
  api_path: /ai/api/
empty:
";

fn test_app_info() -> AppInfo {
    let pkg = CargoPkg {
        pkg_name: Some("bt_core_config"),
        pkg_version: Some("0.2.4"),
        pkg_authors: None,
        pkg_desc: None,
    };
    AppInfo::new(pkg, "AppName", "default_version", "Bachuetech", "Core Test", None)
}

fn load(env: Option<&str>, text: &str) -> AppConfig {
    AppConfig::new(env.map(|e| e.to_owned()), &test_app_info(), text).unwrap()
}

#[test]
pub fn test_agent_config_default_env() {
    let ac = load(None, APP_YAML);
    assert_eq!(ac.get_agent_url(), "https://localhost:23332/");
}

#[test]
pub fn test_agent_config_unknown_env() {
    let ac = load(Some("UNKNOWN"), APP_YAML);
    assert_eq!(ac.get_agent_url(), "https://localhost:23332/");
}

#[test]
pub fn test_agent_config_success_env() {
    let ac = load(Some("jeremy_dev"), APP_YAML);
    assert_eq!(ac.get_agent_url(), "http://localhost:23332/ai/api/chat");
}

#[test]
pub fn test_app_config_default_env() {
    let acr = AppConfig::new(None, &test_app_info(), APP_YAML);
    println!("{:?}", &acr);
    let ac = acr.unwrap();
    assert_eq!(ac.get_file_app_dir(), "site");
    assert_eq!(ac.get_app_path(), "/app");
    assert_eq!(ac.get_api_path(), "/none/api/");
    assert_eq!(ac.get_environment(), "devNone");
    assert_eq!(ac.get_version(), "0.2.4");
}

#[test]
pub fn test_app_config_unkown_env() {
    let ac = load(Some("UNKNOWN"), APP_YAML);
    assert_eq!(ac.get_file_app_dir(), "site");
    assert_eq!(ac.get_app_path(), "/app");
    assert_eq!(ac.get_api_path(), "/none/api/");
    assert_eq!(ac.get_environment(), "devNone");
    assert_eq!(ac.get_version(), "0.2.4");
}

#[test]
pub fn test_app_config_empty_env() {
    let er = "empty";
    let ac = load(Some(er), APP_YAML);
    assert_eq!(ac.get_file_app_dir(), "site");
    assert_eq!(ac.get_app_path(), "/app");
    assert_eq!(ac.get_api_path(), "/api");
    assert_eq!(ac.get_environment(), er);
    assert_eq!(ac.get_version(), "0.2.4");
}

#[test]
pub fn test_app_config_success() {
    let er = "jeremy_dev";
    let ac = load(Some(er), APP_YAML);
    assert_eq!(ac.get_app_name(), "BACHUETECH AI");
    assert_eq!(ac.get_file_app_dir(), "site");
    assert_eq!(ac.get_app_path(), "/jeremy");
    assert_eq!(ac.get_api_path(), "/ai/api/");
    assert_eq!(ac.get_environment(), er);
    assert_eq!(ac.get_version(), "0.2.4");
}

#[test]
pub fn test_app_config_embeded_success() {
    let er = "embed_dev";
    let ac = load(Some(er), APP_YAML);
    assert_eq!(ac.get_app_name(), "BACHUETECH AI");
    assert_eq!(ac.get_file_app_dir(), "site");
    assert_eq!(ac.get_app_path(), "/embeded");
    assert_eq!(ac.get_api_path(), "/ai/api/");
    assert_eq!(ac.get_environment(), er);
    assert_eq!(ac.get_version(), "0.2.4");
}

#[test]
pub fn test_end_points() {
    let ac = load(Some("dev"), APP_YAML);
    assert_eq!(ac.get_end_point("chat"), "/chat");
}

#[test]
fn explicit_endpoint_path_is_kept() {
    let ac = load(Some("dev"), APP_YAML);
    assert_eq!(ac.get_end_point("models"), "/api/models");
}

#[test]
fn unknown_endpoint_gets_synthesized_path() {
    let ac = load(Some("dev"), APP_YAML);
    assert_eq!(ac.get_end_point("status"), "/status");
    assert_eq!(ac.get_end_point(""), "/");
}

#[test]
fn later_duplicate_endpoint_wins() {
    let text = "dev:\n  end_points:\n    - id: a\n      path: /first\n    - id: a\n      path: /second\n";
    let ac = load(None, text);
    assert_eq!(ac.get_end_point("a"), "/second");
}

#[test]
fn missing_endpoint_id_is_an_error() {
    let text = "dev:\n  end_points:\n    - path: /x\n";
    let r = AppConfig::new(None, &test_app_info(), text);
    assert_eq!(r.unwrap_err(), LoadError::MissingEndpointId);
}

#[test]
fn malformed_text_is_a_parse_error() {
    let r = AppConfig::new(None, &test_app_info(), "dev: [unclosed");
    assert_eq!(r.unwrap_err(), LoadError::ParseError);
}

#[test]
fn text_without_document_is_an_error() {
    let r = AppConfig::new(None, &test_app_info(), "# only a comment\n");
    assert_eq!(r.unwrap_err(), LoadError::NoDocument);
}

#[test]
fn no_environment_key_and_no_request_uses_dev_defaults() {
    let ac = load(None, "app_name: Tool\nother: 1\n");
    assert_eq!(ac.get_environment(), "dev");
    assert_eq!(ac.get_file_app_dir(), "site");
    assert_eq!(ac.get_app_path(), "/app");
    assert_eq!(ac.get_api_path(), "/api");
    assert_eq!(ac.get_end_point("chat"), "/chat");
    assert_eq!(ac.get_app_name(), "Tool");
}

#[test]
fn app_name_defaults_to_package_name() {
    let ac = load(None, "environment: x\n");
    assert_eq!(ac.get_app_name(), "bt_core_config");
    assert_eq!(ac.get_environment(), "x");
}

#[test]
fn unknown_request_falls_back_to_declared_environment() {
    let doc = first_document("environment: prod\nprod:\n  app_path: /p\n").unwrap();
    assert_eq!(resolve_environment(&doc, Some("staging".to_owned())), "prod");
    assert_eq!(resolve_environment(&doc, Some("prod".to_owned())), "prod");
    assert_eq!(resolve_environment(&doc, None), "prod");
    let bare = first_document("prod:\n  app_path: /p\n").unwrap();
    assert_eq!(resolve_environment(&bare, Some("staging".to_owned())), "dev");
    assert_eq!(resolve_environment(&bare, Some("prod".to_owned())), "prod");
}

#[test]
fn secure_agent_url_uses_https() {
    let text = "dev:\n  agent:\n    host: agent.local\n    port: 8080\n    end_point: /v1\n";
    let ac = load(None, text);
    assert_eq!(ac.get_agent_url(), "https://agent.local:8080/v1");
}

#[test]
fn agent_port_out_of_range_takes_default() {
    let text = "dev:\n  agent:\n    secure: false\n    port: 99999\n";
    let ac = load(None, text);
    assert_eq!(ac.get_agent_url(), "http://localhost:23332/");
}

#[test]
fn text_and_document_agree() {
    let doc = first_document(APP_YAML).unwrap();
    let info = test_app_info();
    let from_doc = AppConfig::from_yaml(Some("jeremy_dev".to_owned()), &info, &doc).unwrap();
    let from_text = AppConfig::new(Some("jeremy_dev".to_owned()), &info, APP_YAML).unwrap();
    assert_eq!(from_doc.get_environment(), from_text.get_environment());
    assert_eq!(from_doc.get_app_name(), from_text.get_app_name());
    assert_eq!(from_doc.get_version(), from_text.get_version());
    assert_eq!(from_doc.get_file_app_dir(), from_text.get_file_app_dir());
    assert_eq!(from_doc.get_app_path(), from_text.get_app_path());
    assert_eq!(from_doc.get_api_path(), from_text.get_api_path());
    assert_eq!(from_doc.get_agent_url(), from_text.get_agent_url());
    assert_eq!(from_doc.get_end_point("chat"), from_text.get_end_point("chat"));
}

#[test]
fn port_rule_on_nodes() {
    assert_eq!(port_or(&Yaml::Integer(70000), 23339), 23339);
    assert_eq!(port_or(&Yaml::Integer(-5), 23339), 23339);
    assert_eq!(port_or(&Yaml::Integer(65535), 23339), 65535);
    assert_eq!(port_or(&Yaml::Integer(0), 23339), 0);
    assert_eq!(port_or(&Yaml::String("80".to_owned()), 23339), 23339);
}

#[test]
fn field_defaults_on_nodes() {
    assert_eq!(string_or(&Yaml::String("x".to_owned()), "d"), "x");
    assert_eq!(string_or(&Yaml::Integer(3), "d"), "d");
    assert_eq!(string_or(&Yaml::BadValue, "d"), "d");
    assert_eq!(boolean_or(&Yaml::Boolean(false), true), false);
    assert_eq!(boolean_or(&Yaml::Null, true), true);
}

#[test]
fn document_version_overrides_build_version() {
    let ac = load(None, "version: 1.4.0\ndev:\n  app_path: /v\n");
    assert_eq!(ac.get_version(), "1.4.0");
    let numeric = load(None, "version: 2\n");
    assert_eq!(numeric.get_version(), "0.2.4");
}
