use locallm_chat::config::{
    openwebui_image_tag_default, tika_image_tag_default, validate_config,
    BackendServiceHostVolumePathBinding, LlmChatConfig, LlmChatConfigExtraBackendService,
};
use locallm_chat::error::AppError;

fn service(name: &str, image: &str) -> LlmChatConfigExtraBackendService {
    LlmChatConfigExtraBackendService {
        name: name.to_string(),
        image: image.to_string(),
        cmd: None,
        env: None,
        user: None,
        ports: None,
        volume_bindings: None,
        working_directory: None,
    }
}

fn config_with(services: Vec<LlmChatConfigExtraBackendService>) -> LlmChatConfig {
    LlmChatConfig {
        openwebui_image_tag: "latest".to_string(),
        tika_image_tag: "latest-full".to_string(),
        extra_backend_services: Some(services),
    }
}

#[test]
fn default_tags() {
    assert_eq!(openwebui_image_tag_default(), "latest");
    assert_eq!(tika_image_tag_default(), "latest-full");
}

#[test]
fn default_config() {
    let c = LlmChatConfig::default();
    assert_eq!(c.openwebui_image_tag, "latest");
    assert_eq!(c.tika_image_tag, "latest-full");
    assert!(c.extra_backend_services.is_none());
}

#[test]
fn config_without_extras_is_valid() {
    assert!(validate_config(&LlmChatConfig::default()).is_ok());
    assert!(validate_config(&config_with(vec![])).is_ok());
}

#[test]
fn config_with_distinct_names_is_valid() {
    let c = config_with(vec![service("redis", "redis:7"), service("searx", "searxng/searxng")]);
    assert!(validate_config(&c).is_ok());
}

#[test]
fn duplicate_service_names_are_rejected() {
    let c = config_with(vec![
        service("redis", "redis:7"),
        service("searx", "searxng/searxng"),
        service("redis", "redis:6"),
    ]);
    assert!(matches!(validate_config(&c), Err(AppError::ConfigError(_))));
}

#[test]
fn empty_service_name_is_rejected() {
    let c = config_with(vec![service("", "redis:7")]);
    assert!(matches!(validate_config(&c), Err(AppError::ConfigError(_))));
}

#[test]
fn empty_volume_path_is_rejected() {
    let mut s = service("redis", "redis:7");
    s.volume_bindings = Some(vec![BackendServiceHostVolumePathBinding {
        host_path: "/tmp/x".to_string(),
        container_path: "".to_string(),
    }]);
    assert!(matches!(validate_config(&config_with(vec![s])), Err(AppError::ConfigError(_))));
}

#[test]
fn error_messages() {
    assert_eq!(AppError::GenericError("boom".to_string()).message(), "An error occurred: boom");
    assert_eq!(
        AppError::EnvironmentVariableError("HOME".to_string(), "not present".to_string()).message(),
        "Failed to get environment variable: HOME\n\nnot present"
    );
    assert_eq!(AppError::IOError("denied".to_string()).message(), "An I/O operation failed: denied");
    assert_eq!(AppError::TauriError("x".to_string()).message(), "An error occurred with tauri: x");
    assert_eq!(AppError::DockerError("gone".to_string()).message(), "Docker error: gone");
    assert_eq!(AppError::YamlError("bad".to_string()).message(), "YAML error: bad");
    assert_eq!(AppError::ConfigError("dup".to_string()).message(), "Invalid configuration: dup");
    assert_eq!(AppError::StartupTimedOut.message(), "Startup took too long");
}
