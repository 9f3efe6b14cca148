use locallm_chat::config::{LlmChatConfig, LlmChatConfigExtraBackendService};
use locallm_chat::engine::{is_fatal_failure, EngineStep};
use locallm_chat::teardown::{
    container_filters, container_removal_plan, has_prefix, is_managed_container_name,
    listed_container_name, managed_listed_containers, network_filter, network_removal_plan,
    prefixed_listed_networks, strip_slashes,
};

fn service(name: &str) -> LlmChatConfigExtraBackendService {
    LlmChatConfigExtraBackendService {
        name: name.to_string(),
        image: "img".to_string(),
        cmd: None,
        env: None,
        user: None,
        ports: None,
        volume_bindings: None,
        working_directory: None,
    }
}

#[test]
fn container_filters_cover_config() {
    let c = LlmChatConfig {
        openwebui_image_tag: "latest".to_string(),
        tika_image_tag: "latest-full".to_string(),
        extra_backend_services: Some(vec![service("redis"), service("searx")]),
    };
    assert_eq!(
        container_filters(&c),
        vec![
            "local_llm_openwebui".to_string(),
            "local_llm_tika".to_string(),
            "local_llm_redis".to_string(),
            "local_llm_searx".to_string(),
        ]
    );
    assert_eq!(container_filters(&LlmChatConfig::default()).len(), 2);
}

#[test]
fn network_filter_is_prefix() {
    assert_eq!(network_filter(), "local_llm_");
}

#[test]
fn strip_slashes_cases() {
    assert_eq!(strip_slashes("/local_llm_tika"), "local_llm_tika");
    assert_eq!(strip_slashes("//a/b//"), "a/b");
    assert_eq!(strip_slashes("plain"), "plain");
    assert_eq!(strip_slashes("///"), "");
    assert_eq!(strip_slashes(""), "");
}

#[test]
fn listed_container_name_takes_first() {
    assert_eq!(listed_container_name(&vec![]), None);
    assert_eq!(
        listed_container_name(&vec!["/local_llm_openwebui".to_string(), "/alias".to_string()]),
        Some("local_llm_openwebui".to_string())
    );
}

#[test]
fn container_removal_stops_then_removes() {
    let plan = container_removal_plan(&vec!["a".to_string(), "b".to_string()]);
    assert_eq!(plan.len(), 4);
    assert!(matches!(&plan[0], EngineStep::StopContainer(n) if n == "a"));
    assert!(matches!(&plan[1], EngineStep::RemoveContainer(n) if n == "a"));
    assert!(matches!(&plan[2], EngineStep::StopContainer(n) if n == "b"));
    assert!(matches!(&plan[3], EngineStep::RemoveContainer(n) if n == "b"));
    assert!(container_removal_plan(&vec![]).is_empty());
}

#[test]
fn network_removal_in_order() {
    let plan = network_removal_plan(&vec!["local_llm_frontend".to_string(), "local_llm_backend".to_string()]);
    assert_eq!(plan.len(), 2);
    assert!(matches!(&plan[0], EngineStep::RemoveNetwork(n) if n == "local_llm_frontend"));
    assert!(matches!(&plan[1], EngineStep::RemoveNetwork(n) if n == "local_llm_backend"));
}

#[test]
fn only_stop_failures_are_soft() {
    assert!(!is_fatal_failure(&EngineStep::StopContainer("a".to_string())));
    assert!(is_fatal_failure(&EngineStep::RemoveContainer("a".to_string())));
    assert!(is_fatal_failure(&EngineStep::StartContainer("a".to_string())));
    assert!(is_fatal_failure(&EngineStep::RemoveNetwork("n".to_string())));
}

fn strings(v: &[&str]) -> Vec<String> {
    v.iter().map(|s| s.to_string()).collect()
}

#[test]
fn managed_listing_keeps_exact_names_only() {
    let c = LlmChatConfig {
        openwebui_image_tag: "latest".to_string(),
        tika_image_tag: "latest-full".to_string(),
        extra_backend_services: Some(vec![service("redis")]),
    };
    let listed = strings(&["local_llm_tikax", "local_llm_redis", "x_local_llm_openwebui", "local_llm_tika"]);
    assert_eq!(managed_listed_containers(&c, &listed), strings(&["local_llm_redis", "local_llm_tika"]));
    assert!(managed_listed_containers(&c, &vec![]).is_empty());
    assert!(is_managed_container_name(&c, &"local_llm_openwebui".to_string()));
    assert!(!is_managed_container_name(&c, &"local_llm_searx".to_string()));
}

#[test]
fn network_listing_keeps_prefixed_names_only() {
    let listed = strings(&["xlocal_llm_", "local_llm_frontend", "local_llm", "local_llm_backend"]);
    assert_eq!(prefixed_listed_networks(&listed), strings(&["local_llm_frontend", "local_llm_backend"]));
    assert!(has_prefix("local_llm_"));
    assert!(!has_prefix("local_ll"));
    assert!(!has_prefix("Local_llm_x"));
}
