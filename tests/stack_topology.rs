use locallm_chat::config::{
    BackendServiceHostVolumePathBinding, LlmChatConfig, LlmChatConfigExtraBackendService,
};
use locallm_chat::engine::EngineStep;
use locallm_chat::images::{openwebui_image, required_images, tika_image};
use locallm_chat::naming::{
    backend_network_name, frontend_network_name, namespaced_name, openwebui_container_name,
    tika_container_name,
};
use locallm_chat::topology::{
    backend_network_config, extra_service_container_config, frontend_network_config,
    openwebui_container_config, provisioning_plan, tika_container_config, volume_bind,
};

fn service(name: &str, image: &str) -> LlmChatConfigExtraBackendService {
    LlmChatConfigExtraBackendService {
        name: name.to_string(),
        image: image.to_string(),
        cmd: None,
        env: None,
        user: None,
        ports: None,
        volume_bindings: None,
        working_directory: None,
    }
}

fn config(tags: (&str, &str), services: Option<Vec<LlmChatConfigExtraBackendService>>) -> LlmChatConfig {
    LlmChatConfig {
        openwebui_image_tag: tags.0.to_string(),
        tika_image_tag: tags.1.to_string(),
        extra_backend_services: services,
    }
}

#[test]
fn resource_names() {
    assert_eq!(frontend_network_name(), "local_llm_frontend");
    assert_eq!(backend_network_name(), "local_llm_backend");
    assert_eq!(openwebui_container_name(), "local_llm_openwebui");
    assert_eq!(tika_container_name(), "local_llm_tika");
    assert_eq!(namespaced_name("redis"), "local_llm_redis");
}

#[test]
fn image_references() {
    let c = config(("v0.6.5", "3.1.0-full"), None);
    assert_eq!(openwebui_image(&c), "ghcr.io/open-webui/open-webui:v0.6.5");
    assert_eq!(tika_image(&c), "docker.io/apache/tika:3.1.0-full");
}

#[test]
fn required_images_in_order() {
    let c = config(
        ("latest", "latest-full"),
        Some(vec![service("redis", "redis:7"), service("searx", "searxng/searxng:latest")]),
    );
    assert_eq!(
        required_images(&c),
        vec![
            "ghcr.io/open-webui/open-webui:latest".to_string(),
            "docker.io/apache/tika:latest-full".to_string(),
            "redis:7".to_string(),
            "searxng/searxng:latest".to_string(),
        ]
    );
    assert_eq!(required_images(&config(("a", "b"), None)).len(), 2);
}

#[test]
fn frontend_network_is_loopback_bridge() {
    let n = frontend_network_config();
    assert_eq!(n.name, "local_llm_frontend");
    assert_eq!(n.driver, Some("bridge".to_string()));
    assert_eq!(
        n.options,
        vec![(
            "com.docker.network.bridge.host_binding_ipv4".to_string(),
            "127.0.0.1".to_string()
        )]
    );
}

#[test]
fn backend_network_has_defaults() {
    let n = backend_network_config();
    assert_eq!(n.name, "local_llm_backend");
    assert_eq!(n.driver, None);
    assert!(n.options.is_empty());
}

#[test]
fn openwebui_container_layout() {
    let c = config(("main", "latest-full"), None);
    let s = openwebui_container_config(&c, "/home/u/.local/share/app/openwebui/data");
    assert_eq!(s.name, "local_llm_openwebui");
    assert_eq!(s.image, "ghcr.io/open-webui/open-webui:main");
    assert_eq!(s.networks, vec!["local_llm_frontend".to_string(), "local_llm_backend".to_string()]);
    assert_eq!(s.exposed_ports, vec!["8080/tcp".to_string()]);
    assert_eq!(s.published_ports.len(), 1);
    assert_eq!(s.published_ports[0].container_port, "8080/tcp");
    assert_eq!(s.published_ports[0].host_port, "11690");
    assert_eq!(s.env, Some(vec!["ENV=dev".to_string(), "WEBUI_AUTH=false".to_string()]));
    assert_eq!(
        s.binds,
        Some(vec!["/home/u/.local/share/app/openwebui/data:/app/backend/data".to_string()])
    );
    assert!(s.cmd.is_none() && s.user.is_none() && s.working_dir.is_none());
}

#[test]
fn tika_container_layout() {
    let c = config(("main", "2.9.2-full"), None);
    let s = tika_container_config(&c);
    assert_eq!(s.name, "local_llm_tika");
    assert_eq!(s.image, "docker.io/apache/tika:2.9.2-full");
    assert_eq!(s.networks, vec!["local_llm_backend".to_string()]);
    assert_eq!(s.exposed_ports, vec!["9998/tcp".to_string()]);
    assert!(s.published_ports.is_empty());
    assert!(s.binds.is_none() && s.env.is_none());
}

#[test]
fn extra_service_port_and_volume() {
    let mut svc = service("worker", "example/worker:1");
    svc.ports = Some(vec!["7000/tcp".to_string()]);
    svc.volume_bindings = Some(vec![BackendServiceHostVolumePathBinding {
        host_path: "/tmp/x".to_string(),
        container_path: "/data".to_string(),
    }]);
    let s = extra_service_container_config(&svc);
    assert_eq!(s.name, "local_llm_worker");
    assert_eq!(s.exposed_ports, vec!["7000/tcp".to_string()]);
    assert!(s.published_ports.is_empty());
    assert_eq!(s.binds, Some(vec!["/tmp/x:/data".to_string()]));
    assert_eq!(s.networks, vec!["local_llm_backend".to_string()]);
}

#[test]
fn extra_service_passes_settings_through() {
    let mut svc = service("searx", "searxng/searxng");
    svc.cmd = Some(vec!["run".to_string(), "--fast".to_string()]);
    svc.env = Some(vec!["A=1".to_string()]);
    svc.user = Some("1000:1000".to_string());
    svc.working_directory = Some("/srv".to_string());
    let s = extra_service_container_config(&svc);
    assert_eq!(s.image, "searxng/searxng");
    assert_eq!(s.cmd, Some(vec!["run".to_string(), "--fast".to_string()]));
    assert_eq!(s.env, Some(vec!["A=1".to_string()]));
    assert_eq!(s.user, Some("1000:1000".to_string()));
    assert_eq!(s.working_dir, Some("/srv".to_string()));
    assert!(s.exposed_ports.is_empty());
    assert!(s.binds.is_none());
}

#[test]
fn volume_bind_form() {
    let b = BackendServiceHostVolumePathBinding {
        host_path: "/srv/models".to_string(),
        container_path: "/models".to_string(),
    };
    assert_eq!(volume_bind(&b), "/srv/models:/models");
}

fn describe(step: &EngineStep) -> String {
    match step {
        EngineStep::CreateNetwork(n) => format!("create network {}", n.name),
        EngineStep::CreateContainer(c) => format!("create container {}", c.name),
        EngineStep::StartContainer(n) => format!("start {}", n),
        EngineStep::StopContainer(n) => format!("stop {}", n),
        EngineStep::RemoveContainer(n) => format!("remove container {}", n),
        EngineStep::RemoveNetwork(n) => format!("remove network {}", n),
    }
}

#[test]
fn provisioning_plan_order() {
    let c = config(("latest", "latest-full"), Some(vec![service("redis", "redis:7")]));
    let plan: Vec<String> = provisioning_plan(&c, "/data").iter().map(describe).collect();
    assert_eq!(
        plan,
        vec![
            "create network local_llm_frontend",
            "create network local_llm_backend",
            "create container local_llm_openwebui",
            "start local_llm_openwebui",
            "create container local_llm_tika",
            "start local_llm_tika",
            "create container local_llm_redis",
            "start local_llm_redis",
        ]
    );
}

#[test]
fn provisioning_plan_without_extras() {
    let c = config(("latest", "latest-full"), None);
    assert_eq!(provisioning_plan(&c, "/data").len(), 6);
}
