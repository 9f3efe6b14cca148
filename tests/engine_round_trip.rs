use locallm_chat::config::{LlmChatConfig, LlmChatConfigExtraBackendService};
use locallm_chat::engine::{is_fatal_failure, EngineStep};
use locallm_chat::teardown::{
    container_filters, container_removal_plan, listed_container_name, managed_listed_containers,
    network_filter, network_removal_plan, prefixed_listed_networks,
};
use locallm_chat::topology::provisioning_plan;

/// An in-memory engine that answers steps the way the engine model does.
#[derive(Default, Debug, PartialEq, Clone)]
struct FakeEngine {
    networks: Vec<String>,
    containers: Vec<String>,
}

impl FakeEngine {
    fn apply(&mut self, step: &EngineStep) -> Result<(), String> {
        match step {
            EngineStep::CreateNetwork(n) => {
                if self.networks.contains(&n.name) {
                    return Err(format!("network {} exists", n.name));
                }
                self.networks.push(n.name.clone());
            }
            EngineStep::CreateContainer(c) => {
                if self.containers.contains(&c.name) {
                    return Err(format!("container {} exists", c.name));
                }
                self.containers.push(c.name.clone());
            }
            EngineStep::StartContainer(n) | EngineStep::StopContainer(n) => {
                if !self.containers.contains(n) {
                    return Err(format!("no container {}", n));
                }
            }
            EngineStep::RemoveContainer(n) => {
                let i = self.containers.iter().position(|c| c == n).ok_or("no container")?;
                self.containers.remove(i);
            }
            EngineStep::RemoveNetwork(n) => {
                let i = self.networks.iter().position(|c| c == n).ok_or("no network")?;
                self.networks.remove(i);
            }
        }
        Ok(())
    }

    fn run(&mut self, steps: &[EngineStep]) -> Result<(), String> {
        for s in steps {
            if let Err(e) = self.apply(s) {
                if is_fatal_failure(s) {
                    return Err(e);
                }
            }
        }
        Ok(())
    }

    /// Containers as the engine lists them: `/name`, selected by substring filters.
    fn list_containers(&self, filters: &[String]) -> Vec<Vec<String>> {
        self.containers
            .iter()
            .filter(|c| filters.iter().any(|f| c.contains(f.as_str())))
            .map(|c| vec![format!("/{}", c)])
            .collect()
    }

    fn list_networks(&self, filter: &str) -> Vec<String> {
        self.networks.iter().filter(|n| n.contains(filter)).cloned().collect()
    }

    fn cleanup(&mut self, config: &LlmChatConfig) -> Result<(), String> {
        let listed = self.list_containers(&container_filters(config));
        let names: Vec<String> =
            listed.iter().map(|names| listed_container_name(names).unwrap()).collect();
        let managed = managed_listed_containers(config, &names);
        self.run(&container_removal_plan(&managed))?;
        let networks = prefixed_listed_networks(&self.list_networks(&network_filter()));
        self.run(&network_removal_plan(&networks))
    }
}

fn service(name: &str) -> LlmChatConfigExtraBackendService {
    LlmChatConfigExtraBackendService {
        name: name.to_string(),
        image: format!("{}:1", name),
        cmd: None,
        env: None,
        user: None,
        ports: None,
        volume_bindings: None,
        working_directory: None,
    }
}

fn config(n: usize) -> LlmChatConfig {
    LlmChatConfig {
        openwebui_image_tag: "latest".to_string(),
        tika_image_tag: "latest-full".to_string(),
        extra_backend_services: Some((0..n).map(|i| service(&format!("svc{}", i))).collect()),
    }
}

#[test]
fn provision_then_cleanup_leaves_nothing_managed() {
    for n in 0..4 {
        let c = config(n);
        let mut engine = FakeEngine {
            networks: vec!["bridge".to_string()],
            containers: vec!["unrelated".to_string()],
        };
        engine.run(&provisioning_plan(&c, "/data")).unwrap();
        assert_eq!(engine.networks.len(), 3);
        assert_eq!(engine.containers.len(), 3 + n);
        engine.cleanup(&c).unwrap();
        assert!(engine.networks.iter().all(|x| !x.starts_with("local_llm_")));
        assert!(engine.containers.iter().all(|x| !x.starts_with("local_llm_")));
        assert_eq!(engine.networks, vec!["bridge".to_string()]);
        assert_eq!(engine.containers, vec!["unrelated".to_string()]);
    }
}

#[test]
fn cleanup_of_empty_engine_is_noop() {
    let mut engine = FakeEngine::default();
    assert_eq!(engine.cleanup(&config(2)), Ok(()));
    assert_eq!(engine, FakeEngine::default());
    let mut other = FakeEngine {
        networks: vec!["host".to_string()],
        containers: vec!["db".to_string()],
    };
    let before = other.clone();
    assert_eq!(other.cleanup(&config(1)), Ok(()));
    assert_eq!(other, before);
}

#[test]
fn provisioning_twice_fails() {
    let c = config(1);
    let mut engine = FakeEngine::default();
    engine.run(&provisioning_plan(&c, "/data")).unwrap();
    let after_first = engine.clone();
    let second = engine.run(&provisioning_plan(&c, "/data"));
    assert_eq!(second, Err("network local_llm_frontend exists".to_string()));
    assert_eq!(engine, after_first);
}

#[test]
fn duplicate_names_fail_provisioning() {
    let mut c = config(0);
    c.extra_backend_services = Some(vec![service("dup"), service("dup")]);
    let mut engine = FakeEngine::default();
    assert_eq!(
        engine.run(&provisioning_plan(&c, "/data")),
        Err("container local_llm_dup exists".to_string())
    );
}

#[test]
fn stop_failure_is_ignored_during_cleanup() {
    let mut engine = FakeEngine::default();
    let plan = vec![
        EngineStep::StopContainer("ghost".to_string()),
        EngineStep::RemoveNetwork("ghost_net".to_string()),
    ];
    assert_eq!(engine.run(&plan[..1]), Ok(()));
    assert!(engine.run(&plan).is_err());
}

#[test]
fn cleanup_leaves_lookalike_names_alone() {
    let c = config(1);
    let mut engine = FakeEngine {
        networks: vec!["xlocal_llm_".to_string(), "my_local_llm_net".to_string()],
        containers: vec!["local_llm_tikax".to_string(), "old_local_llm_svc0".to_string()],
    };
    let before = engine.clone();
    assert_eq!(engine.cleanup(&c), Ok(()));
    assert_eq!(engine, before);
    engine.run(&provisioning_plan(&c, "/data")).unwrap();
    assert_eq!(engine.cleanup(&c), Ok(()));
    assert_eq!(engine, before);
}
