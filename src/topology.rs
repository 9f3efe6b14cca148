use vstd::prelude::*;

use crate::config::{
    BackendServiceHostVolumePathBinding, ExtraServiceView, LlmChatConfig,
    LlmChatConfigExtraBackendService, StackConfigView, VolumeBindingView, opt_string_view,
    opt_strings_view, strings_view,
};
use crate::engine::{EngineStep, EngineStepView, steps_view};
use crate::images::{openwebui_image, openwebui_image_ref, tika_image, tika_image_ref};
use crate::naming::{
    backend_network, backend_network_name, extra_service_container_name, frontend_network,
    frontend_network_name, namespaced, openwebui_container, openwebui_container_name,
    tika_container, tika_container_name,
};

verus! {

/// Port of the primary service inside its container.
pub const OPENWEBUI_PORT: &'static str = "8080/tcp";

/// Host port the primary service is published on.
pub const OPENWEBUI_HOST_PORT: &'static str = "11690";

/// Port of the auxiliary service inside its container.
pub const TIKA_PORT: &'static str = "9998/tcp";

/// Path inside the primary service's container where the host data
/// directory is mounted.
pub const OPENWEBUI_DATA_PATH: &'static str = "/app/backend/data";

/// Driver option that restricts published ports to the loopback interface.
pub const HOST_BINDING_OPTION: &'static str = "com.docker.network.bridge.host_binding_ipv4";

pub const LOOPBACK_ADDRESS: &'static str = "127.0.0.1";

/// A network to create.
#[derive(Clone, Debug)]
pub struct NetworkSpec {
    pub name: String,
    /// The network driver; the engine's default when absent.
    pub driver: Option<String>,
    /// Driver options as key and value.
    pub options: Vec<(String, String)>,
}

/// A container port published on a fixed host port.
#[derive(Clone, Debug)]
pub struct PortPublication {
    pub container_port: String,
    pub host_port: String,
}

/// A container to create.
#[derive(Clone, Debug)]
pub struct ContainerSpec {
    pub name: String,
    pub image: String,
    /// Networks the container joins.
    pub networks: Vec<String>,
    /// Ports exposed inside the networks, as `port/proto` strings.
    pub exposed_ports: Vec<String>,
    /// Exposed ports that are also bound to a host port.
    pub published_ports: Vec<PortPublication>,
    pub env: Option<Vec<String>>,
    pub cmd: Option<Vec<String>>,
    pub user: Option<String>,
    pub working_dir: Option<String>,
    /// Host directories bound into the container, as `hostPath:containerPath`.
    pub binds: Option<Vec<String>>,
}

pub ghost struct NetworkSpecView {
    pub name: Seq<char>,
    pub driver: Option<Seq<char>>,
    pub options: Seq<(Seq<char>, Seq<char>)>,
}

pub ghost struct ContainerSpecView {
    pub name: Seq<char>,
    pub image: Seq<char>,
    pub networks: Seq<Seq<char>>,
    pub exposed_ports: Seq<Seq<char>>,
    pub published_ports: Seq<(Seq<char>, Seq<char>)>,
    pub env: Option<Seq<Seq<char>>>,
    pub cmd: Option<Seq<Seq<char>>>,
    pub user: Option<Seq<char>>,
    pub working_dir: Option<Seq<char>>,
    pub binds: Option<Seq<Seq<char>>>,
}

impl View for NetworkSpec {
    type V = NetworkSpecView;

    open spec fn view(&self) -> NetworkSpecView {
        NetworkSpecView {
            name: self.name@,
            driver: opt_string_view(self.driver),
            options: self.options@.map_values(|o: (String, String)| (o.0@, o.1@)),
        }
    }
}

impl View for ContainerSpec {
    type V = ContainerSpecView;

    open spec fn view(&self) -> ContainerSpecView {
        ContainerSpecView {
            name: self.name@,
            image: self.image@,
            networks: strings_view(self.networks@),
            exposed_ports: strings_view(self.exposed_ports@),
            published_ports: self.published_ports@.map_values(
                |p: PortPublication| (p.container_port@, p.host_port@),
            ),
            env: opt_strings_view(self.env),
            cmd: opt_strings_view(self.cmd),
            user: opt_string_view(self.user),
            working_dir: opt_string_view(self.working_dir),
            binds: opt_strings_view(self.binds),
        }
    }
}

/// The frontend network: bridge driver, published ports bound to loopback only.
pub open spec fn frontend_network_spec() -> NetworkSpecView {
    NetworkSpecView {
        name: frontend_network(),
        driver: Some("bridge"@),
        options: seq![(HOST_BINDING_OPTION@, LOOPBACK_ADDRESS@)],
    }
}

/// The backend network: default driver, no options.
pub open spec fn backend_network_spec() -> NetworkSpecView {
    NetworkSpecView { name: backend_network(), driver: None, options: Seq::empty() }
}

/// The primary service: on both networks, its port published on the fixed
/// host port, the host data directory mounted at the fixed path.
pub open spec fn openwebui_container_spec(c: StackConfigView, data_dir: Seq<char>) -> ContainerSpecView {
    ContainerSpecView {
        name: openwebui_container(),
        image: openwebui_image_ref(c),
        networks: seq![frontend_network(), backend_network()],
        exposed_ports: seq![OPENWEBUI_PORT@],
        published_ports: seq![(OPENWEBUI_PORT@, OPENWEBUI_HOST_PORT@)],
        env: Some(seq!["ENV=dev"@, "WEBUI_AUTH=false"@]),
        cmd: None,
        user: None,
        working_dir: None,
        binds: Some(seq![data_dir + ":"@ + OPENWEBUI_DATA_PATH@]),
    }
}

/// The auxiliary service: on the backend network only, its port exposed
/// without a host binding.
pub open spec fn tika_container_spec(c: StackConfigView) -> ContainerSpecView {
    ContainerSpecView {
        name: tika_container(),
        image: tika_image_ref(c),
        networks: seq![backend_network()],
        exposed_ports: seq![TIKA_PORT@],
        published_ports: Seq::empty(),
        env: None,
        cmd: None,
        user: None,
        working_dir: None,
        binds: None,
    }
}

/// A volume binding in the engine's `hostPath:containerPath` form.
pub open spec fn bind_text(b: VolumeBindingView) -> Seq<char> {
    b.host_path + ":"@ + b.container_path
}

/// An extra service: on the backend network only, its ports exposed as
/// written and never published, its volume bindings, command, environment,
/// user and working directory passed through.
pub open spec fn extra_container_spec(s: ExtraServiceView) -> ContainerSpecView {
    ContainerSpecView {
        name: namespaced(s.name),
        image: s.image,
        networks: seq![backend_network()],
        exposed_ports: match s.ports {
            Some(p) => p,
            None => Seq::empty(),
        },
        published_ports: Seq::empty(),
        env: s.env,
        cmd: s.cmd,
        user: s.user,
        working_dir: s.working_directory,
        binds: match s.volume_bindings {
            Some(bs) => Some(bs.map_values(|b: VolumeBindingView| bind_text(b))),
            None => None,
        },
    }
}

/// The containers of a configuration in start order.
pub open spec fn service_container_specs(c: StackConfigView, data_dir: Seq<char>) -> Seq<ContainerSpecView> {
    seq![openwebui_container_spec(c, data_dir), tika_container_spec(c)] + c.extra_services.map_values(
        |s: ExtraServiceView| extra_container_spec(s),
    )
}

/// Create then start each container, in order.
pub open spec fn service_steps(specs: Seq<ContainerSpecView>) -> Seq<EngineStepView>
    decreases specs.len(),
{
    if specs.len() == 0 {
        Seq::empty()
    } else {
        service_steps(specs.drop_last()) + seq![
            EngineStepView::CreateContainer(specs.last()),
            EngineStepView::StartContainer(specs.last().name),
        ]
    }
}

/// The provisioning plan: both networks, then each container created and started.
pub open spec fn provisioning_steps(c: StackConfigView, data_dir: Seq<char>) -> Seq<EngineStepView> {
    seq![
        EngineStepView::CreateNetwork(frontend_network_spec()),
        EngineStepView::CreateNetwork(backend_network_spec()),
    ] + service_steps(service_container_specs(c, data_dir))
}

fn clone_strings(v: &Vec<String>) -> (r: Vec<String>)
    ensures
        r@ == v@,
{
    let mut r: Vec<String> = Vec::new();
    let mut i: usize = 0;
    while i < v.len()
        invariant
            i <= v.len(),
            r@ == v@.take(i as int),
        decreases v.len() - i,
    {
        r.push(v[i].clone());
        assert(v@.take(i + 1) =~= v@.take(i as int).push(v@[i as int]));
        i = i + 1;
    }
    assert(v@.take(i as int) =~= v@);
    r
}

fn clone_opt_strings(o: &Option<Vec<String>>) -> (r: Option<Vec<String>>)
    ensures
        opt_strings_view(r) == opt_strings_view(*o),
{
    match o {
        Some(v) => Some(clone_strings(v)),
        None => None,
    }
}

fn clone_opt_string(o: &Option<String>) -> (r: Option<String>)
    ensures
        r == *o,
{
    match o {
        Some(s) => Some(s.clone()),
        None => None,
    }
}

/// The frontend network's specification.
pub fn frontend_network_config() -> (r: NetworkSpec)
    ensures
        r@ == frontend_network_spec(),
{
    let mut options: Vec<(String, String)> = Vec::new();
    options.push((String::from_str(HOST_BINDING_OPTION), String::from_str(LOOPBACK_ADDRESS)));
    let r = NetworkSpec {
        name: frontend_network_name(),
        driver: Some(String::from_str("bridge")),
        options,
    };
    assert(r@.options =~= frontend_network_spec().options);
    r
}

/// The backend network's specification.
pub fn backend_network_config() -> (r: NetworkSpec)
    ensures
        r@ == backend_network_spec(),
{
    let r = NetworkSpec { name: backend_network_name(), driver: None, options: Vec::new() };
    assert(r@.options =~= backend_network_spec().options);
    r
}

/// The primary service's container, with `data_dir` the host directory
/// mounted as its data directory.
pub fn openwebui_container_config(config: &LlmChatConfig, data_dir: &str) -> (r: ContainerSpec)
    ensures
        r@ == openwebui_container_spec(config@, data_dir@),
{
    let mut networks: Vec<String> = Vec::new();
    networks.push(frontend_network_name());
    networks.push(backend_network_name());
    let mut exposed_ports: Vec<String> = Vec::new();
    exposed_ports.push(String::from_str(OPENWEBUI_PORT));
    let mut published_ports: Vec<PortPublication> = Vec::new();
    published_ports.push(
        PortPublication {
            container_port: String::from_str(OPENWEBUI_PORT),
            host_port: String::from_str(OPENWEBUI_HOST_PORT),
        },
    );
    let mut env: Vec<String> = Vec::new();
    env.push(String::from_str("ENV=dev"));
    env.push(String::from_str("WEBUI_AUTH=false"));
    let mut bind = String::from_str(data_dir);
    bind.append(":");
    bind.append(OPENWEBUI_DATA_PATH);
    let mut binds: Vec<String> = Vec::new();
    binds.push(bind);
    let r = ContainerSpec {
        name: openwebui_container_name(),
        image: openwebui_image(config),
        networks,
        exposed_ports,
        published_ports,
        env: Some(env),
        cmd: None,
        user: None,
        working_dir: None,
        binds: Some(binds),
    };
    let ghost s = openwebui_container_spec(config@, data_dir@);
    assert(r@.networks =~= s.networks);
    assert(r@.exposed_ports =~= s.exposed_ports);
    assert(r@.published_ports =~= s.published_ports);
    assert(r@.env->Some_0 =~= s.env->Some_0);
    assert(r@.binds->Some_0 =~= s.binds->Some_0);
    r
}

/// The auxiliary service's container.
pub fn tika_container_config(config: &LlmChatConfig) -> (r: ContainerSpec)
    ensures
        r@ == tika_container_spec(config@),
{
    let mut networks: Vec<String> = Vec::new();
    networks.push(backend_network_name());
    let mut exposed_ports: Vec<String> = Vec::new();
    exposed_ports.push(String::from_str(TIKA_PORT));
    let r = ContainerSpec {
        name: tika_container_name(),
        image: tika_image(config),
        networks,
        exposed_ports,
        published_ports: Vec::new(),
        env: None,
        cmd: None,
        user: None,
        working_dir: None,
        binds: None,
    };
    let ghost s = tika_container_spec(config@);
    assert(r@.networks =~= s.networks);
    assert(r@.exposed_ports =~= s.exposed_ports);
    assert(r@.published_ports =~= s.published_ports);
    r
}

/// A volume binding in the engine's `hostPath:containerPath` form.
pub fn volume_bind(binding: &BackendServiceHostVolumePathBinding) -> (r: String)
    ensures
        r@ == bind_text(binding@),
{
    let mut r = binding.host_path.clone();
    r.append(":");
    r.append(binding.container_path.as_str());
    r
}

fn volume_binds(bindings: &Vec<BackendServiceHostVolumePathBinding>) -> (r: Vec<String>)
    ensures
        strings_view(r@) == bindings@.map_values(|b: BackendServiceHostVolumePathBinding| b@).map_values(
            |b: VolumeBindingView| bind_text(b),
        ),
{
    let ghost target = bindings@.map_values(|b: BackendServiceHostVolumePathBinding| b@).map_values(
        |b: VolumeBindingView| bind_text(b),
    );
    let mut r: Vec<String> = Vec::new();
    let mut i: usize = 0;
    while i < bindings.len()
        invariant
            i <= bindings.len(),
            target.len() == bindings.len(),
            target == bindings@.map_values(|b: BackendServiceHostVolumePathBinding| b@).map_values(
                |b: VolumeBindingView| bind_text(b),
            ),
            strings_view(r@) =~= target.take(i as int),
        decreases bindings.len() - i,
    {
        r.push(volume_bind(&bindings[i]));
        assert(target.take(i + 1) =~= target.take(i as int).push(target[i as int]));
        i = i + 1;
    }
    assert(target.take(i as int) =~= target);
    r
}

/// The container of an extra service.
pub fn extra_service_container_config(service: &LlmChatConfigExtraBackendService) -> (r: ContainerSpec)
    ensures
        r@ == extra_container_spec(service@),
{
    let mut networks: Vec<String> = Vec::new();
    networks.push(backend_network_name());
    let exposed_ports = match &service.ports {
        Some(p) => clone_strings(p),
        None => Vec::new(),
    };
    let binds = match &service.volume_bindings {
        Some(bs) => Some(volume_binds(bs)),
        None => None,
    };
    let r = ContainerSpec {
        name: extra_service_container_name(service),
        image: service.image.clone(),
        networks,
        exposed_ports,
        published_ports: Vec::new(),
        env: clone_opt_strings(&service.env),
        cmd: clone_opt_strings(&service.cmd),
        user: clone_opt_string(&service.user),
        working_dir: clone_opt_string(&service.working_directory),
        binds,
    };
    let ghost s = extra_container_spec(service@);
    assert(r@.networks =~= s.networks);
    assert(r@.exposed_ports =~= s.exposed_ports);
    assert(r@.published_ports =~= s.published_ports);
    r
}

fn push_service_steps(steps: &mut Vec<EngineStep>, spec: ContainerSpec)
    ensures
        steps_view(final(steps)@) == steps_view(old(steps)@) + seq![
            EngineStepView::CreateContainer(spec@),
            EngineStepView::StartContainer(spec@.name),
        ],
{
    let name = spec.name.clone();
    let ghost v = spec@;
    steps.push(EngineStep::CreateContainer(spec));
    steps.push(EngineStep::StartContainer(name));
    assert(steps_view(steps@) =~= steps_view(old(steps)@) + seq![
        EngineStepView::CreateContainer(v),
        EngineStepView::StartContainer(v.name),
    ]);
}

/// The steps that provision a configuration's stack, with `data_dir` the
/// host directory mounted into the primary service.
pub fn provisioning_plan(config: &LlmChatConfig, data_dir: &str) -> (r: Vec<EngineStep>)
    ensures
        steps_view(r@) == provisioning_steps(config@, data_dir@),
{
    let ghost specs = service_container_specs(config@, data_dir@);
    let ghost head = seq![
        EngineStepView::CreateNetwork(frontend_network_spec()),
        EngineStepView::CreateNetwork(backend_network_spec()),
    ];
    let mut steps: Vec<EngineStep> = Vec::new();
    steps.push(EngineStep::CreateNetwork(frontend_network_config()));
    steps.push(EngineStep::CreateNetwork(backend_network_config()));
    assert(steps_view(steps@) =~= head);
    assert(specs.take(0) =~= Seq::<ContainerSpecView>::empty());
    assert(service_steps(specs.take(0)) =~= Seq::<EngineStepView>::empty());
    push_service_steps(&mut steps, openwebui_container_config(config, data_dir));
    assert(specs.take(1).drop_last() =~= specs.take(0));
    assert(specs.take(1).last() == specs[0]);
    assert(steps_view(steps@) =~= head + service_steps(specs.take(1)));
    push_service_steps(&mut steps, tika_container_config(config));
    assert(specs.take(2).drop_last() =~= specs.take(1));
    assert(specs.take(2).last() == specs[1]);
    assert(steps_view(steps@) =~= head + service_steps(specs.take(2)));
    let ghost extras = config@.extra_services;
    match &config.extra_backend_services {
        None => {
            assert(specs.take(2) =~= specs);
        },
        Some(services) => {
            let mut i: usize = 0;
            while i < services.len()
                invariant
                    i <= services.len(),
                    config.extra_backend_services == Some(*services),
                    extras == config@.extra_services,
                    extras.len() == services.len(),
                    specs == service_container_specs(config@, data_dir@),
                    specs.len() == services.len() + 2,
                    steps_view(steps@) =~= head + service_steps(specs.take(i + 2)),
                decreases services.len() - i,
            {
                assert(extras[i as int] == services@[i as int]@);
                assert(specs[i + 2] == extra_container_spec(extras[i as int]));
                let ghost before = steps_view(steps@);
                push_service_steps(&mut steps, extra_service_container_config(&services[i]));
                assert(specs.take(i + 3).drop_last() =~= specs.take(i + 2));
                assert(specs.take(i + 3).last() == specs[i + 2]);
                assert(steps_view(steps@) =~= head + service_steps(specs.take(i + 3)));
                i = i + 1;
            }
            assert(specs.take(i + 2) =~= specs);
        },
    }
    steps
}

} // verus!
