use vstd::prelude::*;

use crate::error::AppError;

verus! {

/// Configuration of the application stack.
#[derive(Clone, Debug)]
pub struct LlmChatConfig {
    /// The image tag to use for Open WebUI, the primary service.
    pub openwebui_image_tag: String,
    /// The image tag to use for Apache Tika, the auxiliary service.
    pub tika_image_tag: String,
    /// Any extra backend services to run, in the order given.
    pub extra_backend_services: Option<Vec<LlmChatConfigExtraBackendService>>,
}

/// Configuration of one extra backend service.
#[derive(Clone, Debug)]
pub struct LlmChatConfigExtraBackendService {
    /// The name of the service; its container is named after it.
    pub name: String,
    /// The image to run.
    pub image: String,
    /// The command and arguments to run in the container.
    pub cmd: Option<Vec<String>>,
    /// Environment variables, as `KEY=VALUE` strings.
    pub env: Option<Vec<String>>,
    /// The user to run the container as.
    pub user: Option<String>,
    /// Ports to expose within the backend network, as `port/proto` strings.
    pub ports: Option<Vec<String>>,
    /// Host volume bindings to add.
    pub volume_bindings: Option<Vec<BackendServiceHostVolumePathBinding>>,
    /// The working directory in the container.
    pub working_directory: Option<String>,
}

/// A host directory bound into a container.
#[derive(Clone, Debug)]
pub struct BackendServiceHostVolumePathBinding {
    /// The path on the host machine to bind.
    pub host_path: String,
    /// The path in the container to mount to.
    pub container_path: String,
}

pub ghost struct VolumeBindingView {
    pub host_path: Seq<char>,
    pub container_path: Seq<char>,
}

pub ghost struct ExtraServiceView {
    pub name: Seq<char>,
    pub image: Seq<char>,
    pub cmd: Option<Seq<Seq<char>>>,
    pub env: Option<Seq<Seq<char>>>,
    pub user: Option<Seq<char>>,
    pub ports: Option<Seq<Seq<char>>>,
    pub volume_bindings: Option<Seq<VolumeBindingView>>,
    pub working_directory: Option<Seq<char>>,
}

/// A configuration as values; an absent list of extra services is the empty one.
pub ghost struct StackConfigView {
    pub openwebui_image_tag: Seq<char>,
    pub tika_image_tag: Seq<char>,
    pub extra_services: Seq<ExtraServiceView>,
}

pub open spec fn strings_view(v: Seq<String>) -> Seq<Seq<char>> {
    v.map_values(|s: String| s@)
}

pub open spec fn opt_string_view(o: Option<String>) -> Option<Seq<char>> {
    match o {
        Some(s) => Some(s@),
        None => None,
    }
}

pub open spec fn opt_strings_view(o: Option<Vec<String>>) -> Option<Seq<Seq<char>>> {
    match o {
        Some(v) => Some(strings_view(v@)),
        None => None,
    }
}

impl View for BackendServiceHostVolumePathBinding {
    type V = VolumeBindingView;

    open spec fn view(&self) -> VolumeBindingView {
        VolumeBindingView { host_path: self.host_path@, container_path: self.container_path@ }
    }
}

impl View for LlmChatConfigExtraBackendService {
    type V = ExtraServiceView;

    open spec fn view(&self) -> ExtraServiceView {
        ExtraServiceView {
            name: self.name@,
            image: self.image@,
            cmd: opt_strings_view(self.cmd),
            env: opt_strings_view(self.env),
            user: opt_string_view(self.user),
            ports: opt_strings_view(self.ports),
            volume_bindings: match self.volume_bindings {
                Some(v) => Some(v@.map_values(|b: BackendServiceHostVolumePathBinding| b@)),
                None => None,
            },
            working_directory: opt_string_view(self.working_directory),
        }
    }
}

impl LlmChatConfig {
    /// The extra services as stored: absent counts as none.
    pub open spec fn extra_services(&self) -> Seq<LlmChatConfigExtraBackendService> {
        match self.extra_backend_services {
            Some(v) => v@,
            None => Seq::empty(),
        }
    }
}

impl View for LlmChatConfig {
    type V = StackConfigView;

    open spec fn view(&self) -> StackConfigView {
        StackConfigView {
            openwebui_image_tag: self.openwebui_image_tag@,
            tika_image_tag: self.tika_image_tag@,
            extra_services: self.extra_services().map_values(
                |s: LlmChatConfigExtraBackendService| s@,
            ),
        }
    }
}

/// The image tag of the primary service when the configuration names none.
pub fn openwebui_image_tag_default() -> (r: String)
    ensures
        r@ == "latest"@,
{
    String::from_str("latest")
}

/// The image tag of the auxiliary service when the configuration names none.
pub fn tika_image_tag_default() -> (r: String)
    ensures
        r@ == "latest-full"@,
{
    String::from_str("latest-full")
}

impl Default for LlmChatConfig {
    fn default() -> (r: Self)
        ensures
            r.openwebui_image_tag@ == "latest"@,
            r.tika_image_tag@ == "latest-full"@,
            r.extra_backend_services is None,
    {
        LlmChatConfig {
            openwebui_image_tag: openwebui_image_tag_default(),
            tika_image_tag: tika_image_tag_default(),
            extra_backend_services: None,
        }
    }
}

pub open spec fn binding_is_valid(b: VolumeBindingView) -> bool {
    b.host_path.len() > 0 && b.container_path.len() > 0
}

/// An extra service is valid when its name is not empty and every volume
/// binding has both paths.
pub open spec fn service_is_valid(s: ExtraServiceView) -> bool {
    &&& s.name.len() > 0
    &&& s.volume_bindings is Some ==> forall|i: int|
        0 <= i < s.volume_bindings->Some_0.len() ==> binding_is_valid(
            #[trigger] s.volume_bindings->Some_0[i],
        )
}

pub open spec fn names_are_distinct(services: Seq<ExtraServiceView>) -> bool {
    forall|i: int, j: int|
        0 <= i < j < services.len() ==> #[trigger] services[i].name != #[trigger] services[j].name
}

/// A configuration is valid when each extra service is valid and no two
/// extra services share a name.
pub open spec fn config_is_valid(c: StackConfigView) -> bool {
    &&& forall|i: int| 0 <= i < c.extra_services.len() ==> service_is_valid(#[trigger] c.extra_services[i])
    &&& names_are_distinct(c.extra_services)
}

fn binding_check(b: &BackendServiceHostVolumePathBinding) -> (r: bool)
    ensures
        r == binding_is_valid(b@),
{
    b.host_path.as_str().unicode_len() > 0 && b.container_path.as_str().unicode_len() > 0
}

fn service_check(s: &LlmChatConfigExtraBackendService) -> (r: bool)
    ensures
        r == service_is_valid(s@),
{
    if s.name.as_str().unicode_len() == 0 {
        return false;
    }
    match &s.volume_bindings {
        None => true,
        Some(bs) => {
            let ghost views = bs@.map_values(|b: BackendServiceHostVolumePathBinding| b@);
            assert(s@.volume_bindings == Some(views));
            let mut i: usize = 0;
            while i < bs.len()
                invariant
                    i <= bs.len(),
                    views == bs@.map_values(|b: BackendServiceHostVolumePathBinding| b@),
                    s@.volume_bindings == Some(views),
                    s@.name.len() > 0,
                    forall|k: int| 0 <= k < i ==> binding_is_valid(#[trigger] views[k]),
                decreases bs.len() - i,
            {
                assert(views[i as int] == bs@[i as int]@);
                if !binding_check(&bs[i]) {
                    assert(!binding_is_valid(s@.volume_bindings->Some_0[i as int]));
                    assert(!service_is_valid(s@));
                    return false;
                }
                i = i + 1;
            }
            true
        },
    }
}

/// Checks the rules of a configuration: every extra service has a non-empty
/// name and complete volume bindings, and no two extra services share a name.
pub fn validate_config(config: &LlmChatConfig) -> (r: Result<(), AppError>)
    ensures
        r is Ok <==> config_is_valid(config@),
        r is Err ==> r->Err_0 is ConfigError,
{
    let services = match &config.extra_backend_services {
        Some(v) => v,
        None => {
            return Ok(());
        },
    };
    let ghost views = config@.extra_services;
    assert(views.len() == services.len());
    let mut i: usize = 0;
    while i < services.len()
        invariant
            i <= services.len(),
            config.extra_backend_services == Some(*services),
            views == config@.extra_services,
            views.len() == services.len(),
            forall|k: int| 0 <= k < i ==> service_is_valid(#[trigger] views[k]),
            forall|a: int, b: int| 0 <= a < b < i ==> #[trigger] views[a].name != #[trigger] views[b].name,
        decreases services.len() - i,
    {
        if !service_check(&services[i]) {
            return Err(AppError::ConfigError(String::from_str("an extra service has an empty name or volume path")));
        }
        let mut j: usize = 0;
        while j < i
            invariant
                j <= i < services.len(),
                views == config@.extra_services,
                views.len() == services.len(),
                config.extra_backend_services == Some(*services),
                forall|a: int| 0 <= a < j ==> #[trigger] views[a].name != views[i as int].name,
            decreases i - j,
        {
            if services[j].name == services[i].name {
                assert(views[j as int].name == views[i as int].name);
                return Err(AppError::ConfigError(String::from_str("two extra services share a name")));
            }
            j = j + 1;
        }
        i = i + 1;
    }
    Ok(())
}

} // verus!
