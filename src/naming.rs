use vstd::prelude::*;

use crate::config::{LlmChatConfigExtraBackendService, StackConfigView};

verus! {

/// Prefix of every network and container name this library manages.
pub const NAMESPACE_PREFIX: &'static str = "local_llm_";

pub open spec fn namespace_prefix() -> Seq<char> {
    NAMESPACE_PREFIX@
}

/// The engine name of a resource with the given identity.
pub open spec fn namespaced(identity: Seq<char>) -> Seq<char> {
    namespace_prefix() + identity
}

/// Whether a name lies under the namespace prefix.
pub open spec fn has_namespace_prefix(name: Seq<char>) -> bool {
    name.len() >= namespace_prefix().len() && name.subrange(0, namespace_prefix().len() as int)
        == namespace_prefix()
}

pub open spec fn frontend_network() -> Seq<char> {
    namespaced("frontend"@)
}

pub open spec fn backend_network() -> Seq<char> {
    namespaced("backend"@)
}

pub open spec fn openwebui_container() -> Seq<char> {
    namespaced("openwebui"@)
}

pub open spec fn tika_container() -> Seq<char> {
    namespaced("tika"@)
}

/// Names of the containers a configuration runs: the primary service, the
/// auxiliary service, then each extra service in list order.
pub open spec fn managed_container_names(c: StackConfigView) -> Seq<Seq<char>> {
    seq![openwebui_container(), tika_container()] + c.extra_services.map_values(
        |s: crate::config::ExtraServiceView| namespaced(s.name),
    )
}

/// The engine name of the resource with the given identity.
pub fn namespaced_name(identity: &str) -> (r: String)
    ensures
        r@ == namespaced(identity@),
{
    String::from_str(NAMESPACE_PREFIX).concat(identity)
}

pub fn frontend_network_name() -> (r: String)
    ensures
        r@ == frontend_network(),
{
    namespaced_name("frontend")
}

pub fn backend_network_name() -> (r: String)
    ensures
        r@ == backend_network(),
{
    namespaced_name("backend")
}

pub fn openwebui_container_name() -> (r: String)
    ensures
        r@ == openwebui_container(),
{
    namespaced_name("openwebui")
}

pub fn tika_container_name() -> (r: String)
    ensures
        r@ == tika_container(),
{
    namespaced_name("tika")
}

/// The container name of an extra service.
pub fn extra_service_container_name(service: &LlmChatConfigExtraBackendService) -> (r: String)
    ensures
        r@ == namespaced(service.name@),
{
    namespaced_name(service.name.as_str())
}

pub proof fn lemma_namespaced_has_prefix(identity: Seq<char>)
    ensures
        has_namespace_prefix(namespaced(identity)),
{
    assert(namespaced(identity).subrange(0, namespace_prefix().len() as int) =~= namespace_prefix());
}

} // verus!
