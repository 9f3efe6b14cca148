use vstd::prelude::*;

use crate::config::{LlmChatConfig, StackConfigView, strings_view};
use crate::engine::{EngineStep, EngineStepView, steps_view};
use crate::naming::{
    NAMESPACE_PREFIX, extra_service_container_name, has_namespace_prefix, managed_container_names,
    namespace_prefix, namespaced, openwebui_container_name, tika_container_name,
};

verus! {

/// Whether an engine name filter selects a name: the filter occurs in it.
pub open spec fn name_matches(filter: Seq<char>, name: Seq<char>) -> bool {
    exists|k: int|
        0 <= k && k + filter.len() <= name.len() && #[trigger] name.subrange(k, k + filter.len())
            == filter
}

/// Whether `listed` is what an engine answers when asked for the names in
/// `pool` that some filter selects: each such name once, in any order.
pub open spec fn is_listing(listed: Seq<Seq<char>>, pool: Set<Seq<char>>, filters: Seq<Seq<char>>) -> bool {
    &&& listed.no_duplicates()
    &&& forall|n: Seq<char>|
        #[trigger] listed.contains(n) <==> pool.contains(n) && exists|i: int|
            0 <= i < filters.len() && name_matches(#[trigger] filters[i], n)
}

/// The name filters that select a configuration's containers.
pub fn container_filters(config: &LlmChatConfig) -> (r: Vec<String>)
    ensures
        strings_view(r@) == managed_container_names(config@),
{
    let mut r: Vec<String> = Vec::new();
    r.push(openwebui_container_name());
    r.push(tika_container_name());
    let ghost target = managed_container_names(config@);
    let ghost extras = config@.extra_services;
    match &config.extra_backend_services {
        None => {
            assert(strings_view(r@) =~= target);
        },
        Some(services) => {
            let mut i: usize = 0;
            while i < services.len()
                invariant
                    i <= services.len(),
                    config.extra_backend_services == Some(*services),
                    extras == config@.extra_services,
                    extras.len() == services.len(),
                    target == managed_container_names(config@),
                    target.len() == services.len() + 2,
                    strings_view(r@) =~= target.take(i + 2),
                decreases services.len() - i,
            {
                assert(extras[i as int] == services@[i as int]@);
                assert(target[i + 2] == namespaced(extras[i as int].name));
                r.push(extra_service_container_name(&services[i]));
                assert(target.take(i + 3) =~= target.take(i + 2).push(target[i + 2]));
                i = i + 1;
            }
            assert(target.take(i + 2) =~= target);
        },
    }
    r
}

/// The name filter that selects every network of the namespace.
pub fn network_filter() -> (r: String)
    ensures
        r@ == namespace_prefix(),
{
    String::from_str(NAMESPACE_PREFIX)
}

/// The listed container names that are managed names of the configuration,
/// in listing order. The engine's filters select names that merely contain a
/// managed name too; those are left alone.
pub open spec fn managed_listed(c: StackConfigView, listed: Seq<Seq<char>>) -> Seq<Seq<char>> {
    listed.filter(|n: Seq<char>| managed_container_names(c).contains(n))
}

/// The listed network names that lie under the namespace prefix, in listing
/// order.
pub open spec fn prefixed_listed(listed: Seq<Seq<char>>) -> Seq<Seq<char>> {
    listed.filter(|n: Seq<char>| has_namespace_prefix(n))
}

/// Whether `name` is one of the configuration's managed container names.
pub fn is_managed_container_name(config: &LlmChatConfig, name: &String) -> (r: bool)
    ensures
        r == managed_container_names(config@).contains(name@),
{
    let filters = container_filters(config);
    let ghost managed = managed_container_names(config@);
    let mut k: usize = 0;
    while k < filters.len()
        invariant
            k <= filters.len(),
            strings_view(filters@) == managed,
            managed.len() == filters.len(),
            managed == managed_container_names(config@),
            forall|i: int| 0 <= i < k ==> managed[i] != name@,
        decreases filters.len() - k,
    {
        assert(managed[k as int] == filters@[k as int]@);
        if filters[k] == *name {
            assert(managed[k as int] == name@);
            return true;
        }
        k = k + 1;
    }
    false
}

/// Whether `name` lies under the namespace prefix.
pub fn has_prefix(name: &str) -> (r: bool)
    ensures
        r == has_namespace_prefix(name@),
{
    let prefix = NAMESPACE_PREFIX;
    let p = prefix.unicode_len();
    let n = name.unicode_len();
    if n < p {
        return false;
    }
    let mut i: usize = 0;
    while i < p
        invariant
            p == prefix@.len(),
            prefix@ == namespace_prefix(),
            n == name@.len(),
            p <= n,
            i <= p,
            forall|k: int| 0 <= k < i ==> name@[k] == prefix@[k],
        decreases p - i,
    {
        if name.get_char(i) != prefix.get_char(i) {
            assert(name@.subrange(0, p as int)[i as int] != prefix@[i as int]);
            return false;
        }
        i = i + 1;
    }
    assert(name@.subrange(0, p as int) =~= prefix@);
    true
}

/// Narrows a container listing to the configuration's managed names.
pub fn managed_listed_containers(config: &LlmChatConfig, listed: &Vec<String>) -> (r: Vec<String>)
    ensures
        strings_view(r@) == managed_listed(config@, strings_view(listed@)),
{
    let ghost all = strings_view(listed@);
    let ghost pred = |n: Seq<char>| managed_container_names(config@).contains(n);
    let mut r: Vec<String> = Vec::new();
    let mut i: usize = 0;
    proof {
        reveal(Seq::filter);
    }
    assert(all.take(0).filter(pred) =~= Seq::<Seq<char>>::empty());
    while i < listed.len()
        invariant
            i <= listed.len(),
            all == strings_view(listed@),
            pred == (|n: Seq<char>| managed_container_names(config@).contains(n)),
            strings_view(r@) =~= all.take(i as int).filter(pred),
        decreases listed.len() - i,
    {
        proof {
            reveal(Seq::filter);
        }
        assert(all.take(i + 1).drop_last() =~= all.take(i as int));
        assert(all.take(i + 1).last() == listed@[i as int]@);
        if is_managed_container_name(config, &listed[i]) {
            r.push(listed[i].clone());
        }
        i = i + 1;
    }
    assert(all.take(i as int) =~= all);
    r
}

/// Narrows a network listing to the names under the namespace prefix.
pub fn prefixed_listed_networks(listed: &Vec<String>) -> (r: Vec<String>)
    ensures
        strings_view(r@) == prefixed_listed(strings_view(listed@)),
{
    let ghost all = strings_view(listed@);
    let ghost pred = |n: Seq<char>| has_namespace_prefix(n);
    let mut r: Vec<String> = Vec::new();
    let mut i: usize = 0;
    proof {
        reveal(Seq::filter);
    }
    assert(all.take(0).filter(pred) =~= Seq::<Seq<char>>::empty());
    while i < listed.len()
        invariant
            i <= listed.len(),
            all == strings_view(listed@),
            pred == (|n: Seq<char>| has_namespace_prefix(n)),
            strings_view(r@) =~= all.take(i as int).filter(pred),
        decreases listed.len() - i,
    {
        proof {
            reveal(Seq::filter);
        }
        assert(all.take(i + 1).drop_last() =~= all.take(i as int));
        assert(all.take(i + 1).last() == listed@[i as int]@);
        if has_prefix(listed[i].as_str()) {
            r.push(listed[i].clone());
        }
        i = i + 1;
    }
    assert(all.take(i as int) =~= all);
    r
}

/// A name with every leading `/` taken off.
pub open spec fn trim_leading_slashes(s: Seq<char>) -> Seq<char>
    decreases s.len(),
{
    if s.len() > 0 && s[0] == '/' {
        trim_leading_slashes(s.drop_first())
    } else {
        s
    }
}

/// A name with every trailing `/` taken off.
pub open spec fn trim_trailing_slashes(s: Seq<char>) -> Seq<char>
    decreases s.len(),
{
    if s.len() > 0 && s.last() == '/' {
        trim_trailing_slashes(s.drop_last())
    } else {
        s
    }
}

/// A name with the `/` at both of its ends taken off.
pub open spec fn trim_slashes(s: Seq<char>) -> Seq<char> {
    trim_trailing_slashes(trim_leading_slashes(s))
}

/// Takes the `/` off both ends of a name.
pub fn strip_slashes(s: &str) -> (r: String)
    ensures
        r@ == trim_slashes(s@),
{
    let n = s.unicode_len();
    let mut i: usize = 0;
    assert(s@.subrange(0, n as int) =~= s@);
    while i < n && s.get_char(i) == '/'
        invariant
            n == s@.len(),
            i <= n,
            trim_leading_slashes(s@) == trim_leading_slashes(s@.subrange(i as int, n as int)),
        decreases n - i,
    {
        assert(s@.subrange(i as int, n as int).drop_first() =~= s@.subrange(i + 1, n as int));
        i = i + 1;
    }
    assert(trim_leading_slashes(s@.subrange(i as int, n as int)) == s@.subrange(i as int, n as int));
    let mut j: usize = n;
    while j > i && s.get_char(j - 1) == '/'
        invariant
            n == s@.len(),
            i <= j <= n,
            trim_trailing_slashes(s@.subrange(i as int, n as int)) == trim_trailing_slashes(
                s@.subrange(i as int, j as int),
            ),
        decreases j,
    {
        assert(s@.subrange(i as int, j as int).drop_last() =~= s@.subrange(i as int, j - 1));
        j = j - 1;
    }
    assert(trim_trailing_slashes(s@.subrange(i as int, j as int)) == s@.subrange(i as int, j as int));
    String::from_str(s.substring_char(i, j))
}

/// The name to address a listed container by: its first reported name
/// without the `/` the engine puts in front; `None` when the engine reported
/// no name.
pub fn listed_container_name(names: &Vec<String>) -> (r: Option<String>)
    ensures
        names@.len() == 0 ==> r is None,
        names@.len() > 0 ==> r is Some && r->Some_0@ == trim_slashes(names@[0]@),
{
    if names.len() == 0 {
        None
    } else {
        Some(strip_slashes(names[0].as_str()))
    }
}

/// Stop then remove each container, in order.
pub open spec fn container_removal_steps(names: Seq<Seq<char>>) -> Seq<EngineStepView>
    decreases names.len(),
{
    if names.len() == 0 {
        Seq::empty()
    } else {
        container_removal_steps(names.drop_last()) + seq![
            EngineStepView::StopContainer(names.last()),
            EngineStepView::RemoveContainer(names.last()),
        ]
    }
}

/// Remove each network, in order.
pub open spec fn network_removal_steps(names: Seq<Seq<char>>) -> Seq<EngineStepView> {
    names.map_values(|n: Seq<char>| EngineStepView::RemoveNetwork(n))
}

/// The steps that remove the listed containers: each is stopped, then
/// removed by force.
pub fn container_removal_plan(names: &Vec<String>) -> (r: Vec<EngineStep>)
    ensures
        steps_view(r@) == container_removal_steps(strings_view(names@)),
{
    let ghost all = strings_view(names@);
    let mut r: Vec<EngineStep> = Vec::new();
    let mut i: usize = 0;
    assert(container_removal_steps(all.take(0)) =~= Seq::<EngineStepView>::empty());
    while i < names.len()
        invariant
            i <= names.len(),
            all == strings_view(names@),
            steps_view(r@) =~= container_removal_steps(all.take(i as int)),
        decreases names.len() - i,
    {
        r.push(EngineStep::StopContainer(names[i].clone()));
        r.push(EngineStep::RemoveContainer(names[i].clone()));
        assert(all.take(i + 1).drop_last() =~= all.take(i as int));
        assert(all.take(i + 1).last() == names@[i as int]@);
        i = i + 1;
    }
    assert(all.take(i as int) =~= all);
    r
}

/// The steps that remove the listed networks.
pub fn network_removal_plan(names: &Vec<String>) -> (r: Vec<EngineStep>)
    ensures
        steps_view(r@) == network_removal_steps(strings_view(names@)),
{
    let ghost all = strings_view(names@);
    let mut r: Vec<EngineStep> = Vec::new();
    let mut i: usize = 0;
    while i < names.len()
        invariant
            i <= names.len(),
            all == strings_view(names@),
            steps_view(r@) =~= network_removal_steps(all.take(i as int)),
        decreases names.len() - i,
    {
        let ghost before = steps_view(r@);
        r.push(EngineStep::RemoveNetwork(names[i].clone()));
        assert(steps_view(r@) =~= before.push(EngineStepView::RemoveNetwork(all[i as int])));
        assert(network_removal_steps(all.take(i + 1)) =~= network_removal_steps(all.take(i as int)).push(
            EngineStepView::RemoveNetwork(all[i as int]),
        ));
        i = i + 1;
    }
    assert(all.take(i as int) =~= all);
    r
}

} // verus!
