use vstd::prelude::*;

use crate::config::{ExtraServiceView, StackConfigView};
use crate::engine::{EngineModel, EngineStepView, apply_step, lemma_run_concat, run_steps};
use crate::naming::{
    has_namespace_prefix, lemma_namespaced_has_prefix, managed_container_names, namespace_prefix,
    frontend_network,
};
use crate::teardown::{
    container_removal_steps, is_listing, managed_listed, name_matches, network_removal_steps,
    prefixed_listed,
};
use crate::topology::{
    ContainerSpecView, backend_network_spec, extra_container_spec, frontend_network_spec,
    provisioning_steps, service_container_specs, service_steps,
};

verus! {

/// Whether some container of `specs` has the name `n`.
pub open spec fn names_a_spec(specs: Seq<ContainerSpecView>, n: Seq<char>) -> bool {
    exists|i: int| 0 <= i < specs.len() && #[trigger] specs[i].name == n
}

/// Creating and starting containers leaves the networks as they are and
/// adds no container but those of `specs`.
pub proof fn lemma_service_steps_effect(e: EngineModel, specs: Seq<ContainerSpecView>)
    requires
        run_steps(e, service_steps(specs)) is Some,
    ensures
        run_steps(e, service_steps(specs))->Some_0.networks == e.networks,
        forall|n: Seq<char>|
            #[trigger] run_steps(e, service_steps(specs))->Some_0.containers.contains(n)
                ==> e.containers.contains(n) || names_a_spec(specs, n),
        forall|i: int|
            0 <= i < specs.len() ==> run_steps(e, service_steps(specs))->Some_0.containers.contains(
                #[trigger] specs[i].name,
            ),
        forall|n: Seq<char>|
            e.containers.contains(n) ==> #[trigger] run_steps(e, service_steps(specs))->Some_0.containers.contains(n),
        forall|i: int, j: int|
            0 <= i < j < specs.len() ==> #[trigger] specs[i].name != #[trigger] specs[j].name,
    decreases specs.len(),
{
    if specs.len() > 0 {
        let init = specs.drop_last();
        let last = specs.last();
        let tail = seq![
            EngineStepView::CreateContainer(last),
            EngineStepView::StartContainer(last.name),
        ];
        lemma_run_concat(e, service_steps(init), tail);
        let m1 = run_steps(e, service_steps(init))->Some_0;
        lemma_service_steps_effect(e, init);
        assert(service_steps(specs) == service_steps(init) + tail);
        assert(tail.drop_first().drop_first() =~= Seq::<EngineStepView>::empty());
        assert(tail.drop_first()[0] == tail[1]);
        if m1.containers.contains(last.name) {
            assert(run_steps(m1, tail) is None);
        }
        let m2 = EngineModel { networks: m1.networks, containers: m1.containers.insert(last.name) };
        assert(apply_step(m1, tail[0]) == Some(m2));
        assert(run_steps(m1, tail) == run_steps(m2, tail.drop_first()));
        assert(apply_step(m2, tail[1]) == Some(m2));
        assert(run_steps(m2, tail.drop_first()) == run_steps(m2, tail.drop_first().drop_first()));
        assert(run_steps(e, service_steps(specs)) == Some(m2));
        assert forall|i: int| 0 <= i < specs.len() implies m2.containers.contains(
            #[trigger] specs[i].name,
        ) by {
            if i < init.len() {
                assert(specs[i] == init[i]);
            }
        }
        assert forall|i: int, j: int| 0 <= i < j < specs.len() implies #[trigger] specs[i].name
            != #[trigger] specs[j].name by {
            assert(specs[i] == init[i]);
            if j < init.len() {
                assert(specs[j] == init[j]);
            } else {
                assert(m1.containers.contains(init[i].name));
            }
        }
        assert forall|n: Seq<char>| #[trigger] run_steps(e, service_steps(specs))->Some_0.containers.contains(n)
            implies e.containers.contains(n) || names_a_spec(specs, n) by {
            if n == last.name {
                assert(specs[specs.len() - 1].name == n);
            } else if names_a_spec(init, n) {
                let i = choose|i: int| 0 <= i < init.len() && #[trigger] init[i].name == n;
                assert(specs[i].name == n);
            }
        }
    }
}

/// The container names of the provisioning plan are the configuration's
/// managed container names.
pub proof fn lemma_spec_names(c: StackConfigView, data_dir: Seq<char>, i: int)
    requires
        0 <= i < service_container_specs(c, data_dir).len(),
    ensures
        service_container_specs(c, data_dir).len() == managed_container_names(c).len(),
        service_container_specs(c, data_dir)[i].name == managed_container_names(c)[i],
{
    if i >= 2 {
        let x: ExtraServiceView = c.extra_services[i - 2];
        assert(service_container_specs(c, data_dir)[i] == extra_container_spec(x));
    }
}

/// After a successful provisioning run, the engine holds the two networks
/// and no container that was not there before but the managed ones.
pub proof fn lemma_provisioning_effect(e: EngineModel, c: StackConfigView, data_dir: Seq<char>)
    requires
        run_steps(e, provisioning_steps(c, data_dir)) is Some,
    ensures
        run_steps(e, provisioning_steps(c, data_dir))->Some_0.networks.contains(frontend_network()),
        forall|n: Seq<char>|
            #[trigger] run_steps(e, provisioning_steps(c, data_dir))->Some_0.networks.contains(n)
                ==> e.networks.contains(n) || has_namespace_prefix(n),
        forall|n: Seq<char>|
            #[trigger] run_steps(e, provisioning_steps(c, data_dir))->Some_0.containers.contains(n)
                ==> e.containers.contains(n) || managed_container_names(c).contains(n),
        forall|n: Seq<char>|
            e.networks.contains(n) ==> #[trigger] run_steps(e, provisioning_steps(c, data_dir))->Some_0.networks.contains(n),
        forall|n: Seq<char>|
            e.containers.contains(n) ==> #[trigger] run_steps(e, provisioning_steps(c, data_dir))->Some_0.containers.contains(n),
{
    let head = seq![
        EngineStepView::CreateNetwork(frontend_network_spec()),
        EngineStepView::CreateNetwork(backend_network_spec()),
    ];
    let specs = service_container_specs(c, data_dir);
    lemma_run_concat(e, head, service_steps(specs));
    assert(head.drop_first().drop_first() =~= Seq::<EngineStepView>::empty());
    let m1 = apply_step(e, head[0])->Some_0;
    let m2 = apply_step(m1, head[1])->Some_0;
    assert(run_steps(e, head) == run_steps(m1, head.drop_first()));
    assert(head.drop_first()[0] == head[1]);
    assert(run_steps(m1, head.drop_first()) == run_steps(m2, head.drop_first().drop_first()));
    lemma_service_steps_effect(m2, specs);
    lemma_namespaced_has_prefix("frontend"@);
    lemma_namespaced_has_prefix("backend"@);
    let managed = managed_container_names(c);
    assert forall|n: Seq<char>|
        #[trigger] run_steps(e, provisioning_steps(c, data_dir))->Some_0.containers.contains(n)
            implies e.containers.contains(n) || managed.contains(n) by {
        if names_a_spec(specs, n) {
            let i = choose|i: int| 0 <= i < specs.len() && #[trigger] specs[i].name == n;
            lemma_spec_names(c, data_dir, i);
            assert(managed[i] == n);
        }
    }
}

/// Stopping and removing distinct containers that the engine holds succeeds
/// and takes exactly those containers away.
pub proof fn lemma_container_removal(e: EngineModel, names: Seq<Seq<char>>)
    requires
        names.no_duplicates(),
        forall|i: int| 0 <= i < names.len() ==> e.containers.contains(#[trigger] names[i]),
    ensures
        run_steps(e, container_removal_steps(names)) == Some(
            EngineModel {
                networks: e.networks,
                containers: e.containers.filter(|n: Seq<char>| !names.contains(n)),
            },
        ),
    decreases names.len(),
{
    if names.len() == 0 {
        assert(e.containers.filter(|n: Seq<char>| !names.contains(n)) =~= e.containers);
    } else {
        let init = names.drop_last();
        let last = names.last();
        let tail = seq![
            EngineStepView::StopContainer(last),
            EngineStepView::RemoveContainer(last),
        ];
        assert forall|i: int| 0 <= i < init.len() implies e.containers.contains(#[trigger] init[i]) by {
            assert(init[i] == names[i]);
        }
        lemma_container_removal(e, init);
        lemma_run_concat(e, container_removal_steps(init), tail);
        let m1 = EngineModel {
            networks: e.networks,
            containers: e.containers.filter(|n: Seq<char>| !init.contains(n)),
        };
        assert(e.containers.contains(names[names.len() - 1]));
        assert(!init.contains(last)) by {
            if init.contains(last) {
                let i = choose|i: int| 0 <= i < init.len() && init[i] == last;
                assert(names[i] == names[names.len() - 1]);
            }
        }
        assert(m1.containers.contains(last));
        assert(tail.drop_first().drop_first() =~= Seq::<EngineStepView>::empty());
        assert(run_steps(m1, tail) == run_steps(m1, tail.drop_first()));
        let m2 = EngineModel { networks: e.networks, containers: m1.containers.remove(last) };
        assert(run_steps(m1, tail.drop_first()) == run_steps(m2, tail.drop_first().drop_first()));
        assert forall|n: Seq<char>| names.contains(n) <==> init.contains(n) || n == last by {
            if names.contains(n) {
                let i = choose|i: int| 0 <= i < names.len() && names[i] == n;
                if i < names.len() - 1 {
                    assert(init[i] == n);
                }
            }
            if init.contains(n) {
                let i = choose|i: int| 0 <= i < init.len() && init[i] == n;
                assert(names[i] == n);
            }
            if n == last {
                assert(names[names.len() - 1] == n);
            }
        }
        assert(m2.containers =~= e.containers.filter(|n: Seq<char>| !names.contains(n)));
    }
}

/// Removing distinct networks that the engine holds succeeds and takes
/// exactly those networks away.
pub proof fn lemma_network_removal(e: EngineModel, names: Seq<Seq<char>>)
    requires
        names.no_duplicates(),
        forall|i: int| 0 <= i < names.len() ==> e.networks.contains(#[trigger] names[i]),
    ensures
        run_steps(e, network_removal_steps(names)) == Some(
            EngineModel {
                networks: e.networks.filter(|n: Seq<char>| !names.contains(n)),
                containers: e.containers,
            },
        ),
    decreases names.len(),
{
    if names.len() == 0 {
        assert(e.networks.filter(|n: Seq<char>| !names.contains(n)) =~= e.networks);
    } else {
        let first = names[0];
        let rest = names.drop_first();
        let m1 = EngineModel { networks: e.networks.remove(first), containers: e.containers };
        assert(network_removal_steps(names).drop_first() =~= network_removal_steps(rest));
        assert forall|i: int| 0 <= i < rest.len() implies m1.networks.contains(#[trigger] rest[i]) by {
            assert(rest[i] == names[i + 1]);
        }
        lemma_network_removal(m1, rest);
        assert forall|n: Seq<char>| names.contains(n) <==> rest.contains(n) || n == first by {
            if names.contains(n) {
                let i = choose|i: int| 0 <= i < names.len() && names[i] == n;
                if i > 0 {
                    assert(rest[i - 1] == n);
                }
            }
            if rest.contains(n) {
                let i = choose|i: int| 0 <= i < rest.len() && rest[i] == n;
                assert(names[i + 1] == n);
            }
        }
        assert(m1.networks.filter(|n: Seq<char>| !rest.contains(n)) =~= e.networks.filter(
            |n: Seq<char>| !names.contains(n),
        ));
    }
}

proof fn lemma_listed_are_present(listed: Seq<Seq<char>>, pool: Set<Seq<char>>, filters: Seq<Seq<char>>)
    requires
        is_listing(listed, pool, filters),
    ensures
        forall|i: int| 0 <= i < listed.len() ==> pool.contains(#[trigger] listed[i]),
{
    assert forall|i: int| 0 <= i < listed.len() implies pool.contains(#[trigger] listed[i]) by {
        assert(listed.contains(listed[i]));
    }
}

proof fn lemma_prefixed_matches(n: Seq<char>)
    requires
        has_namespace_prefix(n),
    ensures
        name_matches(namespace_prefix(), n),
{
    assert(n.subrange(0int, 0int + namespace_prefix().len()) == namespace_prefix());
}

proof fn lemma_matches_itself(n: Seq<char>)
    ensures
        name_matches(n, n),
{
    assert(n.subrange(0int, 0int + n.len()) =~= n);
}

/// What a filtered sequence holds, and that filtering keeps names distinct.
pub proof fn lemma_filter_membership(s: Seq<Seq<char>>, p: spec_fn(Seq<char>) -> bool)
    ensures
        forall|x: Seq<char>| #[trigger] s.filter(p).contains(x) <==> s.contains(x) && p(x),
        s.no_duplicates() ==> s.filter(p).no_duplicates(),
    decreases s.len(),
{
    reveal(Seq::filter);
    if s.len() > 0 {
        let init = s.drop_last();
        let last = s.last();
        let f = init.filter(p);
        lemma_filter_membership(init, p);
        assert forall|x: Seq<char>| s.contains(x) <==> init.contains(x) || x == last by {
            if s.contains(x) {
                let i = choose|i: int| 0 <= i < s.len() && s[i] == x;
                if i < s.len() - 1 {
                    assert(init[i] == x);
                }
            }
            if init.contains(x) {
                let i = choose|i: int| 0 <= i < init.len() && init[i] == x;
                assert(s[i] == x);
            }
            if x == last {
                assert(s[s.len() - 1] == x);
            }
        }
        if p(last) {
            let out = f.push(last);
            assert(s.filter(p) == out);
            assert forall|x: Seq<char>| out.contains(x) <==> f.contains(x) || x == last by {
                if out.contains(x) {
                    let i = choose|i: int| 0 <= i < out.len() && out[i] == x;
                    if i < f.len() {
                        assert(f[i] == x);
                    }
                }
                if f.contains(x) {
                    let i = choose|i: int| 0 <= i < f.len() && f[i] == x;
                    assert(out[i] == x);
                }
                if x == last {
                    assert(out[f.len() as int] == x);
                }
            }
            if s.no_duplicates() {
                assert(!init.contains(last)) by {
                    if init.contains(last) {
                        let i = choose|i: int| 0 <= i < init.len() && init[i] == last;
                        assert(s[i] == s[s.len() - 1]);
                    }
                }
                assert(init.no_duplicates()) by {
                    assert forall|i: int, j: int|
                        0 <= i < init.len() && 0 <= j < init.len() && i != j implies init[i]
                        != init[j] by {
                        assert(init[i] == s[i] && init[j] == s[j]);
                    }
                }
                assert forall|i: int, j: int|
                    0 <= i < out.len() && 0 <= j < out.len() && i != j implies out[i] != out[j] by {
                    if i == f.len() {
                        assert(f.contains(out[j]));
                    } else if j == f.len() {
                        assert(f.contains(out[i]));
                    }
                }
            }
        } else {
            if s.no_duplicates() {
                assert(init.no_duplicates()) by {
                    assert forall|i: int, j: int|
                        0 <= i < init.len() && 0 <= j < init.len() && i != j implies init[i]
                        != init[j] by {
                        assert(init[i] == s[i] && init[j] == s[j]);
                    }
                }
            }
        }
    }
}

/// Container cleanup, on any engine and for any listing the engine gives:
/// it succeeds and takes away exactly the configuration's managed
/// containers; networks and every other container stay.
pub proof fn lemma_container_cleanup(e: EngineModel, c: StackConfigView, listed: Seq<Seq<char>>)
    requires
        is_listing(listed, e.containers, managed_container_names(c)),
    ensures
        run_steps(e, container_removal_steps(managed_listed(c, listed))) == Some(
            EngineModel {
                networks: e.networks,
                containers: e.containers.filter(
                    |n: Seq<char>| !managed_container_names(c).contains(n),
                ),
            },
        ),
{
    let managed = managed_container_names(c);
    let p = |n: Seq<char>| managed.contains(n);
    let picked = managed_listed(c, listed);
    lemma_filter_membership(listed, p);
    lemma_listed_are_present(listed, e.containers, managed);
    assert forall|i: int| 0 <= i < picked.len() implies e.containers.contains(#[trigger] picked[i]) by {
        assert(picked.contains(picked[i]));
    }
    lemma_container_removal(e, picked);
    assert forall|n: Seq<char>| e.containers.contains(n) implies (picked.contains(n)
        <==> managed.contains(n)) by {
        if managed.contains(n) {
            let i = choose|i: int| 0 <= i < managed.len() && managed[i] == n;
            lemma_matches_itself(n);
            assert(name_matches(managed[i], n));
            assert(listed.contains(n));
        }
    }
    assert(e.containers.filter(|n: Seq<char>| !picked.contains(n)) =~= e.containers.filter(
        |n: Seq<char>| !managed.contains(n),
    ));
}

/// Network cleanup, on any engine and for any listing the engine gives: it
/// succeeds and takes away exactly the networks under the namespace prefix;
/// containers and every other network stay.
pub proof fn lemma_network_cleanup(e: EngineModel, listed: Seq<Seq<char>>)
    requires
        is_listing(listed, e.networks, seq![namespace_prefix()]),
    ensures
        run_steps(e, network_removal_steps(prefixed_listed(listed))) == Some(
            EngineModel {
                networks: e.networks.filter(|n: Seq<char>| !has_namespace_prefix(n)),
                containers: e.containers,
            },
        ),
{
    let p = |n: Seq<char>| has_namespace_prefix(n);
    let picked = prefixed_listed(listed);
    lemma_filter_membership(listed, p);
    lemma_listed_are_present(listed, e.networks, seq![namespace_prefix()]);
    assert forall|i: int| 0 <= i < picked.len() implies e.networks.contains(#[trigger] picked[i]) by {
        assert(picked.contains(picked[i]));
    }
    lemma_network_removal(e, picked);
    assert forall|n: Seq<char>| e.networks.contains(n) implies (picked.contains(n)
        <==> has_namespace_prefix(n)) by {
        if has_namespace_prefix(n) {
            lemma_prefixed_matches(n);
            assert(seq![namespace_prefix()][0] == namespace_prefix());
            assert(listed.contains(n));
        }
    }
    assert(e.networks.filter(|n: Seq<char>| !picked.contains(n)) =~= e.networks.filter(
        |n: Seq<char>| !has_namespace_prefix(n),
    ));
}

/// Cleanup of an engine that holds no managed container and no network
/// under the prefix succeeds and changes nothing.
pub proof fn lemma_cleanup_of_clean_engine_is_noop(
    e: EngineModel,
    c: StackConfigView,
    listed_containers: Seq<Seq<char>>,
    listed_networks: Seq<Seq<char>>,
)
    requires
        forall|n: Seq<char>|
            #[trigger] e.containers.contains(n) ==> !managed_container_names(c).contains(n),
        forall|n: Seq<char>| #[trigger] e.networks.contains(n) ==> !has_namespace_prefix(n),
        is_listing(listed_containers, e.containers, managed_container_names(c)),
        is_listing(listed_networks, e.networks, seq![namespace_prefix()]),
    ensures
        run_steps(e, container_removal_steps(managed_listed(c, listed_containers))) == Some(e),
        run_steps(e, network_removal_steps(prefixed_listed(listed_networks))) == Some(e),
{
    lemma_container_cleanup(e, c, listed_containers);
    lemma_network_cleanup(e, listed_networks);
    assert(e.containers.filter(|n: Seq<char>| !managed_container_names(c).contains(n))
        =~= e.containers);
    assert(e.networks.filter(|n: Seq<char>| !has_namespace_prefix(n)) =~= e.networks);
}

/// Provisioning followed by cleanup, on an engine that holds no managed
/// container and no network under the prefix, succeeds and gives back the
/// engine as it was. The containers are listed on the provisioned engine,
/// the networks after the containers are gone.
pub proof fn lemma_provision_then_cleanup(
    c: StackConfigView,
    data_dir: Seq<char>,
    start: EngineModel,
    listed_containers: Seq<Seq<char>>,
    listed_networks: Seq<Seq<char>>,
)
    requires
        forall|n: Seq<char>|
            #[trigger] start.containers.contains(n) ==> !managed_container_names(c).contains(n),
        forall|n: Seq<char>| #[trigger] start.networks.contains(n) ==> !has_namespace_prefix(n),
        run_steps(start, provisioning_steps(c, data_dir)) is Some,
        is_listing(
            listed_containers,
            run_steps(start, provisioning_steps(c, data_dir))->Some_0.containers,
            managed_container_names(c),
        ),
        is_listing(
            listed_networks,
            run_steps(
                run_steps(start, provisioning_steps(c, data_dir))->Some_0,
                container_removal_steps(managed_listed(c, listed_containers)),
            )->Some_0.networks,
            seq![namespace_prefix()],
        ),
    ensures
        ({
            let provisioned = run_steps(start, provisioning_steps(c, data_dir))->Some_0;
            let cleared = run_steps(
                provisioned,
                container_removal_steps(managed_listed(c, listed_containers)),
            );
            &&& cleared is Some
            &&& run_steps(cleared->Some_0, network_removal_steps(prefixed_listed(listed_networks)))
                == Some(start)
        }),
{
    let provisioned = run_steps(start, provisioning_steps(c, data_dir))->Some_0;
    let managed = managed_container_names(c);
    lemma_provisioning_effect(start, c, data_dir);
    lemma_container_cleanup(provisioned, c, listed_containers);
    let cleared = run_steps(provisioned, container_removal_steps(managed_listed(c, listed_containers)))->Some_0;
    lemma_network_cleanup(cleared, listed_networks);
    assert(provisioned.containers.filter(|n: Seq<char>| !managed.contains(n)) =~= start.containers);
    assert(provisioned.networks.filter(|n: Seq<char>| !has_namespace_prefix(n)) =~= start.networks);
}

/// Two extra services that share a name make provisioning fail, on any
/// engine: the second container cannot take the name of the first.
pub proof fn lemma_duplicate_names_fail_provisioning(
    c: StackConfigView,
    data_dir: Seq<char>,
    start: EngineModel,
    i: int,
    j: int,
)
    requires
        0 <= i < j < c.extra_services.len(),
        c.extra_services[i].name == c.extra_services[j].name,
    ensures
        run_steps(start, provisioning_steps(c, data_dir)) is None,
{
    if run_steps(start, provisioning_steps(c, data_dir)) is Some {
        let head = seq![
            EngineStepView::CreateNetwork(frontend_network_spec()),
            EngineStepView::CreateNetwork(backend_network_spec()),
        ];
        let specs = service_container_specs(c, data_dir);
        lemma_run_concat(start, head, service_steps(specs));
        let m = run_steps(start, head)->Some_0;
        lemma_service_steps_effect(m, specs);
        lemma_spec_names(c, data_dir, i + 2);
        lemma_spec_names(c, data_dir, j + 2);
        assert(specs[i + 2].name != specs[j + 2].name);
    }
}

/// Provisioning a second time without cleanup in between fails: the first
/// network already exists.
pub proof fn lemma_provision_twice_fails(c: StackConfigView, data_dir: Seq<char>, start: EngineModel)
    requires
        run_steps(start, provisioning_steps(c, data_dir)) is Some,
    ensures
        run_steps(run_steps(start, provisioning_steps(c, data_dir))->Some_0, provisioning_steps(c, data_dir))
            is None,
{
    lemma_provisioning_effect(start, c, data_dir);
    let plan = provisioning_steps(c, data_dir);
    assert(plan[0] == EngineStepView::CreateNetwork(frontend_network_spec()));
}

} // verus!
