use vstd::prelude::*;

use crate::topology::{ContainerSpec, ContainerSpecView, NetworkSpec, NetworkSpecView};

verus! {

/// One call to the container engine.
#[derive(Clone, Debug)]
pub enum EngineStep {
    CreateNetwork(NetworkSpec),
    CreateContainer(ContainerSpec),
    StartContainer(String),
    StopContainer(String),
    /// Removes a container by force, whether it runs or not.
    RemoveContainer(String),
    RemoveNetwork(String),
}

pub ghost enum EngineStepView {
    CreateNetwork(NetworkSpecView),
    CreateContainer(ContainerSpecView),
    StartContainer(Seq<char>),
    StopContainer(Seq<char>),
    RemoveContainer(Seq<char>),
    RemoveNetwork(Seq<char>),
}

impl View for EngineStep {
    type V = EngineStepView;

    open spec fn view(&self) -> EngineStepView {
        match self {
            EngineStep::CreateNetwork(n) => EngineStepView::CreateNetwork(n@),
            EngineStep::CreateContainer(c) => EngineStepView::CreateContainer(c@),
            EngineStep::StartContainer(s) => EngineStepView::StartContainer(s@),
            EngineStep::StopContainer(s) => EngineStepView::StopContainer(s@),
            EngineStep::RemoveContainer(s) => EngineStepView::RemoveContainer(s@),
            EngineStep::RemoveNetwork(s) => EngineStepView::RemoveNetwork(s@),
        }
    }
}

pub open spec fn steps_view(v: Seq<EngineStep>) -> Seq<EngineStepView> {
    v.map_values(|s: EngineStep| s@)
}

/// A failed stop is ignored, since the container may already be stopped;
/// every other failed step ends the run.
pub open spec fn failure_is_fatal(step: EngineStepView) -> bool {
    !(step is StopContainer)
}

/// Whether a run of steps ends when this step fails.
pub fn is_fatal_failure(step: &EngineStep) -> (r: bool)
    ensures
        r == failure_is_fatal(step@),
{
    match step {
        EngineStep::StopContainer(_) => false,
        _ => true,
    }
}

/// The resources an engine holds, by name.
pub ghost struct EngineModel {
    pub networks: Set<Seq<char>>,
    pub containers: Set<Seq<char>>,
}

/// How an engine answers one step: `None` when the step fails. Names are
/// unique among networks and among containers; a step on a missing resource
/// fails.
pub open spec fn apply_step(e: EngineModel, step: EngineStepView) -> Option<EngineModel> {
    match step {
        EngineStepView::CreateNetwork(n) => if e.networks.contains(n.name) {
            None
        } else {
            Some(EngineModel { networks: e.networks.insert(n.name), containers: e.containers })
        },
        EngineStepView::CreateContainer(c) => if e.containers.contains(c.name) {
            None
        } else {
            Some(EngineModel { networks: e.networks, containers: e.containers.insert(c.name) })
        },
        EngineStepView::StartContainer(name) => if e.containers.contains(name) {
            Some(e)
        } else {
            None
        },
        EngineStepView::StopContainer(name) => if e.containers.contains(name) {
            Some(e)
        } else {
            None
        },
        EngineStepView::RemoveContainer(name) => if e.containers.contains(name) {
            Some(EngineModel { networks: e.networks, containers: e.containers.remove(name) })
        } else {
            None
        },
        EngineStepView::RemoveNetwork(name) => if e.networks.contains(name) {
            Some(EngineModel { networks: e.networks.remove(name), containers: e.containers })
        } else {
            None
        },
    }
}

/// Runs steps in order: a fatal failure ends the run with `None`, a soft
/// one is passed over.
pub open spec fn run_steps(e: EngineModel, steps: Seq<EngineStepView>) -> Option<EngineModel>
    decreases steps.len(),
{
    if steps.len() == 0 {
        Some(e)
    } else {
        match apply_step(e, steps[0]) {
            Some(next) => run_steps(next, steps.drop_first()),
            None => if failure_is_fatal(steps[0]) {
                None
            } else {
                run_steps(e, steps.drop_first())
            },
        }
    }
}

/// Running two lists of steps one after the other is running their concatenation.
pub proof fn lemma_run_concat(e: EngineModel, a: Seq<EngineStepView>, b: Seq<EngineStepView>)
    ensures
        run_steps(e, a + b) == match run_steps(e, a) {
            Some(m) => run_steps(m, b),
            None => None,
        },
    decreases a.len(),
{
    if a.len() == 0 {
        assert(a + b =~= b);
    } else {
        assert((a + b)[0] == a[0]);
        assert((a + b).drop_first() =~= a.drop_first() + b);
        match apply_step(e, a[0]) {
            Some(next) => lemma_run_concat(next, a.drop_first(), b),
            None => lemma_run_concat(e, a.drop_first(), b),
        }
    }
}

} // verus!
