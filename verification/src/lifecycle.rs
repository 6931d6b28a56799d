use vstd::prelude::*;
use crate::actions::Action;
use crate::bringup::spec_activate;
use crate::bringup::spec_enter_steady;
use crate::bringup::spec_new;
use crate::bringup::spec_run;
use crate::bringup::BringUpEvent;
use crate::bringup::Coordinator;
use crate::bringup::Phase;
use crate::bringup::BOOTSTRAP_CORE;
use crate::bringup::lemma_inactive_chain_emits_nothing;
use crate::pins::spec_core_pin;
use crate::steady::spec_steady_setup_actions;
use crate::steady::steady_setup;

verus! {

/// Everything one core decides between waking and entering its infinite
/// loop, in order: the activation transition, the chain over the given
/// capability outcomes, the unconditional transition to the steady state,
/// and the steady-loop setup that claims the core's pin.
pub open spec fn spec_core_lifecycle(
    core: u32,
    timer_support: bool,
    evs: Seq<BringUpEvent>,
) -> (Coordinator, Option<u32>, Seq<Action>) {
    let a = spec_activate(spec_new(core, timer_support));
    let run = spec_run(a.0, evs);
    let steady = spec_enter_steady(run.0);
    (
        steady.0,
        spec_core_pin(core),
        a.1 + run.1 + steady.1 + spec_steady_setup_actions(core),
    )
}

/// Drive one core from its wake-up to the edge of its infinite loop:
/// activation, the whole chain over `evs`, the steady transition, and the
/// pin setup. Returns the coordinator as the loop sees it, the resolved
/// pin (or the "no pin" sentinel), and every decided action in order.
pub fn core_lifecycle(core: u32, timer_support: bool, evs: &Vec<BringUpEvent>) -> (r: (
    Coordinator,
    Option<u32>,
    Vec<Action>,
))
    ensures
        r.0 == spec_core_lifecycle(core, timer_support, evs@).0,
        r.1 == spec_core_lifecycle(core, timer_support, evs@).1,
        r.2@ == spec_core_lifecycle(core, timer_support, evs@).2,
{
    let mut coord = Coordinator::new(core, timer_support);
    let mut acts = coord.activate();
    let mut chain_acts = coord.run_events(evs);
    acts.append(&mut chain_acts);
    let mut steady_acts = coord.enter_steady();
    acts.append(&mut steady_acts);
    let (pin, mut setup_acts) = steady_setup(core);
    acts.append(&mut setup_acts);
    (coord, pin, acts)
}

/// A core other than the bootstrap core initializes nothing shared:
/// whatever outcomes are reported to it, its whole lifecycle emits
/// exactly its greeting and its own pin setup, and it ends in the steady
/// state.
pub proof fn lemma_secondary_core_lifecycle(core: u32, timer_support: bool, evs: Seq<
    BringUpEvent,
>)
    requires
        core != BOOTSTRAP_CORE,
    ensures
        ({
            let r = spec_core_lifecycle(core, timer_support, evs);
            &&& r.0.phase == Phase::SteadyState
            &&& r.2 == seq![Action::EmitHello { core }] + spec_steady_setup_actions(core)
        }),
{
    let a = spec_activate(spec_new(core, timer_support));
    lemma_inactive_chain_emits_nothing(a.0, evs);
    let run = spec_run(a.0, evs);
    let steady = spec_enter_steady(run.0);
    assert(a.1 + run.1 + steady.1 + spec_steady_setup_actions(core) =~= seq![
        Action::EmitHello { core },
    ] + spec_steady_setup_actions(core));
}

} // verus!
