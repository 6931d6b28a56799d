use vstd::prelude::*;
use crate::actions::Action;
use crate::pins::spec_core_pin;
use crate::pins::core_pin;

verus! {

/// Time units the pin is held high in each cycle of the steady-state loop.
pub const HIGH_DELAY_UNITS: u32 = 100_000;

/// Time units the pin is held low in each cycle of the steady-state loop.
pub const LOW_DELAY_UNITS: u32 = 200_000;

/// The one-time setup of the steady-state loop: the pin this core drives,
/// switched to output mode. A core whose identifier maps to no pin gets
/// the sentinel "no pin" and performs no hardware action.
pub open spec fn spec_steady_setup_actions(core: u32) -> Seq<Action> {
    match spec_core_pin(core) {
        Some(p) => seq![Action::PinToOutput { pin: p }],
        None => Seq::<Action>::empty(),
    }
}

/// The actions of one iteration of the steady-state loop: drive the pin
/// high, wait, drive it low, wait — or nothing at all when the core
/// resolved no pin.
pub open spec fn spec_blink_cycle(pin: Option<u32>) -> Seq<Action> {
    match pin {
        Some(p) => seq![
            Action::PinHigh { pin: p },
            Action::Sleep { units: HIGH_DELAY_UNITS },
            Action::PinLow { pin: p },
            Action::Sleep { units: LOW_DELAY_UNITS },
        ],
        None => Seq::<Action>::empty(),
    }
}

/// Resolve the pin the steady-state loop of `core` drives, and the setup
/// actions that claim it. Resolution failure (an identifier beyond the
/// physical cores) yields the sentinel "no pin", never an abort.
pub fn steady_setup(core: u32) -> (r: (Option<u32>, Vec<Action>))
    ensures
        r.0 == spec_core_pin(core),
        r.1@ == spec_steady_setup_actions(core),
{
    let pin = core_pin(core);
    let mut acts: Vec<Action> = Vec::new();
    match pin {
        Some(p) => {
            acts.push(Action::PinToOutput { pin: p });
            assert(acts@ =~= seq![Action::PinToOutput { pin: p }]);
        },
        None => {
            assert(acts@ =~= Seq::<Action>::empty());
        },
    }
    (pin, acts)
}

/// The actions of the first `n` iterations of the steady-state loop,
/// concatenated: `n` identical copies of the blink cycle.
pub open spec fn spec_blink_trace(pin: Option<u32>, n: nat) -> Seq<Action>
    decreases n,
{
    if n == 0 {
        Seq::<Action>::empty()
    } else {
        spec_blink_trace(pin, (n - 1) as nat) + spec_blink_cycle(pin)
    }
}

/// However long the loop has already run, its next iteration is the same
/// fixed cycle again: the trace of `n + 1` iterations is the trace of `n`
/// iterations followed by one more identical cycle.
pub proof fn lemma_blink_trace_repeats(pin: Option<u32>, n: nat)
    ensures
        spec_blink_trace(pin, n + 1) == spec_blink_trace(pin, n) + spec_blink_cycle(pin),
{
}

/// One iteration of the infinite per-core loop. The loop itself never
/// returns — the host repeats this cycle forever — and every iteration
/// performs exactly the same fixed cycle with the literal timings
/// `HIGH_DELAY_UNITS` and `LOW_DELAY_UNITS`.
pub fn blink_cycle(pin: Option<u32>) -> (acts: Vec<Action>)
    ensures
        acts@ == spec_blink_cycle(pin),
{
    let mut acts: Vec<Action> = Vec::new();
    match pin {
        Some(p) => {
            acts.push(Action::PinHigh { pin: p });
            acts.push(Action::Sleep { units: HIGH_DELAY_UNITS });
            acts.push(Action::PinLow { pin: p });
            acts.push(Action::Sleep { units: LOW_DELAY_UNITS });
            assert(acts@ =~= spec_blink_cycle(pin));
        },
        None => {
            assert(acts@ =~= Seq::<Action>::empty());
        },
    }
    acts
}

/// Run the first `n` iterations of the steady-state loop and collect
/// every action in order. On hardware the loop never returns; this is the
/// finite prefix of its unending repetition, and each iteration is proved
/// to contribute exactly the same cycle.
pub fn blink_iterations(pin: Option<u32>, n: u32) -> (acts: Vec<Action>)
    ensures
        acts@ == spec_blink_trace(pin, n as nat),
{
    let mut acts: Vec<Action> = Vec::new();
    let mut i: u32 = 0;
    while i < n
        invariant
            i <= n,
            acts@ == spec_blink_trace(pin, i as nat),
        decreases n - i,
    {
        let mut cycle = blink_cycle(pin);
        acts.append(&mut cycle);
        i = i + 1;
    }
    acts
}

} // verus!
