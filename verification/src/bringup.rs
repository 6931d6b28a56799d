use vstd::prelude::*;
use crate::actions::Action;
use crate::registers::TIMER_CTRL_ADDR;
use crate::registers::TIMER_CTRL_START_VALUE;
use crate::registers::TIMER_LOAD_ADDR;
use crate::registers::TIMER_RELOAD_VALUE;

verus! {

/// Baud rate the serial transmitter is initialized with.
pub const SERIAL_BAUD_RATE: u32 = 115_200;

/// Identifier of the bootstrap core, the one core that initializes the
/// shared peripherals.
pub const BOOTSTRAP_CORE: u32 = 0;

/// Lifecycle phase of one core: woken by the hardware, performing its
/// one-time initialization, or running its infinite operating loop.
#[derive(Clone, Copy, PartialEq, Eq, Structural, Debug)]
pub enum Phase {
    Woken,
    PerCoreInit,
    SteadyState,
}

/// Stage of the bootstrap core's staged initialization chain. Each stage
/// waits for the outcome of one fallible capability call; `Done` records
/// whether the chain ran to completion or short-circuited.
#[derive(Clone, Copy, PartialEq, Eq, Structural, Debug)]
pub enum Stage {
    /// Waiting for the outcome of the clock-rate query.
    QueryClock,
    /// Clock rate obtained; waiting for the serial transmitter to
    /// initialize at that rate.
    InitSerial { clock: u32 },
    /// Serial ready; waiting for the console sink installation.
    InstallConsole { clock: u32 },
    /// Console installed; waiting for the I2C controller to initialize.
    InitI2c { clock: u32 },
    /// The chain has ended, successfully or not. No further stage is ever
    /// attempted.
    Done { failed: bool },
}

/// The outcome of one capability call, reported back by the host that
/// performed the corresponding action.
#[derive(Clone, Copy, PartialEq, Eq, Structural, Debug)]
pub enum BringUpEvent {
    /// The clock-rate query returned the core clock rate.
    ClockRateObtained { rate: u32 },
    /// The clock-rate query failed.
    ClockRateFailed,
    /// The serial transmitter initialized successfully.
    SerialInitialized,
    /// The serial transmitter failed to initialize.
    SerialFailed,
    /// The serial transmitter was installed as the active console sink.
    ConsoleInstalled,
    /// Installing the console sink failed.
    ConsoleFailed,
    /// The I2C controller initialized successfully.
    I2cInitialized,
    /// The I2C controller failed to initialize.
    I2cFailed,
}

/// Per-core bring-up coordinator: a state machine from lifecycle callbacks
/// and capability-call outcomes to the hardware actions the host must
/// perform next. The host owns the peripherals and the blocking calls; the
/// coordinator owns every decision.
#[derive(Clone, Copy, PartialEq, Eq, Structural, Debug)]
pub struct Coordinator {
    /// Identifier of the core this coordinator runs on; fixed at wake time.
    pub core: u32,
    /// Lifecycle phase of this core.
    pub phase: Phase,
    /// Stage of the shared-peripheral chain; meaningful on the bootstrap
    /// core only.
    pub stage: Stage,
    /// Whether this configuration includes periodic-timer interrupt
    /// support.
    pub timer_support: bool,
}

/// A freshly woken coordinator for `core`.
pub open spec fn spec_new(core: u32, timer_support: bool) -> Coordinator {
    Coordinator { core, phase: Phase::Woken, stage: Stage::QueryClock, timer_support }
}

/// The activation transition `Woken -> PerCoreInit`, fired when the
/// lifecycle host delivers the per-core activation callback. On the
/// bootstrap core it starts the shared-peripheral chain; on every other
/// core there is nothing shared to initialize. In any other phase it does
/// nothing.
pub open spec fn spec_activate(c: Coordinator) -> (Coordinator, Seq<Action>) {
    if c.phase != Phase::Woken {
        (c, Seq::<Action>::empty())
    } else if c.core == BOOTSTRAP_CORE {
        (
            Coordinator {
                core: c.core,
                phase: Phase::PerCoreInit,
                stage: Stage::QueryClock,
                timer_support: c.timer_support,
            },
            seq![Action::QueryClockRate],
        )
    } else {
        (
            Coordinator {
                core: c.core,
                phase: Phase::PerCoreInit,
                stage: Stage::Done { failed: false },
                timer_support: c.timer_support,
            },
            Seq::<Action>::empty(),
        )
    }
}

/// The actions that finish the chain successfully: the optional I2C bus
/// scan, and — only when timer support is configured, and only here, after
/// every earlier stage succeeded — the whole interrupt setup: initialize
/// interrupt management, program the periodic timer, bind the handler,
/// unmask the source, enable delivery. A chain that fails earlier, or a
/// configuration without timer support, never reaches any of it, so no
/// partial interrupt setup is ever left active.
pub open spec fn spec_chain_tail_actions(timer_support: bool) -> Seq<Action> {
    if timer_support {
        seq![
            Action::ScanI2c,
            Action::InitIrqManager,
            Action::WriteReg { addr: TIMER_CTRL_ADDR, value: TIMER_CTRL_START_VALUE },
            Action::WriteReg { addr: TIMER_LOAD_ADDR, value: TIMER_RELOAD_VALUE },
            Action::RegisterTimerIrq,
            Action::ActivateTimerIrq,
            Action::EnableIrq,
        ]
    } else {
        seq![Action::ScanI2c]
    }
}

/// One step of the staged chain: consume the outcome of the capability
/// call the current stage was waiting for, move to the next stage, and
/// emit the actions that stage asks for. A failure at any stage
/// short-circuits every later stage and drives the fallback pin high — the
/// visible failure indicator. Outcomes that no stage is waiting for, and
/// steps on a core or in a phase where the chain is not running, change
/// nothing.
pub open spec fn spec_step(c: Coordinator, ev: BringUpEvent) -> (Coordinator, Seq<Action>) {
    if c.phase != Phase::PerCoreInit || c.core != BOOTSTRAP_CORE {
        (c, Seq::<Action>::empty())
    } else {
        match (c.stage, ev) {
            (Stage::QueryClock, BringUpEvent::ClockRateObtained { rate }) => (
                Coordinator { stage: Stage::InitSerial { clock: rate }, ..c },
                seq![Action::InitSerial { clock: rate, baud: SERIAL_BAUD_RATE }],
            ),
            (Stage::QueryClock, BringUpEvent::ClockRateFailed) => (
                Coordinator { stage: Stage::Done { failed: true }, ..c },
                seq![Action::DriveFallbackHigh],
            ),
            (Stage::InitSerial { clock }, BringUpEvent::SerialInitialized) => (
                Coordinator { stage: Stage::InstallConsole { clock }, ..c },
                seq![Action::InstallConsole],
            ),
            (Stage::InitSerial { clock: _ }, BringUpEvent::SerialFailed) => (
                Coordinator { stage: Stage::Done { failed: true }, ..c },
                seq![Action::DriveFallbackHigh],
            ),
            (Stage::InstallConsole { clock }, BringUpEvent::ConsoleInstalled) => (
                Coordinator { stage: Stage::InitI2c { clock }, ..c },
                seq![Action::EmitReady, Action::InitI2c { clock }],
            ),
            (Stage::InstallConsole { clock: _ }, BringUpEvent::ConsoleFailed) => (
                Coordinator { stage: Stage::Done { failed: true }, ..c },
                seq![Action::DriveFallbackHigh],
            ),
            (Stage::InitI2c { clock: _ }, BringUpEvent::I2cInitialized) => (
                Coordinator { stage: Stage::Done { failed: false }, ..c },
                spec_chain_tail_actions(c.timer_support),
            ),
            (Stage::InitI2c { clock: _ }, BringUpEvent::I2cFailed) => (
                Coordinator { stage: Stage::Done { failed: true }, ..c },
                seq![Action::DriveFallbackHigh],
            ),
            _ => (c, Seq::<Action>::empty()),
        }
    }
}

/// The unconditional transition `PerCoreInit -> SteadyState`, fired after
/// the per-core initialization completes — whether or not any chain stage
/// failed. It emits the per-core greeting and hands the core to its
/// infinite loop. In any other phase, or while the chain is still waiting
/// for an outcome, it does nothing.
pub open spec fn spec_enter_steady(c: Coordinator) -> (Coordinator, Seq<Action>) {
    if c.phase == Phase::PerCoreInit && c.stage is Done {
        (
            Coordinator { phase: Phase::SteadyState, ..c },
            seq![Action::EmitHello { core: c.core }],
        )
    } else {
        (c, Seq::<Action>::empty())
    }
}

/// Run the chain over a whole sequence of capability outcomes,
/// accumulating the actions of every step in order.
pub open spec fn spec_run(c: Coordinator, evs: Seq<BringUpEvent>) -> (Coordinator, Seq<Action>)
    decreases evs.len(),
{
    if evs.len() == 0 {
        (c, Seq::<Action>::empty())
    } else {
        let first = spec_step(c, evs[0]);
        let rest = spec_run(first.0, evs.skip(1));
        (rest.0, first.1 + rest.1)
    }
}

/// States in which the chain consumes no further outcome: the phase is
/// not per-core init, the core is not the bootstrap core, or the chain has
/// already ended.
pub open spec fn chain_inactive(c: Coordinator) -> bool {
    c.phase != Phase::PerCoreInit || c.core != BOOTSTRAP_CORE || c.stage is Done
}

/// Once the chain has ended — or on a core where it never ran — no
/// sequence of further outcomes changes the coordinator or emits a single
/// action: a short-circuit is for good.
pub proof fn lemma_inactive_chain_emits_nothing(c: Coordinator, evs: Seq<BringUpEvent>)
    requires
        chain_inactive(c),
    ensures
        spec_run(c, evs) == (c, Seq::<Action>::empty()),
    decreases evs.len(),
{
    if evs.len() > 0 {
        assert(spec_step(c, evs[0]) == (c, Seq::<Action>::empty()));
        lemma_inactive_chain_emits_nothing(c, evs.skip(1));
        assert(Seq::<Action>::empty() + Seq::<Action>::empty() =~= Seq::<Action>::empty());
    }
}

/// An action that sets up any part of interrupt delivery: initializing
/// interrupt management, programming a register, binding the handler,
/// unmasking the source, or enabling delivery.
pub open spec fn is_interrupt_setup(a: Action) -> bool {
    ||| a is InitIrqManager
    ||| a is WriteReg
    ||| a is RegisterTimerIrq
    ||| a is ActivateTimerIrq
    ||| a is EnableIrq
}

/// If the clock-rate query fails, the fallback pin is driven high and
/// neither serial nor console nor I2C nor timer initialization is ever
/// attempted: from the failure on, the chain emits no action at all,
/// whatever outcomes arrive later, and the whole decided trace from the
/// wake-up on holds no interrupt setup of any kind.
pub proof fn lemma_clock_failure_short_circuits(timer_support: bool, later: Seq<BringUpEvent>)
    ensures
        ({
            let woken = spec_new(BOOTSTRAP_CORE, timer_support);
            let a = spec_activate(woken);
            let failed = spec_step(a.0, BringUpEvent::ClockRateFailed);
            let trace = a.1 + failed.1 + spec_run(failed.0, later).1;
            &&& failed.1 == seq![Action::DriveFallbackHigh]
            &&& failed.0.stage == (Stage::Done { failed: true })
            &&& spec_run(failed.0, later) == (failed.0, Seq::<Action>::empty())
            &&& forall|k: int| 0 <= k < trace.len() ==> !is_interrupt_setup(#[trigger] trace[k])
        }),
{
    let woken = spec_new(BOOTSTRAP_CORE, timer_support);
    let a = spec_activate(woken);
    let failed = spec_step(a.0, BringUpEvent::ClockRateFailed);
    lemma_inactive_chain_emits_nothing(failed.0, later);
    let trace = a.1 + failed.1 + spec_run(failed.0, later).1;
    assert(trace =~= seq![Action::QueryClockRate, Action::DriveFallbackHigh]);
}

/// If the clock rate is obtained but serial initialization fails, the
/// fallback pin is driven high and the console, I2C and timer stages are
/// all skipped: from the failure on, the chain emits no action at all,
/// and the whole decided trace from the wake-up on holds no interrupt
/// setup of any kind.
pub proof fn lemma_serial_failure_short_circuits(
    timer_support: bool,
    rate: u32,
    later: Seq<BringUpEvent>,
)
    ensures
        ({
            let woken = spec_new(BOOTSTRAP_CORE, timer_support);
            let a = spec_activate(woken);
            let serial = spec_step(a.0, BringUpEvent::ClockRateObtained { rate });
            let failed = spec_step(serial.0, BringUpEvent::SerialFailed);
            let trace = a.1 + serial.1 + failed.1 + spec_run(failed.0, later).1;
            &&& serial.1 == seq![Action::InitSerial { clock: rate, baud: SERIAL_BAUD_RATE }]
            &&& failed.1 == seq![Action::DriveFallbackHigh]
            &&& failed.0.stage == (Stage::Done { failed: true })
            &&& spec_run(failed.0, later) == (failed.0, Seq::<Action>::empty())
            &&& forall|k: int| 0 <= k < trace.len() ==> !is_interrupt_setup(#[trigger] trace[k])
        }),
{
    let woken = spec_new(BOOTSTRAP_CORE, timer_support);
    let a = spec_activate(woken);
    let serial = spec_step(a.0, BringUpEvent::ClockRateObtained { rate });
    let failed = spec_step(serial.0, BringUpEvent::SerialFailed);
    lemma_inactive_chain_emits_nothing(failed.0, later);
    let trace = a.1 + serial.1 + failed.1 + spec_run(failed.0, later).1;
    assert(trace =~= seq![
        Action::QueryClockRate,
        Action::InitSerial { clock: rate, baud: SERIAL_BAUD_RATE },
        Action::DriveFallbackHigh,
    ]);
}

/// If every stage succeeds, the fallback pin is never driven, the console
/// sink is installed exactly once, and — when timer support is configured
/// — the timer interrupt source is activated exactly once, interrupt
/// delivery is enabled exactly once, and the handler is bound before the
/// source is ever unmasked; without timer support no interrupt setup of
/// any kind happens.
pub proof fn lemma_successful_chain(timer_support: bool, rate: u32, later: Seq<BringUpEvent>)
    ensures
        ({
            let woken = spec_new(BOOTSTRAP_CORE, timer_support);
            let a = spec_activate(woken);
            let run = spec_run(
                a.0,
                seq![
                    BringUpEvent::ClockRateObtained { rate },
                    BringUpEvent::SerialInitialized,
                    BringUpEvent::ConsoleInstalled,
                    BringUpEvent::I2cInitialized,
                ],
            );
            let acts = a.1 + run.1;
            &&& run.0.stage == (Stage::Done { failed: false })
            &&& spec_run(run.0, later) == (run.0, Seq::<Action>::empty())
            &&& forall|k: int|
                0 <= k < acts.len() ==> !((#[trigger] acts[k]) is DriveFallbackHigh)
            &&& exists|k: int| 0 <= k < acts.len() && (#[trigger] acts[k]) is InstallConsole
            &&& forall|k1: int, k2: int|
                0 <= k1 < acts.len() && 0 <= k2 < acts.len() && (#[trigger] acts[k1])
                    is InstallConsole && (#[trigger] acts[k2]) is InstallConsole ==> k1 == k2
            &&& timer_support ==> exists|k: int|
                0 <= k < acts.len() && (#[trigger] acts[k]) is ActivateTimerIrq
            &&& timer_support ==> exists|k: int|
                0 <= k < acts.len() && (#[trigger] acts[k]) is EnableIrq
            &&& forall|k1: int, k2: int|
                0 <= k1 < acts.len() && 0 <= k2 < acts.len() && (#[trigger] acts[k1])
                    is ActivateTimerIrq && (#[trigger] acts[k2]) is ActivateTimerIrq ==> k1 == k2
            &&& forall|k1: int, k2: int|
                0 <= k1 < acts.len() && 0 <= k2 < acts.len() && (#[trigger] acts[k1]) is EnableIrq
                    && (#[trigger] acts[k2]) is EnableIrq ==> k1 == k2
            &&& timer_support ==> forall|k2: int|
                0 <= k2 < acts.len() && (#[trigger] acts[k2]) is ActivateTimerIrq ==> exists|
                    k1: int,
                |
                    0 <= k1 < k2 && (#[trigger] acts[k1]) is RegisterTimerIrq
            &&& !timer_support ==> forall|k: int|
                0 <= k < acts.len() ==> !is_interrupt_setup(#[trigger] acts[k])
        }),
{
    let woken = spec_new(BOOTSTRAP_CORE, timer_support);
    let a = spec_activate(woken);
    let e1 = BringUpEvent::ClockRateObtained { rate };
    let e2 = BringUpEvent::SerialInitialized;
    let e3 = BringUpEvent::ConsoleInstalled;
    let e4 = BringUpEvent::I2cInitialized;
    let evs = seq![e1, e2, e3, e4];
    let s1 = spec_step(a.0, e1);
    let s2 = spec_step(s1.0, e2);
    let s3 = spec_step(s2.0, e3);
    let s4 = spec_step(s3.0, e4);
    assert(evs.skip(1) =~= seq![e2, e3, e4]);
    assert(seq![e2, e3, e4].skip(1) =~= seq![e3, e4]);
    assert(seq![e3, e4].skip(1) =~= seq![e4]);
    assert(seq![e4].skip(1) =~= Seq::<BringUpEvent>::empty());
    assert(spec_run(s4.0, Seq::<BringUpEvent>::empty()) == (s4.0, Seq::<Action>::empty()));
    assert(spec_run(s3.0, seq![e4]) == (s4.0, s4.1 + Seq::<Action>::empty()));
    assert(spec_run(s2.0, seq![e3, e4]) == (s4.0, s3.1 + (s4.1 + Seq::<Action>::empty())));
    assert(spec_run(s1.0, seq![e2, e3, e4]) == (s4.0, s2.1 + (s3.1 + (s4.1
        + Seq::<Action>::empty()))));
    assert(spec_run(a.0, evs) == (s4.0, s1.1 + (s2.1 + (s3.1 + (s4.1
        + Seq::<Action>::empty())))));
    let run = spec_run(a.0, evs);
    assert(run.0 == s4.0);
    assert(run.1 =~= s1.1 + s2.1 + s3.1 + s4.1);
    lemma_inactive_chain_emits_nothing(run.0, later);
    let acts = a.1 + run.1;
    if timer_support {
        assert(acts =~= seq![
            Action::QueryClockRate,
            Action::InitSerial { clock: rate, baud: SERIAL_BAUD_RATE },
            Action::InstallConsole,
            Action::EmitReady,
            Action::InitI2c { clock: rate },
            Action::ScanI2c,
            Action::InitIrqManager,
            Action::WriteReg { addr: TIMER_CTRL_ADDR, value: TIMER_CTRL_START_VALUE },
            Action::WriteReg { addr: TIMER_LOAD_ADDR, value: TIMER_RELOAD_VALUE },
            Action::RegisterTimerIrq,
            Action::ActivateTimerIrq,
            Action::EnableIrq,
        ]);
        assert(0 <= 2 < acts.len() && acts[2] is InstallConsole);
        assert(0 <= 10 < acts.len() && acts[10] is ActivateTimerIrq);
        assert(0 <= 11 < acts.len() && acts[11] is EnableIrq);
        // the binding at index 9 precedes the unmasking at index 10
        assert(0 <= 9 < acts.len() && acts[9] is RegisterTimerIrq);
    } else {
        assert(acts =~= seq![
            Action::QueryClockRate,
            Action::InitSerial { clock: rate, baud: SERIAL_BAUD_RATE },
            Action::InstallConsole,
            Action::EmitReady,
            Action::InitI2c { clock: rate },
            Action::ScanI2c,
        ]);
        assert(0 <= 2 < acts.len() && acts[2] is InstallConsole);
    }
}

/// Once a core has reached the steady state it never leaves it: no
/// lifecycle callback and no capability outcome moves the phase anywhere,
/// and none emits any action.
pub proof fn lemma_steady_state_is_terminal(c: Coordinator, ev: BringUpEvent)
    requires
        c.phase == Phase::SteadyState,
    ensures
        spec_activate(c) == (c, Seq::<Action>::empty()),
        spec_step(c, ev) == (c, Seq::<Action>::empty()),
        spec_enter_steady(c) == (c, Seq::<Action>::empty()),
{
}

impl Coordinator {
    /// A freshly woken coordinator for `core`.
    pub fn new(core: u32, timer_support: bool) -> (c: Self)
        ensures
            c == spec_new(core, timer_support),
    {
        Coordinator { core, phase: Phase::Woken, stage: Stage::QueryClock, timer_support }
    }

    /// Deliver the per-core activation callback: see `spec_activate`.
    pub fn activate(&mut self) -> (acts: Vec<Action>)
        ensures
            *final(self) == spec_activate(*old(self)).0,
            acts@ == spec_activate(*old(self)).1,
    {
        let mut acts: Vec<Action> = Vec::new();
        if self.phase == Phase::Woken {
            self.phase = Phase::PerCoreInit;
            if self.core == BOOTSTRAP_CORE {
                self.stage = Stage::QueryClock;
                acts.push(Action::QueryClockRate);
                assert(acts@ =~= seq![Action::QueryClockRate]);
            } else {
                self.stage = Stage::Done { failed: false };
                assert(acts@ =~= Seq::<Action>::empty());
            }
        } else {
            assert(acts@ =~= Seq::<Action>::empty());
        }
        acts
    }

    /// Consume the outcome of one capability call: see `spec_step`.
    pub fn step(&mut self, ev: BringUpEvent) -> (acts: Vec<Action>)
        ensures
            *final(self) == spec_step(*old(self), ev).0,
            acts@ == spec_step(*old(self), ev).1,
    {
        let mut acts: Vec<Action> = Vec::new();
        if self.phase != Phase::PerCoreInit || self.core != BOOTSTRAP_CORE {
            assert(acts@ =~= spec_step(*old(self), ev).1);
            return acts;
        }
        match (self.stage, ev) {
            (Stage::QueryClock, BringUpEvent::ClockRateObtained { rate }) => {
                self.stage = Stage::InitSerial { clock: rate };
                acts.push(Action::InitSerial { clock: rate, baud: SERIAL_BAUD_RATE });
                assert(acts@ =~= seq![
                    Action::InitSerial { clock: rate, baud: SERIAL_BAUD_RATE },
                ]);
            },
            (Stage::QueryClock, BringUpEvent::ClockRateFailed) => {
                self.stage = Stage::Done { failed: true };
                acts.push(Action::DriveFallbackHigh);
                assert(acts@ =~= seq![Action::DriveFallbackHigh]);
            },
            (Stage::InitSerial { clock }, BringUpEvent::SerialInitialized) => {
                self.stage = Stage::InstallConsole { clock };
                acts.push(Action::InstallConsole);
                assert(acts@ =~= seq![Action::InstallConsole]);
            },
            (Stage::InitSerial { clock: _ }, BringUpEvent::SerialFailed) => {
                self.stage = Stage::Done { failed: true };
                acts.push(Action::DriveFallbackHigh);
                assert(acts@ =~= seq![Action::DriveFallbackHigh]);
            },
            (Stage::InstallConsole { clock }, BringUpEvent::ConsoleInstalled) => {
                self.stage = Stage::InitI2c { clock };
                acts.push(Action::EmitReady);
                acts.push(Action::InitI2c { clock });
                assert(acts@ =~= seq![Action::EmitReady, Action::InitI2c { clock }]);
            },
            (Stage::InstallConsole { clock: _ }, BringUpEvent::ConsoleFailed) => {
                self.stage = Stage::Done { failed: true };
                acts.push(Action::DriveFallbackHigh);
                assert(acts@ =~= seq![Action::DriveFallbackHigh]);
            },
            (Stage::InitI2c { clock: _ }, BringUpEvent::I2cInitialized) => {
                self.stage = Stage::Done { failed: false };
                acts.push(Action::ScanI2c);
                if self.timer_support {
                    acts.push(Action::InitIrqManager);
                    acts.push(Action::WriteReg {
                        addr: TIMER_CTRL_ADDR,
                        value: TIMER_CTRL_START_VALUE,
                    });
                    acts.push(Action::WriteReg {
                        addr: TIMER_LOAD_ADDR,
                        value: TIMER_RELOAD_VALUE,
                    });
                    acts.push(Action::RegisterTimerIrq);
                    acts.push(Action::ActivateTimerIrq);
                    acts.push(Action::EnableIrq);
                    assert(acts@ =~= spec_chain_tail_actions(true));
                } else {
                    assert(acts@ =~= spec_chain_tail_actions(false));
                }
            },
            (Stage::InitI2c { clock: _ }, BringUpEvent::I2cFailed) => {
                self.stage = Stage::Done { failed: true };
                acts.push(Action::DriveFallbackHigh);
                assert(acts@ =~= seq![Action::DriveFallbackHigh]);
            },
            _ => {
                assert(acts@ =~= Seq::<Action>::empty());
            },
        }
        acts
    }

    /// Consume a whole sequence of capability outcomes in order,
    /// collecting the actions of every step: the executable form of
    /// `spec_run`, which the short-circuit lemmas quantify over.
    pub fn run_events(&mut self, evs: &Vec<BringUpEvent>) -> (acts: Vec<Action>)
        ensures
            *final(self) == spec_run(*old(self), evs@).0,
            acts@ == spec_run(*old(self), evs@).1,
    {
        let mut acts: Vec<Action> = Vec::new();
        let mut i: usize = 0;
        proof {
            assert(evs@.skip(0) =~= evs@);
            assert(Seq::<Action>::empty() + spec_run(*self, evs@).1 =~= spec_run(*self, evs@).1);
        }
        while i < evs.len()
            invariant
                i <= evs.len(),
                spec_run(*old(self), evs@).0 == spec_run(*self, evs@.skip(i as int)).0,
                spec_run(*old(self), evs@).1 == acts@ + spec_run(*self, evs@.skip(i as int)).1,
            decreases evs.len() - i,
        {
            proof {
                assert(evs@.skip(i as int)[0] == evs@[i as int]);
                assert(evs@.skip(i as int).skip(1) =~= evs@.skip(i as int + 1));
            }
            let ghost pre = *self;
            let mut step_acts = self.step(evs[i]);
            proof {
                assert(spec_run(pre, evs@.skip(i as int)).0 == spec_run(
                    *self,
                    evs@.skip(i as int + 1),
                ).0);
                assert(spec_run(pre, evs@.skip(i as int)).1 == step_acts@ + spec_run(
                    *self,
                    evs@.skip(i as int + 1),
                ).1);
            }
            acts.append(&mut step_acts);
            i = i + 1;
        }
        proof {
            assert(evs@.skip(evs@.len() as int) =~= Seq::<BringUpEvent>::empty());
            assert(acts@ + Seq::<Action>::empty() =~= acts@);
        }
        acts
    }

    /// Fire the unconditional transition to the steady state: see
    /// `spec_enter_steady`.
    pub fn enter_steady(&mut self) -> (acts: Vec<Action>)
        ensures
            *final(self) == spec_enter_steady(*old(self)).0,
            acts@ == spec_enter_steady(*old(self)).1,
    {
        let mut acts: Vec<Action> = Vec::new();
        if self.phase == Phase::PerCoreInit && matches!(self.stage, Stage::Done { .. }) {
            self.phase = Phase::SteadyState;
            acts.push(Action::EmitHello { core: self.core });
            assert(acts@ =~= seq![Action::EmitHello { core: old(self).core }]);
        } else {
            assert(acts@ =~= Seq::<Action>::empty());
        }
        acts
    }
}

} // verus!
