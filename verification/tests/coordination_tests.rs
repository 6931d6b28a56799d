use ruspiro_kernel::actions::Action;
use ruspiro_kernel::bringup::BringUpEvent;
use ruspiro_kernel::bringup::Coordinator;
use ruspiro_kernel::bringup::Phase;
use ruspiro_kernel::bringup::Stage;
use ruspiro_kernel::bringup::BOOTSTRAP_CORE;
use ruspiro_kernel::lifecycle::core_lifecycle;
use ruspiro_kernel::bringup::SERIAL_BAUD_RATE;
use ruspiro_kernel::registers::TIMER_CTRL_ADDR;
use ruspiro_kernel::registers::TIMER_CTRL_START_VALUE;
use ruspiro_kernel::registers::TIMER_LOAD_ADDR;
use ruspiro_kernel::registers::TIMER_RELOAD_VALUE;

#[test]
fn bootstrap_activation_starts_the_chain() {
    let mut c = Coordinator::new(BOOTSTRAP_CORE, true);
    assert_eq!(c.phase, Phase::Woken);
    let acts = c.activate();
    // interrupt management is not touched here: it belongs to the timer
    // stage, reached only when every earlier stage succeeded
    assert_eq!(acts, vec![Action::QueryClockRate]);
    assert_eq!(c.phase, Phase::PerCoreInit);
    assert_eq!(c.stage, Stage::QueryClock);
}

#[test]
fn secondary_core_activation_initializes_nothing_shared() {
    let mut c = Coordinator::new(2, true);
    let acts = c.activate();
    assert_eq!(acts, Vec::new());
    assert_eq!(c.phase, Phase::PerCoreInit);
    assert_eq!(c.stage, Stage::Done { failed: false });
}

#[test]
fn clock_rate_failure_short_circuits_everything() {
    let mut c = Coordinator::new(BOOTSTRAP_CORE, true);
    let mut all = c.activate();
    all.extend(c.step(BringUpEvent::ClockRateFailed));
    assert_eq!(all, vec![Action::QueryClockRate, Action::DriveFallbackHigh]);
    assert_eq!(c.stage, Stage::Done { failed: true });
    // no later outcome revives any skipped stage
    assert_eq!(c.step(BringUpEvent::SerialInitialized), Vec::new());
    assert_eq!(c.step(BringUpEvent::ConsoleInstalled), Vec::new());
    assert_eq!(c.step(BringUpEvent::I2cInitialized), Vec::new());
    assert_eq!(c.stage, Stage::Done { failed: true });
    // no partial interrupt setup is left active after a failure
    assert_eq!(all.iter().filter(|a| **a == Action::InitIrqManager).count(), 0);
    assert_eq!(all.iter().filter(|a| **a == Action::RegisterTimerIrq).count(), 0);
    assert_eq!(all.iter().filter(|a| **a == Action::ActivateTimerIrq).count(), 0);
    assert_eq!(all.iter().filter(|a| **a == Action::EnableIrq).count(), 0);
    assert!(!all.iter().any(|a| matches!(a, Action::WriteReg { .. })));
}

#[test]
fn serial_failure_skips_console_i2c_and_timer() {
    let mut c = Coordinator::new(BOOTSTRAP_CORE, true);
    c.activate();
    let acts = c.step(BringUpEvent::ClockRateObtained { rate: 250_000_000 });
    assert_eq!(
        acts,
        vec![Action::InitSerial { clock: 250_000_000, baud: SERIAL_BAUD_RATE }]
    );
    let acts = c.step(BringUpEvent::SerialFailed);
    assert_eq!(acts, vec![Action::DriveFallbackHigh]);
    assert_eq!(c.stage, Stage::Done { failed: true });
    assert_eq!(c.step(BringUpEvent::ConsoleInstalled), Vec::new());
    assert_eq!(c.step(BringUpEvent::I2cInitialized), Vec::new());
}

#[test]
fn console_failure_drives_the_fallback_pin() {
    let mut c = Coordinator::new(BOOTSTRAP_CORE, true);
    c.activate();
    c.step(BringUpEvent::ClockRateObtained { rate: 1_000_000 });
    c.step(BringUpEvent::SerialInitialized);
    let acts = c.step(BringUpEvent::ConsoleFailed);
    assert_eq!(acts, vec![Action::DriveFallbackHigh]);
    assert_eq!(c.stage, Stage::Done { failed: true });
}

#[test]
fn i2c_failure_drives_the_fallback_pin() {
    let mut c = Coordinator::new(BOOTSTRAP_CORE, false);
    c.activate();
    c.step(BringUpEvent::ClockRateObtained { rate: 1_000_000 });
    c.step(BringUpEvent::SerialInitialized);
    c.step(BringUpEvent::ConsoleInstalled);
    let acts = c.step(BringUpEvent::I2cFailed);
    assert_eq!(acts, vec![Action::DriveFallbackHigh]);
    assert_eq!(c.stage, Stage::Done { failed: true });
}

#[test]
fn successful_chain_with_timer_support() {
    let rate = 250_000_000;
    let mut c = Coordinator::new(BOOTSTRAP_CORE, true);
    let mut all: Vec<Action> = Vec::new();
    all.extend(c.activate());
    all.extend(c.step(BringUpEvent::ClockRateObtained { rate }));
    all.extend(c.step(BringUpEvent::SerialInitialized));
    all.extend(c.step(BringUpEvent::ConsoleInstalled));
    all.extend(c.step(BringUpEvent::I2cInitialized));
    assert_eq!(
        all,
        vec![
            Action::QueryClockRate,
            Action::InitSerial { clock: rate, baud: 115_200 },
            Action::InstallConsole,
            Action::EmitReady,
            Action::InitI2c { clock: rate },
            Action::ScanI2c,
            Action::InitIrqManager,
            Action::WriteReg { addr: TIMER_CTRL_ADDR, value: TIMER_CTRL_START_VALUE },
            Action::WriteReg { addr: TIMER_LOAD_ADDR, value: TIMER_RELOAD_VALUE },
            Action::RegisterTimerIrq,
            Action::ActivateTimerIrq,
            Action::EnableIrq,
        ]
    );
    assert_eq!(c.stage, Stage::Done { failed: false });
    // fallback never driven, console installed exactly once
    assert_eq!(all.iter().filter(|a| **a == Action::DriveFallbackHigh).count(), 0);
    assert_eq!(all.iter().filter(|a| **a == Action::InstallConsole).count(), 1);
    assert_eq!(all.iter().filter(|a| **a == Action::ActivateTimerIrq).count(), 1);
    assert_eq!(all.iter().filter(|a| **a == Action::EnableIrq).count(), 1);
    // the handler is bound before the source is unmasked
    let register_at = all.iter().position(|a| *a == Action::RegisterTimerIrq).unwrap();
    let activate_at = all.iter().position(|a| *a == Action::ActivateTimerIrq).unwrap();
    assert!(register_at < activate_at);
}

#[test]
fn successful_chain_without_timer_support() {
    let rate = 700_000_000;
    let mut c = Coordinator::new(BOOTSTRAP_CORE, false);
    let mut all: Vec<Action> = Vec::new();
    all.extend(c.activate());
    all.extend(c.step(BringUpEvent::ClockRateObtained { rate }));
    all.extend(c.step(BringUpEvent::SerialInitialized));
    all.extend(c.step(BringUpEvent::ConsoleInstalled));
    all.extend(c.step(BringUpEvent::I2cInitialized));
    assert_eq!(
        all,
        vec![
            Action::QueryClockRate,
            Action::InitSerial { clock: rate, baud: 115_200 },
            Action::InstallConsole,
            Action::EmitReady,
            Action::InitI2c { clock: rate },
            Action::ScanI2c,
        ]
    );
    assert_eq!(c.stage, Stage::Done { failed: false });
    // without timer support, no interrupt setup of any kind happens
    assert_eq!(all.iter().filter(|a| **a == Action::InitIrqManager).count(), 0);
    assert_eq!(all.iter().filter(|a| **a == Action::RegisterTimerIrq).count(), 0);
    assert_eq!(all.iter().filter(|a| **a == Action::ActivateTimerIrq).count(), 0);
    assert_eq!(all.iter().filter(|a| **a == Action::EnableIrq).count(), 0);
    assert!(!all.iter().any(|a| matches!(a, Action::WriteReg { .. })));
}

#[test]
fn steady_transition_emits_greeting_and_is_terminal() {
    let mut c = Coordinator::new(3, true);
    c.activate();
    let acts = c.enter_steady();
    assert_eq!(acts, vec![Action::EmitHello { core: 3 }]);
    assert_eq!(c.phase, Phase::SteadyState);
    // no core re-enters per-core init after reaching the steady state
    assert_eq!(c.activate(), Vec::new());
    assert_eq!(c.step(BringUpEvent::ClockRateFailed), Vec::new());
    assert_eq!(c.enter_steady(), Vec::new());
    assert_eq!(c.phase, Phase::SteadyState);
}

#[test]
fn steady_transition_waits_for_the_chain() {
    let mut c = Coordinator::new(BOOTSTRAP_CORE, true);
    c.activate();
    // chain still waiting on the clock rate: the transition does not fire
    assert_eq!(c.enter_steady(), Vec::new());
    assert_eq!(c.phase, Phase::PerCoreInit);
    c.step(BringUpEvent::ClockRateFailed);
    let acts = c.enter_steady();
    assert_eq!(acts, vec![Action::EmitHello { core: 0 }]);
    assert_eq!(c.phase, Phase::SteadyState);
}

#[test]
fn activation_fires_only_once() {
    let mut c = Coordinator::new(BOOTSTRAP_CORE, true);
    let first = c.activate();
    assert_eq!(first, vec![Action::QueryClockRate]);
    assert_eq!(c.activate(), Vec::new());
    assert_eq!(c.stage, Stage::QueryClock);
}

#[test]
fn run_events_collects_the_chain_actions_in_order() {
    let mut c = Coordinator::new(BOOTSTRAP_CORE, false);
    c.activate();
    let evs = vec![
        BringUpEvent::ClockRateObtained { rate: 4_000_000 },
        BringUpEvent::SerialInitialized,
        BringUpEvent::ConsoleInstalled,
        BringUpEvent::I2cInitialized,
    ];
    let acts = c.run_events(&evs);
    assert_eq!(
        acts,
        vec![
            Action::InitSerial { clock: 4_000_000, baud: SERIAL_BAUD_RATE },
            Action::InstallConsole,
            Action::EmitReady,
            Action::InitI2c { clock: 4_000_000 },
            Action::ScanI2c,
        ]
    );
    assert_eq!(c.stage, Stage::Done { failed: false });
    // a failed chain consumes later outcomes without acting on them
    let mut c = Coordinator::new(BOOTSTRAP_CORE, true);
    c.activate();
    let evs = vec![
        BringUpEvent::ClockRateFailed,
        BringUpEvent::SerialInitialized,
        BringUpEvent::ConsoleInstalled,
        BringUpEvent::I2cInitialized,
    ];
    let acts = c.run_events(&evs);
    assert_eq!(acts, vec![Action::DriveFallbackHigh]);
    assert_eq!(c.stage, Stage::Done { failed: true });
}

#[test]
fn bootstrap_lifecycle_from_wake_to_loop() {
    let evs = vec![
        BringUpEvent::ClockRateObtained { rate: 250_000_000 },
        BringUpEvent::SerialInitialized,
        BringUpEvent::ConsoleInstalled,
        BringUpEvent::I2cInitialized,
    ];
    let (coord, pin, acts) = core_lifecycle(BOOTSTRAP_CORE, true, &evs);
    assert_eq!(coord.phase, Phase::SteadyState);
    assert_eq!(coord.stage, Stage::Done { failed: false });
    assert_eq!(pin, Some(17));
    assert_eq!(
        acts,
        vec![
            Action::QueryClockRate,
            Action::InitSerial { clock: 250_000_000, baud: SERIAL_BAUD_RATE },
            Action::InstallConsole,
            Action::EmitReady,
            Action::InitI2c { clock: 250_000_000 },
            Action::ScanI2c,
            Action::InitIrqManager,
            Action::WriteReg { addr: TIMER_CTRL_ADDR, value: TIMER_CTRL_START_VALUE },
            Action::WriteReg { addr: TIMER_LOAD_ADDR, value: TIMER_RELOAD_VALUE },
            Action::RegisterTimerIrq,
            Action::ActivateTimerIrq,
            Action::EnableIrq,
            Action::EmitHello { core: 0 },
            Action::PinToOutput { pin: 17 },
        ]
    );
}

#[test]
fn secondary_lifecycle_touches_nothing_shared() {
    // outcomes addressed to nobody: a secondary core must ignore them all
    let evs = vec![
        BringUpEvent::ClockRateObtained { rate: 1 },
        BringUpEvent::ClockRateFailed,
        BringUpEvent::I2cFailed,
    ];
    let (coord, pin, acts) = core_lifecycle(2, true, &evs);
    assert_eq!(coord.phase, Phase::SteadyState);
    assert_eq!(pin, Some(20));
    assert_eq!(
        acts,
        vec![Action::EmitHello { core: 2 }, Action::PinToOutput { pin: 20 }]
    );
}

#[test]
fn mismatched_outcomes_are_ignored() {
    let mut c = Coordinator::new(BOOTSTRAP_CORE, true);
    c.activate();
    // the chain waits on the clock rate; other outcomes change nothing
    assert_eq!(c.step(BringUpEvent::SerialInitialized), Vec::new());
    assert_eq!(c.step(BringUpEvent::I2cFailed), Vec::new());
    assert_eq!(c.stage, Stage::QueryClock);
}
