use vstd::prelude::*;

verus! {

/// One hardware-visible effect that the coordination core asks its host to
/// perform. The verified logic decides which actions happen and in what
/// order; the host (which owns the real peripherals) carries them out.
#[derive(Clone, Copy, PartialEq, Eq, Structural, Debug)]
pub enum Action {
    /// Initialize the interrupt manager.
    InitIrqManager,
    /// Query the clock-rate source for the core clock rate.
    QueryClockRate,
    /// Construct the serial transmitter and initialize it at the given
    /// clock rate and baud rate.
    InitSerial { clock: u32, baud: u32 },
    /// Install the initialized serial transmitter as the active console sink.
    InstallConsole,
    /// Emit the console-readiness message through the console sink.
    EmitReady,
    /// Initialize the I2C controller at the given clock rate.
    InitI2c { clock: u32 },
    /// Trigger an I2C bus device scan.
    ScanI2c,
    /// Write a whole value to the memory-mapped register at `addr`.
    WriteReg { addr: u32, value: u32 },
    /// Bind the timer handler to the periodic-timer interrupt source.
    RegisterTimerIrq,
    /// Unmask delivery of the periodic-timer interrupt source.
    ActivateTimerIrq,
    /// Globally unmask interrupt delivery on the current core.
    EnableIrq,
    /// Drive the fallback pin high: the visible bring-up failure indicator.
    DriveFallbackHigh,
    /// Emit the per-core greeting for the given core identifier.
    EmitHello { core: u32 },
    /// Emit the timer-interrupt message (best effort; may be lost if the
    /// console is held by the interrupted context).
    EmitTimerMessage,
    /// Switch the given pin to output mode.
    PinToOutput { pin: u32 },
    /// Drive the given pin high.
    PinHigh { pin: u32 },
    /// Drive the given pin low.
    PinLow { pin: u32 },
    /// Block the current core for the given number of time units.
    Sleep { units: u32 },
}

} // verus!
