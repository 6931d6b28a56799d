use vstd::prelude::*;
use crate::actions::Action;
use crate::registers::TIMER_ACK_ADDR;
use crate::registers::TIMER_ACK_VALUE;

verus! {

/// Configuration state of the interrupt subsystem for the one source this
/// kernel uses, the periodic timer. The invariant of the subsystem is the
/// registration discipline: a source is never unmasked at the controller
/// before a handler is bound to it, and each source has exactly one
/// handler.
#[derive(Clone, Copy, PartialEq, Eq, Structural, Debug)]
pub struct IrqManager {
    /// The controller's one-time initialization has run.
    pub initialized: bool,
    /// A handler is bound to the timer source.
    pub timer_registered: bool,
    /// Delivery of the timer source is unmasked at the controller.
    pub timer_activated: bool,
    /// Interrupt delivery is globally unmasked on this core.
    pub enabled: bool,
}

/// The actions the timer interrupt handler performs on each invocation:
/// exactly one write to the acknowledge register — without it the
/// interrupt would re-fire the moment the handler returns — followed by
/// one best-effort console message.
pub open spec fn spec_timer_handler_actions() -> Seq<Action> {
    seq![
        Action::WriteReg { addr: TIMER_ACK_ADDR, value: TIMER_ACK_VALUE },
        Action::EmitTimerMessage,
    ]
}

/// A write that acknowledges the pending timer interrupt.
pub open spec fn is_timer_ack_write(a: Action) -> bool {
    match a {
        Action::WriteReg { addr, value: _ } => addr == TIMER_ACK_ADDR,
        _ => false,
    }
}

/// The timer interrupt handler's body, as the actions it asks the host to
/// perform: it acknowledges the interrupt at the source exactly once, then
/// emits one console message.
///
/// The console message is best effort: if the interrupted context already
/// holds the console cell on the same core, the handler must not spin on
/// that cell (it would deadlock, the cell has no core-reentrant unlock),
/// so the host may lose or interleave the message rather than block.
pub fn timer_handler_actions() -> (acts: Vec<Action>)
    ensures
        acts@ == spec_timer_handler_actions(),
        acts@.len() > 0 && is_timer_ack_write(acts@[0]),
        forall|k: int| 0 < k < acts@.len() ==> !is_timer_ack_write(#[trigger] acts@[k]),
{
    let mut acts: Vec<Action> = Vec::new();
    acts.push(Action::WriteReg { addr: TIMER_ACK_ADDR, value: TIMER_ACK_VALUE });
    acts.push(Action::EmitTimerMessage);
    assert(acts@ =~= spec_timer_handler_actions());
    acts
}

impl IrqManager {
    /// The registration discipline holds: the timer source is only ever
    /// unmasked with a handler bound to it.
    pub open spec fn wf(self) -> bool {
        self.timer_activated ==> self.timer_registered
    }

    /// The subsystem as the hardware wakes: nothing initialized, nothing
    /// bound, everything masked.
    pub fn new() -> (m: Self)
        ensures
            m.wf(),
            m == (IrqManager {
                initialized: false,
                timer_registered: false,
                timer_activated: false,
                enabled: false,
            }),
    {
        IrqManager {
            initialized: false,
            timer_registered: false,
            timer_activated: false,
            enabled: false,
        }
    }

    /// Run the controller's one-time initialization.
    pub fn initialize(&mut self)
        requires
            old(self).wf(),
        ensures
            final(self).wf(),
            *final(self) == (IrqManager { initialized: true, ..*old(self) }),
    {
        self.initialized = true;
    }

    /// Bind the timer handler to the timer source. Each source has exactly
    /// one handler, so binding twice is excluded.
    pub fn register_timer(&mut self)
        requires
            old(self).wf(),
            !old(self).timer_registered,
        ensures
            final(self).wf(),
            *final(self) == (IrqManager { timer_registered: true, ..*old(self) }),
    {
        self.timer_registered = true;
    }

    /// Unmask delivery of the timer source at the controller. The
    /// registration discipline demands a bound handler first.
    pub fn activate_timer(&mut self)
        requires
            old(self).wf(),
            old(self).timer_registered,
        ensures
            final(self).wf(),
            *final(self) == (IrqManager { timer_activated: true, ..*old(self) }),
    {
        self.timer_activated = true;
    }

    /// Globally unmask interrupt delivery on the current core.
    pub fn enable(&mut self)
        requires
            old(self).wf(),
        ensures
            final(self).wf(),
            *final(self) == (IrqManager { enabled: true, ..*old(self) }),
    {
        self.enabled = true;
    }

    /// Deliver a timer interrupt: only possible once the source is
    /// unmasked and delivery is enabled, which — by the registration
    /// discipline — means a handler is bound. The handler's obligations
    /// are `timer_handler_actions`'s contract: exactly one acknowledge
    /// write per invocation.
    pub fn deliver_timer_irq(&self) -> (acts: Vec<Action>)
        requires
            self.wf(),
            self.timer_activated,
            self.enabled,
        ensures
            acts@ == spec_timer_handler_actions(),
            acts@.len() > 0 && is_timer_ack_write(acts@[0]),
            forall|k: int| 0 < k < acts@.len() ==> !is_timer_ack_write(#[trigger] acts@[k]),
    {
        timer_handler_actions()
    }
}

} // verus!
