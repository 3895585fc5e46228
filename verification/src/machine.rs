//! The interrupt-driven control core: the one-shot initialization sequence,
//! the cross-context hand-off of the two resource handles, and the interrupt
//! handler's steady-state toggle/acknowledge loop.
//!
//! `System` models the whole device as one state machine.  Its exec methods
//! are the transitions: the main context drives the initialization steps in
//! their required order, the hardware drives `expire`, and the interrupt
//! context drives `on_interrupt`.  The ghost view `SystemView` records, on
//! top of the observable state, where each resource handle currently lives
//! and how often each slot has handed its handle out, so that exclusivity
//! and the single-hand-off property can be stated and proved.

use crate::level::{level_after, Level};
use crate::slot::{CriticalSection, Slot};
use vstd::prelude::*;

verus! {

/// Exclusive capability to drive the output pin ("toggle output level").
/// The field is private, so a handle can only come from the acquisition
/// step of the initialization sequence.
pub struct PinHandle {
    capability: (),
}

/// Exclusive capability to operate the countdown timer ("wait / acknowledge
/// expiry").  The field is private, so a handle can only come from the
/// acquisition step of the initialization sequence.
pub struct TimerHandle {
    capability: (),
}

/// Logical state of the periodic hardware timer.
#[derive(Clone, Copy, PartialEq, Eq, Structural, Debug)]
pub enum TimerState {
    /// Not yet configured; counts nothing.
    Disarmed,
    /// Counting down towards the next expiry.
    Armed,
    /// The period elapsed; the expiry flag is set and must be acknowledged
    /// before the next period can complete.
    ExpiredPendingAck,
}

/// How far the one-shot initialization sequence has progressed.  The order
/// of the steps is a correctness requirement, so each step checks that the
/// machine stands exactly one phase earlier.
#[derive(Clone, Copy, PartialEq, Eq, Structural, Debug)]
pub enum Phase {
    /// Power-on state; nothing configured.
    Fresh,
    /// The pin handle is acquired and the output driven to its initial level.
    PinConfigured,
    /// The timer handle is acquired and the countdown armed for the period.
    TimerArmed,
    /// The pin handle has moved into its cross-context slot.
    PinStored,
    /// The timer handle has moved into its cross-context slot.
    TimerStored,
    /// The timer raises its expiry notification from now on.
    ExpiryNotifyEnabled,
    /// Interrupt delivery is enabled; the handler does all further work.
    Running,
}

/// Position of a phase in the required initialization order.
pub open spec fn phase_index(p: Phase) -> int {
    match p {
        Phase::Fresh => 0,
        Phase::PinConfigured => 1,
        Phase::TimerArmed => 2,
        Phase::PinStored => 3,
        Phase::TimerStored => 4,
        Phase::ExpiryNotifyEnabled => 5,
        Phase::Running => 6,
    }
}

/// Why an initialization step was refused.  Every such error is fatal: the
/// step halts the system, and interrupt delivery is never enabled afterwards.
#[derive(Clone, Copy, PartialEq, Eq, Structural, Debug)]
pub enum InitError {
    /// The peripheral this step acquires was already taken.
    PeripheralTaken,
    /// The step ran before the preceding step had completed.
    OutOfOrder,
}

/// 1 when a place holds a handle, else 0.
pub open spec fn one_if(b: bool) -> int {
    if b {
        1
    } else {
        0
    }
}

/// The ghost view of the system: the observable output state, the timer
/// state, and for each of the two resource handles the places that may hold
/// it (the main context before the store, the cross-context slot between
/// store and take, the handler-local cache after the take).
pub ghost struct SystemView {
    pub phase: Phase,
    pub halted: bool,
    /// Current electrical level of the output line.
    pub level: Level,
    /// Whether the pin was ever configured; before that the line rests at
    /// its hardware-default level.
    pub pin_configured: bool,
    /// How many toggles have been performed.
    pub toggles: u64,
    /// Ticks per timer period; fixed at arm time.
    pub period: u64,
    pub timer: TimerState,
    pub interrupts_enabled: bool,
    pub expiry_notify: bool,
    pub main_pin: bool,
    pub main_tim: bool,
    pub slot_pin: bool,
    pub slot_tim: bool,
    pub cache_pin: bool,
    pub cache_tim: bool,
    /// Wall-clock ticks since power-on, advanced by one period per expiry.
    pub elapsed: int,
    /// How often `take` on the pin slot has succeeded, over the whole life
    /// of the process.
    pub pin_handoffs: int,
    /// How often `take` on the timer slot has succeeded.
    pub tim_handoffs: int,
}

impl SystemView {
    /// How many places hold the pin handle right now.
    pub open spec fn pin_holder_count(self) -> int {
        one_if(self.main_pin) + one_if(self.slot_pin) + one_if(self.cache_pin)
    }

    /// How many places hold the timer handle right now.
    pub open spec fn tim_holder_count(self) -> int {
        one_if(self.main_tim) + one_if(self.slot_tim) + one_if(self.cache_tim)
    }

    /// The handler has cached both handles and never touches the slots again.
    pub open spec fn handler_ready(self) -> bool {
        self.cache_pin && self.cache_tim
    }

    /// The interrupt context can lay hands on the pin handle: it is already
    /// cached, or it still waits in its slot.
    pub open spec fn pin_reachable(self) -> bool {
        self.cache_pin || self.slot_pin
    }

    /// The interrupt context can lay hands on the timer handle.
    pub open spec fn tim_reachable(self) -> bool {
        self.cache_tim || self.slot_tim
    }

    /// The system invariant.  Every public transition preserves it.
    pub open spec fn wf(self) -> bool {
        &&& self.pin_handoffs == one_if(self.cache_pin)
        &&& self.tim_handoffs == one_if(self.cache_tim)
        &&& self.pin_holder_count() <= 1
        &&& self.tim_holder_count() <= 1
        &&& self.elapsed >= 0
        &&& (!self.pin_configured ==> self.toggles == 0 && self.level is Off && self.elapsed
            == 0)
        &&& (self.pin_configured ==> self.level == level_after(Level::Off, self.toggles as nat))
        &&& (!self.halted ==> {
            &&& (self.pin_holder_count() == 1 <==> phase_index(self.phase) >= 1)
            &&& (self.tim_holder_count() == 1 <==> phase_index(self.phase) >= 2)
            &&& (self.main_pin <==> self.phase is PinConfigured || self.phase is TimerArmed)
            &&& (self.main_tim <==> self.phase is TimerArmed || self.phase is PinStored)
            &&& (self.cache_pin ==> phase_index(self.phase) >= 3)
            &&& (self.cache_tim ==> phase_index(self.phase) >= 4)
            &&& (self.timer is Disarmed <==> phase_index(self.phase) < 2)
            &&& (phase_index(self.phase) >= 2 ==> self.period >= 1)
            &&& (self.interrupts_enabled <==> self.phase is Running)
            &&& (self.expiry_notify <==> phase_index(self.phase) >= 5)
            &&& (self.pin_configured <==> phase_index(self.phase) >= 1)
        })
    }
}

/// The device: output pin, countdown timer, the two cross-context slots,
/// the handler-local cache, and the initialization bookkeeping of the main
/// context.  All fields are private; the public methods are the only
/// transitions, which is what makes the invariant an invariant.
pub struct System {
    phase: Phase,
    halted: bool,
    level: Level,
    pin_configured: bool,
    toggles: u64,
    period: u64,
    timer: TimerState,
    interrupts_enabled: bool,
    expiry_notify: bool,
    main_pin: Option<PinHandle>,
    main_tim: Option<TimerHandle>,
    pin_slot: Slot<PinHandle>,
    tim_slot: Slot<TimerHandle>,
    cache_pin: Option<PinHandle>,
    cache_tim: Option<TimerHandle>,
    elapsed: Ghost<int>,
    pin_handoffs: Ghost<int>,
    tim_handoffs: Ghost<int>,
}

impl View for System {
    type V = SystemView;

    closed spec fn view(&self) -> SystemView {
        SystemView {
            phase: self.phase,
            halted: self.halted,
            level: self.level,
            pin_configured: self.pin_configured,
            toggles: self.toggles,
            period: self.period,
            timer: self.timer,
            interrupts_enabled: self.interrupts_enabled,
            expiry_notify: self.expiry_notify,
            main_pin: self.main_pin is Some,
            main_tim: self.main_tim is Some,
            slot_pin: self.pin_slot.stored() is Some,
            slot_tim: self.tim_slot.stored() is Some,
            cache_pin: self.cache_pin is Some,
            cache_tim: self.cache_tim is Some,
            elapsed: self.elapsed@,
            pin_handoffs: self.pin_handoffs@,
            tim_handoffs: self.tim_handoffs@,
        }
    }
}

impl System {
    /// The system invariant, stated over the view.
    pub open spec fn inv(&self) -> bool {
        self@.wf()
    }

    /// Power-on: slots empty, handler cache empty, timer disarmed, interrupt
    /// delivery disabled, output line at its hardware-default level.
    pub fn new() -> (s: System)
        ensures
            s.inv(),
            s@ == (SystemView {
                phase: Phase::Fresh,
                halted: false,
                level: Level::Off,
                pin_configured: false,
                toggles: 0,
                period: 0,
                timer: TimerState::Disarmed,
                interrupts_enabled: false,
                expiry_notify: false,
                main_pin: false,
                main_tim: false,
                slot_pin: false,
                slot_tim: false,
                cache_pin: false,
                cache_tim: false,
                elapsed: 0,
                pin_handoffs: 0,
                tim_handoffs: 0,
            }),
    {
        System {
            phase: Phase::Fresh,
            halted: false,
            level: Level::Off,
            pin_configured: false,
            toggles: 0,
            period: 0,
            timer: TimerState::Disarmed,
            interrupts_enabled: false,
            expiry_notify: false,
            main_pin: None,
            main_tim: None,
            pin_slot: Slot::new(),
            tim_slot: Slot::new(),
            cache_pin: None,
            cache_tim: None,
            elapsed: Ghost(0),
            pin_handoffs: Ghost(0),
            tim_handoffs: Ghost(0),
        }
    }

    /// Initialization step 1 (main context): acquire the pin handle and
    /// drive the output to its known initial level, off.  Acquisition fails
    /// fatally when the pin was already taken.
    pub fn configure_pin(&mut self) -> (r: Result<(), InitError>)
        requires
            old(self).inv(),
            !old(self)@.halted,
        ensures
            final(self).inv(),
            old(self)@.phase is Fresh ==> r is Ok && final(self)@ == (SystemView {
                phase: Phase::PinConfigured,
                level: Level::Off,
                pin_configured: true,
                main_pin: true,
                ..old(self)@
            }),
            !(old(self)@.phase is Fresh) ==> r == Err::<(), InitError>(InitError::PeripheralTaken) && final(self)@
                == (SystemView { halted: true, ..old(self)@ }),
    {
        match self.phase {
            Phase::Fresh => {
                self.main_pin = Some(PinHandle { capability: () });
                self.level = Level::Off;
                self.pin_configured = true;
                self.phase = Phase::PinConfigured;
                Ok(())
            },
            _ => {
                self.halted = true;
                Err(InitError::PeripheralTaken)
            },
        }
    }

    /// Initialization step 2 (main context): acquire the timer handle and
    /// arm the countdown for `period` ticks.  Fails fatally when the timer
    /// was already taken, or when it runs before the pin step.
    pub fn arm_timer(&mut self, period: u64) -> (r: Result<(), InitError>)
        requires
            old(self).inv(),
            !old(self)@.halted,
            period >= 1,
        ensures
            final(self).inv(),
            old(self)@.phase is PinConfigured ==> r is Ok && final(self)@ == (SystemView {
                phase: Phase::TimerArmed,
                period: period,
                timer: TimerState::Armed,
                main_tim: true,
                ..old(self)@
            }),
            old(self)@.phase is Fresh ==> r == Err::<(), InitError>(InitError::OutOfOrder) && final(self)@
                == (SystemView { halted: true, ..old(self)@ }),
            !(old(self)@.phase is Fresh) && !(old(self)@.phase is PinConfigured) ==> r
                == Err::<(), InitError>(InitError::PeripheralTaken) && final(self)@ == (SystemView {
                halted: true,
                ..old(self)@
            }),
    {
        match self.phase {
            Phase::PinConfigured => {
                self.main_tim = Some(TimerHandle { capability: () });
                self.period = period;
                self.timer = TimerState::Armed;
                self.phase = Phase::TimerArmed;
                Ok(())
            },
            Phase::Fresh => {
                self.halted = true;
                Err(InitError::OutOfOrder)
            },
            _ => {
                self.halted = true;
                Err(InitError::PeripheralTaken)
            },
        }
    }

    /// Initialization step 3 (main context): move the pin handle into its
    /// cross-context slot, under a critical section.  From here on the main
    /// context no longer holds the pin.
    pub fn store_pin(&mut self) -> (r: Result<(), InitError>)
        requires
            old(self).inv(),
            !old(self)@.halted,
        ensures
            final(self).inv(),
            old(self)@.phase is TimerArmed ==> r is Ok && final(self)@ == (SystemView {
                phase: Phase::PinStored,
                main_pin: false,
                slot_pin: true,
                ..old(self)@
            }),
            !(old(self)@.phase is TimerArmed) ==> r == Err::<(), InitError>(InitError::OutOfOrder) && final(self)@
                == (SystemView { halted: true, ..old(self)@ }),
    {
        match self.phase {
            Phase::TimerArmed => {
                let cs = CriticalSection::enter();
                match self.main_pin.take() {
                    Some(p) => {
                        self.pin_slot.store(p, &cs);
                        self.phase = Phase::PinStored;
                        Ok(())
                    },
                    None => {
                        // unreachable: in phase TimerArmed the main context
                        // still holds the pin handle
                        proof {
                            assert(false);
                        }
                        Err(InitError::OutOfOrder)
                    },
                }
            },
            _ => {
                self.halted = true;
                Err(InitError::OutOfOrder)
            },
        }
    }

    /// Initialization step 4 (main context): move the timer handle into its
    /// cross-context slot, under a critical section.
    pub fn store_timer(&mut self) -> (r: Result<(), InitError>)
        requires
            old(self).inv(),
            !old(self)@.halted,
        ensures
            final(self).inv(),
            old(self)@.phase is PinStored ==> r is Ok && final(self)@ == (SystemView {
                phase: Phase::TimerStored,
                main_tim: false,
                slot_tim: true,
                ..old(self)@
            }),
            !(old(self)@.phase is PinStored) ==> r == Err::<(), InitError>(InitError::OutOfOrder) && final(self)@
                == (SystemView { halted: true, ..old(self)@ }),
    {
        match self.phase {
            Phase::PinStored => {
                let cs = CriticalSection::enter();
                match self.main_tim.take() {
                    Some(t) => {
                        self.tim_slot.store(t, &cs);
                        self.phase = Phase::TimerStored;
                        Ok(())
                    },
                    None => {
                        // unreachable: in phase PinStored the main context
                        // still holds the timer handle
                        proof {
                            assert(false);
                        }
                        Err(InitError::OutOfOrder)
                    },
                }
            },
            _ => {
                self.halted = true;
                Err(InitError::OutOfOrder)
            },
        }
    }

    /// Initialization step 5 (main context): let the timer raise its expiry
    /// notification.
    pub fn enable_expiry_notification(&mut self) -> (r: Result<(), InitError>)
        requires
            old(self).inv(),
            !old(self)@.halted,
        ensures
            final(self).inv(),
            old(self)@.phase is TimerStored ==> r is Ok && final(self)@ == (SystemView {
                phase: Phase::ExpiryNotifyEnabled,
                expiry_notify: true,
                ..old(self)@
            }),
            !(old(self)@.phase is TimerStored) ==> r == Err::<(), InitError>(InitError::OutOfOrder) && final(self)@
                == (SystemView { halted: true, ..old(self)@ }),
    {
        match self.phase {
            Phase::TimerStored => {
                self.expiry_notify = true;
                self.phase = Phase::ExpiryNotifyEnabled;
                Ok(())
            },
            _ => {
                self.halted = true;
                Err(InitError::OutOfOrder)
            },
        }
    }

    /// Initialization step 6 (main context): unmask the timer's interrupt
    /// line at the controller.  This is the last step, strictly after both
    /// stores: on success neither handle is still with the main context, so
    /// the first interrupt can only find them in the slots (or, never here,
    /// in the cache) — the one cross-context ordering the design relies on.
    pub fn enable_interrupt_delivery(&mut self) -> (r: Result<(), InitError>)
        requires
            old(self).inv(),
            !old(self)@.halted,
        ensures
            final(self).inv(),
            old(self)@.phase is ExpiryNotifyEnabled ==> r is Ok && final(self)@ == (SystemView {
                phase: Phase::Running,
                interrupts_enabled: true,
                ..old(self)@
            }),
            !(old(self)@.phase is ExpiryNotifyEnabled) ==> r == Err::<(), InitError>(InitError::OutOfOrder)
                && final(self)@ == (SystemView { halted: true, ..old(self)@ }),
            r is Ok ==> !old(self)@.main_pin && !old(self)@.main_tim,
            r is Ok ==> old(self)@.pin_holder_count() == 1 && old(self)@.tim_holder_count() == 1,
    {
        match self.phase {
            Phase::ExpiryNotifyEnabled => {
                self.interrupts_enabled = true;
                self.phase = Phase::Running;
                Ok(())
            },
            _ => {
                self.halted = true;
                Err(InitError::OutOfOrder)
            },
        }
    }

    /// The whole initialization sequence (main context), in its required
    /// order: configure the pin, arm the timer, store both handles into
    /// their slots, enable the expiry notification, and only then enable
    /// interrupt delivery.  After this returns, the main context never
    /// touches either handle again; it only idles between interrupts.
    ///
    /// Clock-tree configuration precedes this sequence; that collaborator
    /// fixes the timer's tick rate, which `period` is expressed in.
    pub fn initialize(&mut self, period: u64)
        requires
            old(self).inv(),
            !old(self)@.halted,
            old(self)@.phase is Fresh,
            period >= 1,
        ensures
            final(self).inv(),
            final(self)@ == (SystemView {
                phase: Phase::Running,
                level: Level::Off,
                pin_configured: true,
                period: period,
                timer: TimerState::Armed,
                interrupts_enabled: true,
                expiry_notify: true,
                slot_pin: true,
                slot_tim: true,
                main_pin: false,
                main_tim: false,
                ..old(self)@
            }),
            !final(self)@.halted,
            final(self)@.toggles == 0,
            final(self)@.elapsed == 0,
            !final(self)@.cache_pin,
            !final(self)@.cache_tim,
    {
        let _ = self.configure_pin();
        let _ = self.arm_timer(period);
        let _ = self.store_pin();
        let _ = self.store_timer();
        let _ = self.enable_expiry_notification();
        let _ = self.enable_interrupt_delivery();
    }

    /// One iteration of the main context's idle-wait loop, its resting point
    /// after initialization: suspend until an interrupt wakes it, find
    /// nothing to do, suspend again.  Its entire contract is that it changes
    /// nothing — the main context performs no peripheral access once the
    /// handles are handed off.  (The suspend itself is the hardware
    /// collaborator's low-power wait.)
    pub fn idle_wait(&mut self)
        requires
            old(self).inv(),
        ensures
            final(self).inv(),
            final(self)@ == old(self)@,
    {
    }

    /// One period elapses in hardware: the armed countdown reaches zero and
    /// raises the expiry notification, to be acknowledged by the handler.
    pub fn expire(&mut self)
        requires
            old(self).inv(),
            !old(self)@.halted,
            old(self)@.timer is Armed,
        ensures
            final(self).inv(),
            final(self)@ == (SystemView {
                timer: TimerState::ExpiredPendingAck,
                elapsed: old(self)@.elapsed + old(self)@.period,
                ..old(self)@
            }),
    {
        self.timer = TimerState::ExpiredPendingAck;
        self.elapsed = Ghost(self.elapsed@ + self.period as int);
    }

    /// One invocation of the interrupt handler.
    ///
    /// First invocation: for each handler-local cache slot that is still
    /// empty, take the handle out of its cross-context slot under a critical
    /// section.  When a needed handle is nowhere to be found — initialization
    /// never ran, or ran incompletely — the handler halts the system without
    /// touching the output (the ordering property: an injected
    /// enable-before-store fault is detected, never dereferenced).
    ///
    /// Steady state, including the tail of a successful first invocation:
    /// toggle the output level of the cached pin handle once, and
    /// acknowledge the expiry on the cached timer handle, which clears the
    /// notification and re-arms the countdown for the next period.  The
    /// slots are bypassed entirely.
    pub fn on_interrupt(&mut self)
        requires
            old(self).inv(),
            !old(self)@.halted,
            old(self)@.toggles < u64::MAX,
        ensures
            final(self).inv(),
            // hand-off contract violated: detect and halt, no toggle
            !old(self)@.pin_reachable() || !old(self)@.tim_reachable() ==> {
                &&& final(self)@.halted
                &&& final(self)@.level == old(self)@.level
                &&& final(self)@.toggles == old(self)@.toggles
                &&& final(self)@.timer == old(self)@.timer
                &&& final(self)@.elapsed == old(self)@.elapsed
                &&& final(self)@.pin_configured == old(self)@.pin_configured
            },
            // both handles reachable: exactly one toggle, one acknowledge
            old(self)@.pin_reachable() && old(self)@.tim_reachable() ==> final(self)@
                == (SystemView {
                level: old(self)@.level.flip_spec(),
                toggles: (old(self)@.toggles + 1) as u64,
                timer: TimerState::Armed,
                slot_pin: false,
                slot_tim: false,
                cache_pin: true,
                cache_tim: true,
                pin_handoffs: 1,
                tim_handoffs: 1,
                ..old(self)@
            }),
            // steady state bypasses the slots: once ready, no slot changes
            old(self)@.handler_ready() ==> final(self)@.slot_pin == old(self)@.slot_pin,
            old(self)@.handler_ready() ==> final(self)@.slot_tim == old(self)@.slot_tim,
            old(self)@.handler_ready() ==> final(self)@.pin_handoffs == old(self)@.pin_handoffs,
            old(self)@.handler_ready() ==> final(self)@.tim_handoffs == old(self)@.tim_handoffs,
    {
        if self.cache_pin.is_none() {
            let cs = CriticalSection::enter();
            match self.pin_slot.take(&cs) {
                Some(p) => {
                    self.cache_pin = Some(p);
                    self.pin_handoffs = Ghost(1);
                },
                None => {
                    self.halted = true;
                    return;
                },
            }
        }
        if self.cache_tim.is_none() {
            let cs = CriticalSection::enter();
            match self.tim_slot.take(&cs) {
                Some(t) => {
                    self.cache_tim = Some(t);
                    self.tim_handoffs = Ghost(1);
                },
                None => {
                    self.halted = true;
                    return;
                },
            }
        }
        self.level = self.level.flip();
        self.toggles = self.toggles + 1;
        match self.timer {
            TimerState::ExpiredPendingAck => {
                self.timer = TimerState::Armed;
            },
            _ => {},
        }
    }

    /// Drive `n` full periods from the running steady state: each cycle the
    /// timer expires once and the handler runs once.  States toggle parity
    /// (the level after `n` cycles is `level_after` of the starting level)
    /// and periodicity (exactly one toggle per expiry, the wall clock
    /// advancing by exactly one period per toggle, none skipped, none
    /// duplicated).
    pub fn run_cycles(&mut self, n: u64)
        requires
            old(self).inv(),
            !old(self)@.halted,
            old(self)@.phase is Running,
            old(self)@.timer is Armed,
            old(self)@.toggles + n <= u64::MAX,
        ensures
            final(self).inv(),
            !final(self)@.halted,
            final(self)@.phase is Running,
            final(self)@.timer is Armed,
            final(self)@.toggles == old(self)@.toggles + n,
            final(self)@.level == level_after(old(self)@.level, n as nat),
            final(self)@.elapsed == old(self)@.elapsed + n * old(self)@.period,
            final(self)@.period == old(self)@.period,
    {
        let ghost orig: SystemView = self@;
        let mut i: u64 = 0;
        while i < n
            invariant
                self.inv(),
                !self@.halted,
                self@.phase is Running,
                self@.timer is Armed,
                i <= n,
                orig.toggles + n <= u64::MAX,
                self@.toggles == orig.toggles + i,
                self@.level == level_after(orig.level, i as nat),
                self@.elapsed == orig.elapsed + i * orig.period,
                self@.period == orig.period,
            decreases n - i,
        {
            proof {
                assert((i + 1) * orig.period == i * orig.period + orig.period)
                    by (nonlinear_arith);
            }
            self.expire();
            self.on_interrupt();
            i = i + 1;
        }
    }

    /// Current electrical level of the output line: the single observable
    /// output of the whole system.
    pub fn level(&self) -> (r: Level)
        ensures
            r == self@.level,
    {
        self.level
    }

    /// How many toggles have been performed since power-on.
    pub fn toggle_count(&self) -> (r: u64)
        ensures
            r == self@.toggles,
    {
        self.toggles
    }

    /// Whether a fatal defect has halted the system.
    pub fn is_halted(&self) -> (r: bool)
        ensures
            r == self@.halted,
    {
        self.halted
    }

    /// How far the initialization sequence has progressed.
    pub fn current_phase(&self) -> (r: Phase)
        ensures
            r == self@.phase,
    {
        self.phase
    }

    /// Logical state of the periodic timer.
    pub fn timer_state(&self) -> (r: TimerState)
        ensures
            r == self@.timer,
    {
        self.timer
    }

    /// Whether the timer's interrupt line is unmasked at the controller.
    pub fn interrupts_enabled(&self) -> (r: bool)
        ensures
            r == self@.interrupts_enabled,
    {
        self.interrupts_enabled
    }

    /// Whether the pin was ever configured; before that the line rests at
    /// its hardware-default level.
    pub fn pin_is_configured(&self) -> (r: bool)
        ensures
            r == self@.pin_configured,
    {
        self.pin_configured
    }

    /// Ticks per timer period, as armed.
    pub fn period(&self) -> (r: u64)
        ensures
            r == self@.period,
    {
        self.period
    }

    /// Whether the pin's cross-context slot currently holds its handle.
    pub fn pin_slot_occupied(&self) -> (r: bool)
        ensures
            r == self@.slot_pin,
    {
        self.pin_slot.occupied()
    }

    /// Whether the timer's cross-context slot currently holds its handle.
    pub fn tim_slot_occupied(&self) -> (r: bool)
        ensures
            r == self@.slot_tim,
    {
        self.tim_slot.occupied()
    }

    /// Whether the handler-local cache holds both handles.
    pub fn handler_ready(&self) -> (r: bool)
        ensures
            r == self@.handler_ready(),
    {
        self.cache_pin.is_some() && self.cache_tim.is_some()
    }
}

/// Exclusivity: under the system invariant each resource handle is held by
/// at most one place at any instant — the main context (only between its
/// acquisition and its store), the cross-context slot, or the handler-local
/// cache — so the main context and the interrupt context never both hold a
/// live handle to the same resource.
pub proof fn lemma_exclusivity(v: SystemView)
    requires
        v.wf(),
    ensures
        v.pin_holder_count() <= 1,
        v.tim_holder_count() <= 1,
        !(v.main_pin && v.cache_pin),
        !(v.slot_pin && v.cache_pin),
        !(v.main_tim && v.cache_tim),
        !(v.slot_tim && v.cache_tim),
{
}

/// Single hand-off: across the whole process lifetime, `take` on each
/// cross-context slot has succeeded at most once; it has succeeded exactly
/// once for each handle the handler's cache holds.
pub proof fn lemma_single_handoff(v: SystemView)
    requires
        v.wf(),
    ensures
        0 <= v.pin_handoffs <= 1,
        0 <= v.tim_handoffs <= 1,
        v.handler_ready() ==> v.pin_handoffs == 1 && v.tim_handoffs == 1,
{
}

} // verus!

