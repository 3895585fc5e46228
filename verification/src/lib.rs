//! A verified model of an interrupt-driven periodic pin toggler.
//!
//! A hardware timer raises an interrupt once per configured period; an
//! interrupt handler toggles a digital output line and acknowledges the
//! expiry.  The output pin and the timer are exclusive hardware resources:
//! they are configured in the main execution context and then handed off,
//! exactly once each, through synchronized one-shot slots into a cache that
//! is private to the interrupt context.
//!
//! The crate proves the safety properties of that hand-off pattern:
//! exclusive ownership of each resource handle at every instant, a single
//! successful hand-off per slot across the whole process lifetime, toggle
//! parity of the output level, one toggle and one acknowledge per timer
//! expiry, and a loud halt whenever the handler runs before initialization
//! has populated the slots.

pub mod level;
pub mod machine;
pub mod slot;
