//! Actuator-command shaping for a legged robot's control loop.
//!
//! The heart of the crate is the closed-loop offset controller in
//! [`optimizer`]: it watches per-joint motor currents, accumulates a
//! corrective position offset toward a configured direction while a joint is
//! overcurrent, and decays that offset once it has grown too large.  The
//! controller's transition rules and the laws they obey are stated and proved
//! in [`laws`].
//!
//! The remaining modules hold smaller verified utilities used around the same
//! robot: planar rotation directions ([`direction`]), a task-assignment
//! solver built on the Kuhn-Munkres algorithm ([`assignment`]), and the pure
//! parts of the head LED and touch-sensor drivers ([`leds`], [`touch`]).

pub mod joints;
pub mod optimizer;
pub mod laws;
pub mod direction;
pub mod assignment;
pub mod leds;
pub mod touch;
