//! The core of a low-power wireless mesh node, and the decisions of the
//! drivers around it.
//!
//! [`signal`] holds the single-slot wake primitive, [`mailbox`] the bounded
//! mailboxes that feed the node, and [`node`] the node itself: its
//! provisioning state and what it does on each event. [`beacon`], [`access`]
//! and [`config`] hold what the node sends and reads. [`uart`], [`lora`],
//! [`sensor`] and [`accelerometer`] hold the decisions of the peripheral
//! drivers.
//!
//! Nothing here waits or touches a peripheral. Each part takes what happened
//! as a plain value and says what to do next, so that an asynchronous runtime
//! can drive it.

pub mod accelerometer;
pub mod access;
pub mod beacon;
pub mod config;
pub mod lora;
pub mod mailbox;
pub mod node;
pub mod sensor;
pub mod signal;
pub mod uart;
