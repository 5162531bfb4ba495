//! Monitoring and control core for a small fleet of solar-power devices
//! (an inverter, a solar charge controller, a battery monitor) that
//! broadcast encrypted state over low-energy wireless advertisements.
//!
//! The crate holds the verified logic: the device registry with its
//! reverse address index and byte-level persistence format, the
//! advertisement classification and telemetry projection rules, the
//! scan/connect/write/disconnect state machine, and the fixed-point
//! numeric policy. Platform plumbing (the wireless stack, the display,
//! flash storage) lives outside and talks to this crate in plain values.

pub mod decode;
pub mod device;
pub mod fixed;
pub mod link;
pub mod registry;
pub mod telemetry;
pub mod ui;
