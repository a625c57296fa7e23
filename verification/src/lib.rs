//! A minimal registry core for an AR/VR simulation host.
//!
//! Scenes are trees of named nodes, devices carry display capabilities, and
//! a [`simulator::Simulator`] facade composes a scene registry with a device
//! registry. Every registry operation is specified against a mathematical
//! `Map` from identifier contents to stored values.

pub mod device;
pub mod registry;
pub mod scene;
pub mod simulator;
