//! A verified model of DMX device profiles: numeric primitives, blending,
//! byte renderers, profile graphs, device trees and universes.
//!
//! A profile describes a device type as a shared graph of attributes. A
//! device is a live instance of a profile, patched to a slice of a universe;
//! rendering it turns the current values of its attributes into the bytes of
//! the universe's frame. Beside the model stand a few small exercises that
//! serve as smoke tests of the toolchain.

pub mod blend;
pub mod device;
pub mod dmx;
pub mod effect;
pub mod euler;
pub mod fizzbuzz;
pub mod numeric;
pub mod practice;
pub mod profile;
pub mod range;
pub mod render;
pub mod topo;
