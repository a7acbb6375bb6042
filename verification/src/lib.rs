//! Turns gamepad input into pointer motion and key or pointer-button actions.
//!
//! Every scalar (an axis deflection, a velocity) is held in fixed point:
//! [`fixed::UNIT`] stands for one whole unit. The library computes and decides;
//! reading the gamepad, waiting, and synthesizing input are left to the caller,
//! who hands in events and times and performs what comes back.
//!
//! - [`fixed`]: fixed-point arithmetic and the axis normalizer with its
//!   deadzone and debounce.
//! - [`mouse`]: the velocity smoother, the steps of its control loop, the slot
//!   that feeds it and the handle on the producer's side.
//! - [`config`]: buttons, keys and bindings, the keymap, and the router that
//!   sends each event to the keymap or to the handle.
//! - [`config_builder`]: choosing the gamepad and building the router.
//! - [`raw`]: records of the kernel's event device.
//! - [`devices`]: the kernel's list of input devices.

pub mod fixed;
pub mod mouse;
pub mod config;
pub mod config_builder;
pub mod raw;
pub mod devices;
