//! Driver core for USB-attached multifunction display panels: the binary
//! frame codec, the per-device protocol state machine, the device registry
//! and the hotplug decisions around it.
use vstd::prelude::*;

pub mod codec;
pub mod handles;
pub mod registry;
pub mod session;
pub mod usb;

verus! {

/// Size in bytes of one display's raw framebuffer.
pub const FRAMEBUFFER_LEN: usize = 0x38400;

} // verus!
