//! Capturing one frame of a display through a GPU compositor: the device
//! request, the capture protocol and its one-time teardown, the staging and
//! readback of the captured texture, and the enumeration of capture targets.

pub mod capture;
pub mod device;
pub mod enumerate;
pub mod error;
pub mod readback;
pub mod target;
pub mod texture;
