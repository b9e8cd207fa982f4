//! Trigger and data-acquisition front end: the outbound trigger waveform,
//! the inbound event-frame codec and the bring-up protocol of the attached
//! configurable logic device, stated and proved with Verus.

pub mod dac_map;
pub mod frame;
pub mod link;
pub mod settings;
pub mod waveform;
