//! Power-aware drivers for a wearable: backlight tiers, an actively driven
//! button, battery sensing, and the cycle that ties them together. Each driver
//! is modelled by the levels of the lines it owns; the caller applies those
//! levels to the pins and hands sampled values back.

pub mod battery;
pub mod backlight;
pub mod button;
pub mod cycle;
