//! An infinite, animated carousel widget: a circular current-slide index, a
//! continuous transition progress value with a neutral resting point, and the
//! five-slot window of visual transforms and masks derived from both.
//!
//! Progress is measured in thousandths: `0` and `1000` are the two transition
//! endpoints and `500` is the neutral resting value. Slot geometry is measured
//! in tenths of a percent, so that every boundary the renderer needs is an
//! exact integer.

pub mod component;
pub mod laws;
pub mod transition;

pub use component::Component;
pub use component::Slot;
pub use transition::Transition;
