//! A star field for parallax and perspective star displays.
//!
//! The field is generic over its coordinate type: it keeps the stars in
//! render order, grows and shrinks the population, and advances every star
//! by per-axis rules that the caller supplies. The per-frame decisions of the
//! display driver (which mode is active, how the population changes, which
//! way the camera moves) are made by `frame`.

pub mod field;
pub mod frame;
