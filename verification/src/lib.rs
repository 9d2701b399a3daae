//! Control logic of a delay plugin front panel: the state of its switches
//! and the tempo selector, the colours that follow from that state, the
//! level meters' segments and the wireframe logo's geometry.

pub mod controls;
pub mod geometry;
pub mod meter;
pub mod palette;
