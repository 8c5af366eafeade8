//! Brush geometry for two parametric shapes, a hanging-rope curve and a radial
//! wedge sweep, over fixed-point coordinates, with the text of the map document
//! that describes them.

pub mod decimal;
pub mod brush;
pub mod mesh;
pub mod partition;
pub mod solver;
pub mod document;
pub mod reader;
