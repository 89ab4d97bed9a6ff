//! Triangle geometry: the decisions behind classifying a triangle, the text
//! entry of its six coordinates, and the reading of a line of coordinates.

mod strings;

pub mod shape;
pub mod entry;
pub mod line;
