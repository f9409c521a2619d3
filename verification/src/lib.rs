//! Rules of chess movement: which squares a piece may move to on a given
//! board, with blocking, capturing and the ban on exposing one's own king.

pub mod board;
pub mod color;
pub mod model;
pub mod piece;
pub mod square;
pub mod square_set;
