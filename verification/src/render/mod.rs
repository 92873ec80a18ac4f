//! What is drawn of a pane: which cells, with which links and hotspots.
pub mod cells;
pub mod damage;
pub mod laws;
pub mod pane;
pub mod patterns;
pub mod rows;
pub mod tree;
