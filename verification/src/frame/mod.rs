//! What a frame shows around the panes.
pub mod delegates;
pub mod jump;
pub mod laws;
pub mod passes;
pub mod status;
pub mod timeline;
pub mod widgets;
