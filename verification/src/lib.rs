//! The window of a tiling terminal.
pub mod cwd;
pub mod editor;
pub mod frame;
pub mod hotspot;
pub mod ids;
pub mod ipc;
pub mod layout;
pub mod layout_laws;
pub mod layout_ops;
pub mod paste;
pub mod render;
pub mod settings;
pub mod shell;
pub mod swarm_panes;
pub mod term_flags;
pub mod text;
pub mod window;
pub mod words;
