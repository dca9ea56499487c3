//! The editing core of the "void" canvas editor: its document of elements,
//! its configuration, its selection state machine and its client sessions.

pub mod document;
pub mod editor;
pub mod element;
pub mod text;
pub mod config;
pub mod ini;
pub mod session;
pub mod settings;
pub mod style;
