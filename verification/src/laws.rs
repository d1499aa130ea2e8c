//! What the operations of the library are for: what a call returns and leaves
//! behind, told by its inputs and results alone.

pub mod picture;
pub mod stream;
pub mod text;
pub mod devices;
pub mod settings;
pub mod app;
pub mod remotes;
pub mod live;
pub mod streamer;
pub mod audio;
pub mod panel;
