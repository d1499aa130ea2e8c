//! The core of a Meta Quest mirroring client.

pub mod app;
pub mod audioplay;
pub mod capture;
pub mod devices;
pub mod laws;
pub mod live;
pub mod mesh;
pub mod obsdetect;
pub mod outputs;
pub mod panel;
pub mod remotes;
pub mod scalar;
pub mod session;
pub mod settings;
pub mod stream;
pub mod streamer;
pub mod text;
pub mod view;
pub mod warp;
