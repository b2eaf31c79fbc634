pub mod config;
pub mod line;
pub mod render;
pub mod scale;
pub mod servers;
pub mod session;
pub mod text;
pub mod window;
