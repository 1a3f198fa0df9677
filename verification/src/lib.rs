pub mod game;
pub mod laws;
pub mod letters;
pub mod render;
pub mod session;
