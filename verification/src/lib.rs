pub mod laws;
pub mod layout;
pub mod models;
pub mod screen;
pub mod state;
pub mod text;
