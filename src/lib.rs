pub mod app;
pub mod laws;
pub mod text;
pub mod timer;
pub mod todo;
