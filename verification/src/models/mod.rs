pub mod date;
pub mod settings;
pub mod todo;
pub mod window;
