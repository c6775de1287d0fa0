pub mod data;
pub mod models;
pub mod notification;
pub mod system;
pub mod utils;
pub mod window;
