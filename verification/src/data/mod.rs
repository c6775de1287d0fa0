pub mod app_settings;
pub mod todo_data;
