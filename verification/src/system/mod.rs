pub mod date_info;
pub mod tray;
