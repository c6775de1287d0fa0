pub mod drag_debounce;
pub mod text;
