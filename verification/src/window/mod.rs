pub mod focus;
pub mod management;
pub mod placement;
pub mod position;
