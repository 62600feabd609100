//! State and rendering model of a four-column kanban board viewer.

pub mod app;
pub mod column;
pub mod input;
pub mod navigation;
pub mod text;
pub mod ticket;
pub mod ui;
