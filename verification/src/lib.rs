//! A small reactive terminal-UI engine: positioned visual elements carrying
//! per-phase callbacks, an event scheduler that classifies input, dispatches
//! it in element order, and redraws exactly when the application state
//! changed, plus the icon-editor logic built on top of it.

pub mod crumbicon;
pub mod element;
pub mod event;
pub mod lifecycle;
pub mod listener;
pub mod look;
pub mod message;
pub mod paint;
pub mod rusticon_screen;
pub mod scheduler;
pub mod splash_screen;
pub mod state;
pub mod style;
pub mod text;
pub mod widgets;

pub use look::Look;
