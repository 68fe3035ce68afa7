//! The entity-and-context core of a retained-mode UI framework: an arena of entities
//! updated through take-and-put-back leases, an update counter that holds effects back
//! until the outermost update closes, an observer table, windows with a redraw sweep,
//! and the capture/bubble dispatch of mouse and keyboard listeners with click synthesis.

pub mod app;
pub mod entity;
pub mod geometry;
pub mod interactive;
