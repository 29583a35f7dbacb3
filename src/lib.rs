//! Text-mode widget/layout engine and UI interaction state machine for a
//! terminal client of a media collection tracker.

pub mod geometry;
pub mod style;
pub mod buffer;
pub mod text;
pub mod focus;
pub mod model;
pub mod fmt;
pub mod cache;
pub mod widgets;
pub mod input;
pub mod scroll;
pub mod ui;
pub mod reducer;
pub mod filters;
pub mod tabber;
pub mod auth;
pub mod help;
pub mod render;
