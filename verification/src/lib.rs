//! The state and the rules of a multi-pane weather-radar display.
//!
//! Drawing, clocks, files and the network live in the application around this
//! crate. What stands here is what the application decides with: panes and what
//! they show, the animation loops inside them, the pane grid, the poll
//! schedule, the layers of chrome that a back press closes, presets and the
//! saved configuration.
//!
//! Measured quantities are whole numbers of millionths of their unit (see
//! [`measure::Measure`]), instants are milliseconds on one monotonic clock, and
//! calendar times are [`stamp::Stamp`]s.

pub mod access;
pub mod actions;
pub mod apply_preset;
pub mod autosave;
pub mod camera;
pub mod catalog;
pub mod chrome;
pub mod config;
pub mod content;
pub mod controls;
pub mod delivery;
pub mod dismiss;
pub mod frames;
pub mod geo;
pub mod gui;
pub mod kinds;
pub mod layers;
pub mod layout;
pub mod loop_state;
pub mod measure;
pub mod orientation;
pub mod outside;
pub mod overlays;
pub mod pane;
pub mod poll;
pub mod presets;
pub mod retarget;
pub mod scan;
pub mod schedule;
pub mod stamp;
pub mod status;
pub mod sync;
pub mod table;
pub mod text;
pub mod tiles;
pub mod ui_config;
pub mod viewport;
