//! Core state and layout model of a spacecraft-console dashboard.
//!
//! The library holds the parts of the console with real invariants: the
//! cyclic navigation shared by the main menu and the star map, the star-map
//! travel model, the viewport partitioner that turns a screen rectangle into
//! named sub-regions, and the gauge ratio clamping. Rendering into the
//! terminal is left to the binary around the library.

pub mod app;
pub mod color;
pub mod cyclic;
pub mod error;
pub mod gauge;
pub mod input;
pub mod layout;
pub mod menu;
pub mod star_map;
