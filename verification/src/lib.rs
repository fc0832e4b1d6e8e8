//! Stellui's library: the logic of a terminal planetarium and weather
//! outlook that does not depend on floating-point astronomy or on the
//! terminal, with its contracts.
//!
//! - [`controls`]: the keyboard state machine (tabs, overlays, clock speed,
//!   location list, forms) and its laws
//! - [`clock`]: typed dates in UTC and time-zone names
//! - [`weather`]: day periods and the seeing rating of forecast hours
//! - [`config`]: configuration paths, effective lists, command-line overrides
//! - [`app`]: tabs, input modes, forms and clock-speed presets
//! - [`ui`], [`image_render`], [`sky`]: display rules (colours, glyphs,
//!   popups, list windows, almanac sampling)
//! - [`astro`]: errors of the star projection

pub mod app;
pub mod astro;
pub mod clock;
pub mod config;
pub mod controls;
pub mod image_render;
pub mod sky;
mod text;
pub mod ui;
pub mod weather;
