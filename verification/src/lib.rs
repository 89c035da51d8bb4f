//! Verified core of the Solar Navigator: target catalogues, ephemeris source
//! selection, Horizons response parsing, retry scheduling and calendar rules.

pub mod text;
pub mod horizons;
pub mod ephemeris;
pub mod sync;
pub mod calendar;
pub mod bodies;
pub mod rng;
pub mod textures;
pub mod trails;
pub mod labels;
pub mod icon;
