//! Trackfolio: the verified core of a personal book of T-Bills and deposits.

pub mod decimal;
pub mod date;
pub mod text;
pub mod model;
pub mod calc;
pub mod json;
pub mod fx;
pub mod format;
pub mod overlay;
pub mod ui;
pub mod laws;
pub mod screen;
