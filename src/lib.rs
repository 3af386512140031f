//! Fractional Brownian motion sample paths, drawn as a line chart and
//! delivered as an inline PNG image.
pub mod bounds;
pub mod canvas;
pub mod error;
pub mod inline;
pub mod path;
pub mod png;
