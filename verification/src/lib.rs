//! Terminal weather station: the decisions and text layout behind the
//! weather visualisations, with their contracts.
pub mod measure;
pub mod text;
pub mod weather;
pub mod effects;
pub mod grid;
pub mod compass;
pub mod visualizations;
pub mod renderer;
pub mod session;
pub mod service;
