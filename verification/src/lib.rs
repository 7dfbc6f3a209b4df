//! A terminal plotting library: it renders numeric series onto a character
//! grid as a set of cell writes, with axes, tick labels and an equation box,
//! together with the small state types of the surrounding application.

pub mod axes;
pub mod browser;
pub mod drums;
pub mod equation;
pub mod graph;
pub mod input;
pub mod mapper;
pub mod numfmt;
pub mod raster;
pub mod region;
pub mod sampler;
pub mod scalar;
pub mod state;
pub mod var;
