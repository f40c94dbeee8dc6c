//! Escape-time fractal rendering: colorspace routing, strategy selection,
//! pixel-to-plane mapping, the escape-time control loop with periodicity
//! detection, and progressive multi-sample accumulation.

pub mod colorspace;
pub mod coords;
pub mod escape;
pub mod renderer;
pub mod strategy;

pub use colorspace::{conversion_route, ColorType};
pub use coords::pixel_offset;
pub use escape::EscapeState;
pub use renderer::{pixel_position, Renderer};
pub use strategy::{BailRule, ColorRule, DomainMap, Fractal, Functions, Functs, InitRule, IterationRule};

