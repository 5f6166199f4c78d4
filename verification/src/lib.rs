pub mod canvas;
pub mod dimensions;
pub mod laws;
pub mod random;
pub mod renderer;
pub mod style;
pub mod text;
