pub mod errors;
pub mod shared;
pub mod task;
pub mod canvas;
pub mod gl;
