pub mod board;
pub mod position;
pub mod render;
pub mod text;
