pub mod geometry;
pub mod movement;
pub mod scene;
pub mod thrust;
