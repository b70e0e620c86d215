pub mod camera;
pub mod canvas;
pub mod color;
pub mod geometry;
pub mod integrator;
pub mod laws;
pub mod material;
pub mod measure;
pub mod ray;
pub mod renderer;
pub mod scene;
pub mod vector;
pub mod whole;
