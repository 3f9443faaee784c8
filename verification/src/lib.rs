pub mod app_resource;
pub mod arena;
pub mod assets;
pub mod camera;
pub mod collision;
pub mod gpu;
pub mod handle;
pub mod instance;
pub mod model;
pub mod prefabs;
pub mod primitives;
pub mod render;
pub mod resources;
pub mod scalar;
pub mod shapes;
pub mod slots;
pub mod structs;
