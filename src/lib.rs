pub mod geometry;
pub mod raster;
pub mod compositor;
pub mod frames;
pub mod pipeline;
pub mod relay;
