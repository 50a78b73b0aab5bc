//! Verified core of a ray-tracing renderer.
//!
//! The renderer's floating-point arithmetic (vector algebra, shading math)
//! lives outside this crate; what is verified here is every discrete decision
//! the renderer makes: the hex color codec, resolution option handling, the
//! nearest-hit selection and occlusion tests over order-encoded distances,
//! the recursion-depth guard of the shading pipeline, the wrap-around of
//! texture sampling, and the pixel/buffer layout of the rendering engine.

pub mod color;
pub mod intersect;
pub mod options;
pub mod raster;
pub mod resolver;
pub mod shading;
pub mod texture;

pub use color::Rgb;
pub use options::RenderOptions;
