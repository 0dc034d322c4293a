//! Verified core of a small real-time rendering toolkit.
//!
//! The windowing, OpenGL and asset-import calls themselves live outside this
//! library; what is verified here is every decision those calls are driven
//! by: how texture samplers are numbered and named, how loaded textures are
//! cached by path, how vertex attributes are laid out in a buffer, which
//! status a shader stage is checked with and what its error messages say,
//! and how a movement command displaces the camera.

pub mod camera;
pub mod decimal;
pub mod layout;
pub mod model;
pub mod shader;
pub mod texture;
