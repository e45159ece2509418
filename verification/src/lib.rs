//! Cascaded voxel radiance volumes for cone-traced global illumination.
//!
//! A radiance volume is a stack of nested cubes of texels, the cascades,
//! around a point of the scene. Each cascade has the same number of texels
//! and covers twice the extent of the one inside it. Every frame the scene's
//! triangles are written into the texels, and the texture's mip chain is
//! built, so that a later lighting pass can gather indirect light from it.
//!
//! This library holds what a frame decides on the CPU, in the order in which
//! a frame runs it:
//!
//! - [`extract`] takes the frame's snapshot of the volume out of the scene;
//! - [`prepare`] describes the volume's texture, builds the cascade records
//!   that the shaders read ([`cascade`], [`texture`]) and fills the frame's
//!   uniform buffer with them ([`uniform`]);
//! - [`node`] lays out the GPU passes of the frame and their order.
//!
//! [`shaders`] describes what the pipelines expect to be bound, and
//! [`volume`] and [`error`] hold the authored description of a volume and
//! the faults it can have. Talking to the device is left to the caller.
//! Numbers with a fraction never enter the library: where the engine has
//! one, the library carries its bit pattern.

pub mod cascade;
pub mod error;
pub mod extract;
pub mod node;
pub mod prepare;
pub mod shaders;
pub mod texture;
pub mod uniform;
pub mod volume;
