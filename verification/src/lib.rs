//! Planning of the graphics operations behind an array of 2D color textures.
//!
//! A [`Texture2DArray`] records the shape of a texture array that lives on a
//! graphics context. Every operation on it yields the exact list of
//! [`Command`]s that the owner of the context has to issue, in order.

pub mod array;
pub mod command;
pub mod format;
pub mod mipmap;
pub mod pixels;
pub mod sampling;

pub use array::{ColorTarget, CpuTexture, Texture2DArray};
pub use command::Command;
pub use format::{ChannelType, PixelFormat, TexelType};
pub use sampling::{Interpolation, Minification, Mipmap, Wrapping};
