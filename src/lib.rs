//! Decoding of VTFX texture containers (the console variant of the VTF
//! texture format) into RGBA8 images.

use vstd::prelude::*;

pub mod args;
pub mod block;
pub mod bytes;
pub mod error;
pub mod image_format;
pub mod lzma;
pub mod pipeline;
pub mod pixels;
pub mod resource_entry_info;
pub mod vtfx;
