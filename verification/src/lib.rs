//! A software framebuffer: a fixed-size grid of RGBA pixels that can be
//! painted pixel by pixel and handed to an image codec or a GPU as raw bytes.

pub mod color;
pub mod grid;
pub mod pixbuf;
pub mod quad;
pub mod viewport;

pub use color::Color;
pub use pixbuf::PixBuf;
