//! Core of a screen-snipping tool: captured RGBA rasters, the mapping of a
//! selection drawn on an overlay onto source pixels, cropping, PNG/data-URL
//! encoding, and the single-slot snip session with its workflow decisions.

pub mod controller;
pub mod encode;
pub mod error;
pub mod geometry;
pub mod pixel;
pub mod session;

pub use controller::{after_capture, after_overlay, cancel, finish, finish_capture, query, StartStep};
pub use encode::{data_url, encode_png, encode_transport, transport_from_png};
pub use error::SnipError;
pub use geometry::{crop_rect, CropRect, Selection, Viewport};
pub use pixel::{PixelBuffer, Raster};
pub use session::SnipSession;
