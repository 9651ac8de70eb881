//! The decisions behind `wp_color_representation_v1`, version 1.
//!
//! Where color management describes what the colors of a buffer mean, this protocol
//! describes how the bytes of the buffer stand for color values:
//!
//! - the alpha mode: premultiplied, electrically or optically, or straight;
//! - the coefficients and the range of YCbCr formats;
//! - the chroma location of sub-sampled formats.
//!
//! For RGB formats only the alpha mode has a meaning. A renderer reads what a surface has
//! committed by [`with_surface_color_representation`].
pub mod capabilities;
pub mod state;
pub mod surface;
pub mod surface_state;

pub use capabilities::ColorRepresentationCapabilities;
pub use state::{ColorRepresentationHandler, ColorRepresentationState, SurfaceResourceData};
pub use surface::with_surface_color_representation;
pub use surface_state::{ColorRepresentationSurfaceCachedState, ColorRepresentationSurfaceData};
