//! The decisions behind `wp_color_management_v1`, version 2.
//!
//! - [`ColorManagementState`] holds the registered global, the interned descriptions, what
//!   is advertised, the interfaces to notify and the events that wait to be sent.
//! - [`ColorManagementHandler`] is what a compositor implements to say which description it
//!   advertises on an output and recommends for a surface.
//! - [`ColorManagementCapabilities`] is what is advertised to clients.
//! - [`with_surface_image_description`] reads what a surface has committed.
pub mod capabilities;
pub mod description;
pub mod handler;
pub mod icc_creator;
pub mod information;
pub mod notify;
pub mod params_creator;
pub mod registry;
pub mod replies;
pub mod resources;
pub mod state;
pub mod surface;
pub mod surface_state;

pub use capabilities::ColorManagementCapabilities;
pub use description::{
    Chromaticities, IccProfile, ImageDescription, ImageDescriptionInterner, Luminances,
    MasteringLuminance, PrimariesDef, TransferFunctionDef,
};
pub use handler::ColorManagementHandler;
pub use icc_creator::IccCreatorBuilder;
pub use notify::notify_output_image_description_changed;
pub use params_creator::ParamsCreatorBuilder;
pub use resources::{
    DescriptionResourceData, OutputResourceData, ReferenceResourceData,
    SurfaceFeedbackResourceData, SurfaceResourceData,
};
pub use state::ColorManagementState;
pub use surface::with_surface_image_description;
pub use surface_state::{ColorManagementSurfaceCachedState, ColorManagementSurfaceData};
