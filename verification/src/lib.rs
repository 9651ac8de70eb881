//! Color for Wayland compositors: the decisions behind `wp_color_management_v1` and
//! `wp_color_representation_v1`, and the HDR signaling values of a connector.
//!
//! The library holds no live protocol object. Requests come in as values, with the numbers
//! that the client sent, and errors, events and new objects leave as values. The compositor
//! reads from and writes to its clients around that.
//!
//! - [`color_management`]: image descriptions with their identities, the requests that make,
//!   ask for and use them, and the events that tell of them.
//! - [`color_representation`]: how the bytes of a buffer stand for color values.
//! - [`hdr`]: HDR signaling values of a connector.
//! - [`protocol`]: the enumerations of both protocols.
//! - [`advertised`]: sets of protocol values.
//! - [`attachment`]: the slot that a protocol object takes on a surface.
//! - [`cached_state`]: double-buffered surface state.
pub mod advertised;
pub mod attachment;
pub mod cached_state;
pub mod color_management;
pub mod color_representation;
pub mod hdr;
pub mod protocol;
