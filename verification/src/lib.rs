//! Typed OpenCL binding structures with verified raw-representation contracts.
//!
//! Three independent components, each a pure data transformation:
//! context-property lists and their packed-byte wire format, image formats
//! with validated raw-code conversions and pixel-size computation, and
//! image descriptors with their fixed-layout raw projection.

pub mod image_descriptor;
pub mod image_format;
pub mod properties;
