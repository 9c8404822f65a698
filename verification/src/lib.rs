//! Verified core of an image color pipeline: format descriptors, the
//! stage-planning logic that drives a colorimetric conversion, and the
//! integer byte/sample codec used at the raster boundary.

pub mod codec;
pub mod format;
pub mod pipeline;

pub use format::ColorDepth;
pub use format::ColorFormat;
pub use format::ColorSpace;
pub use format::DynamicRange;
pub use format::ImageFormat;
pub use format::NormFormat;
pub use format::SignalStatus;
