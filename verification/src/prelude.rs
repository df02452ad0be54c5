//! Convenience module for common imports.

pub use crate::error::RayError;
pub use crate::object_ref::ObjectRef;
pub use crate::options::{ActorLifetime, ActorOptions, RayConfig, TaskOptions};
pub use crate::runtime::{ActorHandle, Ray};
pub use crate::serialize::{
    deserialize_value, deserialize_xlang_value, frame_xlang, has_xlang_header, xlang_payload,
};
