//! rayrust — the request, reply and wire-format logic of a Rust SDK for the
//! Ray distributed computing framework.
//!
//! - `serialize`: the XLANG framing of msgpack payloads shared with Python,
//!   and decoding into dynamic msgpack values.
//! - `object_ref`: typed references to objects in the object store.
//! - `options`: job configuration and task and actor options, with the JSON
//!   the C interface takes.
//! - `runtime`: the runtime context, and the requests and replies of its
//!   operations.
//! - `codegen`: the names of the items that the `remote` and `actor`
//!   attributes generate.
//! - `worker`: the example tasks and counter actor of a worker library.
//! - `text`, `error`: text rendering and the error type.

pub mod codegen;
pub mod error;
pub mod object_ref;
pub mod options;
pub mod prelude;
pub mod runtime;
pub mod serialize;
pub mod text;
pub mod worker;

pub use error::RayError;
pub use object_ref::ObjectRef;
pub use options::{ActorLifetime, ActorOptions, RayConfig, TaskOptions};
pub use runtime::{ActorHandle, Ray};
pub use serialize::{
    build_xlang_header, deserialize_value, deserialize_xlang_value, frame_xlang, has_xlang_header,
    xlang_payload,
};
