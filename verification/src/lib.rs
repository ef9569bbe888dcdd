//! A bridge that lets a managed host runtime drive a native guest-module
//! execution engine.
//!
//! The library owns the bridge's logic: the handle registry through which the
//! host controls native object lifetimes, the value codec between host boxed
//! scalars and tagged values, the import trampoline that encodes a guest's
//! call to a host-defined function, the composition of import resolvers, the
//! linear-memory page accounting, and the facade over the guest engine. The
//! host boundary itself (reading host objects, raising host failures) stays
//! outside; it exchanges plain values with this library.

pub mod codec;
pub mod engine;
pub mod error;
pub mod ext;
pub mod memory;
pub mod registry;
pub mod resolver;
pub mod trampoline;
pub mod value;
