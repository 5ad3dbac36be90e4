//! Typed access to string configuration options of a host application that
//! hands out opaque handles: a settings builder, owned and borrowed option
//! wrappers, the decoding of the host's stored bytes, and the bridge that runs
//! user callbacks when the host reports a check or a change.
pub mod handle;
pub mod value;
pub mod settings;
pub mod option;
pub mod trampoline;
