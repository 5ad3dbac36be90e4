use vstd::prelude::*;

verus! {

/// The host-plugin context handle. It is never dereferenced here: it is only
/// carried back to the host, as a capability token.
#[derive(Clone, Copy, Debug, PartialEq, Eq, Structural)]
pub struct Weechat {
    pub ptr: usize,
}

impl Weechat {
    /// Wraps the context handle that the host supplied.
    pub fn from_ptr(ptr: usize) -> (r: Weechat)
        ensures
            r.ptr == ptr,
    {
        Weechat { ptr }
    }
}

/// A configuration section of the host. Owned option wrappers borrow it so
/// that they cannot outlive it.
#[derive(Clone, Copy, Debug, PartialEq, Eq, Structural)]
pub struct ConfigSection {
    pub ptr: usize,
    pub weechat_ptr: usize,
}

impl ConfigSection {
    /// Wraps a section handle together with the context handle that owns it.
    pub fn from_ptrs(ptr: usize, weechat_ptr: usize) -> (r: ConfigSection)
        ensures
            r.ptr == ptr,
            r.weechat_ptr == weechat_ptr,
    {
        ConfigSection { ptr, weechat_ptr }
    }
}

} // verus!
