use vstd::prelude::*;
use std::marker::PhantomData;
use crate::handle::{ConfigSection, Weechat};
use crate::value::{string_value, string_value_spec, until_nul, REPLACEMENT_CHARACTER};
use vstd::utf8::{valid_utf8, decode_utf8};

verus! {

/// A borrowed view of a string option: the handle of the option and the handle
/// of the host context that owns it. It is what a callback receives, and must
/// not be kept beyond the callback.
///
/// The handles are never dereferenced here. That the host still holds the
/// option they name is a precondition of every use, which nothing here can
/// check.
#[derive(Clone, Copy, Debug, PartialEq, Eq, Structural)]
pub struct StringOpt {
    pub ptr: usize,
    pub weechat_ptr: usize,
}

impl StringOpt {
    /// The value this view reads when the host holds `raw` for its handle.
    pub open spec fn spec_value(self, raw: Seq<u8>) -> Seq<char> {
        string_value_spec(raw)
    }

    /// A view of the option that the two handles name.
    pub fn from_ptrs(option_ptr: usize, weechat_ptr: usize) -> (r: StringOpt)
        ensures
            r.ptr == option_ptr,
            r.weechat_ptr == weechat_ptr,
    {
        StringOpt { ptr: option_ptr, weechat_ptr }
    }

    /// The option handle.
    pub fn get_ptr(&self) -> (r: usize)
        ensures
            r == self.ptr,
    {
        self.ptr
    }

    /// The host context that owns the option.
    pub fn get_weechat(&self) -> (r: Weechat)
        ensures
            r.ptr == self.weechat_ptr,
    {
        Weechat::from_ptr(self.weechat_ptr)
    }

    /// The value of the option, given what the host's string accessor returned
    /// for its handle (`raw`, a NUL-terminated byte string). Bytes that are not
    /// UTF-8 are replaced by U+FFFD; reading never fails. Nothing is cached:
    /// each read decodes what the host holds now.
    pub fn value(&self, raw: &[u8]) -> (r: String)
        ensures
            r@ == self.spec_value(raw@),
            valid_utf8(until_nul(raw@)) ==> r@ == decode_utf8(until_nul(raw@)),
            !valid_utf8(until_nul(raw@)) ==> r@.contains(REPLACEMENT_CHARACTER),
    {
        string_value(raw)
    }
}

/// A string option owned by a config section. It borrows the section, so it
/// cannot outlive it; every read goes through the borrowed view it holds.
pub struct StringOption<'a> {
    pub inner: StringOpt,
    pub section: PhantomData<&'a ConfigSection>,
}

impl<'a> StringOption<'a> {
    /// The option that `section` registered under the handle `option_ptr`.
    pub fn new(section: &'a ConfigSection, option_ptr: usize) -> (r: StringOption<'a>)
        ensures
            r.inner.ptr == option_ptr,
            r.inner.weechat_ptr == section.weechat_ptr,
    {
        StringOption {
            inner: StringOpt::from_ptrs(option_ptr, section.weechat_ptr),
            section: PhantomData,
        }
    }

    /// The option handle.
    pub fn get_ptr(&self) -> (r: usize)
        ensures
            r == self.inner.ptr,
    {
        self.inner.get_ptr()
    }

    /// The host context that owns the option.
    pub fn get_weechat(&self) -> (r: Weechat)
        ensures
            r.ptr == self.inner.weechat_ptr,
    {
        self.inner.get_weechat()
    }
}

impl<'a> std::ops::Deref for StringOption<'a> {
    type Target = StringOpt;

    fn deref(&self) -> (r: &StringOpt)
        ensures
            *r == self.inner,
    {
        &self.inner
    }
}

/// Two wrappers built apart over the same handle pair are the same view, and
/// whatever the host holds for that handle (after a change made through either
/// of them) they read the same value: neither keeps a copy of its own.
pub proof fn lemma_same_handles_same_value(a: StringOpt, b: StringOpt, raw: Seq<u8>)
    requires
        a.ptr == b.ptr,
        a.weechat_ptr == b.weechat_ptr,
    ensures
        a == b,
        a.spec_value(raw) == b.spec_value(raw),
{
}

} // verus!
