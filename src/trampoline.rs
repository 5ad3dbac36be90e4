use vstd::prelude::*;
use crate::handle::Weechat;
use crate::option::StringOpt;
use crate::settings::{ChangeCallback, CheckCallback, StringOptionSettings};
use crate::value::{string_value, string_value_spec};

verus! {

/// What the host keeps for a registered option, behind the opaque token it
/// passes back to each callback: the owning context and the user callbacks.
pub struct OptionPointers<C, K> {
    pub weechat_ptr: usize,
    pub change_cb: Option<C>,
    pub check_cb: Option<K>,
}

/// The candidate value that a check callback receives: the decoded bytes the
/// host handed over, or the empty string where it handed none.
pub open spec fn candidate_text(candidate: Option<&[u8]>) -> Seq<char> {
    match candidate {
        Some(raw) => string_value_spec(raw@),
        None => Seq::empty(),
    }
}

/// The view a callback receives for the handles the host passed.
pub open spec fn view_of(option_ptr: usize, weechat_ptr: usize) -> StringOpt {
    StringOpt { ptr: option_ptr, weechat_ptr }
}

impl<C, K> OptionPointers<C, K> {
    /// Moves the callbacks out of `settings`, for the option registered in the
    /// context `weechat_ptr`. The name, description and default value go to
    /// the host's registration call; they are handed back.
    pub fn from_settings(settings: StringOptionSettings<C, K>, weechat_ptr: usize) -> (r: (
        OptionPointers<C, K>,
        String,
        String,
        String,
    ))
        ensures
            r.0.weechat_ptr == weechat_ptr,
            r.0.change_cb == settings.change_cb,
            r.0.check_cb == settings.check_cb,
            r.1 == settings.name,
            r.2 == settings.description,
            r.3 == settings.default_value,
    {
        let StringOptionSettings { name, description, default_value, change_cb, check_cb } =
            settings;
        (OptionPointers { weechat_ptr, change_cb, check_cb }, name, description, default_value)
    }
}

impl<C: ChangeCallback, K> OptionPointers<C, K> {
    /// Runs when the host reports that the option `option_ptr` changed: calls
    /// the change callback, if there is one, once, with the context and a view
    /// of the option. Returns whether a callback ran.
    pub fn run_change(&mut self, option_ptr: usize) -> (r: bool)
        requires
            old(self).change_cb is Some ==> old(self).change_cb->Some_0.can_run(
                Weechat { ptr: old(self).weechat_ptr },
                view_of(option_ptr, old(self).weechat_ptr),
            ),
        ensures
            r == old(self).change_cb is Some,
            final(self).weechat_ptr == old(self).weechat_ptr,
            final(self).change_cb is Some == old(self).change_cb is Some,
            final(self).check_cb == old(self).check_cb,
            r ==> old(self).change_cb->Some_0.ran(
                Weechat { ptr: old(self).weechat_ptr },
                view_of(option_ptr, old(self).weechat_ptr),
            ),
    {
        let weechat = Weechat::from_ptr(self.weechat_ptr);
        let option = StringOpt::from_ptrs(option_ptr, self.weechat_ptr);
        match self.change_cb.take() {
            Some(mut callback) => {
                callback.run(&weechat, &option);
                self.change_cb = Some(callback);
                true
            },
            None => false,
        }
    }
}

impl<C, K: CheckCallback> OptionPointers<C, K> {
    /// Runs when the host is about to give the option `option_ptr` a new
    /// value: calls the check callback, if there is one, once, with the
    /// context, a view of the option and the candidate value, decoded as a
    /// stored value is (see `candidate_text`). Returns whether a callback ran.
    /// Whether the host then applies the value is its own decision.
    pub fn run_check(&mut self, option_ptr: usize, candidate: Option<&[u8]>) -> (r: bool)
        requires
            old(self).check_cb is Some ==> forall|v: String|
                v@ == candidate_text(candidate) ==> old(self).check_cb->Some_0.can_run(
                    Weechat { ptr: old(self).weechat_ptr },
                    view_of(option_ptr, old(self).weechat_ptr),
                    v,
                ),
        ensures
            r == old(self).check_cb is Some,
            final(self).weechat_ptr == old(self).weechat_ptr,
            final(self).change_cb == old(self).change_cb,
            final(self).check_cb is Some == old(self).check_cb is Some,
            r ==> exists|v: String|
                v@ == candidate_text(candidate) && old(self).check_cb->Some_0.ran(
                    Weechat { ptr: old(self).weechat_ptr },
                    view_of(option_ptr, old(self).weechat_ptr),
                    v,
                ),
    {
        let weechat = Weechat::from_ptr(self.weechat_ptr);
        let option = StringOpt::from_ptrs(option_ptr, self.weechat_ptr);
        match self.check_cb.take() {
            Some(mut callback) => {
                let value = match candidate {
                    Some(raw) => string_value(raw),
                    None => String::new(),
                };
                proof {
                    assert(value@ == candidate_text(candidate));
                }
                callback.run(&weechat, &option, value);
                self.check_cb = Some(callback);
                true
            },
            None => false,
        }
    }
}

} // verus!
