use vstd::prelude::*;
use crate::handle::Weechat;
use crate::option::StringOpt;

verus! {

/// Stands in a callback slot of settings that hold no callback of that kind.
#[derive(Clone, Copy, Debug, PartialEq, Eq, Structural)]
pub struct NoCallback;

/// Something that can run when the host reports that an option changed.
pub trait ChangeCallback: Sized {
    /// Whether the callback may run with these arguments.
    spec fn can_run(&self, weechat: Weechat, option: StringOpt) -> bool;

    /// What holds after the callback ran with these arguments.
    spec fn ran(&self, weechat: Weechat, option: StringOpt) -> bool;

    fn run(&mut self, weechat: &Weechat, option: &StringOpt)
        requires
            old(self).can_run(*weechat, *option),
        ensures
            old(self).ran(*weechat, *option),
    ;
}

/// Something that can run when the host checks a candidate value.
pub trait CheckCallback: Sized {
    /// Whether the callback may run with these arguments.
    spec fn can_run(&self, weechat: Weechat, option: StringOpt, value: String) -> bool;

    /// What holds after the callback ran with these arguments.
    spec fn ran(&self, weechat: Weechat, option: StringOpt, value: String) -> bool;

    fn run(&mut self, weechat: &Weechat, option: &StringOpt, value: String)
        requires
            old(self).can_run(*weechat, *option, value),
        ensures
            old(self).ran(*weechat, *option, value),
    ;
}

impl<F: FnMut(&Weechat, &StringOpt)> ChangeCallback for F {
    open spec fn can_run(&self, weechat: Weechat, option: StringOpt) -> bool {
        call_requires(*self, (&weechat, &option))
    }

    open spec fn ran(&self, weechat: Weechat, option: StringOpt) -> bool {
        call_ensures(*self, (&weechat, &option), ())
    }

    fn run(&mut self, weechat: &Weechat, option: &StringOpt) {
        self(weechat, option)
    }
}

impl ChangeCallback for NoCallback {
    open spec fn can_run(&self, weechat: Weechat, option: StringOpt) -> bool {
        true
    }

    open spec fn ran(&self, weechat: Weechat, option: StringOpt) -> bool {
        true
    }

    fn run(&mut self, weechat: &Weechat, option: &StringOpt) {
    }
}

impl<F: FnMut(&Weechat, &StringOpt, String)> CheckCallback for F {
    open spec fn can_run(&self, weechat: Weechat, option: StringOpt, value: String) -> bool {
        call_requires(*self, (&weechat, &option, value))
    }

    open spec fn ran(&self, weechat: Weechat, option: StringOpt, value: String) -> bool {
        call_ensures(*self, (&weechat, &option, value), ())
    }

    fn run(&mut self, weechat: &Weechat, option: &StringOpt, value: String) {
        self(weechat, option, value)
    }
}

impl CheckCallback for NoCallback {
    open spec fn can_run(&self, weechat: Weechat, option: StringOpt, value: String) -> bool {
        true
    }

    open spec fn ran(&self, weechat: Weechat, option: StringOpt, value: String) -> bool {
        true
    }

    fn run(&mut self, weechat: &Weechat, option: &StringOpt, value: String) {
    }
}

/// The settings for a new string config option: its name, description and
/// default value, and the callbacks to run when the host checks a candidate
/// value (`check_cb`) and after it changed the value (`change_cb`).
///
/// Nothing is validated here: the host decides at registration whether it
/// accepts the name and the values.
pub struct StringOptionSettings<C, K> {
    pub name: String,
    pub description: String,
    pub default_value: String,
    pub change_cb: Option<C>,
    pub check_cb: Option<K>,
}

impl<C, K> StringOptionSettings<C, K> {
    /// The settings after the change callback was set to `callback`.
    pub open spec fn spec_with_change_callback<C2>(self, callback: C2) -> StringOptionSettings<C2, K> {
        StringOptionSettings {
            name: self.name,
            description: self.description,
            default_value: self.default_value,
            change_cb: Some(callback),
            check_cb: self.check_cb,
        }
    }

    /// The settings after the check callback was set to `callback`.
    pub open spec fn spec_with_check_callback<K2>(self, callback: K2) -> StringOptionSettings<C, K2> {
        StringOptionSettings {
            name: self.name,
            description: self.description,
            default_value: self.default_value,
            change_cb: self.change_cb,
            check_cb: Some(callback),
        }
    }

    /// Sets the description.
    pub fn description(self, description: String) -> (r: Self)
        ensures
            r.description == description,
            r.name == self.name,
            r.default_value == self.default_value,
            r.change_cb == self.change_cb,
            r.check_cb == self.check_cb,
    {
        let mut s = self;
        s.description = description;
        s
    }

    /// Sets the default value.
    pub fn default_value(self, value: String) -> (r: Self)
        ensures
            r.default_value == value,
            r.name == self.name,
            r.description == self.description,
            r.change_cb == self.change_cb,
            r.check_cb == self.check_cb,
    {
        let mut s = self;
        s.default_value = value;
        s
    }

    /// Sets the callback that runs after the host changed the value. A
    /// callback set before is dropped.
    pub fn set_change_callback<C2>(self, callback: C2) -> (r: StringOptionSettings<C2, K>)
        ensures
            r == self.spec_with_change_callback(callback),
    {
        StringOptionSettings {
            name: self.name,
            description: self.description,
            default_value: self.default_value,
            change_cb: Some(callback),
            check_cb: self.check_cb,
        }
    }

    /// Sets the callback that runs when the host checks a candidate value. A
    /// callback set before is dropped.
    pub fn set_check_callback<K2>(self, callback: K2) -> (r: StringOptionSettings<C, K2>)
        ensures
            r == self.spec_with_check_callback(callback),
    {
        StringOptionSettings {
            name: self.name,
            description: self.description,
            default_value: self.default_value,
            change_cb: self.change_cb,
            check_cb: Some(callback),
        }
    }
}

impl StringOptionSettings<NoCallback, NoCallback> {
    /// Settings with the given name, an empty description and default value,
    /// and no callbacks.
    pub fn new(name: String) -> (r: Self)
        ensures
            r.name == name,
            r.description@ == Seq::<char>::empty(),
            r.default_value@ == Seq::<char>::empty(),
            r.change_cb.is_none(),
            r.check_cb.is_none(),
    {
        StringOptionSettings {
            name,
            description: String::new(),
            default_value: String::new(),
            change_cb: None,
            check_cb: None,
        }
    }
}

/// Setting the change callback twice leaves only the second one: the first
/// is dropped, not kept beside it.
pub proof fn lemma_change_callback_overwrites<C, K, C1, C2>(
    s: StringOptionSettings<C, K>,
    first: C1,
    second: C2,
)
    ensures
        s.spec_with_change_callback(first).spec_with_change_callback(second)
            == s.spec_with_change_callback(second),
        s.spec_with_change_callback(first).spec_with_change_callback(second).change_cb
            == Some(second),
{
}

/// Setting the check callback twice leaves only the second one.
pub proof fn lemma_check_callback_overwrites<C, K, K1, K2>(
    s: StringOptionSettings<C, K>,
    first: K1,
    second: K2,
)
    ensures
        s.spec_with_check_callback(first).spec_with_check_callback(second)
            == s.spec_with_check_callback(second),
{
}

} // verus!
