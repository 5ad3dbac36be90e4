use std::cell::{Cell, RefCell};
use std::rc::Rc;

use weechat_config::handle::{ConfigSection, Weechat};
use weechat_config::option::{StringOpt, StringOption};
use weechat_config::settings::StringOptionSettings;
use weechat_config::trampoline::OptionPointers;
use weechat_config::value::{c_str_bytes, string_value, REPLACEMENT_CHARACTER};

fn stored(s: &str) -> Vec<u8> {
    let mut v = s.as_bytes().to_vec();
    v.push(0);
    v
}

#[test]
fn round_trip_of_valid_strings() {
    for s in ["", "guest", "irc.look.nick", "héllo wörld", "日本語", "emoji 🦀"] {
        assert_eq!(string_value(&stored(s)), s);
    }
}

#[test]
fn invalid_utf8_reads_with_replacement() {
    let raw = [0x66u8, 0xFF, 0x6F, 0];
    let v = string_value(&raw);
    assert_eq!(v, "f\u{FFFD}o");
    assert!(v.contains(REPLACEMENT_CHARACTER));
}

#[test]
fn truncated_sequence_reads_with_replacement() {
    let raw = [0x61u8, 0xE6, 0x97, 0];
    assert_eq!(string_value(&raw), "a\u{FFFD}");
}

#[test]
fn value_stops_at_first_nul() {
    assert_eq!(string_value(b"alice\0bob\0"), "alice");
    assert_eq!(string_value(b"no terminator"), "no terminator");
    assert_eq!(string_value(b"\0rest"), "");
    assert_eq!(string_value(b""), "");
}

#[test]
fn c_str_bytes_copies_up_to_nul() {
    assert_eq!(c_str_bytes(b"ab\0cd"), b"ab".to_vec());
    assert_eq!(c_str_bytes(b"abcd"), b"abcd".to_vec());
    assert_eq!(c_str_bytes(b""), Vec::<u8>::new());
}

#[test]
fn new_settings_are_empty() {
    let s = StringOptionSettings::new("irc.look.nick".to_string());
    assert_eq!(s.name, "irc.look.nick");
    assert_eq!(s.description, "");
    assert_eq!(s.default_value, "");
    assert!(s.change_cb.is_none());
    assert!(s.check_cb.is_none());
}

#[test]
fn builder_sets_description_and_default() {
    let s = StringOptionSettings::new("irc.look.nick".to_string())
        .description("nick to use".to_string())
        .default_value("guest".to_string());
    assert_eq!(s.name, "irc.look.nick");
    assert_eq!(s.description, "nick to use");
    assert_eq!(s.default_value, "guest");
}

#[test]
fn second_change_callback_replaces_first() {
    let first = Rc::new(Cell::new(0u32));
    let second = Rc::new(Cell::new(0u32));
    let f = first.clone();
    let g = second.clone();
    let s = StringOptionSettings::new("a.b.c".to_string())
        .set_change_callback(move |_: &Weechat, _: &StringOpt| f.set(f.get() + 1))
        .set_change_callback(move |_: &Weechat, _: &StringOpt| g.set(g.get() + 1));
    let (mut pointers, _, _, _) = OptionPointers::from_settings(s, 7);
    assert!(pointers.run_change(11));
    assert!(pointers.run_change(11));
    assert_eq!(first.get(), 0);
    assert_eq!(second.get(), 2);
}

#[test]
fn second_check_callback_replaces_first() {
    let seen = Rc::new(RefCell::new(Vec::<String>::new()));
    let first = Rc::new(Cell::new(0u32));
    let f = first.clone();
    let s2 = seen.clone();
    let s = StringOptionSettings::new("a.b.c".to_string())
        .set_check_callback(move |_: &Weechat, _: &StringOpt, _: String| f.set(f.get() + 1))
        .set_check_callback(move |_: &Weechat, _: &StringOpt, v: String| s2.borrow_mut().push(v));
    let (mut pointers, _, _, _) = OptionPointers::from_settings(s, 7);
    assert!(pointers.run_check(11, Some(b"alice\0")));
    assert_eq!(first.get(), 0);
    assert_eq!(*seen.borrow(), vec!["alice".to_string()]);
}

#[test]
fn check_receives_candidate_and_view() {
    let seen = Rc::new(RefCell::new(Vec::<(usize, usize, String)>::new()));
    let s2 = seen.clone();
    let s = StringOptionSettings::new("a.b.c".to_string()).set_check_callback(
        move |w: &Weechat, o: &StringOpt, v: String| s2.borrow_mut().push((w.ptr, o.ptr, v)),
    );
    let (mut pointers, _, _, _) = OptionPointers::from_settings(s, 7);
    assert!(pointers.run_check(11, Some(&[0x62u8, 0xFF, 0][..])));
    assert!(pointers.run_check(12, None));
    assert_eq!(
        *seen.borrow(),
        vec![(7, 11, "b\u{FFFD}".to_string()), (7, 12, String::new())]
    );
}

#[test]
fn no_callback_means_nothing_runs() {
    let s = StringOptionSettings::new("a.b.c".to_string());
    let (mut pointers, name, description, default) = OptionPointers::from_settings(s, 3);
    assert_eq!(pointers.weechat_ptr, 3);
    assert_eq!(name, "a.b.c");
    assert_eq!(description, "");
    assert_eq!(default, "");
    assert!(!pointers.run_change(1));
    assert!(!pointers.run_check(1, Some(b"x\0")));
}

#[test]
fn change_callback_sees_view_of_option() {
    let seen = Rc::new(RefCell::new(Vec::<(usize, usize)>::new()));
    let s2 = seen.clone();
    let s = StringOptionSettings::new("a.b.c".to_string())
        .set_change_callback(move |w: &Weechat, o: &StringOpt| s2.borrow_mut().push((w.ptr, o.get_ptr())));
    let (mut pointers, _, _, _) = OptionPointers::from_settings(s, 5);
    assert!(pointers.run_change(9));
    assert_eq!(*seen.borrow(), vec![(5, 9)]);
}

#[test]
fn wrappers_over_same_handles_agree() {
    let a = StringOpt::from_ptrs(11, 7);
    let b = StringOpt::from_ptrs(11, 7);
    assert!(a == b);
    let host = stored("before");
    assert_eq!(a.value(&host), b.value(&host));
    let host = stored("after");
    assert_eq!(a.value(&host), "after");
    assert_eq!(b.value(&host), "after");
}

#[test]
fn owned_option_delegates_to_view() {
    let section = ConfigSection::from_ptrs(100, 7);
    let option = StringOption::new(&section, 11);
    assert_eq!(option.get_ptr(), 11);
    assert_eq!(option.get_weechat(), Weechat::from_ptr(7));
    assert_eq!(option.weechat_ptr, 7);
    assert_eq!(option.value(&stored("guest")), "guest");
}

#[test]
fn nick_option_scenario() {
    let fired = Rc::new(Cell::new(0u32));
    let f = fired.clone();
    let settings = StringOptionSettings::new("irc.look.nick".to_string())
        .default_value("guest".to_string())
        .set_change_callback(move |_: &Weechat, _: &StringOpt| f.set(f.get() + 1));
    let (mut pointers, name, _, default) = OptionPointers::from_settings(settings, 7);
    assert_eq!(name, "irc.look.nick");
    let section = ConfigSection::from_ptrs(100, 7);
    let option = StringOption::new(&section, 11);
    let mut host = stored(&default);
    assert_eq!(option.value(&host), "guest");
    host = stored("alice");
    assert!(pointers.run_change(option.get_ptr()));
    assert_eq!(fired.get(), 1);
    assert_eq!(option.value(&host), "alice");
}
