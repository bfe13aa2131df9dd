//! Keyboard key names and modifier flags, as the key-press tool reads them.

use vstd::prelude::*;
use crate::text::{lowercases_to, matches_lowercase};

verus! {

/// A modifier key held during a key press.
#[derive(Clone, Copy, Debug, PartialEq, Eq, Structural)]
pub enum KeyFlag {
    Shift,
    Control,
    Alt,
    Meta,
    Help,
}

/// A key known by name rather than by the character it types.
#[derive(Clone, Copy, Debug, PartialEq, Eq, Structural)]
pub enum KeyName {
    Return,
    Tab,
    Escape,
    Space,
    Backspace,
    Delete,
    UpArrow,
    DownArrow,
    LeftArrow,
    RightArrow,
    Home,
    End,
    PageUp,
    PageDown,
    CapsLock,
    PrintScreen,
    ScrollLock,
    Pause,
    F1,
    F2,
    F3,
    F4,
    F5,
    F6,
    F7,
    F8,
    F9,
    F10,
    F11,
    F12,
    F13,
    F14,
    F15,
    F16,
    F17,
    F18,
    F19,
    F20,
    F21,
    F22,
    F23,
    F24,
}

/// The modifier that a name stands for, ignoring ASCII case.
pub open spec fn flag_of(s: Seq<char>) -> Option<KeyFlag> {
    if lowercases_to(s, "shift"@) {
        Some(KeyFlag::Shift)
    } else if lowercases_to(s, "control"@) || lowercases_to(s, "ctrl"@) {
        Some(KeyFlag::Control)
    } else if lowercases_to(s, "alt"@) || lowercases_to(s, "option"@) {
        Some(KeyFlag::Alt)
    } else if lowercases_to(s, "meta"@) || lowercases_to(s, "cmd"@) || lowercases_to(s, "command"@) || lowercases_to(s, "win"@) || lowercases_to(s, "super"@) {
        Some(KeyFlag::Meta)
    } else {
        None
    }
}

/// Reads a modifier name, ignoring ASCII case.
pub fn parse_flag(s: &str) -> (r: Option<KeyFlag>)
    ensures
        r == flag_of(s@),
{
    if matches_lowercase(s, "shift") {
        Some(KeyFlag::Shift)
    } else if matches_lowercase(s, "control") || matches_lowercase(s, "ctrl") {
        Some(KeyFlag::Control)
    } else if matches_lowercase(s, "alt") || matches_lowercase(s, "option") {
        Some(KeyFlag::Alt)
    } else if matches_lowercase(s, "meta") || matches_lowercase(s, "cmd") || matches_lowercase(s, "command") || matches_lowercase(s, "win") || matches_lowercase(s, "super") {
        Some(KeyFlag::Meta)
    } else {
        None
    }
}

/// The label a modifier is shown with.
pub open spec fn flag_label(f: KeyFlag) -> Seq<char> {
    match f {
        KeyFlag::Shift => "Shift"@,
        KeyFlag::Control => "Ctrl"@,
        KeyFlag::Alt => "Alt"@,
        KeyFlag::Meta => "Cmd"@,
        KeyFlag::Help => "Help"@,
    }
}

/// The label a modifier is shown with.
pub fn flag_name(f: KeyFlag) -> (r: &'static str)
    ensures
        r@ == flag_label(f),
{
    match f {
        KeyFlag::Shift => "Shift",
        KeyFlag::Control => "Ctrl",
        KeyFlag::Alt => "Alt",
        KeyFlag::Meta => "Cmd",
        KeyFlag::Help => "Help",
    }
}

/// The named key that a name stands for, ignoring ASCII case.
pub open spec fn key_code_of(s: Seq<char>) -> Option<KeyName> {
    if lowercases_to(s, "return"@) || lowercases_to(s, "enter"@) {
        Some(KeyName::Return)
    } else if lowercases_to(s, "tab"@) {
        Some(KeyName::Tab)
    } else if lowercases_to(s, "escape"@) || lowercases_to(s, "esc"@) {
        Some(KeyName::Escape)
    } else if lowercases_to(s, "space"@) {
        Some(KeyName::Space)
    } else if lowercases_to(s, "backspace"@) {
        Some(KeyName::Backspace)
    } else if lowercases_to(s, "delete"@) || lowercases_to(s, "del"@) {
        Some(KeyName::Delete)
    } else if lowercases_to(s, "up"@) || lowercases_to(s, "uparrow"@) {
        Some(KeyName::UpArrow)
    } else if lowercases_to(s, "down"@) || lowercases_to(s, "downarrow"@) {
        Some(KeyName::DownArrow)
    } else if lowercases_to(s, "left"@) || lowercases_to(s, "leftarrow"@) {
        Some(KeyName::LeftArrow)
    } else if lowercases_to(s, "right"@) || lowercases_to(s, "rightarrow"@) {
        Some(KeyName::RightArrow)
    } else if lowercases_to(s, "home"@) {
        Some(KeyName::Home)
    } else if lowercases_to(s, "end"@) {
        Some(KeyName::End)
    } else if lowercases_to(s, "pageup"@) {
        Some(KeyName::PageUp)
    } else if lowercases_to(s, "pagedown"@) {
        Some(KeyName::PageDown)
    } else if lowercases_to(s, "capslock"@) {
        Some(KeyName::CapsLock)
    } else if lowercases_to(s, "printscreen"@) {
        Some(KeyName::PrintScreen)
    } else if lowercases_to(s, "scrolllock"@) {
        Some(KeyName::ScrollLock)
    } else if lowercases_to(s, "pause"@) {
        Some(KeyName::Pause)
    } else if lowercases_to(s, "f1"@) {
        Some(KeyName::F1)
    } else if lowercases_to(s, "f2"@) {
        Some(KeyName::F2)
    } else if lowercases_to(s, "f3"@) {
        Some(KeyName::F3)
    } else if lowercases_to(s, "f4"@) {
        Some(KeyName::F4)
    } else if lowercases_to(s, "f5"@) {
        Some(KeyName::F5)
    } else if lowercases_to(s, "f6"@) {
        Some(KeyName::F6)
    } else if lowercases_to(s, "f7"@) {
        Some(KeyName::F7)
    } else if lowercases_to(s, "f8"@) {
        Some(KeyName::F8)
    } else if lowercases_to(s, "f9"@) {
        Some(KeyName::F9)
    } else if lowercases_to(s, "f10"@) {
        Some(KeyName::F10)
    } else if lowercases_to(s, "f11"@) {
        Some(KeyName::F11)
    } else if lowercases_to(s, "f12"@) {
        Some(KeyName::F12)
    } else if lowercases_to(s, "f13"@) {
        Some(KeyName::F13)
    } else if lowercases_to(s, "f14"@) {
        Some(KeyName::F14)
    } else if lowercases_to(s, "f15"@) {
        Some(KeyName::F15)
    } else if lowercases_to(s, "f16"@) {
        Some(KeyName::F16)
    } else if lowercases_to(s, "f17"@) {
        Some(KeyName::F17)
    } else if lowercases_to(s, "f18"@) {
        Some(KeyName::F18)
    } else if lowercases_to(s, "f19"@) {
        Some(KeyName::F19)
    } else if lowercases_to(s, "f20"@) {
        Some(KeyName::F20)
    } else if lowercases_to(s, "f21"@) {
        Some(KeyName::F21)
    } else if lowercases_to(s, "f22"@) {
        Some(KeyName::F22)
    } else if lowercases_to(s, "f23"@) {
        Some(KeyName::F23)
    } else if lowercases_to(s, "f24"@) {
        Some(KeyName::F24)
    } else {
        None
    }
}

/// Reads a key name, ignoring ASCII case.
#[verifier::rlimit(50)]
pub fn parse_key_code(s: &str) -> (r: Option<KeyName>)
    ensures
        r == key_code_of(s@),
{
    if matches_lowercase(s, "return") || matches_lowercase(s, "enter") {
        Some(KeyName::Return)
    } else if matches_lowercase(s, "tab") {
        Some(KeyName::Tab)
    } else if matches_lowercase(s, "escape") || matches_lowercase(s, "esc") {
        Some(KeyName::Escape)
    } else if matches_lowercase(s, "space") {
        Some(KeyName::Space)
    } else if matches_lowercase(s, "backspace") {
        Some(KeyName::Backspace)
    } else if matches_lowercase(s, "delete") || matches_lowercase(s, "del") {
        Some(KeyName::Delete)
    } else if matches_lowercase(s, "up") || matches_lowercase(s, "uparrow") {
        Some(KeyName::UpArrow)
    } else if matches_lowercase(s, "down") || matches_lowercase(s, "downarrow") {
        Some(KeyName::DownArrow)
    } else if matches_lowercase(s, "left") || matches_lowercase(s, "leftarrow") {
        Some(KeyName::LeftArrow)
    } else if matches_lowercase(s, "right") || matches_lowercase(s, "rightarrow") {
        Some(KeyName::RightArrow)
    } else if matches_lowercase(s, "home") {
        Some(KeyName::Home)
    } else if matches_lowercase(s, "end") {
        Some(KeyName::End)
    } else if matches_lowercase(s, "pageup") {
        Some(KeyName::PageUp)
    } else if matches_lowercase(s, "pagedown") {
        Some(KeyName::PageDown)
    } else if matches_lowercase(s, "capslock") {
        Some(KeyName::CapsLock)
    } else if matches_lowercase(s, "printscreen") {
        Some(KeyName::PrintScreen)
    } else if matches_lowercase(s, "scrolllock") {
        Some(KeyName::ScrollLock)
    } else if matches_lowercase(s, "pause") {
        Some(KeyName::Pause)
    } else if matches_lowercase(s, "f1") {
        Some(KeyName::F1)
    } else if matches_lowercase(s, "f2") {
        Some(KeyName::F2)
    } else if matches_lowercase(s, "f3") {
        Some(KeyName::F3)
    } else if matches_lowercase(s, "f4") {
        Some(KeyName::F4)
    } else if matches_lowercase(s, "f5") {
        Some(KeyName::F5)
    } else if matches_lowercase(s, "f6") {
        Some(KeyName::F6)
    } else if matches_lowercase(s, "f7") {
        Some(KeyName::F7)
    } else if matches_lowercase(s, "f8") {
        Some(KeyName::F8)
    } else if matches_lowercase(s, "f9") {
        Some(KeyName::F9)
    } else if matches_lowercase(s, "f10") {
        Some(KeyName::F10)
    } else if matches_lowercase(s, "f11") {
        Some(KeyName::F11)
    } else if matches_lowercase(s, "f12") {
        Some(KeyName::F12)
    } else if matches_lowercase(s, "f13") {
        Some(KeyName::F13)
    } else if matches_lowercase(s, "f14") {
        Some(KeyName::F14)
    } else if matches_lowercase(s, "f15") {
        Some(KeyName::F15)
    } else if matches_lowercase(s, "f16") {
        Some(KeyName::F16)
    } else if matches_lowercase(s, "f17") {
        Some(KeyName::F17)
    } else if matches_lowercase(s, "f18") {
        Some(KeyName::F18)
    } else if matches_lowercase(s, "f19") {
        Some(KeyName::F19)
    } else if matches_lowercase(s, "f20") {
        Some(KeyName::F20)
    } else if matches_lowercase(s, "f21") {
        Some(KeyName::F21)
    } else if matches_lowercase(s, "f22") {
        Some(KeyName::F22)
    } else if matches_lowercase(s, "f23") {
        Some(KeyName::F23)
    } else if matches_lowercase(s, "f24") {
        Some(KeyName::F24)
    } else {
        None
    }
}

} // verus!
