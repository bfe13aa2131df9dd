//! The desktop automation tools: what each one tells the provider about
//! itself, and what each decides from its arguments before it acts.
//!
//! Acting on the mouse and keyboard, and everything that reads screen
//! coordinates, happens outside this crate; the plans here say what to do
//! and what to report.

use vstd::prelude::*;
use vstd::string::StringSliceAdditionalSpecFns;
use vstd::utf8::{decode_utf8, encode_utf8, is_char_boundary};
use crate::agent::ToolOutput;
use crate::keys::{
    flag_label, flag_name, flag_of, key_code_of, parse_flag, parse_key_code, KeyFlag, KeyName,
};
use crate::registry::{DefinitionModel, ToolDefinition};
use crate::text::{decimal, decimal_text, same_text};

verus! {

broadcast use vstd::utf8::encode_utf8_valid_utf8, vstd::utf8::encode_utf8_decode_utf8;

pub const MOVE_MOUSE_NAME: &'static str = "move_mouse";
pub const MOVE_MOUSE_DESCRIPTION: &'static str = "Move the mouse cursor to absolute screen coordinates";
pub const MOVE_MOUSE_PARAMETERS: &'static str = "{\"type\":\"object\",\"properties\":{\"x\":{\"type\":\"number\",\"description\":\"X coordinate (pixels from left)\"},\"y\":{\"type\":\"number\",\"description\":\"Y coordinate (pixels from top)\"}},\"required\":[\"x\",\"y\"]}";

pub const CLICK_NAME: &'static str = "click";
pub const CLICK_DESCRIPTION: &'static str = "Click the mouse at the current cursor position. Optionally specify button (left/right/middle) and click count.";
pub const CLICK_PARAMETERS: &'static str = "{\"type\":\"object\",\"properties\":{\"button\":{\"type\":\"string\",\"enum\":[\"left\",\"right\",\"middle\"],\"description\":\"Mouse button to click (default: left)\"},\"count\":{\"type\":\"integer\",\"description\":\"Number of clicks (default: 1, use 2 for double-click)\"}},\"required\":[]}";

pub const TYPE_TEXT_NAME: &'static str = "type_text";
pub const TYPE_TEXT_DESCRIPTION: &'static str = "Type text using simulated keystrokes. Types the given string as if the user typed it on the keyboard.";
pub const TYPE_TEXT_PARAMETERS: &'static str = "{\"type\":\"object\",\"properties\":{\"text\":{\"type\":\"string\",\"description\":\"The text to type\"}},\"required\":[\"text\"]}";

pub const SCREEN_INFO_NAME: &'static str = "screen_info";
pub const SCREEN_INFO_DESCRIPTION: &'static str = "Get information about the screen and current mouse position. Returns screen dimensions and cursor coordinates.";
pub const SCREEN_INFO_PARAMETERS: &'static str = "{\"type\":\"object\",\"properties\":{},\"required\":[]}";

pub const KEY_PRESS_NAME: &'static str = "key_press";
pub const KEY_PRESS_DESCRIPTION: &'static str = "Press a keyboard key or key combination. Supports modifier keys (cmd, ctrl, alt, shift) with regular keys.";
pub const KEY_PRESS_PARAMETERS: &'static str = "{\"type\":\"object\",\"properties\":{\"key\":{\"type\":\"string\",\"description\":\"Key to press (e.g. 'return', 'tab', 'escape', 'a', '1', 'f5')\"},\"modifiers\":{\"type\":\"array\",\"items\":{\"type\":\"string\"},\"description\":\"Modifier keys (e.g. ['cmd'], ['cmd', 'shift'])\"}},\"required\":[\"key\"]}";

pub const MISSING_TEXT: &'static str = "Missing or invalid 'text' parameter";
pub const MISSING_KEY: &'static str = "Missing or invalid 'key' parameter";
pub const UNKNOWN_KEY_HINT: &'static str = "'. Use a single character or a named key (return, tab, escape, space, backspace, delete, up, down, left, right, home, end, pageup, pagedown, f1-f24).";
pub const UNKNOWN_BUTTON_HINT: &'static str = "'. Use left, right, or middle.";

/// The definition model of a tool with these texts.
pub open spec fn definition_of(name: &str, description: &str, parameters: &str) -> DefinitionModel {
    DefinitionModel { name: name@, description: description@, parameters: parameters@ }
}

/// Moves the pointer to absolute screen coordinates.
#[derive(Clone, Copy, Debug)]
pub struct MoveMouseTool;

impl MoveMouseTool {
    pub fn name(&self) -> (r: &'static str)
        ensures
            r@ == MOVE_MOUSE_NAME@,
    {
        MOVE_MOUSE_NAME
    }

    pub fn description(&self) -> (r: &'static str)
        ensures
            r@ == MOVE_MOUSE_DESCRIPTION@,
    {
        MOVE_MOUSE_DESCRIPTION
    }

    /// The parameter schema, as JSON text.
    pub fn parameters(&self) -> (r: &'static str)
        ensures
            r@ == MOVE_MOUSE_PARAMETERS@,
    {
        MOVE_MOUSE_PARAMETERS
    }

    pub fn definition(&self) -> (r: ToolDefinition)
        ensures
            r@ == definition_of(MOVE_MOUSE_NAME, MOVE_MOUSE_DESCRIPTION, MOVE_MOUSE_PARAMETERS),
    {
        ToolDefinition::new(MOVE_MOUSE_NAME, MOVE_MOUSE_DESCRIPTION, MOVE_MOUSE_PARAMETERS)
    }
}

/// A mouse button.
#[derive(Clone, Copy, Debug, PartialEq, Eq, Structural)]
pub enum MouseButton {
    Left,
    Right,
    Middle,
}

/// The button a name stands for.
pub open spec fn button_of(s: Seq<char>) -> Option<MouseButton> {
    if s == "left"@ {
        Some(MouseButton::Left)
    } else if s == "right"@ {
        Some(MouseButton::Right)
    } else if s == "middle"@ {
        Some(MouseButton::Middle)
    } else {
        None
    }
}

/// How a click is described: the button, with the count when it is not one.
pub open spec fn click_label(button: Seq<char>, count: nat) -> Seq<char> {
    if count == 1 {
        button + " click"@
    } else {
        decimal(count) + "x "@ + button + " click"@
    }
}

/// What a click tool run does.
#[derive(Debug)]
pub struct ClickPlan {
    pub button: MouseButton,
    /// How many clicks, at least one.
    pub count: u64,
    /// What to report once the clicks are done.
    pub report: ToolOutput,
}

/// Clicks a mouse button at the pointer, one or more times.
#[derive(Clone, Copy, Debug)]
pub struct ClickTool;

impl ClickTool {
    pub fn name(&self) -> (r: &'static str)
        ensures
            r@ == CLICK_NAME@,
    {
        CLICK_NAME
    }

    pub fn description(&self) -> (r: &'static str)
        ensures
            r@ == CLICK_DESCRIPTION@,
    {
        CLICK_DESCRIPTION
    }

    /// The parameter schema, as JSON text.
    pub fn parameters(&self) -> (r: &'static str)
        ensures
            r@ == CLICK_PARAMETERS@,
    {
        CLICK_PARAMETERS
    }

    pub fn definition(&self) -> (r: ToolDefinition)
        ensures
            r@ == definition_of(CLICK_NAME, CLICK_DESCRIPTION, CLICK_PARAMETERS),
    {
        ToolDefinition::new(CLICK_NAME, CLICK_DESCRIPTION, CLICK_PARAMETERS)
    }

    /// Decides a click from its arguments: the button (left when absent) and
    /// the count (one when absent, and never below one). An unknown button
    /// name is reported as an error output.
    pub fn plan(&self, button: Option<&str>, count: Option<u64>) -> (r: Result<ClickPlan, ToolOutput>)
        ensures
            ({
                let b = match button {
                    Some(b) => b@,
                    None => "left"@,
                };
                let n: u64 = match count {
                    Some(c) => if c >= 1 {
                        c
                    } else {
                        1
                    },
                    None => 1,
                };
                match button_of(b) {
                    Some(mb) => {
                        &&& r is Ok
                        &&& r->Ok_0.button == mb
                        &&& r->Ok_0.count == n
                        &&& r->Ok_0.report.success
                        &&& r->Ok_0.report.for_llm@ == "Performed "@ + click_label(b, n as nat)
                    },
                    None => {
                        &&& r is Err
                        &&& !r->Err_0.success
                        &&& r->Err_0.for_llm@ == "Unknown button '"@ + b + UNKNOWN_BUTTON_HINT@
                    },
                }
            }),
    {
        let b: &str = match button {
            Some(b) => b,
            None => "left",
        };
        let mb = if same_text(b, "left") {
            MouseButton::Left
        } else if same_text(b, "right") {
            MouseButton::Right
        } else if same_text(b, "middle") {
            MouseButton::Middle
        } else {
            let msg = String::from_str("Unknown button '").concat(b).concat(UNKNOWN_BUTTON_HINT);
            return Err(ToolOutput::error(msg.as_str()));
        };
        let n: u64 = match count {
            Some(c) => if c >= 1 {
                c
            } else {
                1
            },
            None => 1,
        };
        let label = if n == 1 {
            String::from_str(b).concat(" click")
        } else {
            decimal_text(n).concat("x ").concat(b).concat(" click")
        };
        let report = String::from_str("Performed ").concat(label.as_str());
        proof {
            assert(("Performed "@ + label@) =~= "Performed "@ + click_label(b@, n as nat));
        }
        Ok(ClickPlan { button: mb, count: n, report: ToolOutput::llm_only(report.as_str()) })
    }
}

/// The last character boundary of `bytes` at or below `i`.
pub open spec fn cut_point(bytes: Seq<u8>, i: nat) -> nat
    decreases i,
{
    if i == 0 || is_char_boundary(bytes, i as int) {
        i
    } else {
        cut_point(bytes, (i - 1) as nat)
    }
}

/// How a typed text is quoted back: whole up to 60 bytes, else its first
/// 57 bytes (fewer where a character would be split) and an ellipsis.
pub open spec fn preview_of(text: &str) -> Seq<char> {
    let bytes = text.spec_bytes();
    if text.len() > 60 {
        decode_utf8(bytes.subrange(0, cut_point(bytes, 57) as int)) + "..."@
    } else {
        text@
    }
}

/// The report of a typed text: its length in bytes and its preview.
pub open spec fn typed_report(text: &str) -> Seq<char> {
    "Typed "@ + decimal(text.len() as nat) + " characters: \""@ + preview_of(text) + "\""@
}

fn preview(text: &str) -> (r: String)
    ensures
        r@ == preview_of(text),
{
    if text.len() > 60 {
        let ghost bytes = text.spec_bytes();
        let mut cut: usize = 57;
        while cut > 0 && !text.is_char_boundary(cut)
            invariant
                cut <= 57,
                bytes == text.spec_bytes(),
                cut_point(bytes, 57) == cut_point(bytes, cut as nat),
            decreases cut,
        {
            cut = cut - 1;
        }
        let (head, _tail) = text.split_at(cut);
        proof {
            assert(cut_point(bytes, cut as nat) == cut);
            assert(head.spec_bytes() == bytes.subrange(0, cut as int));
            assert(decode_utf8(encode_utf8(head@)) == head@);
        }
        String::from_str(head).concat("...")
    } else {
        String::from_str(text)
    }
}

/// Types a text with simulated keystrokes.
#[derive(Clone, Copy, Debug)]
pub struct TypeTextTool;

impl TypeTextTool {
    pub fn name(&self) -> (r: &'static str)
        ensures
            r@ == TYPE_TEXT_NAME@,
    {
        TYPE_TEXT_NAME
    }

    pub fn description(&self) -> (r: &'static str)
        ensures
            r@ == TYPE_TEXT_DESCRIPTION@,
    {
        TYPE_TEXT_DESCRIPTION
    }

    /// The parameter schema, as JSON text.
    pub fn parameters(&self) -> (r: &'static str)
        ensures
            r@ == TYPE_TEXT_PARAMETERS@,
    {
        TYPE_TEXT_PARAMETERS
    }

    pub fn definition(&self) -> (r: ToolDefinition)
        ensures
            r@ == definition_of(TYPE_TEXT_NAME, TYPE_TEXT_DESCRIPTION, TYPE_TEXT_PARAMETERS),
    {
        ToolDefinition::new(TYPE_TEXT_NAME, TYPE_TEXT_DESCRIPTION, TYPE_TEXT_PARAMETERS)
    }

    /// Decides a typing run: with a text, `Ok` with the report to give once
    /// it is typed; without one, `Err` with the error output.
    pub fn plan(&self, text: Option<&str>) -> (r: Result<ToolOutput, ToolOutput>)
        ensures
            match text {
                Some(t) => r is Ok && r->Ok_0.success && r->Ok_0.for_llm@ == typed_report(t),
                None => r is Err && !r->Err_0.success && r->Err_0.for_llm@ == MISSING_TEXT@,
            },
    {
        match text {
            None => Err(ToolOutput::error(MISSING_TEXT)),
            Some(t) => {
                let shown = preview(t);
                let report = String::from_str("Typed ").concat(decimal_text(t.len() as u64).as_str()).concat(
                    " characters: \"",
                ).concat(shown.as_str()).concat("\"");
                Ok(ToolOutput::llm_only(report.as_str()))
            },
        }
    }
}

/// Reports the screen size and the pointer position.
#[derive(Clone, Copy, Debug)]
pub struct ScreenInfoTool;

impl ScreenInfoTool {
    pub fn name(&self) -> (r: &'static str)
        ensures
            r@ == SCREEN_INFO_NAME@,
    {
        SCREEN_INFO_NAME
    }

    pub fn description(&self) -> (r: &'static str)
        ensures
            r@ == SCREEN_INFO_DESCRIPTION@,
    {
        SCREEN_INFO_DESCRIPTION
    }

    /// The parameter schema, as JSON text.
    pub fn parameters(&self) -> (r: &'static str)
        ensures
            r@ == SCREEN_INFO_PARAMETERS@,
    {
        SCREEN_INFO_PARAMETERS
    }

    pub fn definition(&self) -> (r: ToolDefinition)
        ensures
            r@ == definition_of(SCREEN_INFO_NAME, SCREEN_INFO_DESCRIPTION, SCREEN_INFO_PARAMETERS),
    {
        ToolDefinition::new(SCREEN_INFO_NAME, SCREEN_INFO_DESCRIPTION, SCREEN_INFO_PARAMETERS)
    }
}

/// What a key press presses: a named key or a single ASCII character.
#[derive(Clone, Copy, Debug, PartialEq, Eq, Structural)]
pub enum KeyTarget {
    Named(KeyName),
    Char(char),
}

/// The key a key name stands for: a named key (in any ASCII case) first,
/// else the single ASCII character it consists of.
pub open spec fn key_target_of(key: Seq<char>) -> Option<KeyTarget> {
    match key_code_of(key) {
        Some(code) => Some(KeyTarget::Named(code)),
        None => if key.len() == 1 && (key[0] as u32) < 128 {
            Some(KeyTarget::Char(key[0]))
        } else {
            None
        },
    }
}

/// The modifiers named by `names`, in order, skipping names of none.
pub open spec fn flags_of(names: Seq<Seq<char>>) -> Seq<KeyFlag>
    decreases names.len(),
{
    if names.len() == 0 {
        Seq::empty()
    } else {
        let before = flags_of(names.drop_last());
        match flag_of(names.last()) {
            Some(f) => before.push(f),
            None => before,
        }
    }
}

/// The labels of `flags` joined by " + ".
pub open spec fn joined_labels(flags: Seq<KeyFlag>) -> Seq<char>
    decreases flags.len(),
{
    if flags.len() == 0 {
        Seq::empty()
    } else if flags.len() == 1 {
        flag_label(flags[0])
    } else {
        joined_labels(flags.drop_last()) + " + "@ + flag_label(flags.last())
    }
}

/// What stands before the key in a key-press report.
pub open spec fn modifier_prefix(flags: Seq<KeyFlag>) -> Seq<char> {
    if flags.len() == 0 {
        Seq::empty()
    } else {
        joined_labels(flags) + " + "@
    }
}

pub open spec fn strings_model(v: Seq<String>) -> Seq<Seq<char>> {
    v.map_values(|s: String| s@)
}

/// What a key-press tool run does.
#[derive(Debug)]
pub struct KeyPress {
    pub target: KeyTarget,
    /// The modifiers held, in the order they were named.
    pub flags: Vec<KeyFlag>,
    /// What to report once the key is pressed.
    pub report: ToolOutput,
}

fn read_flags(modifiers: &Vec<String>) -> (r: Vec<KeyFlag>)
    ensures
        r@ == flags_of(strings_model(modifiers@)),
{
    let ghost names = strings_model(modifiers@);
    let mut r: Vec<KeyFlag> = Vec::new();
    let mut i: usize = 0;
    while i < modifiers.len()
        invariant
            i <= modifiers.len(),
            names == strings_model(modifiers@),
            r@ == flags_of(names.take(i as int)),
        decreases modifiers.len() - i,
    {
        proof {
            assert(names.take(i + 1).drop_last() =~= names.take(i as int));
        }
        match parse_flag(modifiers[i].as_str()) {
            Some(f) => r.push(f),
            None => {},
        }
        i = i + 1;
    }
    assert(names.take(modifiers@.len() as int) =~= names);
    r
}

fn modifier_label(flags: &Vec<KeyFlag>) -> (r: String)
    ensures
        r@ == modifier_prefix(flags@),
{
    let mut label = String::new();
    let mut i: usize = 0;
    while i < flags.len()
        invariant
            i <= flags.len(),
            label@ == joined_labels(flags@.take(i as int)),
        decreases flags.len() - i,
    {
        let ghost before = label@;
        proof {
            assert(flags@.take(i + 1).drop_last() =~= flags@.take(i as int));
        }
        if i > 0 {
            label.append(" + ");
        }
        label.append(flag_name(flags[i]));
        proof {
            if i == 0 {
                assert(label@ =~= flag_label(flags@[0]));
            }
        }
        i = i + 1;
    }
    assert(flags@.take(flags@.len() as int) =~= flags@);
    if flags.len() > 0 {
        label.append(" + ");
    }
    label
}

/// Presses a key, optionally with modifiers held.
#[derive(Clone, Copy, Debug)]
pub struct KeyPressTool;

impl KeyPressTool {
    pub fn name(&self) -> (r: &'static str)
        ensures
            r@ == KEY_PRESS_NAME@,
    {
        KEY_PRESS_NAME
    }

    pub fn description(&self) -> (r: &'static str)
        ensures
            r@ == KEY_PRESS_DESCRIPTION@,
    {
        KEY_PRESS_DESCRIPTION
    }

    /// The parameter schema, as JSON text.
    pub fn parameters(&self) -> (r: &'static str)
        ensures
            r@ == KEY_PRESS_PARAMETERS@,
    {
        KEY_PRESS_PARAMETERS
    }

    pub fn definition(&self) -> (r: ToolDefinition)
        ensures
            r@ == definition_of(KEY_PRESS_NAME, KEY_PRESS_DESCRIPTION, KEY_PRESS_PARAMETERS),
    {
        ToolDefinition::new(KEY_PRESS_NAME, KEY_PRESS_DESCRIPTION, KEY_PRESS_PARAMETERS)
    }

    /// Decides a key press from the key argument and the modifier names
    /// given (unknown modifier names are skipped). A missing or unknown key
    /// is reported as an error output.
    pub fn plan(&self, key: Option<&str>, modifiers: &Vec<String>) -> (r: Result<KeyPress, ToolOutput>)
        ensures
            match key {
                None => r is Err && !r->Err_0.success && r->Err_0.for_llm@ == MISSING_KEY@,
                Some(k) => match key_target_of(k@) {
                    Some(t) => {
                        &&& r is Ok
                        &&& r->Ok_0.target == t
                        &&& r->Ok_0.flags@ == flags_of(strings_model(modifiers@))
                        &&& r->Ok_0.report.success
                        &&& r->Ok_0.report.for_llm@ == "Pressed "@ + modifier_prefix(
                            flags_of(strings_model(modifiers@)),
                        ) + k@
                    },
                    None => {
                        &&& r is Err
                        &&& !r->Err_0.success
                        &&& r->Err_0.for_llm@ == "Unknown key '"@ + k@ + UNKNOWN_KEY_HINT@
                    },
                },
            },
    {
        let k = match key {
            None => {
                return Err(ToolOutput::error(MISSING_KEY));
            },
            Some(k) => k,
        };
        let flags = read_flags(modifiers);
        let target = match parse_key_code(k) {
            Some(code) => KeyTarget::Named(code),
            None => {
                if k.unicode_len() == 1 && (k.get_char(0) as u32) < 128 {
                    KeyTarget::Char(k.get_char(0))
                } else {
                    let msg = String::from_str("Unknown key '").concat(k).concat(UNKNOWN_KEY_HINT);
                    return Err(ToolOutput::error(msg.as_str()));
                }
            },
        };
        let report = String::from_str("Pressed ").concat(modifier_label(&flags).as_str()).concat(k);
        Ok(KeyPress { target, flags, report: ToolOutput::llm_only(report.as_str()) })
    }
}

/// The definitions of all automation tools, in the order they are offered.
pub fn all_automation_tools() -> (r: Vec<ToolDefinition>)
    ensures
        r@.len() == 5,
        r@[0]@ == definition_of(MOVE_MOUSE_NAME, MOVE_MOUSE_DESCRIPTION, MOVE_MOUSE_PARAMETERS),
        r@[1]@ == definition_of(CLICK_NAME, CLICK_DESCRIPTION, CLICK_PARAMETERS),
        r@[2]@ == definition_of(TYPE_TEXT_NAME, TYPE_TEXT_DESCRIPTION, TYPE_TEXT_PARAMETERS),
        r@[3]@ == definition_of(SCREEN_INFO_NAME, SCREEN_INFO_DESCRIPTION, SCREEN_INFO_PARAMETERS),
        r@[4]@ == definition_of(KEY_PRESS_NAME, KEY_PRESS_DESCRIPTION, KEY_PRESS_PARAMETERS),
{
    let mut r: Vec<ToolDefinition> = Vec::new();
    r.push(MoveMouseTool.definition());
    r.push(ClickTool.definition());
    r.push(TypeTextTool.definition());
    r.push(ScreenInfoTool.definition());
    r.push(KeyPressTool.definition());
    r
}

} // verus!
