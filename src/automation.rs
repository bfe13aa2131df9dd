//! The direct automation command: which action a request names.

use vstd::prelude::*;
use crate::text::same_text;

verus! {

/// An automation action that can be requested by name.
#[derive(Clone, Copy, Debug, PartialEq, Eq, Structural)]
pub enum AutomationAction {
    MoveMouse,
    Click,
    Type,
    ScreenSize,
    MousePosition,
}

/// The action a name stands for.
pub open spec fn action_of(name: Seq<char>) -> Option<AutomationAction> {
    if name == "move_mouse"@ {
        Some(AutomationAction::MoveMouse)
    } else if name == "click"@ {
        Some(AutomationAction::Click)
    } else if name == "type"@ {
        Some(AutomationAction::Type)
    } else if name == "screen_size"@ {
        Some(AutomationAction::ScreenSize)
    } else if name == "mouse_position"@ {
        Some(AutomationAction::MousePosition)
    } else {
        None
    }
}

/// Mouse, keyboard and screen automation, reached by action name.
#[derive(Clone, Copy, Debug)]
pub struct AutomationService;

impl AutomationService {
    pub fn new() -> (r: AutomationService)
        ensures
            r == AutomationService,
    {
        AutomationService
    }

    /// Reads an action name; an unknown one is an error naming it.
    pub fn parse_action(&self, action: &str) -> (r: Result<AutomationAction, String>)
        ensures
            match action_of(action@) {
                Some(a) => r == Ok::<AutomationAction, String>(a),
                None => r is Err && r->Err_0@ == "Unknown automation action: "@ + action@,
            },
    {
        if same_text(action, "move_mouse") {
            Ok(AutomationAction::MoveMouse)
        } else if same_text(action, "click") {
            Ok(AutomationAction::Click)
        } else if same_text(action, "type") {
            Ok(AutomationAction::Type)
        } else if same_text(action, "screen_size") {
            Ok(AutomationAction::ScreenSize)
        } else if same_text(action, "mouse_position") {
            Ok(AutomationAction::MousePosition)
        } else {
            Err(String::from_str("Unknown automation action: ").concat(action))
        }
    }
}

} // verus!
