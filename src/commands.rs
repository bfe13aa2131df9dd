//! What the application shell reports about the assistant.

use vstd::prelude::*;

verus! {

/// Whether each part of the assistant is up.
#[derive(Clone, Copy, Debug, PartialEq, Eq, Structural)]
pub struct BotStatus {
    pub listening: bool,
    pub agent_ready: bool,
    pub automation_available: bool,
}

/// The current status: not listening, agent ready, automation available.
pub fn get_status() -> (r: Result<BotStatus, String>)
    ensures
        r == Ok::<BotStatus, String>(
            BotStatus { listening: false, agent_ready: true, automation_available: true },
        ),
{
    Ok(BotStatus { listening: false, agent_ready: true, automation_available: true })
}

} // verus!
