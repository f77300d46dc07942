use vstd::prelude::*;

verus! {

/// Where a chat stands in its conversation with the bot.
#[derive(Debug, Clone, Copy, PartialEq, Eq, Structural)]
pub enum BotDialogState {
    /// Nothing is awaited from the user.
    Idle,
    /// The next plain message is the owner's emergency text.
    WaitingEmergencyText,
    /// The next plain message is an invite code.
    WaitingForInvite,
}

impl Default for BotDialogState {
    fn default() -> (s: Self)
        ensures
            s == BotDialogState::Idle,
    {
        BotDialogState::Idle
    }
}

/// The text of an optional string, as the contracts see it.
pub open spec fn opt_view(text: Option<String>) -> Option<Seq<char>> {
    match text {
        Some(t) => Some(t@),
        None => None,
    }
}

} // verus!
