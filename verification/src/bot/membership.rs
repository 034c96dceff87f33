//! The bot being added to a chat. Anyone outside the allow list, or any
//! group other than the household's, gets the bot to leave.

use vstd::prelude::*;

use crate::gateway::ChatKind;

verus! {

pub const OTHER_GROUP: &'static str = "Já estou cuidando das finanças de outro grupo. Tchau! 👋";

pub const GREETING: &'static str = "Olá! 👋 Mande /start para eu começar a registrar as finanças deste grupo.";

#[derive(Clone, Copy, Debug, PartialEq, Eq, Structural)]
pub enum MembershipAction {
    /// Not joining a group: nothing to do.
    Nothing,
    /// Added by a stranger: leave without a word.
    Leave,
    /// Another group is already the household's: say so, then leave.
    LeaveOtherGroup,
    /// Ask for `/start`.
    Greet,
}

/// Whether the join needs the allow list and the settings at all.
pub open spec fn joins_group(bot_is_member: bool, chat_kind: ChatKind) -> bool {
    bot_is_member && chat_kind == ChatKind::Group
}

pub open spec fn membership_action_of(
    bot_is_member: bool,
    chat_kind: ChatKind,
    added_by_member: bool,
    bound_chat: Option<i64>,
    chat_id: i64,
) -> MembershipAction {
    if !joins_group(bot_is_member, chat_kind) {
        MembershipAction::Nothing
    } else if !added_by_member {
        MembershipAction::Leave
    } else if bound_chat matches Some(existing) && existing != chat_id {
        MembershipAction::LeaveOtherGroup
    } else {
        MembershipAction::Greet
    }
}

/// What to do when the bot joins or leaves a chat, once the allow list
/// said whether whoever added it is a member and the settings gave the
/// bound chat.
pub fn membership_action(
    bot_is_member: bool,
    chat_kind: ChatKind,
    added_by_member: bool,
    bound_chat: Option<i64>,
    chat_id: i64,
) -> (action: MembershipAction)
    ensures
        action == membership_action_of(bot_is_member, chat_kind, added_by_member, bound_chat, chat_id),
{
    if !bot_is_member || chat_kind != ChatKind::Group {
        return MembershipAction::Nothing;
    }
    if !added_by_member {
        return MembershipAction::Leave;
    }
    match bound_chat {
        Some(existing) => if existing != chat_id {
            MembershipAction::LeaveOtherGroup
        } else {
            MembershipAction::Greet
        },
        None => MembershipAction::Greet,
    }
}

} // verus!
