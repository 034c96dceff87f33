//! Who is talking and where. Only allowed users are served; financial
//! commands only run in the household's own group.

use vstd::prelude::*;

use crate::gateway::ChatKind;
use crate::model::MemberId;
use crate::render::errors::AppError;

verus! {

/// A person on the allow list.
#[derive(Clone, Debug, PartialEq, Eq)]
pub struct Member {
    pub id: MemberId,
    pub telegram_user_id: i64,
    pub display_name: String,
    /// The private chat with the bot, once the member wrote `/start` there.
    pub dm_chat_id: Option<i64>,
    /// Whether backup alerts go to that private chat.
    pub receives_backups: bool,
}

#[derive(Clone, Debug, PartialEq, Eq)]
pub enum Audience {
    /// An allowed member in the household's group.
    Household(Member),
    /// An allowed member in a group, before any group was bound.
    UnboundGroup(Member),
    /// An allowed member in a private chat with the bot.
    Private(Member),
    /// A stranger writing to the bot privately.
    Stranger,
    /// Bots, strangers in groups, other groups: say nothing.
    Ignore,
}

/// Who the bot is talking to: bots are ignored; strangers get an answer
/// only in private; members are served in private, in the household's
/// group, or in a group when none is bound yet.
pub open spec fn audience_of(
    is_bot: bool,
    member: Option<Member>,
    chat_kind: ChatKind,
    chat_id: i64,
    bound_chat: Option<i64>,
) -> Audience {
    if is_bot {
        Audience::Ignore
    } else {
        match member {
            None => if chat_kind == ChatKind::Private { Audience::Stranger } else { Audience::Ignore },
            Some(member) => match chat_kind {
                ChatKind::Private => Audience::Private(member),
                ChatKind::Other => Audience::Ignore,
                ChatKind::Group => match bound_chat {
                    Some(bound) => if bound == chat_id { Audience::Household(member) } else { Audience::Ignore },
                    None => Audience::UnboundGroup(member),
                },
            },
        }
    }
}

/// The audience once the allow list answered with `member` and, for
/// groups, the settings with the bound chat.
pub fn identify(
    is_bot: bool,
    member: Option<Member>,
    chat_kind: ChatKind,
    chat_id: i64,
    bound_chat: Option<i64>,
) -> (audience: Audience)
    ensures
        audience == audience_of(is_bot, member, chat_kind, chat_id, bound_chat),
{
    if is_bot {
        return Audience::Ignore;
    }
    let member = match member {
        Some(member) => member,
        None => {
            return if chat_kind == ChatKind::Private {
                Audience::Stranger
            } else {
                Audience::Ignore
            };
        },
    };
    match chat_kind {
        ChatKind::Private => Audience::Private(member),
        ChatKind::Other => Audience::Ignore,
        ChatKind::Group => match bound_chat {
            Some(bound) => if bound == chat_id {
                Audience::Household(member)
            } else {
                Audience::Ignore
            },
            None => Audience::UnboundGroup(member),
        },
    }
}

/// The allow list's answer: a refusal means "not a member", other errors
/// stay errors.
pub fn authorized_member(answer: Result<Member, AppError>) -> (member: Result<Option<Member>, AppError>)
    ensures
        member == match answer {
            Ok(found) => Ok(Some(found)),
            Err(AppError::Forbidden(_)) => Ok(None),
            Err(other) => Err(other),
        },
{
    match answer {
        Ok(found) => Ok(Some(found)),
        Err(AppError::Forbidden(_)) => Ok(None),
        Err(other) => Err(other),
    }
}

} // verus!
