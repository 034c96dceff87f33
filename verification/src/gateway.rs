//! The Bot API as the bot needs it: plain values in and out. Talking to
//! Telegram itself happens outside this crate.

use std::time::Duration;

use vstd::prelude::*;

use crate::text::{chars_of, contains, contains_text, push_str, string_of};

verus! {

#[derive(Clone, Copy, Debug, PartialEq, Eq, Structural)]
pub enum ChatKind {
    Private,
    Group,
    Other,
}

#[derive(Clone, Debug, PartialEq, Eq)]
pub struct Sender {
    pub user_id: i64,
    pub display_name: String,
    pub is_bot: bool,
}

#[derive(Clone, Debug, PartialEq, Eq)]
pub struct TextMessage {
    pub chat_id: i64,
    pub chat_kind: ChatKind,
    pub message_id: i64,
    pub sender: Sender,
    pub text: String,
}

#[derive(Clone, Debug, PartialEq, Eq)]
pub struct ButtonPress {
    pub callback_id: String,
    pub chat_id: i64,
    pub message_id: i64,
    pub sender: Sender,
    pub data: String,
}

/// The bot itself joined or left a chat.
#[derive(Clone, Debug, PartialEq, Eq)]
pub struct MembershipChange {
    pub chat_id: i64,
    pub chat_kind: ChatKind,
    pub changed_by: Sender,
    pub bot_is_member: bool,
}

#[derive(Clone, Debug, PartialEq, Eq)]
pub enum UpdateKind {
    Text(TextMessage),
    Button(ButtonPress),
    Membership(MembershipChange),
    /// Anything the bot does not handle (stickers, edits, photos...).
    Ignored,
}

#[derive(Clone, Debug, PartialEq, Eq)]
pub struct IncomingUpdate {
    pub update_id: i64,
    pub kind: UpdateKind,
}

#[derive(Clone, Debug, PartialEq, Eq)]
pub struct Button {
    pub label: String,
    pub data: String,
}

/// Rows of inline buttons.
#[derive(Clone, Debug, Default, PartialEq, Eq)]
pub struct Keyboard {
    pub rows: Vec<Vec<Button>>,
}

/// A message in Telegram's HTML parse mode.
#[derive(Clone, Debug, PartialEq, Eq)]
pub struct OutgoingMessage {
    pub chat_id: i64,
    pub html: String,
    pub keyboard: Option<Keyboard>,
}

#[derive(Clone, Debug, PartialEq, Eq)]
pub struct MessageEdit {
    pub chat_id: i64,
    pub message_id: i64,
    pub html: String,
    /// `None` removes the buttons.
    pub keyboard: Option<Keyboard>,
}

#[derive(Clone, Debug, PartialEq, Eq)]
pub enum GatewayError {
    RateLimited { retry_after: Duration },
    /// Another `getUpdates` poller runs for this bot (HTTP 409).
    Conflict,
    Api { code: u64, description: String },
    Transport(String),
}

/// `Clone` for `std::time::Duration`, a `Copy` type: the same duration.
pub assume_specification[ <Duration as Clone>::clone ](duration: &Duration) -> (copy: Duration)
    ensures
        copy == *duration,
;

/// What `std::time::Duration::from_secs` gives for `secs`.
pub uninterp spec fn whole_seconds(secs: u64) -> Duration;

/// `std::time::Duration::from_secs`: a duration of `secs` whole seconds.
#[verifier::external_body]
pub(crate) fn seconds(secs: u64) -> (duration: Duration)
    ensures
        duration == whole_seconds(secs),
{
    Duration::from_secs(secs)
}

/// Wait when Telegram answers 429 without `retry_after`.
pub const DEFAULT_RETRY_AFTER_SECS: u64 = 5;

/// The error for a failed Bot API call with `code`, its `description` and
/// the `retry_after` seconds Telegram may add.
pub open spec fn api_error_for(code: u64, description: String, retry_after: Option<u32>) -> GatewayError {
    if code == 429 {
        GatewayError::RateLimited {
            retry_after: whole_seconds(
                match retry_after {
                    Some(secs) => secs as u64,
                    None => DEFAULT_RETRY_AFTER_SECS,
                },
            ),
        }
    } else if code == 409 {
        GatewayError::Conflict
    } else {
        GatewayError::Api { code, description }
    }
}

/// Sorts a Bot API error response: rate limits, the two-pollers conflict,
/// and the rest.
pub fn api_error(code: u64, description: String, retry_after: Option<u32>) -> (error: GatewayError)
    ensures
        error == api_error_for(code, description, retry_after),
{
    if code == 429 {
        let secs: u64 = match retry_after {
            Some(secs) => secs as u64,
            None => DEFAULT_RETRY_AFTER_SECS,
        };
        GatewayError::RateLimited { retry_after: seconds(secs) }
    } else if code == 409 {
        GatewayError::Conflict
    } else {
        GatewayError::Api { code, description }
    }
}

/// Whether `result` is Telegram refusing an edit that changes nothing.
pub open spec fn not_modified(result: Result<(), GatewayError>) -> bool {
    result matches Err(GatewayError::Api { description, .. }) && contains_text(
        description@,
        "message is not modified"@,
    )
}

/// Editing a message into what it already shows is not a failure.
pub fn ignore_not_modified(result: Result<(), GatewayError>) -> (out: Result<(), GatewayError>)
    ensures
        out == (if not_modified(result) { Ok(()) } else { result }),
{
    let unchanged = match &result {
        Err(GatewayError::Api { description, .. }) => {
            let chars = chars_of(description.as_str());
            contains(&chars, "message is not modified")
        },
        _ => false,
    };
    if unchanged {
        Ok(())
    } else {
        result
    }
}

/// A user's shown name: first name, then last name when there is one.
pub open spec fn full_name(first: Seq<char>, last: Option<Seq<char>>) -> Seq<char> {
    match last {
        Some(last) => first + " "@ + last,
        None => first,
    }
}

/// The name the bot shows for a user.
pub fn display_name(first: &str, last: Option<&str>) -> (name: String)
    ensures
        name@ == full_name(first@, match last {
            Some(text) => Some(text@),
            None => None,
        }),
{
    let mut out: Vec<char> = Vec::new();
    push_str(&mut out, first);
    match last {
        Some(last) => {
            push_str(&mut out, " ");
            push_str(&mut out, last);
        },
        None => {},
    }
    string_of(&out)
}

/// Telegram user ids are unsigned; ids past `i64::MAX` read as `i64::MAX`.
pub fn user_id_of(id: u64) -> (user_id: i64)
    ensures
        user_id == (if id <= i64::MAX { id as i64 } else { i64::MAX }),
{
    if id <= 9223372036854775807u64 {
        id as i64
    } else {
        i64::MAX
    }
}

/// Bot API message ids are 32-bit; larger ids are sent as `i32::MAX`.
pub fn api_message_id(message_id: i64) -> (id: i32)
    ensures
        id == (if i32::MIN <= message_id <= i32::MAX { message_id as i32 } else { i32::MAX }),
{
    if -2147483648i64 <= message_id && message_id <= 2147483647i64 {
        message_id as i32
    } else {
        i32::MAX
    }
}

/// Seconds a long poll may be held open, as the Bot API takes them; a
/// wait too long to say falls back to the usual fifty.
pub fn poll_timeout_secs(secs: u64) -> (timeout: u32)
    ensures
        timeout == (if secs <= u32::MAX { secs as u32 } else { 50 }),
{
    if secs <= 4294967295u64 {
        secs as u32
    } else {
        50
    }
}

} // verus!
