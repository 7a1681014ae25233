use crate::error::Error;
use crate::state::State;
use vstd::prelude::*;

verus! {

/// What the service tells a user. The wording is the front end's.
#[derive(Debug, Clone, Copy, PartialEq, Eq, Structural)]
pub enum Notice {
    Welcome,
    AskAge,
    TooYoung,
    InvalidInput,
    AskNickname,
    AskOwnGender,
    Registered,
    AskSearchGender,
    AskChatType,
    /// The user waits; the search can be cancelled.
    Searching,
    /// A dialog with `partner` began.
    PartnerFound { partner: i64 },
    /// The user left the dialog with `partner`, whom they may now rate.
    DialogStopped { partner: i64 },
    /// `partner` left the dialog with the user, who may now rate them.
    PartnerLeft { partner: i64 },
    SearchCancelled,
    NotInDialog,
    /// A search is under way already.
    BusySearching,
    /// A search cannot start during a dialog.
    StopDialogFirst,
    AlreadyInDialog,
    RegisterFirst,
    Banned,
    /// The reputation of the user fell to the threshold: they are banned.
    BannedByReputation,
    /// There is no earlier search whose filters could be used again.
    NoPreviousFilters,
    /// Something went wrong on the side of the service.
    Failure,
    UnsupportedFormat,
    Done,
    AskNewNickname,
    AskNewAge,
    AskNewGender,
}

/// The kinds of media a message can carry.
#[derive(Debug, Clone, Copy, PartialEq, Eq, Structural)]
pub enum MediaKind {
    Voice,
    Sticker,
    Photo,
    Video,
    Animation,
    VideoNote,
}

/// What one user sends to another through the service.
#[derive(Debug, Clone, PartialEq, Eq)]
pub enum Payload {
    Text(String),
    /// A reference to a file the messaging platform holds.
    MediaRef { kind: MediaKind, file: String, caption: Option<String> },
}

/// To whom a notification goes.
#[derive(Debug, Clone, Copy, PartialEq, Eq, Structural)]
pub enum Recipient {
    User(i64),
    /// Whoever moderates the service.
    Moderator,
}

/// What a notification carries.
#[derive(Debug, Clone, PartialEq, Eq)]
pub enum Content {
    Notice(Notice),
    /// A message of the partner, passed on as it is.
    Forward(Payload),
    /// A text of `sender` in which a word of the denylist occurs.
    Flagged { sender: i64, text: String },
}

/// The message of the recipient's chat that a forwarded text answers. The
/// ids of the two chats run side by side, so the message sought stands next
/// to the one the sender answered: `first` is to be tried, and `second` where
/// that fails.
#[derive(Debug, Clone, Copy, PartialEq, Eq, Structural)]
pub struct ReplyTo {
    pub first: i32,
    pub second: i32,
}

/// One message for the messaging channel to deliver, as an answer to an
/// earlier message where `reply` names one.
#[derive(Debug, Clone, PartialEq, Eq)]
pub struct Notification {
    pub recipient: Recipient,
    pub content: Content,
    pub reply: Option<ReplyTo>,
}

/// The outcome of one step of a dialogue: the state to go to, or `None` to
/// stay, and what to deliver, in this order.
#[derive(Debug, Clone, PartialEq, Eq)]
pub struct Step {
    pub state: Option<State>,
    pub out: Vec<Notification>,
}

/// A notice for a user.
pub open spec fn tell(user: i64, notice: Notice) -> Notification {
    Notification {
        recipient: Recipient::User(user),
        content: Content::Notice(notice),
        reply: None,
    }
}

/// What is passed on to `partner`, as an answer where `reply` names a
/// message.
pub open spec fn pass_on(partner: i64, payload: Payload, reply: Option<ReplyTo>) -> Notification {
    Notification { recipient: Recipient::User(partner), content: Content::Forward(payload), reply }
}

/// The message a text answers in the partner's chat, where the sender
/// answered the message `id` of their own: the one before it, then the one
/// after it. Nothing where `id` has no neighbour on either side.
pub open spec fn replying(reply_to: Option<i32>) -> Option<ReplyTo> {
    match reply_to {
        Some(id) => if i32::MIN < id < i32::MAX {
            Some(ReplyTo { first: (id - 1) as i32, second: (id + 1) as i32 })
        } else {
            None
        },
        None => None,
    }
}

/// The notice that tells a user why an operation was refused. What an
/// invalid transition means depends on the operation, so the caller says it.
pub open spec fn refusal(e: Error, invalid: Notice) -> Notice {
    match e {
        Error::NotRegistered => Notice::RegisterFirst,
        Error::Banned => Notice::Banned,
        Error::StorageFailure => Notice::Failure,
        Error::InvalidStateTransition => invalid,
    }
}

/// A notice for a user.
pub fn notify(user: i64, notice: Notice) -> (r: Notification)
    ensures
        r == tell(user, notice),
{
    Notification {
        recipient: Recipient::User(user),
        content: Content::Notice(notice),
        reply: None,
    }
}

/// What is passed on to `partner`.
pub fn forward(partner: i64, payload: Payload, reply: Option<ReplyTo>) -> (r: Notification)
    ensures
        r == pass_on(partner, payload, reply),
{
    Notification { recipient: Recipient::User(partner), content: Content::Forward(payload), reply }
}

/// The message a text answers in the partner's chat.
pub fn reply_ids(reply_to: Option<i32>) -> (r: Option<ReplyTo>)
    ensures
        r == replying(reply_to),
{
    match reply_to {
        Some(id) => if i32::MIN < id && id < i32::MAX {
            Some(ReplyTo { first: id - 1, second: id + 1 })
        } else {
            None
        },
        None => None,
    }
}

/// The notice that tells a user why an operation was refused.
pub fn refusal_notice(e: Error, invalid: Notice) -> (r: Notice)
    ensures
        r == refusal(e, invalid),
{
    match e {
        Error::NotRegistered => Notice::RegisterFirst,
        Error::Banned => Notice::Banned,
        Error::StorageFailure => Notice::Failure,
        Error::InvalidStateTransition => invalid,
    }
}

/// A step that delivers one notice to one user.
pub fn reply(state: Option<State>, user: i64, notice: Notice) -> (r: Step)
    ensures
        r.state == state,
        r.out@ == seq![tell(user, notice)],
{
    let mut out: Vec<Notification> = Vec::new();
    out.push(notify(user, notice));
    Step { state, out }
}

} // verus!
