use crate::command::Command;
use crate::state::State;
use vstd::prelude::*;

verus! {

/// The steps of the dialogue, by name.
#[derive(Debug, Clone, Copy, PartialEq, Eq, Structural)]
pub enum Route {
    Start,
    Stop,
    Search,
    Idle,
    Next,
    Cancel,
    SetName,
    SetAge,
    SetGender,
    ReceiveAge,
    ReceiveNickname,
    ReceiveSetAge,
    ReceiveSetNickname,
    ReceiveMessage,
    ReceiveGender,
    ChatTypeCallback,
    ReceiveSetGender,
    ReactionsCallback,
    SearchCallback,
    /// A command that is no step of the dialogue; the front end serves it.
    Service(Command),
    /// Nothing is to be done.
    Ignore,
}

/// The step a message takes when the state alone decides.
pub open spec fn by_state(state: State) -> Route {
    match state {
        State::Idle => Route::Idle,
        State::Start => Route::Start,
        State::SetAge => Route::ReceiveSetAge,
        State::SetNickname => Route::ReceiveSetNickname,
        State::ReceiveAge => Route::ReceiveAge,
        State::ReceiveNickname { .. } => Route::ReceiveNickname,
        State::Search => Route::ReceiveMessage,
        State::Dialog { .. } => Route::ReceiveMessage,
        _ => Route::Ignore,
    }
}

/// Whether `stop` is a command in `state`: while talking, waiting or idle.
/// In the steps that await an input it is read as that input.
pub open spec fn stops(state: State) -> bool {
    state is Dialog || state is Search || state is Idle
}

/// The step a message takes. A command goes to its own step, `stop` where
/// it is one; `help`, and `stop` elsewhere, are read as ordinary messages,
/// and so is every message that is no command: for those the state decides.
/// What a message holds besides is never looked at.
pub open spec fn message_route(state: State, command: Option<Command>) -> Route {
    match command {
        Some(Command::Start) => Route::Start,
        Some(Command::Stop) => if stops(state) {
            Route::Stop
        } else {
            by_state(state)
        },
        Some(Command::Search) => Route::Search,
        Some(Command::Next) => Route::Next,
        Some(Command::Cancel) => Route::Cancel,
        Some(Command::SetName) => Route::SetName,
        Some(Command::SetAge) => Route::SetAge,
        Some(Command::SetGender) => Route::SetGender,
        Some(Command::Help) => by_state(state),
        Some(c) => Route::Service(c),
        None => by_state(state),
    }
}

/// The step a press of a button takes: the step that awaits one, where the
/// state is such a step; a rating while idle; else the step that reads the
/// button by its data.
pub open spec fn callback_route(state: State) -> Route {
    match state {
        State::ReceiveGender { .. } => Route::ReceiveGender,
        State::SearchChooseChatType { .. } => Route::ChatTypeCallback,
        State::SetGender => Route::ReceiveSetGender,
        State::Idle => Route::ReactionsCallback,
        _ => Route::SearchCallback,
    }
}

/// The step a message takes when the state alone decides.
pub fn route_by_state(state: &State) -> (r: Route)
    ensures
        r == by_state(*state),
{
    match state {
        State::Idle => Route::Idle,
        State::Start => Route::Start,
        State::SetAge => Route::ReceiveSetAge,
        State::SetNickname => Route::ReceiveSetNickname,
        State::ReceiveAge => Route::ReceiveAge,
        State::ReceiveNickname { .. } => Route::ReceiveNickname,
        State::Search => Route::ReceiveMessage,
        State::Dialog { .. } => Route::ReceiveMessage,
        _ => Route::Ignore,
    }
}

/// The step a message takes in `state`, given the command it is, if it is
/// one.
pub fn route_message(state: &State, command: Option<Command>) -> (r: Route)
    ensures
        r == message_route(*state, command),
{
    match command {
        Some(Command::Start) => Route::Start,
        Some(Command::Stop) => match state {
            State::Dialog { .. } | State::Search | State::Idle => Route::Stop,
            _ => route_by_state(state),
        },
        Some(Command::Search) => Route::Search,
        Some(Command::Next) => Route::Next,
        Some(Command::Cancel) => Route::Cancel,
        Some(Command::SetName) => Route::SetName,
        Some(Command::SetAge) => Route::SetAge,
        Some(Command::SetGender) => Route::SetGender,
        Some(Command::Help) => route_by_state(state),
        Some(c) => Route::Service(c),
        None => route_by_state(state),
    }
}

/// The step a press of a button takes in `state`.
pub fn route_callback(state: &State) -> (r: Route)
    ensures
        r == callback_route(*state),
{
    match state {
        State::ReceiveGender { .. } => Route::ReceiveGender,
        State::SearchChooseChatType { .. } => Route::ChatTypeCallback,
        State::SetGender => Route::ReceiveSetGender,
        State::Idle => Route::ReactionsCallback,
        _ => Route::SearchCallback,
    }
}

} // verus!
