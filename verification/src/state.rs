use crate::models::gender::Gender;
use vstd::prelude::*;

verus! {

/// Where a user stands in their conversation with the service. It decides
/// what their next message or button press means.
#[derive(Clone, Debug, PartialEq, Eq)]
pub enum State {
    /// Nothing is known of the user yet.
    Start,
    /// Registering: the age is awaited.
    ReceiveAge,
    /// Registering: the nickname is awaited.
    ReceiveNickname { age: u8 },
    /// Registering: the choice of the own gender is awaited.
    ReceiveGender { age: u8, nickname: String },
    /// Starting a search: the choice of the partner's gender is awaited.
    SearchChooseGender,
    /// Starting a search: the choice of the category is awaited.
    SearchChooseChatType { gender: Gender },
    /// Waiting for a partner.
    Search,
    /// Talking to `interlocutor`.
    Dialog { interlocutor: i64 },
    /// Registered and neither waiting nor talking.
    Idle,
    /// Editing the profile: the new nickname is awaited.
    SetNickname,
    /// Editing the profile: the new age is awaited.
    SetAge,
    /// Editing the profile: the choice of the new gender is awaited.
    SetGender,
}

impl Default for State {
    fn default() -> (r: State)
        ensures
            r == State::Start,
    {
        State::Start
    }
}

} // verus!
