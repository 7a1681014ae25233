use crate::models::chat_type::ChatType;
use crate::models::gender::Gender;
use crate::user_state::UserState;
use vstd::prelude::*;

verus! {

/// The reputation at or below which a user is banned.
pub const BAN_REPUTATION: i32 = -20;

/// The youngest age a profile may carry.
pub const MIN_AGE: u8 = 12;

/// A user's profile.
#[derive(Debug, Clone, PartialEq, Eq)]
pub struct User {
    /// The identity the messaging platform assigned; never changes.
    pub id: i64,
    pub nickname: String,
    pub age: u8,
    pub gender: Gender,
    /// The partner gender asked for in the latest search, if there was one.
    pub search_gender: Option<Gender>,
    /// The category asked for in the latest search, if there was one.
    pub chat_type: Option<ChatType>,
    pub state: UserState,
    pub reputation: i32,
    pub is_banned: bool,
    pub referrals: u32,
}

/// A profile as a mathematical value: the nickname is its sequence of
/// characters, every other field stands for itself.
pub struct UserView {
    pub id: i64,
    pub nickname: Seq<char>,
    pub age: u8,
    pub gender: Gender,
    pub search_gender: Option<Gender>,
    pub chat_type: Option<ChatType>,
    pub state: UserState,
    pub reputation: i32,
    pub is_banned: bool,
    pub referrals: u32,
}

impl View for User {
    type V = UserView;

    open spec fn view(&self) -> UserView {
        UserView {
            id: self.id,
            nickname: self.nickname@,
            age: self.age,
            gender: self.gender,
            search_gender: self.search_gender,
            chat_type: self.chat_type,
            state: self.state,
            reputation: self.reputation,
            is_banned: self.is_banned,
            referrals: self.referrals,
        }
    }
}

impl UserView {
    /// The profile a registration creates: no filters yet, the default state,
    /// reputation zero, not banned, nobody referred.
    pub open spec fn fresh(id: i64, age: u8, nickname: Seq<char>, gender: Gender) -> UserView {
        UserView {
            id,
            nickname,
            age,
            gender,
            search_gender: None,
            chat_type: None,
            state: UserState::Default,
            reputation: 0,
            is_banned: false,
            referrals: 0,
        }
    }
}

impl User {
    /// The profile of a newly registered user.
    pub fn new(id: i64, age: u8, nickname: String, gender: Gender) -> (r: User)
        ensures
            r@ == UserView::fresh(id, age, nickname@, gender),
    {
        User {
            id,
            nickname,
            age,
            gender,
            search_gender: None,
            chat_type: None,
            state: UserState::Default,
            reputation: 0,
            is_banned: false,
            referrals: 0,
        }
    }

    /// A copy of this profile.
    pub fn duplicate(&self) -> (r: User)
        ensures
            r@ == self@,
    {
        User {
            id: self.id,
            nickname: self.nickname.clone(),
            age: self.age,
            gender: self.gender,
            search_gender: self.search_gender,
            chat_type: self.chat_type,
            state: self.state,
            reputation: self.reputation,
            is_banned: self.is_banned,
            referrals: self.referrals,
        }
    }
}

} // verus!
