use vstd::prelude::*;
use vstd::std_specs::convert::FromSpecImpl;

verus! {

/// What a registered user is doing, as recorded with the profile.
#[derive(Debug, Clone, Copy, PartialEq, Eq, Structural)]
pub enum UserState {
    /// Registered and not yet active; treated like `Idle`.
    Default,
    /// Neither waiting nor talking.
    Idle,
    /// Waiting in the queue.
    Search,
    /// Talking in a session.
    Dialog,
}

impl UserState {
    /// The integer under which a state is stored.
    pub open spec fn code(self) -> int {
        match self {
            UserState::Default => 0,
            UserState::Idle => 1,
            UserState::Search => 2,
            UserState::Dialog => 3,
        }
    }

    /// True of the two states from which a search may start.
    pub open spec fn is_free(self) -> bool {
        self == UserState::Default || self == UserState::Idle
    }

    /// The stored code of this state.
    pub fn to_i32(self) -> (r: i32)
        ensures
            r == self.code(),
    {
        match self {
            UserState::Default => 0,
            UserState::Idle => 1,
            UserState::Search => 2,
            UserState::Dialog => 3,
        }
    }
}

impl From<i32> for UserState {
    /// Reads a stored state code back; an unknown code reads as `Default`.
    fn from(value: i32) -> (r: UserState) {
        if value == 1 {
            UserState::Idle
        } else if value == 2 {
            UserState::Search
        } else if value == 3 {
            UserState::Dialog
        } else {
            UserState::Default
        }
    }
}

impl FromSpecImpl<i32> for UserState {
    open spec fn obeys_from_spec() -> bool {
        true
    }

    open spec fn from_spec(value: i32) -> UserState {
        if value == 1 {
            UserState::Idle
        } else if value == 2 {
            UserState::Search
        } else if value == 3 {
            UserState::Dialog
        } else {
            UserState::Default
        }
    }
}

} // verus!
