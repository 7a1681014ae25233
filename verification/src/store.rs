use crate::error::Error;
use crate::models::chat_type::ChatType;
use crate::models::gender::Gender;
use crate::models::user::{UserView, BAN_REPUTATION};
use crate::user_state::UserState;
use vstd::prelude::*;

verus! {

/// A user waiting for a partner, with what they are and what they look for.
#[derive(Debug, Clone, Copy, PartialEq, Eq, Structural)]
pub struct QueueEntry {
    pub user_id: i64,
    /// The gender this user wants to talk to.
    pub search_gender: Gender,
    /// This user's own gender.
    pub searcher_gender: Gender,
    pub chat_type: ChatType,
}

impl QueueEntry {
    /// Two requests fit each other when they come from different users, each
    /// is of the gender the other looks for, and both name the same category.
    pub open spec fn mirrors(self, other: QueueEntry) -> bool {
        &&& self.user_id != other.user_id
        &&& self.searcher_gender == other.search_gender
        &&& self.search_gender == other.searcher_gender
        &&& self.chat_type == other.chat_type
    }

    /// Whether this request and `other` fit each other.
    pub fn is_mirror_of(&self, other: &QueueEntry) -> (r: bool)
        ensures
            r == self.mirrors(*other),
    {
        self.user_id != other.user_id && self.searcher_gender == other.search_gender
            && self.search_gender == other.searcher_gender && self.chat_type == other.chat_type
    }
}

/// An active session between two users.
#[derive(Debug, Clone, Copy, PartialEq, Eq, Structural)]
pub struct Chat {
    pub chat_one: i64,
    pub chat_two: i64,
    pub chat_type: ChatType,
}

impl Chat {
    /// Whether `id` is one of the two participants.
    pub open spec fn involves(self, id: i64) -> bool {
        self.chat_one == id || self.chat_two == id
    }

    /// The participant that is not `id`.
    pub open spec fn other(self, id: i64) -> i64 {
        if self.chat_one == id {
            self.chat_two
        } else {
            self.chat_one
        }
    }

    /// Whether `id` takes part in this session.
    pub fn has(&self, id: i64) -> (r: bool)
        ensures
            r == self.involves(id),
    {
        self.chat_one == id || self.chat_two == id
    }

    /// The partner of `id` in this session.
    pub fn partner_of(&self, id: i64) -> (r: i64)
        ensures
            r == self.other(id),
    {
        if self.chat_one == id {
            self.chat_two
        } else {
            self.chat_one
        }
    }
}

/// Whether `users` holds a profile for `id`.
pub open spec fn has_profile(users: Seq<UserView>, id: i64) -> bool {
    exists|i: int| 0 <= i < users.len() && users[i].id == id
}

/// Where in `users` the profile of `id` stands, if there is one.
pub open spec fn profile_index(users: Seq<UserView>, id: i64) -> int {
    choose|i: int| 0 <= i < users.len() && users[i].id == id
}

/// Whether `queue` holds an entry of `id`.
pub open spec fn waits(queue: Seq<QueueEntry>, id: i64) -> bool {
    exists|i: int| 0 <= i < queue.len() && queue[i].user_id == id
}

/// Where in `queue` the entry of `id` stands, if there is one.
pub open spec fn wait_index(queue: Seq<QueueEntry>, id: i64) -> int {
    choose|i: int| 0 <= i < queue.len() && queue[i].user_id == id
}

/// Whether `id` takes part in one of `chats`.
pub open spec fn talks(chats: Seq<Chat>, id: i64) -> bool {
    exists|i: int| 0 <= i < chats.len() && chats[i].involves(id)
}

/// Where in `chats` the session of `id` stands, if there is one.
pub open spec fn talk_index(chats: Seq<Chat>, id: i64) -> int {
    choose|i: int| 0 <= i < chats.len() && chats[i].involves(id)
}

/// The user `id` is talking to in `chats`, if `id` takes part in one.
pub open spec fn partner_in(chats: Seq<Chat>, id: i64) -> Option<i64> {
    if talks(chats, id) {
        Some(chats[talk_index(chats, id)].other(id))
    } else {
        None
    }
}

/// No two profiles belong to one user.
pub open spec fn distinct_profiles(users: Seq<UserView>) -> bool {
    forall|i: int, j: int| 0 <= i < j < users.len() ==> users[i].id != users[j].id
}

/// No two entries belong to one user.
pub open spec fn distinct_entries(queue: Seq<QueueEntry>) -> bool {
    forall|i: int, j: int| 0 <= i < j < queue.len() ==> queue[i].user_id != queue[j].user_id
}

/// Nobody talks to themself and nobody takes part in two sessions.
pub open spec fn disjoint_chats(chats: Seq<Chat>) -> bool {
    &&& forall|i: int| 0 <= i < chats.len() ==> chats[i].chat_one != chats[i].chat_two
    &&& forall|i: int, j: int|
        0 <= i < j < chats.len() ==> !chats[j].involves(chats[i].chat_one) && !chats[j].involves(
            chats[i].chat_two,
        )
}

/// Nobody waits while talking.
pub open spec fn apart(queue: Seq<QueueEntry>, chats: Seq<Chat>) -> bool {
    forall|i: int, j: int|
        0 <= i < queue.len() && 0 <= j < chats.len() ==> !chats[j].involves(queue[i].user_id)
}

/// The store as a mathematical value: the profiles in the order they were
/// added, the queue from the longest-waiting entry to the newest, and the
/// sessions in the order they began.
pub struct DatabaseView {
    pub users: Seq<UserView>,
    pub queue: Seq<QueueEntry>,
    pub chats: Seq<Chat>,
}

impl DatabaseView {
    /// The store with nothing in it.
    pub open spec fn empty() -> DatabaseView {
        DatabaseView { users: Seq::empty(), queue: Seq::empty(), chats: Seq::empty() }
    }

    /// Whether there is a profile for `id`.
    #[verifier::inline]
    pub open spec fn has_user(self, id: i64) -> bool {
        has_profile(self.users, id)
    }

    /// The profile of `id`, if there is one.
    #[verifier::inline]
    pub open spec fn user(self, id: i64) -> UserView {
        self.users[profile_index(self.users, id)]
    }

    /// Whether `id` is waiting in the queue.
    #[verifier::inline]
    pub open spec fn queued(self, id: i64) -> bool {
        waits(self.queue, id)
    }

    /// Whether `id` takes part in a session.
    #[verifier::inline]
    pub open spec fn in_chat(self, id: i64) -> bool {
        talks(self.chats, id)
    }

    /// The user `id` is talking to, if `id` takes part in a session.
    #[verifier::inline]
    pub open spec fn partner(self, id: i64) -> Option<i64> {
        partner_in(self.chats, id)
    }

    /// The rules every store obeys: one profile per user, one queue entry per
    /// user, nobody talks to themself, nobody is in two sessions, and nobody
    /// waits while talking.
    pub open spec fn wf(self) -> bool {
        &&& distinct_profiles(self.users)
        &&& distinct_entries(self.queue)
        &&& disjoint_chats(self.chats)
        &&& apart(self.queue, self.chats)
    }

    /// Profiles, queue and sessions agree: whoever waits or talks has a
    /// profile, and a profile says `Search` exactly while its user waits and
    /// `Dialog` exactly while its user talks.
    pub open spec fn consistent(self) -> bool {
        &&& forall|x: i64| #[trigger] waits(self.queue, x) ==> has_profile(self.users, x)
        &&& forall|x: i64| #[trigger] talks(self.chats, x) ==> has_profile(self.users, x)
        &&& forall|x: i64| #[trigger]
            has_profile(self.users, x) ==> (self.user(x).state == UserState::Search <==> waits(
                self.queue,
                x,
            )) && (self.user(x).state == UserState::Dialog <==> talks(self.chats, x))
    }
}

/// Whether some entry of `queue` fits `request`.
pub open spec fn has_match(queue: Seq<QueueEntry>, request: QueueEntry) -> bool {
    exists|i: int| is_first_match(queue, request, i)
}

/// Whether the entry at `i` fits `request` and no entry before it does.
pub open spec fn is_first_match(queue: Seq<QueueEntry>, request: QueueEntry, i: int) -> bool {
    &&& 0 <= i < queue.len()
    &&& queue[i].mirrors(request)
    &&& forall|j: int| 0 <= j < i ==> !(#[trigger] queue[j]).mirrors(request)
}

/// Where the longest-waiting entry that fits `request` stands, if there is
/// one.
pub open spec fn match_index(queue: Seq<QueueEntry>, request: QueueEntry) -> int {
    choose|i: int| is_first_match(queue, request, i)
}

impl DatabaseView {
    /// The profile of `id`, if there is one.
    pub open spec fn get_user(self, id: i64) -> Option<UserView> {
        if self.has_user(id) {
            Some(self.user(id))
        } else {
            None
        }
    }

    /// The store with the profile of `u.id` replaced by `u`.
    pub open spec fn put_user(self, u: UserView) -> DatabaseView {
        DatabaseView { users: self.users.update(profile_index(self.users, u.id), u), ..self }
    }

    /// Adding a profile: refused when the user already has one.
    pub open spec fn add_user(self, u: UserView) -> (DatabaseView, Result<(), Error>) {
        if self.has_user(u.id) {
            (self, Err(Error::StorageFailure))
        } else {
            (DatabaseView { users: self.users.push(u), ..self }, Ok(()))
        }
    }

    /// Recording a state with a profile: refused when there is no profile.
    pub open spec fn set_user_state(self, id: i64, state: UserState) -> (
        DatabaseView,
        Result<(), Error>,
    ) {
        if self.has_user(id) {
            (self.put_user(UserView { state, ..self.user(id) }), Ok(()))
        } else {
            (self, Err(Error::NotRegistered))
        }
    }

    /// Setting or lifting a ban: refused when there is no profile.
    pub open spec fn set_banned(self, id: i64, banned: bool) -> (DatabaseView, Result<(), Error>) {
        if self.has_user(id) {
            (self.put_user(UserView { is_banned: banned, ..self.user(id) }), Ok(()))
        } else {
            (self, Err(Error::NotRegistered))
        }
    }

    /// Changing a nickname: refused when there is no profile.
    pub open spec fn update_user_nickname(self, id: i64, nickname: Seq<char>) -> (
        DatabaseView,
        Result<(), Error>,
    ) {
        if self.has_user(id) {
            (self.put_user(UserView { nickname, ..self.user(id) }), Ok(()))
        } else {
            (self, Err(Error::NotRegistered))
        }
    }

    /// Changing an age: refused when there is no profile.
    pub open spec fn update_user_age(self, id: i64, age: u8) -> (DatabaseView, Result<(), Error>) {
        if self.has_user(id) {
            (self.put_user(UserView { age, ..self.user(id) }), Ok(()))
        } else {
            (self, Err(Error::NotRegistered))
        }
    }

    /// Changing a gender: refused when there is no profile.
    pub open spec fn update_user_gender(self, id: i64, gender: Gender) -> (
        DatabaseView,
        Result<(), Error>,
    ) {
        if self.has_user(id) {
            (self.put_user(UserView { gender, ..self.user(id) }), Ok(()))
        } else {
            (self, Err(Error::NotRegistered))
        }
    }

    /// Remembering the filters of a search: refused when there is no profile.
    pub open spec fn set_search_filters(self, id: i64, gender: Gender, chat_type: ChatType) -> (
        DatabaseView,
        Result<(), Error>,
    ) {
        if self.has_user(id) {
            (
                self.put_user(
                    UserView {
                        search_gender: Some(gender),
                        chat_type: Some(chat_type),
                        ..self.user(id)
                    },
                ),
                Ok(()),
            )
        } else {
            (self, Err(Error::NotRegistered))
        }
    }

    /// Counting one more referred user: refused when there is no profile or
    /// the counter is at its limit.
    pub open spec fn increase_referral_count(self, id: i64) -> (DatabaseView, Result<(), Error>) {
        if !self.has_user(id) {
            (self, Err(Error::NotRegistered))
        } else if self.user(id).referrals == u32::MAX {
            (self, Err(Error::StorageFailure))
        } else {
            (
                self.put_user(
                    UserView {
                        referrals: (self.user(id).referrals + 1) as u32,
                        ..self.user(id)
                    },
                ),
                Ok(()),
            )
        }
    }

    /// Lowering a reputation by `amount`. The user is banned when the new
    /// reputation is at or below the threshold; the answer is whether this
    /// very change banned them. Refused when there is no profile or the new
    /// reputation is out of range.
    pub open spec fn decrease_reputation(self, id: i64, amount: i32) -> (
        DatabaseView,
        Result<bool, Error>,
    ) {
        if !self.has_user(id) {
            (self, Err(Error::NotRegistered))
        } else {
            let u = self.user(id);
            let lowered = u.reputation - amount;
            if lowered < i32::MIN || lowered > i32::MAX {
                (self, Err(Error::StorageFailure))
            } else {
                let banned = u.is_banned || lowered <= BAN_REPUTATION;
                (
                    self.put_user(
                        UserView { reputation: lowered as i32, is_banned: banned, ..u },
                    ),
                    Ok(banned && !u.is_banned),
                )
            }
        }
    }

    /// Raising a reputation by `amount`. A ban stays as it is; the answer is
    /// whether the user is banned. Refused when there is no profile or the
    /// new reputation is out of range.
    pub open spec fn increase_reputation(self, id: i64, amount: i32) -> (
        DatabaseView,
        Result<bool, Error>,
    ) {
        if !self.has_user(id) {
            (self, Err(Error::NotRegistered))
        } else {
            let u = self.user(id);
            let raised = u.reputation + amount;
            if raised < i32::MIN || raised > i32::MAX {
                (self, Err(Error::StorageFailure))
            } else {
                (self.put_user(UserView { reputation: raised as i32, ..u }), Ok(u.is_banned))
            }
        }
    }

    /// Removing a profile, and nothing else: refused when there is no
    /// profile.
    pub open spec fn delete_user(self, id: i64) -> (DatabaseView, Result<(), Error>) {
        if self.has_user(id) {
            (
                DatabaseView { users: self.users.remove(profile_index(self.users, id)), ..self },
                Ok(()),
            )
        } else {
            (self, Err(Error::NotRegistered))
        }
    }

    /// Putting an entry at the end of the queue as it is: refused when its
    /// user waits or talks already.
    pub open spec fn insert_entry(self, entry: QueueEntry) -> (DatabaseView, Result<(), Error>) {
        if self.queued(entry.user_id) || self.in_chat(entry.user_id) {
            (self, Err(Error::StorageFailure))
        } else {
            (DatabaseView { queue: self.queue.push(entry), ..self }, Ok(()))
        }
    }

    /// The store without the queue entry of `id`.
    pub open spec fn dequeue_user(self, id: i64) -> DatabaseView {
        if self.queued(id) {
            DatabaseView { queue: self.queue.remove(wait_index(self.queue, id)), ..self }
        } else {
            self
        }
    }

    /// The store without the session of `id`.
    pub open spec fn delete_chat(self, id: i64) -> DatabaseView {
        if self.in_chat(id) {
            DatabaseView { chats: self.chats.remove(talk_index(self.chats, id)), ..self }
        } else {
            self
        }
    }

    /// Starting a session between `a` and `b`: refused when they are the same
    /// user or either of them is waiting or talking already.
    pub open spec fn create_chat(self, a: i64, b: i64, chat_type: ChatType) -> (
        DatabaseView,
        Result<(), Error>,
    ) {
        if a == b || self.in_chat(a) || self.in_chat(b) || self.queued(a) || self.queued(b) {
            (self, Err(Error::StorageFailure))
        } else {
            (
                DatabaseView {
                    chats: self.chats.push(Chat { chat_one: a, chat_two: b, chat_type }),
                    ..self
                },
                Ok(()),
            )
        }
    }

    /// The owner of the longest-waiting entry that fits `request`, if any
    /// entry fits.
    pub open spec fn candidate(self, request: QueueEntry) -> Option<i64> {
        if has_match(self.queue, request) {
            Some(self.queue[match_index(self.queue, request)].user_id)
        } else {
            None
        }
    }

    /// Find or enqueue. A seeker who is talking is refused. Otherwise, where
    /// an entry fits the request, the owner of the longest-waiting such entry
    /// leaves the queue and a session between the seeker and them begins;
    /// where nothing fits, the request joins the end of the queue. Either
    /// way an earlier entry of the seeker is dropped. The answer is the
    /// partner, if there is one.
    pub open spec fn enqueue_user(self, request: QueueEntry) -> (
        DatabaseView,
        Result<Option<i64>, Error>,
    ) {
        if self.in_chat(request.user_id) {
            (self, Err(Error::StorageFailure))
        } else {
            match self.candidate(request) {
                Some(partner) => (
                    DatabaseView {
                        chats: self.chats.push(
                            Chat {
                                chat_one: request.user_id,
                                chat_two: partner,
                                chat_type: request.chat_type,
                            },
                        ),
                        ..self.dequeue_user(partner).dequeue_user(request.user_id)
                    },
                    Ok(Some(partner)),
                ),
                None => (
                    DatabaseView {
                        queue: self.dequeue_user(request.user_id).queue.push(request),
                        ..self
                    },
                    Ok(None),
                ),
            }
        }
    }

    /// How many of the first `n` profiles have the given gender.
    pub open spec fn gender_count(self, gender: Gender, n: nat) -> nat
        decreases n,
    {
        if n == 0 || n > self.users.len() {
            0
        } else {
            self.gender_count(gender, (n - 1) as nat) + if self.users[n - 1].gender == gender {
                1nat
            } else {
                0nat
            }
        }
    }

    /// How many of the first `n` queue entries belong to a profile of the
    /// given gender.
    pub open spec fn gender_queue_count(self, gender: Gender, n: nat) -> nat
        decreases n,
    {
        if n == 0 || n > self.queue.len() {
            0
        } else {
            let id = self.queue[n - 1].user_id;
            self.gender_queue_count(gender, (n - 1) as nat) + if self.has_user(id) && self.user(
                id,
            ).gender == gender {
                1nat
            } else {
                0nat
            }
        }
    }
}

} // verus!
