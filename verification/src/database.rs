use crate::error::Error;
use crate::models::chat_type::ChatType;
use crate::models::gender::Gender;
use crate::models::user::{User, UserView, BAN_REPUTATION};
use crate::frames::{
    lemma_entries_push, lemma_first_match, lemma_no_match, lemma_profile_at,
    lemma_profiles_remove, lemma_talk_at, lemma_wait_at,
};
use crate::store::{
    has_profile, profile_index, talk_index, talks, wait_index, waits, Chat, DatabaseView,
    QueueEntry,
};
use crate::user_state::UserState;
use vstd::prelude::*;

verus! {

/// The store: every profile, the waiting queue and the active sessions.
pub struct Database {
    users: Vec<User>,
    queue: Vec<QueueEntry>,
    chats: Vec<Chat>,
}

impl View for Database {
    type V = DatabaseView;

    closed spec fn view(&self) -> DatabaseView {
        DatabaseView {
            users: self.users@.map_values(|u: User| u@),
            queue: self.queue@,
            chats: self.chats@,
        }
    }
}

impl Database {
    /// Whether this store obeys the rules of every store.
    pub open spec fn wf(&self) -> bool {
        self@.wf()
    }

    /// An empty store.
    pub fn new() -> (r: Database)
        ensures
            r.wf(),
            r@ == DatabaseView::empty(),
            r@.consistent(),
    {
        let r = Database { users: Vec::new(), queue: Vec::new(), chats: Vec::new() };
        assert(r@.users =~= Seq::empty());
        r
    }

    fn find_user(&self, id: i64) -> (r: Option<usize>)
        requires
            self.wf(),
        ensures
            match r {
                Some(i) => i < self.users.len() && self@.has_user(id) && profile_index(self@.users, id) == i
                    && self.users@[i as int]@ == self@.user(id) && self.users@[i as int].id == id,
                None => !self@.has_user(id),
            },
    {
        let mut i: usize = 0;
        while i < self.users.len()
            invariant
                self.wf(),
                i <= self.users.len(),
                forall|j: int| 0 <= j < i ==> self@.users[j].id != id,
            decreases self.users.len() - i,
        {
            if self.users[i].id == id {
                proof {
                    lemma_profile_at(self@.users, i as int);
                }
                return Some(i);
            }
            i += 1;
        }
        None
    }

    fn find_queued(&self, id: i64) -> (r: Option<usize>)
        requires
            self.wf(),
        ensures
            match r {
                Some(i) => i < self.queue.len() && self@.queued(id) && wait_index(self@.queue, id) == i
                    && self.queue@[i as int].user_id == id,
                None => !self@.queued(id),
            },
    {
        let mut i: usize = 0;
        while i < self.queue.len()
            invariant
                self.wf(),
                i <= self.queue.len(),
                forall|j: int| 0 <= j < i ==> self@.queue[j].user_id != id,
            decreases self.queue.len() - i,
        {
            if self.queue[i].user_id == id {
                proof {
                    lemma_wait_at(self@.queue, i as int);
                }
                return Some(i);
            }
            i += 1;
        }
        None
    }

    fn find_chat(&self, id: i64) -> (r: Option<usize>)
        requires
            self.wf(),
        ensures
            match r {
                Some(i) => i < self.chats.len() && self@.in_chat(id) && talk_index(self@.chats, id) == i
                    && self.chats@[i as int].involves(id),
                None => !self@.in_chat(id),
            },
    {
        let mut i: usize = 0;
        while i < self.chats.len()
            invariant
                self.wf(),
                i <= self.chats.len(),
                forall|j: int| 0 <= j < i ==> !self@.chats[j].involves(id),
            decreases self.chats.len() - i,
        {
            if self.chats[i].has(id) {
                proof {
                    lemma_talk_at(self@.chats, i as int, id);
                }
                return Some(i);
            }
            i += 1;
        }
        None
    }

    /// How many profiles there are.
    pub fn get_total_users(&self) -> (r: usize)
        ensures
            r == self@.users.len(),
    {
        self.users.len()
    }

    /// How many sessions are active.
    pub fn get_total_chats(&self) -> (r: usize)
        ensures
            r == self@.chats.len(),
    {
        self.chats.len()
    }

    /// How many users are waiting.
    pub fn get_queue_count(&self) -> (r: usize)
        ensures
            r == self@.queue.len(),
    {
        self.queue.len()
    }

    /// The profile of `user_id`, if there is one.
    pub fn get_user(&self, user_id: i64) -> (r: Option<User>)
        requires
            self.wf(),
        ensures
            match r {
                Some(u) => self@.get_user(user_id) == Some(u@),
                None => self@.get_user(user_id) is None,
            },
    {
        match self.find_user(user_id) {
            Some(i) => Some(self.users[i].duplicate()),
            None => None,
        }
    }

    /// The user `user_id` is talking to, if `user_id` takes part in a session.
    pub fn get_chat(&self, user_id: i64) -> (r: Option<i64>)
        requires
            self.wf(),
        ensures
            r == self@.partner(user_id),
    {
        match self.find_chat(user_id) {
            Some(i) => Some(self.chats[i].partner_of(user_id)),
            None => None,
        }
    }

    /// Every profile, in the order they were added.
    pub fn get_all_users(&self) -> (r: Vec<User>)
        ensures
            r@.map_values(|u: User| u@) == self@.users,
    {
        let mut out: Vec<User> = Vec::new();
        let mut i: usize = 0;
        while i < self.users.len()
            invariant
                i <= self.users.len(),
                out.len() == i,
                forall|j: int| 0 <= j < i ==> out@[j]@ == self.users@[j]@,
            decreases self.users.len() - i,
        {
            out.push(self.users[i].duplicate());
            i += 1;
        }
        assert(out@.map_values(|u: User| u@) =~= self@.users);
        out
    }

    /// Every queue entry, from the longest-waiting to the newest.
    pub fn get_queue(&self) -> (r: Vec<QueueEntry>)
        ensures
            r@ == self@.queue,
    {
        self.queue.clone()
    }

    /// Every active session, in the order they began.
    pub fn get_chats(&self) -> (r: Vec<Chat>)
        ensures
            r@ == self@.chats,
    {
        self.chats.clone()
    }

    /// Whether there is a profile for `user_id`.
    pub fn has_user(&self, user_id: i64) -> (r: bool)
        requires
            self.wf(),
        ensures
            r == self@.has_user(user_id),
    {
        self.find_user(user_id).is_some()
    }

    /// Whether `user_id` is waiting in the queue.
    pub fn is_queued(&self, user_id: i64) -> (r: bool)
        requires
            self.wf(),
        ensures
            r == self@.queued(user_id),
    {
        self.find_queued(user_id).is_some()
    }

    /// Replaces the profile of `u.id` by `u`.
    pub(crate) fn store_user(&mut self, u: User)
        requires
            old(self).wf(),
            old(self)@.has_user(u.id),
        ensures
            final(self).wf(),
            final(self)@ == old(self)@.put_user(u@),
            old(self)@.put_user_facts(u@),
    {
        match self.find_user(u.id) {
            Some(i) => self.replace_user(i, u),
            None => {},
        }
    }

    fn replace_user(&mut self, i: usize, u: User)
        requires
            old(self).wf(),
            i < old(self).users.len(),
            old(self).users@[i as int].id == u.id,
        ensures
            final(self).wf(),
            final(self)@ == old(self)@.put_user(u@),
            old(self)@.put_user_facts(u@),
            old(self)@.only_profile_changes(final(self)@, u.id),
    {
        proof {
            lemma_profile_at(self@.users, i as int);
            self@.lemma_put_user(u@);
        }
        self.users[i] = u;
        assert(self@.users =~= old(self)@.users.update(i as int, u@));
    }

    /// Adds a profile. Refused, with nothing changed, when the user already
    /// has one.
    pub fn add_user(&mut self, user: &User) -> (r: Result<(), Error>)
        requires
            old(self).wf(),
        ensures
            final(self).wf(),
            (final(self)@, r) == old(self)@.add_user(user@),
            old(self)@.add_user_facts(user@),
    {
        proof {
            self@.lemma_add_user(user@);
        }
        match self.find_user(user.id) {
            Some(_) => Err(Error::StorageFailure),
            None => {
                self.users.push(user.duplicate());
                assert(self@.users =~= old(self)@.users.push(user@));
                Ok(())
            },
        }
    }

    /// Records `new_state` with the profile of `user_id`. Refused when there
    /// is no such profile.
    pub fn set_user_state(&mut self, user_id: i64, new_state: UserState) -> (r: Result<(), Error>)
        requires
            old(self).wf(),
        ensures
            final(self).wf(),
            (final(self)@, r) == old(self)@.set_user_state(user_id, new_state),
            r is Ok <==> old(self)@.has_user(user_id),
            r is Ok ==> final(self)@.user(user_id) == (UserView {
                state: new_state,
                ..old(self)@.user(user_id)
            }),
            old(self)@.only_profile_changes(final(self)@, user_id),
    {
        match self.find_user(user_id) {
            Some(i) => {
                let mut u = self.users[i].duplicate();
                u.state = new_state;
                self.replace_user(i, u);
                Ok(())
            },
            None => Err(Error::NotRegistered),
        }
    }

    /// Bans `user_id`. Refused when there is no such profile.
    pub fn ban_user(&mut self, user_id: i64) -> (r: Result<(), Error>)
        requires
            old(self).wf(),
        ensures
            final(self).wf(),
            (final(self)@, r) == old(self)@.set_banned(user_id, true),
            r is Ok <==> old(self)@.has_user(user_id),
            r is Ok ==> final(self)@.user(user_id) == (UserView {
                is_banned: true,
                ..old(self)@.user(user_id)
            }),
            old(self)@.only_profile_changes(final(self)@, user_id),
    {
        match self.find_user(user_id) {
            Some(i) => {
                let mut u = self.users[i].duplicate();
                u.is_banned = true;
                self.replace_user(i, u);
                Ok(())
            },
            None => Err(Error::NotRegistered),
        }
    }

    /// Lifts the ban of `user_id`. Refused when there is no such profile.
    pub fn unban_user(&mut self, user_id: i64) -> (r: Result<(), Error>)
        requires
            old(self).wf(),
        ensures
            final(self).wf(),
            (final(self)@, r) == old(self)@.set_banned(user_id, false),
            r is Ok <==> old(self)@.has_user(user_id),
            r is Ok ==> final(self)@.user(user_id) == (UserView {
                is_banned: false,
                ..old(self)@.user(user_id)
            }),
            old(self)@.only_profile_changes(final(self)@, user_id),
    {
        match self.find_user(user_id) {
            Some(i) => {
                let mut u = self.users[i].duplicate();
                u.is_banned = false;
                self.replace_user(i, u);
                Ok(())
            },
            None => Err(Error::NotRegistered),
        }
    }

    /// Gives `user_id` a new nickname. Refused when there is no such profile.
    pub fn update_user_nickname(&mut self, user_id: i64, new_nickname: &str) -> (r: Result<
        (),
        Error,
    >)
        requires
            old(self).wf(),
        ensures
            final(self).wf(),
            (final(self)@, r) == old(self)@.update_user_nickname(user_id, new_nickname@),
            r is Ok <==> old(self)@.has_user(user_id),
            r is Ok ==> final(self)@.user(user_id) == (UserView {
                nickname: new_nickname@,
                ..old(self)@.user(user_id)
            }),
            old(self)@.only_profile_changes(final(self)@, user_id),
    {
        match self.find_user(user_id) {
            Some(i) => {
                let mut u = self.users[i].duplicate();
                u.nickname = new_nickname.to_owned();
                self.replace_user(i, u);
                Ok(())
            },
            None => Err(Error::NotRegistered),
        }
    }

    /// Gives `user_id` a new age. Refused when there is no such profile.
    pub fn update_user_age(&mut self, user_id: i64, new_age: u8) -> (r: Result<(), Error>)
        requires
            old(self).wf(),
        ensures
            final(self).wf(),
            (final(self)@, r) == old(self)@.update_user_age(user_id, new_age),
            r is Ok <==> old(self)@.has_user(user_id),
            r is Ok ==> final(self)@.user(user_id) == (UserView {
                age: new_age,
                ..old(self)@.user(user_id)
            }),
            old(self)@.only_profile_changes(final(self)@, user_id),
    {
        match self.find_user(user_id) {
            Some(i) => {
                let mut u = self.users[i].duplicate();
                u.age = new_age;
                self.replace_user(i, u);
                Ok(())
            },
            None => Err(Error::NotRegistered),
        }
    }

    /// Gives `user_id` a new gender. Refused when there is no such profile.
    pub fn update_user_gender(&mut self, user_id: i64, new_gender: Gender) -> (r: Result<
        (),
        Error,
    >)
        requires
            old(self).wf(),
        ensures
            final(self).wf(),
            (final(self)@, r) == old(self)@.update_user_gender(user_id, new_gender),
            r is Ok <==> old(self)@.has_user(user_id),
            r is Ok ==> final(self)@.user(user_id) == (UserView {
                gender: new_gender,
                ..old(self)@.user(user_id)
            }),
            old(self)@.only_profile_changes(final(self)@, user_id),
    {
        match self.find_user(user_id) {
            Some(i) => {
                let mut u = self.users[i].duplicate();
                u.gender = new_gender;
                self.replace_user(i, u);
                Ok(())
            },
            None => Err(Error::NotRegistered),
        }
    }

    /// Remembers the filters of the latest search of `user_id`. Refused when
    /// there is no such profile.
    pub fn set_search_filters(&mut self, user_id: i64, gender: Gender, chat_type: ChatType) -> (r:
        Result<(), Error>)
        requires
            old(self).wf(),
        ensures
            final(self).wf(),
            (final(self)@, r) == old(self)@.set_search_filters(user_id, gender, chat_type),
            r is Ok <==> old(self)@.has_user(user_id),
            r is Ok ==> final(self)@.user(user_id) == (UserView {
                search_gender: Some(gender),
                chat_type: Some(chat_type),
                ..old(self)@.user(user_id)
            }),
            old(self)@.only_profile_changes(final(self)@, user_id),
    {
        match self.find_user(user_id) {
            Some(i) => {
                let mut u = self.users[i].duplicate();
                u.search_gender = Some(gender);
                u.chat_type = Some(chat_type);
                self.replace_user(i, u);
                Ok(())
            },
            None => Err(Error::NotRegistered),
        }
    }

    /// Counts one more user referred by `user_id`. Refused when there is no
    /// such profile or the counter is at its limit.
    pub fn increase_referral_count(&mut self, user_id: i64) -> (r: Result<(), Error>)
        requires
            old(self).wf(),
        ensures
            final(self).wf(),
            (final(self)@, r) == old(self)@.increase_referral_count(user_id),
            r is Ok <==> old(self)@.has_user(user_id) && old(self)@.user(user_id).referrals
                < u32::MAX,
            r is Ok ==> final(self)@.user(user_id) == (UserView {
                referrals: (old(self)@.user(user_id).referrals + 1) as u32,
                ..old(self)@.user(user_id)
            }),
            old(self)@.only_profile_changes(final(self)@, user_id),
    {
        match self.find_user(user_id) {
            Some(i) => {
                if self.users[i].referrals == u32::MAX {
                    return Err(Error::StorageFailure);
                }
                let mut u = self.users[i].duplicate();
                u.referrals = u.referrals + 1;
                self.replace_user(i, u);
                Ok(())
            },
            None => Err(Error::NotRegistered),
        }
    }

    /// Lowers the reputation of `user_id` by `amount` and bans them when the
    /// new reputation is at or below the threshold. The answer is whether
    /// this call banned them. Refused, with nothing changed, when there is no
    /// such profile or the new reputation is out of range.
    pub fn decrease_reputation(&mut self, user_id: i64, amount: i32) -> (r: Result<bool, Error>)
        requires
            old(self).wf(),
        ensures
            final(self).wf(),
            (final(self)@, r) == old(self)@.decrease_reputation(user_id, amount),
            r is Ok <==> old(self)@.has_user(user_id) && i32::MIN <= old(self)@.user(
                user_id,
            ).reputation - amount <= i32::MAX,
            r matches Ok(banned_now) ==> {
                let before = old(self)@.user(user_id);
                let after = final(self)@.user(user_id);
                &&& after == (UserView {
                    reputation: (before.reputation - amount) as i32,
                    is_banned: before.is_banned || before.reputation - amount <= BAN_REPUTATION,
                    ..before
                })
                &&& banned_now == (after.is_banned && !before.is_banned)
            },
            old(self)@.only_profile_changes(final(self)@, user_id),
    {
        match self.find_user(user_id) {
            Some(i) => {
                let was_banned = self.users[i].is_banned;
                match self.users[i].reputation.checked_sub(amount) {
                    Some(lowered) => {
                        let banned = was_banned || lowered <= BAN_REPUTATION;
                        let mut u = self.users[i].duplicate();
                        u.reputation = lowered;
                        u.is_banned = banned;
                        self.replace_user(i, u);
                        Ok(banned && !was_banned)
                    },
                    None => Err(Error::StorageFailure),
                }
            },
            None => Err(Error::NotRegistered),
        }
    }

    /// Raises the reputation of `user_id` by `amount`. A ban is never lifted
    /// by this; the answer is whether the user is banned. Refused, with
    /// nothing changed, when there is no such profile or the new reputation
    /// is out of range.
    pub fn increase_reputation(&mut self, user_id: i64, amount: i32) -> (r: Result<bool, Error>)
        requires
            old(self).wf(),
        ensures
            final(self).wf(),
            (final(self)@, r) == old(self)@.increase_reputation(user_id, amount),
            r is Ok <==> old(self)@.has_user(user_id) && i32::MIN <= old(self)@.user(
                user_id,
            ).reputation + amount <= i32::MAX,
            r matches Ok(banned) ==> banned == old(self)@.user(user_id).is_banned,
            r is Ok ==> final(self)@.user(user_id) == (UserView {
                reputation: (old(self)@.user(user_id).reputation + amount) as i32,
                ..old(self)@.user(user_id)
            }),
            old(self)@.only_profile_changes(final(self)@, user_id),
    {
        match self.find_user(user_id) {
            Some(i) => {
                let was_banned = self.users[i].is_banned;
                match self.users[i].reputation.checked_add(amount) {
                    Some(raised) => {
                        let mut u = self.users[i].duplicate();
                        u.reputation = raised;
                        self.replace_user(i, u);
                        Ok(was_banned)
                    },
                    None => Err(Error::StorageFailure),
                }
            },
            None => Err(Error::NotRegistered),
        }
    }

    /// Takes `user_id` out of the queue; nothing changes when they were not
    /// waiting.
    pub fn dequeue_user(&mut self, user_id: i64)
        requires
            old(self).wf(),
        ensures
            final(self).wf(),
            final(self)@ == old(self)@.dequeue_user(user_id),
            old(self)@.dequeue_user_facts(user_id),
    {
        proof {
            self@.lemma_dequeue_user(user_id);
        }
        match self.find_queued(user_id) {
            Some(i) => {
                self.queue.remove(i);
            },
            None => {},
        }
    }

    /// Ends the session of `user_id` and answers with their partner; nothing
    /// changes, and the answer is `None`, when they were not talking.
    pub fn delete_chat(&mut self, user_id: i64) -> (r: Option<i64>)
        requires
            old(self).wf(),
        ensures
            final(self).wf(),
            final(self)@ == old(self)@.delete_chat(user_id),
            r == old(self)@.partner(user_id),
            old(self)@.delete_chat_facts(user_id),
    {
        proof {
            self@.lemma_delete_chat(user_id);
        }
        match self.find_chat(user_id) {
            Some(i) => {
                let chat = self.chats.remove(i);
                Some(chat.partner_of(user_id))
            },
            None => None,
        }
    }

    /// Starts a session between two users. Refused, with nothing changed,
    /// when they are the same user or either is waiting or talking already.
    pub fn create_chat(&mut self, user_id_one: i64, user_id_two: i64, chat_type: ChatType) -> (r:
        Result<(), Error>)
        requires
            old(self).wf(),
        ensures
            final(self).wf(),
            (final(self)@, r) == old(self)@.create_chat(user_id_one, user_id_two, chat_type),
            old(self)@.create_chat_facts(user_id_one, user_id_two, chat_type),
    {
        proof {
            self@.lemma_create_chat(user_id_one, user_id_two, chat_type);
        }
        if user_id_one == user_id_two || self.find_chat(user_id_one).is_some() || self.find_chat(
            user_id_two,
        ).is_some() || self.find_queued(user_id_one).is_some() || self.find_queued(
            user_id_two,
        ).is_some() {
            return Err(Error::StorageFailure);
        }
        self.chats.push(Chat { chat_one: user_id_one, chat_two: user_id_two, chat_type });
        Ok(())
    }

    fn find_match(&self, request: &QueueEntry) -> (r: Option<usize>)
        ensures
            match r {
                Some(i) => i < self.queue.len() && crate::store::is_first_match(
                    self@.queue,
                    *request,
                    i as int,
                ),
                None => !crate::store::has_match(self@.queue, *request),
            },
    {
        let mut i: usize = 0;
        while i < self.queue.len()
            invariant
                i <= self.queue.len(),
                forall|j: int| 0 <= j < i ==> !(#[trigger] self@.queue[j]).mirrors(*request),
            decreases self.queue.len() - i,
        {
            if self.queue[i].is_mirror_of(request) {
                return Some(i);
            }
            i += 1;
        }
        proof {
            lemma_no_match(self@.queue, *request);
        }
        None
    }

    /// Find or enqueue: pairs `user_id` with the longest-waiting user whose
    /// request fits, or puts `user_id` at the end of the queue. The answer is
    /// the partner, if there is one.
    ///
    /// A request fits when it comes from another user of the gender asked
    /// for, who asks for the gender of `user_id` and for the same category.
    /// An earlier entry of `user_id` is dropped first. Refused, with nothing
    /// changed, when `user_id` is talking.
    pub fn enqueue_user(
        &mut self,
        user_id: i64,
        search_gender: Gender,
        searcher_gender: Gender,
        chat_type: ChatType,
    ) -> (r: Result<Option<i64>, Error>)
        requires
            old(self).wf(),
        ensures
            final(self).wf(),
            (final(self)@, r) == old(self)@.enqueue_user(
                QueueEntry { user_id, search_gender, searcher_gender, chat_type },
            ),
            old(self)@.enqueue_user_facts(
                QueueEntry { user_id, search_gender, searcher_gender, chat_type },
            ),
            r != Ok::<Option<i64>, Error>(Some(user_id)),
    {
        let request = QueueEntry { user_id, search_gender, searcher_gender, chat_type };
        proof {
            self@.lemma_enqueue_user(request);
        }
        if self.find_chat(user_id).is_some() {
            return Err(Error::StorageFailure);
        }
        match self.find_match(&request) {
            Some(i) => {
                proof {
                    lemma_first_match(self@.queue, request, i as int);
                }
                let partner = self.queue[i].user_id;
                self.dequeue_user(partner);
                self.dequeue_user(user_id);
                self.chats.push(Chat { chat_one: user_id, chat_two: partner, chat_type });
                Ok(Some(partner))
            },
            None => {
                self.dequeue_user(user_id);
                self.queue.push(request);
                Ok(None)
            },
        }
    }

    /// The user that `enqueue_user` would pair `user_id` with: the owner of
    /// the longest-waiting request that fits, if any request fits.
    pub fn find_partner(
        &self,
        user_id: i64,
        search_gender: Gender,
        searcher_gender: Gender,
        chat_type: ChatType,
    ) -> (r: Option<i64>)
        ensures
            r == self@.candidate(
                QueueEntry { user_id, search_gender, searcher_gender, chat_type },
            ),
    {
        let request = QueueEntry { user_id, search_gender, searcher_gender, chat_type };
        match self.find_match(&request) {
            Some(i) => {
                proof {
                    lemma_first_match(self@.queue, request, i as int);
                }
                Some(self.queue[i].user_id)
            },
            None => None,
        }
    }

    /// How many profiles have the given gender.
    pub fn get_gender_count(&self, gender: Gender) -> (r: usize)
        ensures
            r == self@.gender_count(gender, self@.users.len()),
    {
        let mut n: usize = 0;
        let mut i: usize = 0;
        while i < self.users.len()
            invariant
                i <= self.users.len(),
                n <= i,
                n == self@.gender_count(gender, i as nat),
            decreases self.users.len() - i,
        {
            if self.users[i].gender == gender {
                n += 1;
            }
            i += 1;
        }
        n
    }

    /// How many profiles are female.
    pub fn get_female_count(&self) -> (r: usize)
        ensures
            r == self@.gender_count(Gender::Female, self@.users.len()),
    {
        self.get_gender_count(Gender::Female)
    }

    /// How many profiles are male.
    pub fn get_male_count(&self) -> (r: usize)
        ensures
            r == self@.gender_count(Gender::Male, self@.users.len()),
    {
        self.get_gender_count(Gender::Male)
    }

    /// How many waiting users have a profile of the given gender.
    pub fn get_gender_queue_count(&self, gender: Gender) -> (r: usize)
        requires
            self.wf(),
        ensures
            r == self@.gender_queue_count(gender, self@.queue.len()),
    {
        let mut n: usize = 0;
        let mut i: usize = 0;
        while i < self.queue.len()
            invariant
                self.wf(),
                i <= self.queue.len(),
                n <= i,
                n == self@.gender_queue_count(gender, i as nat),
            decreases self.queue.len() - i,
        {
            match self.find_user(self.queue[i].user_id) {
                Some(k) => {
                    if self.users[k].gender == gender {
                        n += 1;
                    }
                },
                None => {},
            }
            i += 1;
        }
        n
    }

    /// How many waiting users have a female profile.
    pub fn get_female_queue_count(&self) -> (r: usize)
        requires
            self.wf(),
        ensures
            r == self@.gender_queue_count(Gender::Female, self@.queue.len()),
    {
        self.get_gender_queue_count(Gender::Female)
    }

    /// How many waiting users have a male profile.
    pub fn get_male_queue_count(&self) -> (r: usize)
        requires
            self.wf(),
        ensures
            r == self@.gender_queue_count(Gender::Male, self@.queue.len()),
    {
        self.get_gender_queue_count(Gender::Male)
    }

    /// Removes the profile of `user_id`, and nothing else. Refused when
    /// there is no such profile.
    pub fn delete_user_by_id(&mut self, user_id: i64) -> (r: Result<(), Error>)
        requires
            old(self).wf(),
        ensures
            final(self).wf(),
            (final(self)@, r) == old(self)@.delete_user(user_id),
            old(self)@.delete_user_facts(user_id),
    {
        proof {
            self@.lemma_delete_user(user_id);
        }
        match self.find_user(user_id) {
            Some(i) => {
                proof {
                    lemma_profiles_remove(self@.users, user_id);
                }
                self.users.remove(i);
                assert(self@.users =~= old(self)@.users.remove(i as int));
                Ok(())
            },
            None => Err(Error::NotRegistered),
        }
    }

    /// Puts `entry` at the end of the queue as it is, without looking for a
    /// partner. Refused, with nothing changed, when its user waits or talks
    /// already.
    pub fn insert_entry(&mut self, entry: QueueEntry) -> (r: Result<(), Error>)
        requires
            old(self).wf(),
        ensures
            final(self).wf(),
            (final(self)@, r) == old(self)@.insert_entry(entry),
            old(self)@.insert_entry_facts(entry),
    {
        proof {
            self@.lemma_insert_entry(entry);
        }
        if self.find_queued(entry.user_id).is_some() || self.find_chat(entry.user_id).is_some() {
            return Err(Error::StorageFailure);
        }
        proof {
            lemma_entries_push(self@.queue, self@.chats, entry);
        }
        self.queue.push(entry);
        Ok(())
    }

    /// The store that holds exactly these profiles, queue entries and
    /// sessions, in these orders; `None` where they break a rule of the
    /// store: two profiles or two entries of one user, a session of a user
    /// with themself, a user in two sessions, or a user who waits while
    /// talking.
    pub fn from_tables(users: Vec<User>, queue: Vec<QueueEntry>, chats: Vec<Chat>) -> (r: Option<
        Database,
    >)
        ensures
            r is Some <==> (DatabaseView {
                users: users@.map_values(|u: User| u@),
                queue: queue@,
                chats: chats@,
            }).wf(),
            r matches Some(db) ==> db.wf() && db@ == (DatabaseView {
                users: users@.map_values(|u: User| u@),
                queue: queue@,
                chats: chats@,
            }),
    {
        let ghost goal = DatabaseView {
            users: users@.map_values(|u: User| u@),
            queue: queue@,
            chats: chats@,
        };
        let mut db = Database::new();
        let mut i: usize = 0;
        while i < users.len()
            invariant
                i <= users.len(),
                db.wf(),
                goal.users == users@.map_values(|u: User| u@),
                db@.users == goal.users.take(i as int),
                db@.queue == Seq::<QueueEntry>::empty(),
                db@.chats == Seq::<Chat>::empty(),
            decreases users.len() - i,
        {
            let ghost before = db@;
            match db.add_user(&users[i]) {
                Ok(_) => {},
                Err(_) => {
                    proof {
                        let k = profile_index(before.users, users@[i as int].id);
                        assert(goal.users[k].id == goal.users[i as int].id);
                    }
                    return None;
                },
            }
            assert(db@.users =~= goal.users.take(i + 1));
            i += 1;
        }
        assert(goal.users.take(i as int) =~= goal.users);
        let mut j: usize = 0;
        while j < chats.len()
            invariant
                j <= chats.len(),
                db.wf(),
                goal.chats == chats@,
                db@.users == goal.users,
                db@.queue == Seq::<QueueEntry>::empty(),
                db@.chats == goal.chats.take(j as int),
            decreases chats.len() - j,
        {
            let ghost before = db@;
            let c = chats[j];
            match db.create_chat(c.chat_one, c.chat_two, c.chat_type) {
                Ok(_) => {},
                Err(_) => {
                    proof {
                        if c.chat_one != c.chat_two {
                            if before.in_chat(c.chat_one) {
                                let k = talk_index(before.chats, c.chat_one);
                                assert(goal.chats[k].involves(c.chat_one));
                                assert(goal.chats[j as int].involves(goal.chats[k].chat_one)
                                    || goal.chats[j as int].involves(goal.chats[k].chat_two));
                            } else {
                                let k = talk_index(before.chats, c.chat_two);
                                assert(goal.chats[k].involves(c.chat_two));
                                assert(goal.chats[j as int].involves(goal.chats[k].chat_one)
                                    || goal.chats[j as int].involves(goal.chats[k].chat_two));
                            }
                        }
                    }
                    return None;
                },
            }
            assert(db@.chats =~= goal.chats.take(j + 1));
            j += 1;
        }
        assert(goal.chats.take(j as int) =~= goal.chats);
        let mut k: usize = 0;
        while k < queue.len()
            invariant
                k <= queue.len(),
                db.wf(),
                goal.queue == queue@,
                goal.chats == chats@,
                db@.users == goal.users,
                db@.chats == goal.chats,
                db@.queue == goal.queue.take(k as int),
            decreases queue.len() - k,
        {
            let ghost before = db@;
            match db.insert_entry(queue[k]) {
                Ok(_) => {},
                Err(_) => {
                    proof {
                        let id = queue@[k as int].user_id;
                        if before.queued(id) {
                            let m = wait_index(before.queue, id);
                            assert(goal.queue[m].user_id == goal.queue[k as int].user_id);
                        } else {
                            let m = talk_index(before.chats, id);
                            assert(goal.chats[m].involves(goal.queue[k as int].user_id));
                        }
                    }
                    return None;
                },
            }
            assert(db@.queue =~= goal.queue.take(k + 1));
            k += 1;
        }
        assert(goal.queue.take(k as int) =~= goal.queue);
        Some(db)
    }

    /// Whether profiles, queue and sessions agree: whoever waits or talks
    /// has a profile, and a profile says `Search` exactly while its user
    /// waits and `Dialog` exactly while its user talks.
    pub fn is_consistent(&self) -> (r: bool)
        requires
            self.wf(),
        ensures
            r == self@.consistent(),
    {
        let mut i: usize = 0;
        while i < self.queue.len()
            invariant
                self.wf(),
                i <= self.queue.len(),
                forall|k: int|
                    0 <= k < i ==> self@.has_user((#[trigger] self@.queue[k]).user_id)
                        && self@.user(self@.queue[k].user_id).state == UserState::Search,
            decreases self.queue.len() - i,
        {
            proof {
                lemma_wait_at(self@.queue, i as int);
            }
            match self.find_user(self.queue[i].user_id) {
                Some(u) => match self.users[u].state {
                    UserState::Search => {},
                    _ => {
                        return false;
                    },
                },
                None => {
                    return false;
                },
            }
            i += 1;
        }
        let mut j: usize = 0;
        while j < self.chats.len()
            invariant
                self.wf(),
                j <= self.chats.len(),
                forall|k: int|
                    0 <= k < j ==> self@.has_user((#[trigger] self@.chats[k]).chat_one)
                        && self@.user(self@.chats[k].chat_one).state == UserState::Dialog
                        && self@.has_user(self@.chats[k].chat_two) && self@.user(
                        self@.chats[k].chat_two,
                    ).state == UserState::Dialog,
            decreases self.chats.len() - j,
        {
            let c = self.chats[j];
            proof {
                lemma_talk_at(self@.chats, j as int, c.chat_one);
                lemma_talk_at(self@.chats, j as int, c.chat_two);
            }
            match self.find_user(c.chat_one) {
                Some(u) => match self.users[u].state {
                    UserState::Dialog => {},
                    _ => {
                        return false;
                    },
                },
                None => {
                    return false;
                },
            }
            match self.find_user(c.chat_two) {
                Some(u) => match self.users[u].state {
                    UserState::Dialog => {},
                    _ => {
                        return false;
                    },
                },
                None => {
                    return false;
                },
            }
            j += 1;
        }
        let mut n: usize = 0;
        while n < self.users.len()
            invariant
                self.wf(),
                n <= self.users.len(),
                forall|k: int|
                    0 <= k < n ==> ((#[trigger] self@.users[k]).state == UserState::Search
                        ==> self@.queued(self@.users[k].id)) && (self@.users[k].state
                        == UserState::Dialog ==> self@.in_chat(self@.users[k].id)),
            decreases self.users.len() - n,
        {
            proof {
                lemma_profile_at(self@.users, n as int);
            }
            let id = self.users[n].id;
            match self.users[n].state {
                UserState::Search => if self.find_queued(id).is_none() {
                    return false;
                },
                UserState::Dialog => if self.find_chat(id).is_none() {
                    return false;
                },
                _ => {},
            }
            n += 1;
        }
        proof {
            let s = self@;
            assert forall|x: i64| #[trigger] waits(s.queue, x) implies has_profile(s.users, x)
                && s.user(x).state == UserState::Search by {
                let k = wait_index(s.queue, x);
                assert(s.queue[k].user_id == x);
            }
            assert forall|x: i64| #[trigger] talks(s.chats, x) implies has_profile(s.users, x)
                && s.user(x).state == UserState::Dialog by {
                let k = talk_index(s.chats, x);
                assert(s.chats[k].involves(x));
            }
            assert forall|x: i64| #[trigger] has_profile(s.users, x) implies (s.user(x).state
                == UserState::Search <==> waits(s.queue, x)) && (s.user(x).state
                == UserState::Dialog <==> talks(s.chats, x)) by {
                let k = profile_index(s.users, x);
                assert(s.users[k].id == x);
            }
        }
        true
    }
}

} // verus!
