use crate::database::Database;
use crate::error::Error;
use crate::models::chat_type::ChatType;
use crate::models::gender::Gender;
use crate::models::user::{User, UserView, MIN_AGE};
use crate::state::State;
use crate::store::{DatabaseView, QueueEntry};
use crate::user_state::UserState;
use vstd::prelude::*;

verus! {

/// What `advance_next` did: the partner of the dialog it ended, if the user
/// was talking, and the partner of the dialog it began, if a waiting user
/// fitted.
#[derive(Debug, Clone, Copy, PartialEq, Eq, Structural)]
pub struct NextOutcome {
    pub stopped: Option<i64>,
    pub matched: Option<i64>,
}

impl DatabaseView {
    /// Whether `id` may act at all: a user without a profile may not, nor may
    /// a banned one.
    pub open spec fn may_act(self, id: i64) -> Result<(), Error> {
        if !self.has_user(id) {
            Err(Error::NotRegistered)
        } else if self.user(id).is_banned {
            Err(Error::Banned)
        } else {
            Ok(())
        }
    }

    /// The request a search of `id` for `desired` in `category` puts
    /// forward.
    pub open spec fn request_of(self, id: i64, desired: Gender, category: ChatType) -> QueueEntry {
        QueueEntry {
            user_id: id,
            search_gender: desired,
            searcher_gender: self.user(id).gender,
            chat_type: category,
        }
    }

    /// Whether `id` is in a position to start a search: registered, not
    /// banned, neither waiting nor talking.
    pub open spec fn ready(self, id: i64) -> bool {
        self.may_act(id) is Ok && self.user(id).state.is_free()
    }

    /// Whether no waiting request fits `request`.
    pub open spec fn nobody_fits(self, request: QueueEntry) -> bool {
        forall|i: int| 0 <= i < self.queue.len() ==> !(#[trigger] self.queue[i]).mirrors(request)
    }

    /// Registration. A banned user is told so; a user who has a profile, or
    /// is younger than the minimum age, is refused; anybody else gets a
    /// fresh profile.
    pub open spec fn register(self, id: i64, age: u8, nickname: Seq<char>, gender: Gender) -> (
        DatabaseView,
        Result<(), Error>,
    ) {
        if self.has_user(id) {
            if self.user(id).is_banned {
                (self, Err(Error::Banned))
            } else {
                (self, Err(Error::InvalidStateTransition))
            }
        } else if age < MIN_AGE {
            (self, Err(Error::InvalidStateTransition))
        } else {
            (self.add_user(UserView::fresh(id, age, nickname, gender)).0, Ok(()))
        }
    }

    /// The profile of a user after a search for `request` ended in `state`:
    /// the filters of the request are remembered.
    pub open spec fn searched(self, request: QueueEntry, state: UserState) -> UserView {
        UserView {
            state,
            search_gender: Some(request.search_gender),
            chat_type: Some(request.chat_type),
            ..self.user(request.user_id)
        }
    }

    /// Find or enqueue for a registered seeker, with both profiles kept in
    /// step: on a match the seeker and the partner are in `Dialog`, without
    /// one the seeker is in `Search`. Refused, with nothing changed, when the
    /// seeker is talking or the partner found has no profile.
    pub open spec fn pair_or_wait(self, request: QueueEntry) -> (
        DatabaseView,
        Result<Option<i64>, Error>,
    ) {
        if self.in_chat(request.user_id) {
            (self, Err(Error::StorageFailure))
        } else {
            match self.candidate(request) {
                Some(partner) => if self.has_user(partner) {
                    (
                        self.enqueue_user(request).0.put_user(
                            self.searched(request, UserState::Dialog),
                        ).put_user(UserView { state: UserState::Dialog, ..self.user(partner) }),
                        Ok(Some(partner)),
                    )
                } else {
                    (self, Err(Error::StorageFailure))
                },
                None => (
                    self.enqueue_user(request).0.put_user(
                        self.searched(request, UserState::Search),
                    ),
                    Ok(None),
                ),
            }
        }
    }

    /// Starting a search. The user must be allowed to act and neither waiting nor
    /// talking; then find or enqueue runs with the user's own gender.
    pub open spec fn begin_search(self, id: i64, desired: Gender, category: ChatType) -> (
        DatabaseView,
        Result<Option<i64>, Error>,
    ) {
        match self.may_act(id) {
            Err(e) => (self, Err(e)),
            Ok(_) => if self.user(id).state.is_free() {
                self.pair_or_wait(
                    QueueEntry {
                        user_id: id,
                        search_gender: desired,
                        searcher_gender: self.user(id).gender,
                        chat_type: category,
                    },
                )
            } else {
                (self, Err(Error::InvalidStateTransition))
            },
        }
    }

    /// Cancelling a search. A banned user is refused. Who is not waiting
    /// sees nothing change, and no error; who is waiting leaves the queue
    /// and is `Idle`.
    pub open spec fn cancel_search(self, id: i64) -> (DatabaseView, Result<(), Error>) {
        if self.has_user(id) && self.user(id).is_banned {
            (self, Err(Error::Banned))
        } else if !self.queued(id) {
            (self, Ok(()))
        } else if self.has_user(id) {
            (
                self.dequeue_user(id).put_user(UserView { state: UserState::Idle, ..self.user(id) }),
                Ok(()),
            )
        } else {
            (self.dequeue_user(id), Ok(()))
        }
    }

    /// The store after the session of `id` with `partner` ended: the session
    /// is gone and both are `Idle`.
    pub open spec fn part(self, id: i64, partner: i64) -> DatabaseView {
        self.delete_chat(id).put_user(UserView { state: UserState::Idle, ..self.user(id) }).put_user(
            UserView { state: UserState::Idle, ..self.user(partner) },
        )
    }

    /// Stopping a dialog. The user must be allowed to act and talking, and the
    /// partner must have a profile; then the session ends, both are `Idle`,
    /// and the answer is the partner.
    pub open spec fn stop_dialog(self, id: i64) -> (DatabaseView, Result<i64, Error>) {
        match self.may_act(id) {
            Err(e) => (self, Err(e)),
            Ok(_) => match self.partner(id) {
                None => (self, Err(Error::InvalidStateTransition)),
                Some(partner) => if self.has_user(partner) {
                    (self.part(id, partner), Ok(partner))
                } else {
                    (self, Err(Error::StorageFailure))
                },
            },
        }
    }

    /// The request a user who moves on puts forward: the filters of their
    /// latest search, with their own gender.
    pub open spec fn next_request(self, id: i64) -> QueueEntry {
        QueueEntry {
            user_id: id,
            search_gender: self.user(id).search_gender->Some_0,
            searcher_gender: self.user(id).gender,
            chat_type: self.user(id).chat_type->Some_0,
        }
    }

    /// The store after `id` left the dialog they were in, if they were in
    /// one.
    pub open spec fn left(self, id: i64) -> DatabaseView {
        match self.partner(id) {
            Some(partner) => self.part(id, partner),
            None => self,
        }
    }

    /// Moving on to the next partner. The user must be allowed to act, not
    /// waiting, and have searched before; a partner they have must have a
    /// profile. A dialog they are in ends as by `stop_dialog`; then find or
    /// enqueue runs with the filters of their latest search. Where that is
    /// refused, nothing changes at all.
    pub open spec fn advance_next(self, id: i64) -> (DatabaseView, Result<NextOutcome, Error>) {
        match self.may_act(id) {
            Err(e) => (self, Err(e)),
            Ok(_) => {
                let me = self.user(id);
                if me.state == UserState::Search || me.search_gender is None || me.chat_type
                    is None {
                    (self, Err(Error::InvalidStateTransition))
                } else if self.partner(id) matches Some(partner) && !self.has_user(partner) {
                    (self, Err(Error::StorageFailure))
                } else {
                    let (after, r) = self.left(id).pair_or_wait(self.next_request(id));
                    match r {
                        Ok(matched) => (
                            after,
                            Ok(NextOutcome { stopped: self.partner(id), matched }),
                        ),
                        Err(e) => (self, Err(e)),
                    }
                }
            },
        }
    }

    /// Rating. The rater must be allowed to act. A like raises the reputation of
    /// the target by one and never bans; a dislike lowers it by one and bans
    /// the target at the threshold. The answer is whether this very rating
    /// banned the target.
    pub open spec fn rate(self, id: i64, target: i64, positive: bool) -> (
        DatabaseView,
        Result<bool, Error>,
    ) {
        match self.may_act(id) {
            Err(e) => (self, Err(e)),
            Ok(_) => if positive {
                match self.increase_reputation(target, 1).1 {
                    Ok(_) => (self.increase_reputation(target, 1).0, Ok(false)),
                    Err(e) => (self, Err(e)),
                }
            } else {
                self.decrease_reputation(target, 1)
            },
        }
    }

    /// To whom a message of `id` goes: the partner, for a user who may act
    /// and is talking.
    pub open spec fn relay(self, id: i64) -> Result<i64, Error> {
        match self.may_act(id) {
            Err(e) => Err(e),
            Ok(_) => match self.partner(id) {
                Some(partner) => Ok(partner),
                None => Err(Error::InvalidStateTransition),
            },
        }
    }

    /// Whether `id` may edit their profile: allowed to act, and neither
    /// waiting nor talking.
    pub open spec fn may_edit(self, id: i64) -> Result<(), Error> {
        match self.may_act(id) {
            Err(e) => Err(e),
            Ok(_) => if self.user(id).state.is_free() {
                Ok(())
            } else {
                Err(Error::InvalidStateTransition)
            },
        }
    }

    /// Changing one's nickname.
    pub open spec fn edit_nickname(self, id: i64, nickname: Seq<char>) -> (
        DatabaseView,
        Result<(), Error>,
    ) {
        match self.may_edit(id) {
            Err(e) => (self, Err(e)),
            Ok(_) => self.update_user_nickname(id, nickname),
        }
    }

    /// Changing one's age; an age under the minimum is refused.
    pub open spec fn edit_age(self, id: i64, age: u8) -> (DatabaseView, Result<(), Error>) {
        match self.may_edit(id) {
            Err(e) => (self, Err(e)),
            Ok(_) => if age < MIN_AGE {
                (self, Err(Error::InvalidStateTransition))
            } else {
                self.update_user_age(id, age)
            },
        }
    }

    /// Changing one's gender.
    pub open spec fn edit_gender(self, id: i64, gender: Gender) -> (
        DatabaseView,
        Result<(), Error>,
    ) {
        match self.may_edit(id) {
            Err(e) => (self, Err(e)),
            Ok(_) => self.update_user_gender(id, gender),
        }
    }
}

impl Database {
    /// Whether `user_id` may act at all, and their profile if they may.
    fn acting_user(&self, user_id: i64) -> (r: Result<User, Error>)
        requires
            self.wf(),
        ensures
            r matches Ok(u) ==> self@.may_act(user_id) is Ok && u@ == self@.user(user_id),
            r matches Err(e) ==> self@.may_act(user_id) == Err::<(), Error>(e),
    {
        match self.get_user(user_id) {
            None => Err(Error::NotRegistered),
            Some(u) => if u.is_banned {
                Err(Error::Banned)
            } else {
                Ok(u)
            },
        }
    }

    /// Registers `user_id`. Succeeds exactly when they have no profile yet
    /// and are at least of the minimum age; a banned user gets `Banned`,
    /// any other refusal is `InvalidStateTransition`.
    pub fn register(&mut self, user_id: i64, age: u8, nickname: String, gender: Gender) -> (r:
        Result<(), Error>)
        requires
            old(self).wf(),
        ensures
            final(self).wf(),
            (final(self)@, r) == old(self)@.register(user_id, age, nickname@, gender),
            old(self)@.consistent() ==> final(self)@.consistent(),
            old(self)@.register_facts(user_id, age, nickname@, gender),
    {
        proof {
            self@.lemma_register(user_id, age, nickname@, gender);
        }
        match self.get_user(user_id) {
            Some(u) => if u.is_banned {
                Err(Error::Banned)
            } else {
                Err(Error::InvalidStateTransition)
            },
            None => if age < MIN_AGE {
                Err(Error::InvalidStateTransition)
            } else {
                let user = User::new(user_id, age, nickname, gender);
                let _ = self.add_user(&user);
                Ok(())
            },
        }
    }

    fn pair_or_wait(&mut self, me: User, search_gender: Gender, chat_type: ChatType) -> (r: Result<
        Option<i64>,
        Error,
    >)
        requires
            old(self).wf(),
            old(self)@.has_user(me.id),
            me@ == old(self)@.user(me.id),
        ensures
            final(self).wf(),
            (final(self)@, r) == old(self)@.pair_or_wait(
                QueueEntry {
                    user_id: me.id,
                    search_gender,
                    searcher_gender: me.gender,
                    chat_type,
                },
            ),
    {
        let ghost request = QueueEntry {
            user_id: me.id,
            search_gender,
            searcher_gender: me.gender,
            chat_type,
        };
        proof {
            self@.lemma_enqueue_user(request);
        }
        if self.get_chat(me.id).is_some() {
            return Err(Error::StorageFailure);
        }
        let mut me = me;
        match self.find_partner(me.id, search_gender, me.gender, chat_type) {
            Some(p) => {
                let mut partner = match self.get_user(p) {
                    Some(u) => u,
                    None => {
                        return Err(Error::StorageFailure);
                    },
                };
                let _ = self.enqueue_user(me.id, search_gender, me.gender, chat_type);
                me.state = UserState::Dialog;
                me.search_gender = Some(search_gender);
                me.chat_type = Some(chat_type);
                proof {
                    self@.lemma_put_user(me@);
                }
                self.store_user(me);
                partner.state = UserState::Dialog;
                self.store_user(partner);
                Ok(Some(p))
            },
            None => {
                let _ = self.enqueue_user(me.id, search_gender, me.gender, chat_type);
                me.state = UserState::Search;
                me.search_gender = Some(search_gender);
                me.chat_type = Some(chat_type);
                self.store_user(me);
                Ok(None)
            },
        }
    }

    /// Starts a search of `user_id` for a partner of gender `desired_gender`
    /// in category `category`. The answer is the partner when a waiting user
    /// fitted, `None` when `user_id` now waits.
    pub fn begin_search(&mut self, user_id: i64, desired_gender: Gender, category: ChatType) -> (r:
        Result<Option<i64>, Error>)
        requires
            old(self).wf(),
        ensures
            final(self).wf(),
            (final(self)@, r) == old(self)@.begin_search(user_id, desired_gender, category),
            r is Err ==> final(self)@ == old(self)@,
            r != Ok::<Option<i64>, Error>(Some(user_id)),
            old(self)@.consistent() ==> final(self)@.consistent(),
            old(self)@.begin_search_facts(user_id, desired_gender, category),
    {
        proof {
            self@.lemma_begin_search(user_id, desired_gender, category);
        }
        let me = match self.acting_user(user_id) {
            Ok(u) => u,
            Err(e) => {
                return Err(e);
            },
        };
        match me.state {
            UserState::Search | UserState::Dialog => Err(Error::InvalidStateTransition),
            _ => self.pair_or_wait(me, desired_gender, category),
        }
    }

    /// Cancels the search of `user_id`. Where they were not waiting nothing
    /// changes and the call succeeds all the same.
    pub fn cancel_search(&mut self, user_id: i64) -> (r: Result<(), Error>)
        requires
            old(self).wf(),
        ensures
            final(self).wf(),
            (final(self)@, r) == old(self)@.cancel_search(user_id),
            r is Err ==> final(self)@ == old(self)@,
            old(self)@.consistent() ==> final(self)@.consistent(),
            old(self)@.cancel_search_facts(user_id),
    {
        proof {
            self@.lemma_cancel_search(user_id);
        }
        let profile = self.get_user(user_id);
        match &profile {
            Some(u) => if u.is_banned {
                return Err(Error::Banned);
            },
            None => {},
        }
        if !self.is_queued(user_id) {
            return Ok(());
        }
        self.dequeue_user(user_id);
        match profile {
            Some(u) => {
                let mut u = u;
                u.state = UserState::Idle;
                self.store_user(u);
            },
            None => {},
        }
        Ok(())
    }

    fn part(&mut self, me: User, partner: User)
        requires
            old(self).wf(),
            old(self)@.has_user(me.id),
            old(self)@.has_user(partner.id),
            me@ == old(self)@.user(me.id),
            partner@ == old(self)@.user(partner.id),
        ensures
            final(self).wf(),
            final(self)@ == old(self)@.part(me.id, partner.id),
    {
        proof {
            self@.lemma_delete_chat(me.id);
        }
        let _ = self.delete_chat(me.id);
        let mut me = me;
        me.state = UserState::Idle;
        proof {
            self@.lemma_put_user(me@);
        }
        self.store_user(me);
        let mut partner = partner;
        partner.state = UserState::Idle;
        self.store_user(partner);
    }

    /// Ends the dialog of `user_id`. The answer is the partner, who is
    /// `Idle` afterwards like `user_id`. A user who is not talking gets
    /// `InvalidStateTransition`.
    pub fn stop_dialog(&mut self, user_id: i64) -> (r: Result<i64, Error>)
        requires
            old(self).wf(),
        ensures
            final(self).wf(),
            (final(self)@, r) == old(self)@.stop_dialog(user_id),
            r is Err ==> final(self)@ == old(self)@,
            old(self)@.consistent() ==> final(self)@.consistent(),
            old(self)@.stop_dialog_facts(user_id),
    {
        proof {
            self@.lemma_stop_dialog(user_id);
        }
        let me = match self.acting_user(user_id) {
            Ok(u) => u,
            Err(e) => {
                return Err(e);
            },
        };
        match self.get_chat(user_id) {
            None => Err(Error::InvalidStateTransition),
            Some(p) => match self.get_user(p) {
                None => Err(Error::StorageFailure),
                Some(partner) => {
                    self.part(me, partner);
                    Ok(p)
                },
            },
        }
    }

    /// To whom a message of `user_id` is to be delivered: their partner.
    pub fn relay(&self, user_id: i64) -> (r: Result<i64, Error>)
        requires
            self.wf(),
        ensures
            r == self@.relay(user_id),
    {
        match self.acting_user(user_id) {
            Err(e) => Err(e),
            Ok(_) => match self.get_chat(user_id) {
                Some(p) => Ok(p),
                None => Err(Error::InvalidStateTransition),
            },
        }
    }

    /// Records that `user_id` liked (`positive`) or disliked `target_id`.
    /// The answer is whether this rating banned `target_id`.
    pub fn rate(&mut self, user_id: i64, target_id: i64, positive: bool) -> (r: Result<bool, Error>)
        requires
            old(self).wf(),
        ensures
            final(self).wf(),
            (final(self)@, r) == old(self)@.rate(user_id, target_id, positive),
            r is Err ==> final(self)@ == old(self)@,
            old(self)@.consistent() ==> final(self)@.consistent(),
            old(self)@.rate_facts(user_id, target_id, positive),
    {
        proof {
            self@.lemma_rate(user_id, target_id, positive);
        }
        match self.acting_user(user_id) {
            Err(e) => Err(e),
            Ok(_) => if positive {
                match self.increase_reputation(target_id, 1) {
                    Ok(_) => Ok(false),
                    Err(e) => Err(e),
                }
            } else {
                self.decrease_reputation(target_id, 1)
            },
        }
    }
}

impl Database {
    /// Ends the dialog of `user_id`, if they are in one, and searches again
    /// with the filters of their latest search. The answer names the partner
    /// left behind, if there was one, and the new partner, if a waiting user
    /// fitted. A user who is waiting, or has never searched, gets
    /// `InvalidStateTransition`.
    pub fn advance_next(&mut self, user_id: i64) -> (r: Result<NextOutcome, Error>)
        requires
            old(self).wf(),
        ensures
            final(self).wf(),
            (final(self)@, r) == old(self)@.advance_next(user_id),
            r is Err ==> final(self)@ == old(self)@,
            old(self)@.consistent() ==> final(self)@.consistent(),
            old(self)@.advance_next_facts(user_id),
    {
        proof {
            self@.lemma_advance_next(user_id);
        }
        let me = match self.acting_user(user_id) {
            Ok(u) => u,
            Err(e) => {
                return Err(e);
            },
        };
        if me.state == UserState::Search {
            return Err(Error::InvalidStateTransition);
        }
        let (gender, category) = match (me.search_gender, me.chat_type) {
            (Some(g), Some(c)) => (g, c),
            _ => {
                return Err(Error::InvalidStateTransition);
            },
        };
        match self.get_chat(user_id) {
            None => match self.pair_or_wait(me, gender, category) {
                Ok(matched) => Ok(NextOutcome { stopped: None, matched }),
                Err(e) => Err(e),
            },
            Some(p) => {
                let partner = match self.get_user(p) {
                    Some(u) => u,
                    None => {
                        return Err(Error::StorageFailure);
                    },
                };
                proof {
                    self@.lemma_part(user_id, p);
                    self@.part(user_id, p).lemma_pair_or_wait(
                        QueueEntry {
                            user_id,
                            search_gender: gender,
                            searcher_gender: me.gender,
                            chat_type: category,
                        },
                    );
                }
                match self.find_partner(user_id, gender, me.gender, category) {
                    Some(q) => if !self.has_user(q) {
                        return Err(Error::StorageFailure);
                    },
                    None => {},
                }
                let mut idle = me.duplicate();
                idle.state = UserState::Idle;
                self.part(me, partner);
                match self.pair_or_wait(idle, gender, category) {
                    Ok(matched) => Ok(NextOutcome { stopped: Some(p), matched }),
                    Err(e) => Err(e),
                }
            },
        }
    }

    fn editing_user(&self, user_id: i64) -> (r: Result<(), Error>)
        requires
            self.wf(),
        ensures
            r == self@.may_edit(user_id),
    {
        match self.acting_user(user_id) {
            Err(e) => Err(e),
            Ok(u) => match u.state {
                UserState::Search | UserState::Dialog => Err(Error::InvalidStateTransition),
                _ => Ok(()),
            },
        }
    }

    /// Gives `user_id` the nickname they asked for.
    pub fn edit_nickname(&mut self, user_id: i64, nickname: &str) -> (r: Result<(), Error>)
        requires
            old(self).wf(),
        ensures
            final(self).wf(),
            (final(self)@, r) == old(self)@.edit_nickname(user_id, nickname@),
            r is Err ==> final(self)@ == old(self)@,
            old(self)@.consistent() ==> final(self)@.consistent(),
    {
        proof {
            self@.lemma_edits(user_id, nickname@, 0, Gender::Male);
        }
        match self.editing_user(user_id) {
            Err(e) => Err(e),
            Ok(_) => self.update_user_nickname(user_id, nickname),
        }
    }

    /// Gives `user_id` the age they asked for, unless it is under the
    /// minimum.
    pub fn edit_age(&mut self, user_id: i64, age: u8) -> (r: Result<(), Error>)
        requires
            old(self).wf(),
        ensures
            final(self).wf(),
            (final(self)@, r) == old(self)@.edit_age(user_id, age),
            r is Err ==> final(self)@ == old(self)@,
            old(self)@.consistent() ==> final(self)@.consistent(),
    {
        proof {
            self@.lemma_edits(user_id, Seq::empty(), age, Gender::Male);
        }
        match self.editing_user(user_id) {
            Err(e) => Err(e),
            Ok(_) => if age < MIN_AGE {
                Err(Error::InvalidStateTransition)
            } else {
                self.update_user_age(user_id, age)
            },
        }
    }

    /// Gives `user_id` the gender they asked for.
    pub fn edit_gender(&mut self, user_id: i64, gender: Gender) -> (r: Result<(), Error>)
        requires
            old(self).wf(),
        ensures
            final(self).wf(),
            (final(self)@, r) == old(self)@.edit_gender(user_id, gender),
            r is Err ==> final(self)@ == old(self)@,
            old(self)@.consistent() ==> final(self)@.consistent(),
    {
        proof {
            self@.lemma_edits(user_id, Seq::empty(), 0, gender);
        }
        match self.editing_user(user_id) {
            Err(e) => Err(e),
            Ok(_) => self.update_user_gender(user_id, gender),
        }
    }
}

impl DatabaseView {
    /// The dialogue state that fits what the store holds of `id`: talking,
    /// waiting, registered, or unknown.
    pub open spec fn resting_state(self, id: i64) -> State {
        match self.partner(id) {
            Some(partner) => State::Dialog { interlocutor: partner },
            None => if self.queued(id) {
                State::Search
            } else if self.has_user(id) {
                State::Idle
            } else {
                State::Start
            },
        }
    }
}

impl Database {
    /// The dialogue state that fits what the store holds of `user_id`.
    pub fn resting_state(&self, user_id: i64) -> (r: State)
        requires
            self.wf(),
        ensures
            r == self@.resting_state(user_id),
    {
        match self.get_chat(user_id) {
            Some(partner) => State::Dialog { interlocutor: partner },
            None => if self.is_queued(user_id) {
                State::Search
            } else if self.has_user(user_id) {
                State::Idle
            } else {
                State::Start
            },
        }
    }

    /// Whether `user_id` may act at all: `NotRegistered` without a profile,
    /// `Banned` with a banned one.
    pub fn may_act(&self, user_id: i64) -> (r: Result<(), Error>)
        requires
            self.wf(),
        ensures
            r == self@.may_act(user_id),
    {
        match self.acting_user(user_id) {
            Ok(_) => Ok(()),
            Err(e) => Err(e),
        }
    }

    /// Whether `user_id` may edit their profile: they must be allowed to act
    /// and be neither waiting nor talking.
    pub fn may_edit(&self, user_id: i64) -> (r: Result<(), Error>)
        requires
            self.wf(),
        ensures
            r == self@.may_edit(user_id),
    {
        self.editing_user(user_id)
    }
}

impl DatabaseView {
    /// Purging a user: a dialog they are in ends and leaves the partner
    /// `Idle`, a search of theirs is cancelled, and their profile is removed.
    /// Refused when there is no profile.
    pub open spec fn purge(self, id: i64) -> (DatabaseView, Result<(), Error>) {
        if !self.has_user(id) {
            (self, Err(Error::NotRegistered))
        } else {
            let freed = match self.partner(id) {
                Some(partner) => if self.has_user(partner) {
                    self.delete_chat(id).put_user(
                        UserView { state: UserState::Idle, ..self.user(partner) },
                    )
                } else {
                    self.delete_chat(id)
                },
                None => self,
            };
            (freed.dequeue_user(id).delete_user(id).0, Ok(()))
        }
    }
}

impl Database {
    /// Removes `user_id` from the store altogether: their dialog ends and
    /// the partner is `Idle`, their search is cancelled, their profile is
    /// gone. Refused when they have no profile.
    pub fn purge(&mut self, user_id: i64) -> (r: Result<(), Error>)
        requires
            old(self).wf(),
        ensures
            final(self).wf(),
            (final(self)@, r) == old(self)@.purge(user_id),
            r is Err ==> final(self)@ == old(self)@,
            old(self)@.consistent() ==> final(self)@.consistent(),
            old(self)@.purge_facts(user_id),
    {
        proof {
            self@.lemma_purge(user_id);
        }
        if !self.has_user(user_id) {
            return Err(Error::NotRegistered);
        }
        match self.get_chat(user_id) {
            Some(p) => {
                let found = self.get_user(p);
                proof {
                    self@.lemma_delete_chat(user_id);
                }
                let _ = self.delete_chat(user_id);
                match found {
                    Some(partner) => {
                        let mut partner = partner;
                        partner.state = UserState::Idle;
                        self.store_user(partner);
                    },
                    None => {},
                }
            },
            None => {},
        }
        proof {
            self@.lemma_dequeue_user(user_id);
        }
        self.dequeue_user(user_id);
        let _ = self.delete_user_by_id(user_id);
        Ok(())
    }
}

} // verus!
