use crate::models::chat_type::ChatType;
use crate::models::gender::Gender;
use crate::models::user::{UserView, MIN_AGE};
use crate::frames::{lemma_apart, lemma_partner_mutual, lemma_profile_id};
use crate::store::{is_first_match, wait_index, Chat, DatabaseView, QueueEntry};
use crate::user_state::UserState;
use vstd::prelude::*;

verus! {

impl DatabaseView {
    /// What registration changes. It succeeds exactly for a user without a
    /// profile who is of the minimum age or older; then the fresh profile is
    /// there. Nothing else changes, and agreement between profiles, queue
    /// and sessions is kept.
    pub open spec fn register_facts(
        self,
        id: i64,
        age: u8,
        nickname: Seq<char>,
        gender: Gender,
    ) -> bool {
        let (after, r) = self.register(id, age, nickname, gender);
        &&& after.wf()
        &&& r is Ok <==> !self.has_user(id) && age >= MIN_AGE
        &&& r is Err ==> after == self
        &&& r is Ok ==> after.user(id) == UserView::fresh(id, age, nickname, gender)
        &&& after.queue == self.queue
        &&& after.chats == self.chats
        &&& forall|x: i64| #[trigger] after.has_user(x) == (self.has_user(x) || (r is Ok && x == id))
        &&& forall|x: i64| self.has_user(x) ==> #[trigger] after.user(x) == self.user(x)
        &&& self.consistent() ==> after.consistent()
    }

    /// `register_facts` holds of every store that obeys the rules.
    pub proof fn lemma_register(self, id: i64, age: u8, nickname: Seq<char>, gender: Gender)
        requires
            self.wf(),
        ensures
            self.register_facts(id, age, nickname, gender),
    {
        let (after, r) = self.register(id, age, nickname, gender);
        if r is Ok {
            self.lemma_add_user(UserView::fresh(id, age, nickname, gender));
        }
    }

    /// What find or enqueue with profiles kept in step changes. It is
    /// refused exactly for a seeker who talks and for a partner without a
    /// profile. A match is the owner of the longest-waiting entry that fits,
    /// never the seeker; the two are each other's partner, both in `Dialog`,
    /// and neither waits any more. Without a match, which is when nothing in
    /// the queue fits, the seeker waits at the end of the queue, in
    /// `Search`. Either way the seeker's filters are remembered, and nothing
    /// changes for anybody else.
    pub open spec fn pair_or_wait_facts(self, request: QueueEntry) -> bool {
        let (after, r) = self.pair_or_wait(request);
        let me = request.user_id;
        &&& after.wf()
        &&& forall|x: i64| #[trigger] after.has_user(x) == self.has_user(x)
        &&& r is Err ==> after == self
        &&& r is Err <==> self.in_chat(me) || (self.candidate(request) matches Some(p)
            && !self.has_user(p))
        &&& r is Ok ==> r->Ok_0 == self.candidate(request)
        &&& forall|i: int|
            r is Ok && is_first_match(self.queue, request, i) ==> r->Ok_0 == Some(
                self.queue[i].user_id,
            )
        &&& r matches Ok(Some(p)) ==> {
            &&& p != me
            &&& self.queued(p)
            &&& self.queue[wait_index(self.queue, p)].mirrors(request)
            &&& after.partner(me) == Some(p)
            &&& after.partner(p) == Some(me)
            &&& after.chats == self.chats.push(
                Chat { chat_one: me, chat_two: p, chat_type: request.chat_type },
            )
            &&& after.queue == self.dequeue_user(p).dequeue_user(me).queue
            &&& !after.queued(me)
            &&& !after.queued(p)
            &&& after.user(me) == self.searched(request, UserState::Dialog)
            &&& after.user(p) == UserView { state: UserState::Dialog, ..self.user(p) }
            &&& forall|x: i64| x != me && x != p ==> #[trigger] after.queued(x) == self.queued(x)
            &&& forall|x: i64| x != me && x != p ==> #[trigger] after.in_chat(x) == self.in_chat(x)
            &&& forall|x: i64| x != me && x != p ==> #[trigger] after.partner(x) == self.partner(x)
            &&& forall|x: i64|
                x != me && x != p && self.has_user(x) ==> #[trigger] after.user(x) == self.user(x)
        }
        &&& r matches Ok(None) ==> {
            &&& after.queued(me)
            &&& after.queue == self.dequeue_user(me).queue.push(request)
            &&& after.queue.last() == request
            &&& after.chats == self.chats
            &&& after.user(me) == self.searched(request, UserState::Search)
            &&& forall|i: int|
                0 <= i < self.queue.len() ==> !(#[trigger] self.queue[i]).mirrors(request)
            &&& forall|x: i64| x != me ==> #[trigger] after.queued(x) == self.queued(x)
            &&& forall|x: i64| x != me && self.has_user(x) ==> #[trigger] after.user(x) == self.user(x)
        }
        &&& self.consistent() && self.user(me).state.is_free() ==> after.consistent()
    }

    /// `pair_or_wait_facts` holds of every store that obeys the rules.
    pub proof fn lemma_pair_or_wait(self, request: QueueEntry)
        requires
            self.wf(),
            self.has_user(request.user_id),
        ensures
            self.pair_or_wait_facts(request),
    {
        let (after, r) = self.pair_or_wait(request);
        let me = request.user_id;
        self.lemma_enqueue_user(request);
        let one = self.enqueue_user(request).0;
        if !self.in_chat(me) {
            match self.candidate(request) {
                Some(p) => {
                    if self.has_user(p) {
                        let mine = self.searched(request, UserState::Dialog);
                        let theirs = UserView { state: UserState::Dialog, ..self.user(p) };
                        assert(one.has_user(me));
                        one.lemma_put_user(mine);
                        let two = one.put_user(mine);
                        assert(two.has_user(p));
                        assert(theirs.id == p) by {
                            lemma_profile_id(self.users, p);
                        }
                        assert(mine.id == me) by {
                            lemma_profile_id(self.users, me);
                        }
                        two.lemma_put_user(theirs);
                        assert(after == two.put_user(theirs));
                        assert(after.partner(me) == Some(p));
                    }
                },
                None => {
                    let mine = self.searched(request, UserState::Search);
                    assert(mine.id == me) by {
                        lemma_profile_id(self.users, me);
                    }
                    assert(one.has_user(me));
                    one.lemma_put_user(mine);
                    assert(after == one.put_user(mine));
                    assert(after.queue.last() == request);
                },
            }
        }
    }

    /// What starting a search changes. It succeeds only for a user who is
    /// ready; for such a user it does what find or enqueue with profiles
    /// kept in step does with their request. It never pairs a user with
    /// themself.
    pub open spec fn begin_search_facts(
        self,
        id: i64,
        desired: Gender,
        category: ChatType,
    ) -> bool {
        let (after, r) = self.begin_search(id, desired, category);
        &&& after.wf()
        &&& r is Err ==> after == self
        &&& r is Ok ==> self.ready(id)
        &&& r != Ok::<Option<i64>, crate::error::Error>(Some(id))
        &&& self.ready(id) ==> self.pair_or_wait_facts(self.request_of(id, desired, category))
        &&& self.consistent() ==> after.consistent()
    }

    /// `begin_search_facts` holds of every store that obeys the rules.
    pub proof fn lemma_begin_search(self, id: i64, desired: Gender, category: ChatType)
        requires
            self.wf(),
        ensures
            self.begin_search_facts(id, desired, category),
    {
        if self.may_act(id) is Ok && self.user(id).state.is_free() {
            self.lemma_pair_or_wait(
                QueueEntry {
                    user_id: id,
                    search_gender: desired,
                    searcher_gender: self.user(id).gender,
                    chat_type: category,
                },
            );
        }
    }

    /// What cancelling a search changes. It is refused exactly for a banned
    /// user. Otherwise the user does not wait afterwards; if they did, they
    /// are `Idle` now; if they did not, nothing changes. Nothing changes for
    /// anybody else.
    pub open spec fn cancel_search_facts(self, id: i64) -> bool {
        let (after, r) = self.cancel_search(id);
        &&& after.wf()
        &&& r is Err ==> after == self
        &&& r is Err <==> self.has_user(id) && self.user(id).is_banned
        &&& r is Ok ==> !after.queued(id)
        &&& r is Ok && self.queued(id) && self.has_user(id) ==> after.user(id) == UserView {
            state: UserState::Idle,
            ..self.user(id)
        }
        &&& !self.queued(id) ==> after == self
        &&& after.chats == self.chats
        &&& forall|x: i64| #[trigger] after.has_user(x) == self.has_user(x)
        &&& forall|x: i64| x != id ==> #[trigger] after.queued(x) == self.queued(x)
        &&& forall|x: i64| x != id && self.has_user(x) ==> #[trigger] after.user(x) == self.user(x)
        &&& self.consistent() ==> after.consistent()
    }

    /// `cancel_search_facts` holds of every store that obeys the rules.
    pub proof fn lemma_cancel_search(self, id: i64)
        requires
            self.wf(),
        ensures
            self.cancel_search_facts(id),
    {
        let (after, r) = self.cancel_search(id);
        if r is Ok && self.queued(id) {
            self.lemma_dequeue_user(id);
            let one = self.dequeue_user(id);
            if self.has_user(id) {
                let mine = UserView { state: UserState::Idle, ..self.user(id) };
                lemma_profile_id(self.users, id);
                assert(one.has_user(id));
                one.lemma_put_user(mine);
                if self.consistent() {
                    assert(!self.in_chat(id));
                    assert(after.consistent());
                }
            }
        }
    }

    /// What ending a session and idling both users changes: neither talks
    /// any more, both are `Idle`, and nothing changes for anybody else nor in
    /// the queue.
    pub open spec fn part_facts(self, id: i64, partner: i64) -> bool {
        let after = self.part(id, partner);
        &&& after.wf()
        &&& after.queue == self.queue
        &&& partner != id
        &&& !after.in_chat(id)
        &&& !after.in_chat(partner)
        &&& after.user(id) == UserView { state: UserState::Idle, ..self.user(id) }
        &&& after.user(partner) == UserView { state: UserState::Idle, ..self.user(partner) }
        &&& forall|x: i64| after.has_user(x) == self.has_user(x)
        &&& forall|x: i64| after.queued(x) == self.queued(x)
        &&& forall|x: i64|
            x != id && x != partner ==> after.in_chat(x) == self.in_chat(x)
                && after.partner(x) == self.partner(x)
        &&& forall|x: i64|
            x != id && x != partner && self.has_user(x) ==> after.user(x) == self.user(x)
        &&& self.consistent() ==> after.consistent()
    }

    /// `part_facts` holds of every store that obeys the rules.
    pub proof fn lemma_part(self, id: i64, partner: i64)
        requires
            self.wf(),
            self.has_user(id),
            self.has_user(partner),
            self.partner(id) == Some(partner),
        ensures
            self.part_facts(id, partner),
    {
        let after = self.part(id, partner);
        self.lemma_delete_chat(id);
        let one = self.delete_chat(id);
        let mine = UserView { state: UserState::Idle, ..self.user(id) };
        let theirs = UserView { state: UserState::Idle, ..self.user(partner) };
        lemma_profile_id(self.users, id);
        lemma_profile_id(self.users, partner);
        assert(one.has_user(id));
        one.lemma_put_user(mine);
        let two = one.put_user(mine);
        assert(two.has_user(partner));
        two.lemma_put_user(theirs);
        if self.consistent() {
            assert(!self.queued(id));
            assert(!self.queued(partner));
            assert(after.consistent());
        }
    }

    /// What stopping a dialog changes. It succeeds exactly for a user who
    /// may act and talks to a partner with a profile; then the session is
    /// gone and both users are `Idle`.
    pub open spec fn stop_dialog_facts(self, id: i64) -> bool {
        let (after, r) = self.stop_dialog(id);
        &&& after.wf()
        &&& r is Err ==> after == self
        &&& r is Ok <==> self.may_act(id) is Ok && (self.partner(id) matches Some(p)
            && self.has_user(p))
        &&& r matches Ok(p) ==> {
            &&& self.partner(id) == Some(p)
            &&& p != id
            &&& self.part_facts(id, p)
        }
        &&& self.consistent() ==> after.consistent()
    }

    /// `stop_dialog_facts` holds of every store that obeys the rules.
    pub proof fn lemma_stop_dialog(self, id: i64)
        requires
            self.wf(),
        ensures
            self.stop_dialog_facts(id),
    {
        let (after, r) = self.stop_dialog(id);
        if r is Ok {
            self.lemma_part(id, r->Ok_0);
        }
    }

    /// What rating changes. It succeeds exactly for a rater who may act and
    /// a target with a profile whose reputation has room; then the
    /// reputation of the target moves by one, a dislike at the threshold
    /// bans them, and nothing else changes.
    pub open spec fn rate_facts(self, id: i64, target: i64, positive: bool) -> bool {
        let (after, r) = self.rate(id, target, positive);
        &&& after.wf()
        &&& r is Err ==> after == self
        &&& r is Ok <==> self.may_act(id) is Ok && self.has_user(target) && if positive {
            self.user(target).reputation < i32::MAX
        } else {
            self.user(target).reputation > i32::MIN
        }
        &&& r is Ok ==> {
            &&& after.has_user(target)
            &&& after.user(target).reputation == self.user(target).reputation + if positive {
                1int
            } else {
                -1int
            }
            &&& after.user(target).is_banned == (self.user(target).is_banned || (!positive
                && after.user(target).reputation <= crate::models::user::BAN_REPUTATION))
            &&& r->Ok_0 == (after.user(target).is_banned && !self.user(target).is_banned)
            &&& after.user(target).state == self.user(target).state
        }
        &&& after.queue == self.queue
        &&& after.chats == self.chats
        &&& forall|x: i64| #[trigger] after.has_user(x) == self.has_user(x)
        &&& forall|x: i64|
            x != target && self.has_user(x) ==> #[trigger] after.user(x) == self.user(x)
        &&& self.consistent() ==> after.consistent()
    }

    /// `rate_facts` holds of every store that obeys the rules.
    pub proof fn lemma_rate(self, id: i64, target: i64, positive: bool)
        requires
            self.wf(),
        ensures
            self.rate_facts(id, target, positive),
    {
        let (after, r) = self.rate(id, target, positive);
        if r is Ok {
            lemma_profile_id(self.users, target);
            let u = self.user(target);
            if positive {
                self.lemma_put_user(UserView { reputation: (u.reputation + 1) as i32, ..u });
            } else {
                let lowered = (u.reputation - 1) as i32;
                let banned = u.is_banned || lowered <= crate::models::user::BAN_REPUTATION;
                self.lemma_put_user(UserView { reputation: lowered, is_banned: banned, ..u });
            }
        }
    }
}

impl DatabaseView {
    /// What moving on to the next partner changes. On success the partner
    /// left behind, if there was one, is free and `Idle`, and the search that
    /// follows does what find or enqueue with profiles kept in step does in
    /// the store as it is after the parting.
    pub open spec fn advance_next_facts(self, id: i64) -> bool {
        let (after, r) = self.advance_next(id);
        &&& after.wf()
        &&& r is Err ==> after == self
        &&& self.has_user(id) ==> (self.partner(id) matches Some(p) ==> self.has_user(p)
            ==> self.part_facts(id, p))
        &&& r matches Ok(o) ==> {
            &&& self.may_act(id) is Ok
            &&& o.stopped == self.partner(id)
            &&& self.left(id).pair_or_wait_facts(self.next_request(id))
            &&& (after, Ok::<Option<i64>, crate::error::Error>(o.matched)) == self.left(
                id,
            ).pair_or_wait(self.next_request(id))
            &&& o.matched != Some(id)
            &&& o.matched == after.partner(id)
            &&& o.matched is None ==> after.queued(id)
            &&& o.stopped matches Some(p) ==> p != id && o.matched != Some(p) && !after.in_chat(p)
                && after.has_user(p) && after.user(p).state == UserState::Idle
        }
        &&& self.consistent() ==> after.consistent()
    }

    /// `advance_next_facts` holds of every store that obeys the rules.
    pub proof fn lemma_advance_next(self, id: i64)
        requires
            self.wf(),
        ensures
            self.advance_next_facts(id),
    {
        let (after, r) = self.advance_next(id);
        if self.has_user(id) {
            lemma_profile_id(self.users, id);
            match self.partner(id) {
                Some(p) => {
                    if self.has_user(p) {
                        self.lemma_part(id, p);
                        lemma_partner_mutual(self.chats, id);
                        lemma_apart(self.queue, self.chats, p);
                    }
                },
                None => {},
            }
            if r is Ok {
                self.left(id).lemma_pair_or_wait(self.next_request(id));
            }
        }
    }

    /// What editing a profile changes: on success the field named, and
    /// nothing else.
    pub proof fn lemma_edits(self, id: i64, nickname: Seq<char>, age: u8, gender: Gender)
        requires
            self.wf(),
        ensures
            ({
                let (after, r) = self.edit_nickname(id, nickname);
                &&& after.wf()
                &&& r is Err ==> after == self
                &&& r is Ok ==> after.user(id) == UserView { nickname, ..self.user(id) }
                &&& self.consistent() ==> after.consistent()
            }),
            ({
                let (after, r) = self.edit_age(id, age);
                &&& after.wf()
                &&& r is Err ==> after == self
                &&& r is Ok ==> after.user(id) == UserView { age, ..self.user(id) }
                &&& self.consistent() ==> after.consistent()
            }),
            ({
                let (after, r) = self.edit_gender(id, gender);
                &&& after.wf()
                &&& r is Err ==> after == self
                &&& r is Ok ==> after.user(id) == UserView { gender, ..self.user(id) }
                &&& self.consistent() ==> after.consistent()
            }),
    {
        if self.may_edit(id) is Ok {
            lemma_profile_id(self.users, id);
            self.lemma_put_user(UserView { nickname, ..self.user(id) });
            self.lemma_put_user(UserView { age, ..self.user(id) });
            self.lemma_put_user(UserView { gender, ..self.user(id) });
        }
    }
}

impl DatabaseView {
    /// What purging a user changes: on success nothing is left of them, a
    /// partner they had is free, and nothing changes for anybody else.
    pub open spec fn purge_facts(self, id: i64) -> bool {
        let (after, r) = self.purge(id);
        &&& after.wf()
        &&& r is Err ==> after == self
        &&& r is Ok ==> {
            &&& !after.has_user(id)
            &&& !after.queued(id)
            &&& !after.in_chat(id)
            &&& self.partner(id) matches Some(p) ==> !after.in_chat(p) && (self.has_user(p)
                ==> after.user(p).state == UserState::Idle)
        }
        &&& self.consistent() ==> after.consistent()
    }

    /// `purge_facts` holds of every store that obeys the rules.
    pub proof fn lemma_purge(self, id: i64)
        requires
            self.wf(),
        ensures
            self.purge_facts(id),
    {
        if self.has_user(id) {
            let freed = match self.partner(id) {
                Some(partner) => if self.has_user(partner) {
                    self.delete_chat(id).put_user(
                        UserView { state: UserState::Idle, ..self.user(partner) },
                    )
                } else {
                    self.delete_chat(id)
                },
                None => self,
            };
            self.lemma_delete_chat(id);
            match self.partner(id) {
                Some(p) => {
                    if self.has_user(p) {
                        lemma_profile_id(self.users, p);
                        self.delete_chat(id).lemma_put_user(
                            UserView { state: UserState::Idle, ..self.user(p) },
                        );
                        lemma_apart(self.queue, self.chats, p);
                    }
                },
                None => {},
            }
            assert(freed.wf());
            freed.lemma_dequeue_user(id);
            let cut = freed.dequeue_user(id);
            assert(cut.has_user(id));
            cut.lemma_delete_user(id);
        }
    }

    /// Setting or lifting a ban changes that flag and nothing else.
    pub open spec fn set_banned_facts(self, id: i64, banned: bool) -> bool {
        let (after, r) = self.set_banned(id, banned);
        &&& after.wf()
        &&& r is Err ==> after == self
        &&& r is Ok ==> after.user(id) == UserView { is_banned: banned, ..self.user(id) }
        &&& self.consistent() ==> after.consistent()
    }

    /// `set_banned_facts` holds of every store that obeys the rules.
    pub proof fn lemma_set_banned(self, id: i64, banned: bool)
        requires
            self.wf(),
        ensures
            self.set_banned_facts(id, banned),
    {
        if self.has_user(id) {
            lemma_profile_id(self.users, id);
            self.lemma_put_user(UserView { is_banned: banned, ..self.user(id) });
        }
    }
}

} // verus!
