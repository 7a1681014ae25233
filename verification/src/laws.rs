use crate::commands::stop_step;
use crate::error::Error;
use crate::frames::{lemma_apart, lemma_first_match, lemma_no_match, lemma_profile_id, lemma_wait_at};
use crate::models::chat_type::ChatType;
use crate::models::gender::Gender;
use crate::models::user::{UserView, BAN_REPUTATION};
use crate::notice::{tell, Notice};
use crate::state::State;
use crate::store::{is_first_match, Chat, DatabaseView, QueueEntry};
use crate::user_state::UserState;
use vstd::prelude::*;

verus! {

impl DatabaseView {
    /// A search that nobody waiting fits puts the seeker at the end of the
    /// queue, in `Search`, and leaves everybody else as they were.
    pub proof fn law_search_waits(self, id: i64, desired: Gender, category: ChatType)
        requires
            self.wf(),
            self.consistent(),
            self.ready(id),
            self.nobody_fits(self.request_of(id, desired, category)),
        ensures
            ({
                let (after, r) = self.begin_search(id, desired, category);
                &&& r == Ok::<Option<i64>, Error>(None)
                &&& after.wf()
                &&& after.consistent()
                &&& after.queue == self.queue.push(self.request_of(id, desired, category))
                &&& after.chats == self.chats
                &&& after.user(id).state == UserState::Search
                &&& after.user(id).gender == self.user(id).gender
                &&& forall|x: i64| #[trigger] after.has_user(x) == self.has_user(x)
                &&& forall|x: i64|
                    x != id && self.has_user(x) ==> #[trigger] after.user(x) == self.user(x)
            }),
    {
        let request = self.request_of(id, desired, category);
        lemma_no_match(self.queue, request);
        self.lemma_pair_or_wait(request);
        self.lemma_enqueue_user(request);
        assert(!self.queued(id));
    }

    /// A search that a waiting request fits pairs the seeker with the owner
    /// of the longest-waiting such request: that entry leaves the queue, a
    /// session of the two begins, both are in `Dialog`, and everybody else is
    /// left as they were.
    pub proof fn law_search_pairs(self, id: i64, desired: Gender, category: ChatType, i: int)
        requires
            self.wf(),
            self.consistent(),
            self.ready(id),
            is_first_match(self.queue, self.request_of(id, desired, category), i),
        ensures
            ({
                let (after, r) = self.begin_search(id, desired, category);
                let partner = self.queue[i].user_id;
                &&& r == Ok::<Option<i64>, Error>(Some(partner))
                &&& partner != id
                &&& after.wf()
                &&& after.consistent()
                &&& after.queue == self.queue.remove(i)
                &&& after.chats == self.chats.push(
                    Chat { chat_one: id, chat_two: partner, chat_type: category },
                )
                &&& after.user(id).state == UserState::Dialog
                &&& after.user(partner).state == UserState::Dialog
                &&& after.partner(id) == Some(partner)
                &&& after.partner(partner) == Some(id)
                &&& forall|x: i64|
                    x != id && x != partner ==> #[trigger] after.partner(x) == self.partner(x)
                &&& forall|x: i64| #[trigger] after.has_user(x) == self.has_user(x)
                &&& forall|x: i64|
                    x != id && x != partner && self.has_user(x) ==> #[trigger] after.user(x)
                        == self.user(x)
            }),
    {
        let request = self.request_of(id, desired, category);
        let partner = self.queue[i].user_id;
        lemma_first_match(self.queue, request, i);
        lemma_wait_at(self.queue, i);
        self.lemma_pair_or_wait(request);
        self.lemma_enqueue_user(request);
        assert(!self.queued(id));
        assert(self.queued(partner));
        assert(self.has_user(partner));
    }

    /// Two users whose requests fit each other, with nobody waiting who fits
    /// either: after both have searched, in either order, they are in one
    /// session with each other, both in `Dialog`, and the queue is as it
    /// was. From an empty queue and no sessions that is one session and an
    /// empty queue.
    pub proof fn law_mutual_search(
        self,
        a: i64,
        a_wants: Gender,
        b: i64,
        b_wants: Gender,
        category: ChatType,
    )
        requires
            self.wf(),
            self.consistent(),
            a != b,
            self.ready(a),
            self.ready(b),
            a_wants == self.user(b).gender,
            b_wants == self.user(a).gender,
            self.nobody_fits(self.request_of(a, a_wants, category)),
            self.nobody_fits(self.request_of(b, b_wants, category)),
        ensures
            ({
                let (mid, first) = self.begin_search(a, a_wants, category);
                let (after, second) = mid.begin_search(b, b_wants, category);
                &&& first == Ok::<Option<i64>, Error>(None)
                &&& second == Ok::<Option<i64>, Error>(Some(a))
                &&& after.wf()
                &&& after.consistent()
                &&& after.queue == self.queue
                &&& after.chats == self.chats.push(
                    Chat { chat_one: b, chat_two: a, chat_type: category },
                )
                &&& after.partner(a) == Some(b)
                &&& after.partner(b) == Some(a)
                &&& after.user(a).state == UserState::Dialog
                &&& after.user(b).state == UserState::Dialog
                &&& self.queue.len() == 0 && self.chats.len() == 0 ==> after.queue.len() == 0
                    && after.chats.len() == 1
            }),
    {
        let ra = self.request_of(a, a_wants, category);
        let rb = self.request_of(b, b_wants, category);
        lemma_profile_id(self.users, a);
        lemma_profile_id(self.users, b);
        self.law_search_waits(a, a_wants, category);
        let (mid, first) = self.begin_search(a, a_wants, category);
        assert(mid.user(b) == self.user(b));
        assert(mid.request_of(b, b_wants, category) == rb);
        let n = self.queue.len() as int;
        assert(mid.queue[n] == ra);
        assert(ra.mirrors(rb));
        assert forall|j: int| 0 <= j < n implies !(#[trigger] mid.queue[j]).mirrors(rb) by {
            assert(mid.queue[j] == self.queue[j]);
        }
        assert(is_first_match(mid.queue, rb, n));
        mid.law_search_pairs(b, b_wants, category, n);
        let (after, second) = mid.begin_search(b, b_wants, category);
        assert(after.queue =~= self.queue);
        mid.lemma_pair_or_wait(rb);
    }
}

impl DatabaseView {
    /// Two users nobody waiting fits, and who do not fit each other, search
    /// one after the other: both wait, in that order, and everybody else is
    /// left as they were.
    pub proof fn law_both_wait(self, a: QueueEntry, c: QueueEntry)
        requires
            self.wf(),
            self.consistent(),
            a.user_id != c.user_id,
            self.ready(a.user_id),
            self.ready(c.user_id),
            a == self.request_of(a.user_id, a.search_gender, a.chat_type),
            c == self.request_of(c.user_id, c.search_gender, c.chat_type),
            !a.mirrors(c),
            self.nobody_fits(a),
            self.nobody_fits(c),
        ensures
            ({
                let (s1, r1) = self.begin_search(a.user_id, a.search_gender, a.chat_type);
                let (s2, r2) = s1.begin_search(c.user_id, c.search_gender, c.chat_type);
                &&& r1 == Ok::<Option<i64>, Error>(None)
                &&& r2 == Ok::<Option<i64>, Error>(None)
                &&& s2.wf()
                &&& s2.consistent()
                &&& s2.queue == self.queue.push(a).push(c)
                &&& s2.chats == self.chats
                &&& forall|x: i64| #[trigger] s2.has_user(x) == self.has_user(x)
                &&& forall|x: i64|
                    x != a.user_id && x != c.user_id && self.has_user(x) ==> #[trigger] s2.user(x)
                        == self.user(x)
            }),
    {
        let n = self.queue.len() as int;
        lemma_profile_id(self.users, a.user_id);
        lemma_profile_id(self.users, c.user_id);
        self.law_search_waits(a.user_id, a.search_gender, a.chat_type);
        let (s1, r1) = self.begin_search(a.user_id, a.search_gender, a.chat_type);
        assert(s1.user(c.user_id) == self.user(c.user_id));
        assert forall|j: int| 0 <= j < s1.queue.len() implies !(#[trigger] s1.queue[j]).mirrors(
            c,
        ) by {
            if j < n {
                assert(s1.queue[j] == self.queue[j]);
            }
        }
        s1.law_search_waits(c.user_id, c.search_gender, c.chat_type);
    }

    /// Two users search one after the other, and each finds a waiting
    /// request that fits: the first is paired with the owner of the entry at
    /// `i`, the second with the owner of the entry that then stands at `j`.
    /// Both entries leave the queue and everybody else is left as they were.
    pub proof fn law_two_pairings(self, x: QueueEntry, i: int, y: QueueEntry, j: int)
        requires
            self.wf(),
            self.consistent(),
            x.user_id != y.user_id,
            self.ready(x.user_id),
            self.ready(y.user_id),
            x == self.request_of(x.user_id, x.search_gender, x.chat_type),
            y == self.request_of(y.user_id, y.search_gender, y.chat_type),
            is_first_match(self.queue, x, i),
            is_first_match(self.queue.remove(i), y, j),
        ensures
            ({
                let (s1, r1) = self.begin_search(x.user_id, x.search_gender, x.chat_type);
                let (s2, r2) = s1.begin_search(y.user_id, y.search_gender, y.chat_type);
                let p = self.queue[i].user_id;
                let q = self.queue.remove(i)[j].user_id;
                &&& r1 == Ok::<Option<i64>, Error>(Some(p))
                &&& r2 == Ok::<Option<i64>, Error>(Some(q))
                &&& p != q
                &&& s2.wf()
                &&& s2.consistent()
                &&& s2.queue == self.queue.remove(i).remove(j)
                &&& s2.chats.len() == self.chats.len() + 2
                &&& s2.partner(x.user_id) == Some(p)
                &&& s2.partner(p) == Some(x.user_id)
                &&& s2.partner(y.user_id) == Some(q)
                &&& s2.partner(q) == Some(y.user_id)
            }),
    {
        lemma_profile_id(self.users, x.user_id);
        lemma_profile_id(self.users, y.user_id);
        let p = self.queue[i].user_id;
        lemma_wait_at(self.queue, i);
        lemma_apart(self.queue, self.chats, p);
        assert(p != y.user_id);
        self.law_search_pairs(x.user_id, x.search_gender, x.chat_type, i);
        let (s1, r1) = self.begin_search(x.user_id, x.search_gender, x.chat_type);
        assert(s1.user(y.user_id) == self.user(y.user_id));
        let q = s1.queue[j].user_id;
        lemma_wait_at(s1.queue, j);
        assert(q != p && q != x.user_id) by {
            if q == p || q == x.user_id {
                assert(s1.queued(q));
                assert(s1.in_chat(q));
                lemma_apart(s1.queue, s1.chats, q);
            }
        }
        s1.law_search_pairs(y.user_id, y.search_gender, y.chat_type, j);
    }

    /// Two pairs of users search at the same time: `a` and `b` fit each
    /// other, `c` and `d` fit each other, no request of one pair fits one of
    /// the other, and nobody waiting fits any of the four. With `a` and `c`
    /// first and then `b` and `d` in either order, `b` is paired with `a`
    /// and `d` with `c`: no search crosses the pairs, no waiting entry is
    /// matched twice, and the queue ends as it was. (Every other order of
    /// the four searches is this one with the names exchanged, or two
    /// mutual searches one after the other.)
    pub proof fn law_interleaved_pairs(
        self,
        a: QueueEntry,
        b: QueueEntry,
        c: QueueEntry,
        d: QueueEntry,
        d_last: bool,
    )
        requires
            self.wf(),
            self.consistent(),
            a.user_id != b.user_id && a.user_id != c.user_id && a.user_id != d.user_id,
            b.user_id != c.user_id && b.user_id != d.user_id && c.user_id != d.user_id,
            self.ready(a.user_id) && self.ready(b.user_id) && self.ready(c.user_id) && self.ready(
                d.user_id,
            ),
            a == self.request_of(a.user_id, a.search_gender, a.chat_type),
            b == self.request_of(b.user_id, b.search_gender, b.chat_type),
            c == self.request_of(c.user_id, c.search_gender, c.chat_type),
            d == self.request_of(d.user_id, d.search_gender, d.chat_type),
            a.mirrors(b),
            c.mirrors(d),
            !a.mirrors(c) && !a.mirrors(d) && !b.mirrors(c) && !b.mirrors(d),
            self.nobody_fits(a) && self.nobody_fits(b) && self.nobody_fits(c) && self.nobody_fits(d),
        ensures
            ({
                let (s1, r1) = self.begin_search(a.user_id, a.search_gender, a.chat_type);
                let (s2, r2) = s1.begin_search(c.user_id, c.search_gender, c.chat_type);
                let third = if d_last { b } else { d };
                let fourth = if d_last { d } else { b };
                let (s3, r3) = s2.begin_search(third.user_id, third.search_gender, third.chat_type);
                let (s4, r4) = s3.begin_search(
                    fourth.user_id,
                    fourth.search_gender,
                    fourth.chat_type,
                );
                &&& r1 == Ok::<Option<i64>, Error>(None)
                &&& r2 == Ok::<Option<i64>, Error>(None)
                &&& r3 == Ok::<Option<i64>, Error>(
                    Some(if d_last { a.user_id } else { c.user_id }),
                )
                &&& r4 == Ok::<Option<i64>, Error>(
                    Some(if d_last { c.user_id } else { a.user_id }),
                )
                &&& s4.wf()
                &&& s4.consistent()
                &&& s4.queue == self.queue
                &&& s4.chats.len() == self.chats.len() + 2
                &&& s4.partner(a.user_id) == Some(b.user_id)
                &&& s4.partner(b.user_id) == Some(a.user_id)
                &&& s4.partner(c.user_id) == Some(d.user_id)
                &&& s4.partner(d.user_id) == Some(c.user_id)
            }),
    {
        let n = self.queue.len() as int;
        lemma_profile_id(self.users, b.user_id);
        lemma_profile_id(self.users, d.user_id);
        self.law_both_wait(a, c);
        let (s1, r1) = self.begin_search(a.user_id, a.search_gender, a.chat_type);
        let (s2, r2) = s1.begin_search(c.user_id, c.search_gender, c.chat_type);
        assert(s2.user(b.user_id) == self.user(b.user_id));
        assert(s2.user(d.user_id) == self.user(d.user_id));
        assert(s2.queue[n] == a);
        assert(s2.queue[n + 1] == c);
        assert forall|k: int| 0 <= k < n implies #[trigger] s2.queue[k] == self.queue[k] by {}
        if d_last {
            assert(is_first_match(s2.queue, b, n));
            let rest = s2.queue.remove(n);
            assert(rest[n] == c);
            assert forall|k: int| 0 <= k < n implies !(#[trigger] rest[k]).mirrors(d) by {
                assert(rest[k] == self.queue[k]);
            }
            assert(is_first_match(rest, d, n));
            s2.law_two_pairings(b, n, d, n);
            assert(rest.remove(n) =~= self.queue);
        } else {
            assert(is_first_match(s2.queue, d, n + 1));
            let rest = s2.queue.remove(n + 1);
            assert(rest[n] == a);
            assert forall|k: int| 0 <= k < n implies !(#[trigger] rest[k]).mirrors(b) by {
                assert(rest[k] == self.queue[k]);
            }
            assert(is_first_match(rest, b, n));
            s2.law_two_pairings(d, n + 1, b, n);
            assert(rest.remove(n) =~= self.queue);
        }
    }

    /// Nobody is ever paired with themself: find or enqueue never answers
    /// with the seeker, whatever the queue holds, and where the only
    /// requests that fit the seeker's filters are the seeker's own, the
    /// seeker is not paired at all but waits with the new request.
    pub proof fn law_no_self_match(self, request: QueueEntry)
        requires
            self.wf(),
        ensures
            ({
                let (after, r) = self.enqueue_user(request);
                &&& r != Ok::<Option<i64>, Error>(Some(request.user_id))
                &&& after.partner(request.user_id) != Some(request.user_id)
                &&& forall|i: int|
                    0 <= i < after.chats.len() ==> (#[trigger] after.chats[i]).chat_one
                        != after.chats[i].chat_two
                &&& !self.in_chat(request.user_id) && (forall|i: int|
                    0 <= i < self.queue.len() && (#[trigger] self.queue[i]).user_id
                        != request.user_id ==> !self.queue[i].mirrors(request)) ==> {
                    &&& r == Ok::<Option<i64>, Error>(None)
                    &&& after.queued(request.user_id)
                    &&& after.queue.last() == request
                    &&& after.chats == self.chats
                }
            }),
    {
        self.lemma_enqueue_user(request);
        let (after, r) = self.enqueue_user(request);
        if after.in_chat(request.user_id) {
            crate::frames::lemma_partner_mutual(after.chats, request.user_id);
        }
        if !self.in_chat(request.user_id) && (forall|i: int|
            0 <= i < self.queue.len() && (#[trigger] self.queue[i]).user_id != request.user_id
                ==> !self.queue[i].mirrors(request)) {
            lemma_no_match(self.queue, request);
        }
    }

    /// Cancelling a search twice is cancelling it once, and for a user who
    /// is not banned and not waiting it changes nothing and is no error.
    pub proof fn law_cancel_idempotent(self, id: i64)
        requires
            self.wf(),
        ensures
            ({
                let (once, first) = self.cancel_search(id);
                let (twice, second) = once.cancel_search(id);
                &&& twice == once
                &&& second == first
                &&& !self.queued(id) && !(self.has_user(id) && self.user(id).is_banned) ==> once
                    == self && first == Ok::<(), Error>(())
            }),
    {
        let (once, first) = self.cancel_search(id);
        self.lemma_cancel_search(id);
        if first is Ok && self.queued(id) {
            self.lemma_dequeue_user(id);
            if self.has_user(id) {
                lemma_profile_id(self.users, id);
                self.dequeue_user(id).lemma_put_user(
                    UserView { state: UserState::Idle, ..self.user(id) },
                );
            }
        }
    }

    /// Stopping a dialog sets both users free: the user and the partner are
    /// `Idle` and in no session. A second stop, by either of them, finds no
    /// dialog to end: it is refused and changes nothing.
    pub proof fn law_stop_once(self, id: i64)
        requires
            self.wf(),
            self.may_act(id) is Ok,
            self.partner(id) matches Some(p) && self.has_user(p),
        ensures
            ({
                let (after, r) = self.stop_dialog(id);
                let p = self.partner(id)->Some_0;
                &&& r == Ok::<i64, Error>(p)
                &&& after.user(id).state == UserState::Idle
                &&& after.user(p).state == UserState::Idle
                &&& !after.in_chat(id)
                &&& !after.in_chat(p)
                &&& after.chats.len() == self.chats.len() - 1
                &&& after.stop_dialog(id) == (after, Err::<i64, Error>(Error::InvalidStateTransition))
                &&& !self.user(p).is_banned ==> after.stop_dialog(p) == (
                    after,
                    Err::<i64, Error>(Error::InvalidStateTransition),
                )
            }),
    {
        let p = self.partner(id)->Some_0;
        self.lemma_part(id, p);
        self.lemma_stop_dialog(id);
        lemma_profile_id(self.users, id);
        lemma_profile_id(self.users, p);
    }

    /// A ban comes once and stays. The dislike that takes a reputation to
    /// the threshold, or below it, bans the user and says so; every later
    /// lowering finds them banned, keeps them banned and says nothing new;
    /// and no raising lifts the ban, however far it goes.
    pub proof fn law_ban_is_one_way(self, id: i64, amount: i32, later: i32)
        requires
            self.wf(),
            self.has_user(id),
        ensures
            ({
                let (after, r) = self.decrease_reputation(id, amount);
                r matches Ok(banned_now) ==> {
                    &&& after.has_user(id)
                    &&& after.user(id).reputation == self.user(id).reputation - amount
                    &&& after.user(id).is_banned == (self.user(id).is_banned
                        || after.user(id).reputation <= BAN_REPUTATION)
                    &&& banned_now == (!self.user(id).is_banned && after.user(id).reputation
                        <= BAN_REPUTATION)
                    &&& after.user(id).is_banned ==> {
                        &&& after.decrease_reputation(id, later).1 matches Ok(again) ==> !again
                            && after.decrease_reputation(id, later).0.user(id).is_banned
                        &&& after.increase_reputation(id, later).1 is Ok
                            ==> after.increase_reputation(id, later).0.user(id).is_banned
                    }
                }
            }),
            ({
                let (after, r) = self.increase_reputation(id, amount);
                r is Ok ==> {
                    &&& after.user(id).reputation == self.user(id).reputation + amount
                    &&& after.user(id).is_banned == self.user(id).is_banned
                    &&& r == Ok::<bool, Error>(self.user(id).is_banned)
                }
            }),
    {
        lemma_profile_id(self.users, id);
        let u = self.user(id);
        let (down, r) = self.decrease_reputation(id, amount);
        if r is Ok {
            let lowered = (u.reputation - amount) as i32;
            let banned = u.is_banned || lowered <= BAN_REPUTATION;
            self.lemma_put_user(UserView { reputation: lowered, is_banned: banned, ..u });
            let v = down.user(id);
            if down.decrease_reputation(id, later).1 is Ok {
                let lower = (v.reputation - later) as i32;
                down.lemma_put_user(
                    UserView {
                        reputation: lower,
                        is_banned: v.is_banned || lower <= BAN_REPUTATION,
                        ..v
                    },
                );
            }
            if down.increase_reputation(id, later).1 is Ok {
                down.lemma_put_user(UserView { reputation: (v.reputation + later) as i32, ..v });
            }
        }
        let (up, q) = self.increase_reputation(id, amount);
        if q is Ok {
            self.lemma_put_user(UserView { reputation: (u.reputation + amount) as i32, ..u });
        }
    }
}

impl DatabaseView {
    /// One dialog ends with one pair of notifications. The stop that ends
    /// it tells the user who left and the partner left behind; a second
    /// stop, by either of them, only tells its sender that they are not in
    /// a dialog, and changes nothing.
    pub proof fn law_one_teardown(self, id: i64)
        requires
            self.wf(),
            self.may_act(id) is Ok,
            self.partner(id) matches Some(p) && self.has_user(p) && !self.user(p).is_banned,
        ensures
            ({
                let p = self.partner(id)->Some_0;
                let (after, state, out) = stop_step(self, id);
                &&& state == Some(State::Idle)
                &&& out == seq![
                    tell(id, Notice::DialogStopped { partner: p }),
                    tell(p, Notice::PartnerLeft { partner: id }),
                ]
                &&& after.user(p).state == UserState::Idle
                &&& stop_step(after, id) == (
                    after,
                    Some(State::Idle),
                    seq![tell(id, Notice::NotInDialog)],
                )
                &&& stop_step(after, p) == (
                    after,
                    Some(State::Idle),
                    seq![tell(p, Notice::NotInDialog)],
                )
            }),
    {
        let p = self.partner(id)->Some_0;
        self.law_stop_once(id);
        self.lemma_part(id, p);
        lemma_apart(self.queue, self.chats, id);
        lemma_apart(self.queue, self.chats, p);
        crate::frames::lemma_partner_mutual(self.chats, id);
    }
}

} // verus!
