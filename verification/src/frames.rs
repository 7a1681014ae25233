use crate::store::{
    apart, disjoint_chats, distinct_entries, distinct_profiles, has_match, has_profile,
    is_first_match, match_index, partner_in, profile_index, talk_index, talks, wait_index, waits,
    Chat, DatabaseView, QueueEntry,
};
use crate::models::user::UserView;
use vstd::prelude::*;

verus! {

/// The place of a profile is settled by its id.
pub proof fn lemma_profile_at(users: Seq<UserView>, i: int)
    requires
        distinct_profiles(users),
        0 <= i < users.len(),
    ensures
        has_profile(users, users[i].id),
        profile_index(users, users[i].id) == i,
{
    let id = users[i].id;
    let j = profile_index(users, id);
    assert(0 <= j < users.len() && users[j].id == id);
    if j < i {
        assert(users[j].id != users[i].id);
    } else if i < j {
        assert(users[i].id != users[j].id);
    }
}

/// The profile found for an id carries that id.
pub proof fn lemma_profile_id(users: Seq<UserView>, id: i64)
    requires
        has_profile(users, id),
    ensures
        0 <= profile_index(users, id) < users.len(),
        users[profile_index(users, id)].id == id,
{
}

/// The place of a queue entry is settled by its user.
pub proof fn lemma_wait_at(queue: Seq<QueueEntry>, i: int)
    requires
        distinct_entries(queue),
        0 <= i < queue.len(),
    ensures
        waits(queue, queue[i].user_id),
        wait_index(queue, queue[i].user_id) == i,
{
    let id = queue[i].user_id;
    let j = wait_index(queue, id);
    assert(0 <= j < queue.len() && queue[j].user_id == id);
    if j < i {
        assert(queue[j].user_id != queue[i].user_id);
    } else if i < j {
        assert(queue[i].user_id != queue[j].user_id);
    }
}

/// The place of a session is settled by either participant.
pub proof fn lemma_talk_at(chats: Seq<Chat>, i: int, id: i64)
    requires
        disjoint_chats(chats),
        0 <= i < chats.len(),
        chats[i].involves(id),
    ensures
        talks(chats, id),
        talk_index(chats, id) == i,
        partner_in(chats, id) == Some(chats[i].other(id)),
{
    let j = talk_index(chats, id);
    assert(0 <= j < chats.len() && chats[j].involves(id));
    if j < i {
        assert(!chats[i].involves(chats[j].chat_one));
        assert(!chats[i].involves(chats[j].chat_two));
    } else if i < j {
        assert(!chats[j].involves(chats[i].chat_one));
        assert(!chats[j].involves(chats[i].chat_two));
    }
}

/// Partners are mutual, and never oneself.
pub proof fn lemma_partner_mutual(chats: Seq<Chat>, id: i64)
    requires
        disjoint_chats(chats),
        talks(chats, id),
    ensures
        partner_in(chats, id) matches Some(p) && p != id && partner_in(chats, p) == Some(id),
{
    let i = talk_index(chats, id);
    let p = chats[i].other(id);
    lemma_talk_at(chats, i, p);
}

/// Replacing the profile of a user: that profile changes, no other does, and
/// the same users have profiles.
pub proof fn lemma_profiles_update(users: Seq<UserView>, u: UserView)
    requires
        distinct_profiles(users),
        has_profile(users, u.id),
    ensures
        ({
            let after = users.update(profile_index(users, u.id), u);
            &&& distinct_profiles(after)
            &&& after[profile_index(after, u.id)] == u
            &&& forall|x: i64| #[trigger] has_profile(after, x) == has_profile(users, x)
            &&& forall|x: i64|
                x != u.id && has_profile(users, x) ==> after[#[trigger] profile_index(after, x)]
                    == users[profile_index(users, x)]
        }),
{
    let i = profile_index(users, u.id);
    let after = users.update(i, u);
    assert(after[i] == u);
    assert forall|k: int| 0 <= k < after.len() implies (#[trigger] after[k]).id == users[k].id by {}
    assert(distinct_profiles(after));
    lemma_profile_at(after, i);
    assert forall|x: i64| #[trigger] has_profile(after, x) == has_profile(users, x) by {
        if has_profile(after, x) {
            let k = profile_index(after, x);
            assert(users[k].id == x);
        }
        if has_profile(users, x) {
            let k = profile_index(users, x);
            assert(after[k].id == x);
        }
    }
    assert forall|x: i64| x != u.id && has_profile(users, x) implies after[#[trigger] profile_index(
        after,
        x,
    )] == users[profile_index(users, x)] by {
        let k = profile_index(users, x);
        assert(after[k] == users[k]);
        lemma_profile_at(after, k);
    }
}

/// Adding the profile of a user who had none: it is there, and no other
/// profile changes.
pub proof fn lemma_profiles_push(users: Seq<UserView>, u: UserView)
    requires
        distinct_profiles(users),
        !has_profile(users, u.id),
    ensures
        ({
            let after = users.push(u);
            &&& distinct_profiles(after)
            &&& after[profile_index(after, u.id)] == u
            &&& forall|x: i64|
                #[trigger] has_profile(after, x) == (has_profile(users, x) || x == u.id)
            &&& forall|x: i64|
                has_profile(users, x) ==> after[#[trigger] profile_index(after, x)]
                    == users[profile_index(users, x)]
        }),
{
    let after = users.push(u);
    let n = users.len() as int;
    assert(after[n] == u);
    assert forall|k: int| 0 <= k < n implies after[k] == users[k] by {}
    assert forall|k: int, j: int| 0 <= k < j < after.len() implies after[k].id != after[j].id by {
        if j == n {
            assert(users[k].id != u.id);
        }
    }
    lemma_profile_at(after, n);
    assert forall|x: i64| #[trigger]
        has_profile(after, x) == (has_profile(users, x) || x == u.id) by {
        if has_profile(after, x) {
            let k = profile_index(after, x);
            if k < n {
                assert(users[k].id == x);
            }
        }
        if has_profile(users, x) {
            let k = profile_index(users, x);
            assert(after[k].id == x);
        }
    }
    assert forall|x: i64| has_profile(users, x) implies after[#[trigger] profile_index(after, x)]
        == users[profile_index(users, x)] by {
        let k = profile_index(users, x);
        assert(after[k] == users[k]);
        lemma_profile_at(after, k);
    }
}

/// Removing the profile of a user: it is gone, and no other profile changes.
pub proof fn lemma_profiles_remove(users: Seq<UserView>, id: i64)
    requires
        distinct_profiles(users),
        has_profile(users, id),
    ensures
        ({
            let after = users.remove(profile_index(users, id));
            &&& distinct_profiles(after)
            &&& !has_profile(after, id)
            &&& forall|x: i64| x != id ==> #[trigger] has_profile(after, x) == has_profile(users, x)
            &&& forall|x: i64|
                x != id && has_profile(users, x) ==> after[#[trigger] profile_index(after, x)]
                    == users[profile_index(users, x)]
        }),
{
    let i = profile_index(users, id);
    let after = users.remove(i);
    assert forall|k: int| 0 <= k < after.len() implies after[k] == users[if k < i {
        k
    } else {
        k + 1
    }] by {}
    assert(distinct_profiles(after));
    if has_profile(after, id) {
        let k = profile_index(after, id);
        let k0 = if k < i { k } else { k + 1 };
        assert(users[k0].id == id);
        if k0 < i {
            assert(users[k0].id != users[i].id);
        } else {
            assert(users[i].id != users[k0].id);
        }
    }
    assert forall|x: i64| x != id implies #[trigger] has_profile(after, x) == has_profile(
        users,
        x,
    ) by {
        if has_profile(users, x) {
            let k = profile_index(users, x);
            let k1 = if k < i { k } else { k - 1 };
            assert(after[k1].id == x);
        }
        if has_profile(after, x) {
            let k = profile_index(after, x);
            let k0 = if k < i { k } else { k + 1 };
            assert(users[k0].id == x);
        }
    }
    assert forall|x: i64| x != id && has_profile(users, x) implies after[#[trigger] profile_index(
        after,
        x,
    )] == users[profile_index(users, x)] by {
        let k = profile_index(users, x);
        let k1 = if k < i { k } else { k - 1 };
        assert(after[k1] == users[k]);
        lemma_profile_at(after, k1);
    }
}

/// Taking the entry at `i` out of a queue: its user no longer waits, and
/// nothing changes for anybody else.
pub proof fn lemma_entries_remove(queue: Seq<QueueEntry>, chats: Seq<Chat>, i: int)
    requires
        distinct_entries(queue),
        0 <= i < queue.len(),
    ensures
        distinct_entries(queue.remove(i)),
        apart(queue, chats) ==> apart(queue.remove(i), chats),
        !waits(queue.remove(i), queue[i].user_id),
        forall|x: i64|
            x != queue[i].user_id ==> #[trigger] waits(queue.remove(i), x) == waits(queue, x),
{
    let after = queue.remove(i);
    let gone = queue[i].user_id;
    assert forall|k: int| 0 <= k < after.len() implies after[k] == queue[if k < i {
        k
    } else {
        k + 1
    }] by {}
    assert(distinct_entries(after));
    if waits(after, gone) {
        let k = wait_index(after, gone);
        let k0 = if k < i { k } else { k + 1 };
        assert(queue[k0].user_id == gone);
        if k0 < i {
            assert(queue[k0].user_id != queue[i].user_id);
        } else {
            assert(queue[i].user_id != queue[k0].user_id);
        }
    }
    assert forall|x: i64| x != gone implies #[trigger] waits(after, x) == waits(queue, x) by {
        if waits(queue, x) {
            let k = wait_index(queue, x);
            let k1 = if k < i { k } else { k - 1 };
            assert(after[k1].user_id == x);
        }
        if waits(after, x) {
            let k = wait_index(after, x);
            let k0 = if k < i { k } else { k + 1 };
            assert(queue[k0].user_id == x);
        }
    }
}

/// Putting a user who does not wait at the end of a queue: they wait, and
/// nothing changes for anybody else.
pub proof fn lemma_entries_push(queue: Seq<QueueEntry>, chats: Seq<Chat>, e: QueueEntry)
    requires
        distinct_entries(queue),
        !waits(queue, e.user_id),
    ensures
        distinct_entries(queue.push(e)),
        apart(queue, chats) && !talks(chats, e.user_id) ==> apart(queue.push(e), chats),
        waits(queue.push(e), e.user_id),
        forall|x: i64| x != e.user_id ==> #[trigger] waits(queue.push(e), x) == waits(queue, x),
{
    let after = queue.push(e);
    let n = queue.len() as int;
    assert(after[n] == e);
    assert forall|k: int| 0 <= k < n implies after[k] == queue[k] by {}
    assert forall|k: int, j: int| 0 <= k < j < after.len() implies after[k].user_id
        != after[j].user_id by {
        if j == n {
            assert(queue[k].user_id != e.user_id);
        }
    }
    if apart(queue, chats) && !talks(chats, e.user_id) {
        assert forall|k: int, j: int|
            0 <= k < after.len() && 0 <= j < chats.len() implies !chats[j].involves(
            after[k].user_id,
        ) by {
            if k == n {
                assert(!chats[j].involves(e.user_id));
            }
        }
    }
    assert forall|x: i64| x != e.user_id implies #[trigger] waits(after, x) == waits(queue, x) by {
        if waits(queue, x) {
            let k = wait_index(queue, x);
            assert(after[k].user_id == x);
        }
        if waits(after, x) {
            let k = wait_index(after, x);
            assert(queue[k].user_id == x);
        }
    }
}

/// Ending the session at `i`: its two users no longer talk, and nothing
/// changes for anybody else.
pub proof fn lemma_chats_remove(queue: Seq<QueueEntry>, chats: Seq<Chat>, i: int)
    requires
        disjoint_chats(chats),
        0 <= i < chats.len(),
    ensures
        disjoint_chats(chats.remove(i)),
        apart(queue, chats) ==> apart(queue, chats.remove(i)),
        forall|x: i64|
            #[trigger] talks(chats.remove(i), x) == (talks(chats, x) && !chats[i].involves(x)),
        forall|x: i64|
            !chats[i].involves(x) ==> #[trigger] partner_in(chats.remove(i), x) == partner_in(
                chats,
                x,
            ),
{
    let after = chats.remove(i);
    assert forall|k: int| 0 <= k < after.len() implies after[k] == chats[if k < i {
        k
    } else {
        k + 1
    }] by {}
    assert(disjoint_chats(after));
    assert forall|x: i64| #[trigger]
        talks(after, x) == (talks(chats, x) && !chats[i].involves(x)) by {
        if talks(after, x) {
            let k = talk_index(after, x);
            let k0 = if k < i { k } else { k + 1 };
            assert(chats[k0].involves(x));
            lemma_talk_at(chats, k0, x);
            if chats[i].involves(x) {
                lemma_talk_at(chats, i, x);
            }
        }
        if talks(chats, x) && !chats[i].involves(x) {
            let k = talk_index(chats, x);
            let k1 = if k < i { k } else { k - 1 };
            assert(after[k1].involves(x));
        }
    }
    assert forall|x: i64| !chats[i].involves(x) implies #[trigger] partner_in(after, x)
        == partner_in(chats, x) by {
        if talks(chats, x) {
            let k = talk_index(chats, x);
            let k1 = if k < i { k } else { k - 1 };
            assert(after[k1] == chats[k]);
            lemma_talk_at(after, k1, x);
        }
    }
}

/// Starting a session between two different users who do not talk: they are
/// each other's partner, and nothing changes for anybody else.
pub proof fn lemma_chats_push(queue: Seq<QueueEntry>, chats: Seq<Chat>, c: Chat)
    requires
        disjoint_chats(chats),
        c.chat_one != c.chat_two,
        !talks(chats, c.chat_one),
        !talks(chats, c.chat_two),
    ensures
        disjoint_chats(chats.push(c)),
        apart(queue, chats) && !waits(queue, c.chat_one) && !waits(queue, c.chat_two) ==> apart(
            queue,
            chats.push(c),
        ),
        partner_in(chats.push(c), c.chat_one) == Some(c.chat_two),
        partner_in(chats.push(c), c.chat_two) == Some(c.chat_one),
        forall|x: i64| #[trigger] talks(chats.push(c), x) == (talks(chats, x) || c.involves(x)),
        forall|x: i64|
            !c.involves(x) ==> #[trigger] partner_in(chats.push(c), x) == partner_in(chats, x),
{
    let after = chats.push(c);
    let n = chats.len() as int;
    assert(after[n] == c);
    assert forall|k: int| 0 <= k < n implies after[k] == chats[k] by {}
    assert forall|k: int, j: int| 0 <= k < j < after.len() implies !after[j].involves(
        after[k].chat_one,
    ) && !after[j].involves(after[k].chat_two) by {
        if j == n {
            assert(chats[k].involves(chats[k].chat_one));
            assert(chats[k].involves(chats[k].chat_two));
        }
    }
    if apart(queue, chats) && !waits(queue, c.chat_one) && !waits(queue, c.chat_two) {
        assert forall|k: int, j: int|
            0 <= k < queue.len() && 0 <= j < after.len() implies !after[j].involves(
            queue[k].user_id,
        ) by {
            if j == n {
                assert(queue[k].user_id != c.chat_one);
                assert(queue[k].user_id != c.chat_two);
            }
        }
    }
    assert(disjoint_chats(after));
    lemma_talk_at(after, n, c.chat_one);
    lemma_talk_at(after, n, c.chat_two);
    assert forall|x: i64| #[trigger] talks(after, x) == (talks(chats, x) || c.involves(x)) by {
        if talks(after, x) {
            let k = talk_index(after, x);
            if k < n {
                assert(chats[k].involves(x));
            }
        }
        if talks(chats, x) {
            let k = talk_index(chats, x);
            assert(after[k].involves(x));
        }
        if c.involves(x) {
            assert(after[n].involves(x));
        }
    }
    assert forall|x: i64| !c.involves(x) implies #[trigger] partner_in(after, x) == partner_in(
        chats,
        x,
    ) by {
        if talks(chats, x) {
            let k = talk_index(chats, x);
            assert(after[k] == chats[k]);
            lemma_talk_at(after, k, x);
        }
    }
}

/// Nobody waits while talking.
pub proof fn lemma_apart(queue: Seq<QueueEntry>, chats: Seq<Chat>, id: i64)
    requires
        apart(queue, chats),
    ensures
        !(waits(queue, id) && talks(chats, id)),
{
    if waits(queue, id) && talks(chats, id) {
        let i = wait_index(queue, id);
        let j = talk_index(chats, id);
        assert(!chats[j].involves(queue[i].user_id));
    }
}

/// There is at most one first match.
pub proof fn lemma_first_match(queue: Seq<QueueEntry>, request: QueueEntry, i: int)
    requires
        is_first_match(queue, request, i),
    ensures
        has_match(queue, request),
        match_index(queue, request) == i,
{
    let j = match_index(queue, request);
    assert(is_first_match(queue, request, j));
    if j < i {
        assert(!queue[j].mirrors(request));
    } else if i < j {
        assert(!queue[i].mirrors(request));
    }
}

/// Where an entry fits, there is a first one that does.
pub proof fn lemma_some_match(queue: Seq<QueueEntry>, request: QueueEntry, i: int)
    requires
        0 <= i < queue.len(),
        queue[i].mirrors(request),
    ensures
        has_match(queue, request),
        match_index(queue, request) <= i,
    decreases i,
{
    if exists|j: int| 0 <= j < i && (#[trigger] queue[j]).mirrors(request) {
        let j = choose|j: int| 0 <= j < i && (#[trigger] queue[j]).mirrors(request);
        lemma_some_match(queue, request, j);
    } else {
        assert(is_first_match(queue, request, i));
        lemma_first_match(queue, request, i);
    }
}

/// Where nothing fits, there is no match.
pub proof fn lemma_no_match(queue: Seq<QueueEntry>, request: QueueEntry)
    requires
        forall|j: int| 0 <= j < queue.len() ==> !(#[trigger] queue[j]).mirrors(request),
    ensures
        !has_match(queue, request),
{
}

impl DatabaseView {
    /// Whether `after` differs from this store in the profile of `id` at
    /// most: the same users have profiles, every other profile is as it
    /// was, and so are the queue and the sessions.
    pub open spec fn only_profile_changes(self, after: DatabaseView, id: i64) -> bool {
        &&& after.wf()
        &&& after.queue == self.queue
        &&& after.chats == self.chats
        &&& forall|x: i64| #[trigger] after.has_user(x) == self.has_user(x)
        &&& forall|x: i64| x != id && self.has_user(x) ==> #[trigger] after.user(x) == self.user(x)
    }

    /// What replacing a profile changes: that profile, and nothing else.
    pub open spec fn put_user_facts(self, u: UserView) -> bool {
        self.has_user(u.id) ==> self.put_user(u).user(u.id) == u && self.only_profile_changes(
            self.put_user(u),
            u.id,
        )
    }

    /// `put_user_facts` holds of every store that obeys the rules.
    pub proof fn lemma_put_user(self, u: UserView)
        requires
            self.wf(),
        ensures
            self.put_user_facts(u),
            self.only_profile_changes(self, u.id),
    {
        if self.has_user(u.id) {
            lemma_profiles_update(self.users, u);
        }
    }

    /// What adding a profile changes: it succeeds exactly for a user
    /// without one; then the new profile is there, and nothing else changes.
    pub open spec fn add_user_facts(self, u: UserView) -> bool {
        let (after, r) = self.add_user(u);
        &&& after.wf()
        &&& r is Ok <==> !self.has_user(u.id)
        &&& r is Err ==> after == self
        &&& r is Ok ==> after.user(u.id) == u
        &&& after.queue == self.queue
        &&& after.chats == self.chats
        &&& forall|x: i64| #[trigger] after.has_user(x) == (self.has_user(x) || (r is Ok && x == u.id))
        &&& forall|x: i64| self.has_user(x) ==> #[trigger] after.user(x) == self.user(x)
    }

    /// `add_user_facts` holds of every store that obeys the rules.
    pub proof fn lemma_add_user(self, u: UserView)
        requires
            self.wf(),
        ensures
            self.add_user_facts(u),
    {
        if !self.has_user(u.id) {
            lemma_profiles_push(self.users, u);
        }
    }

    /// What removing a profile changes: it succeeds exactly for a user with
    /// one; then that profile is gone, and nothing else changes.
    pub open spec fn delete_user_facts(self, id: i64) -> bool {
        let (after, r) = self.delete_user(id);
        &&& after.wf()
        &&& r is Ok <==> self.has_user(id)
        &&& r is Err ==> after == self
        &&& !after.has_user(id)
        &&& after.queue == self.queue
        &&& after.chats == self.chats
        &&& forall|x: i64| x != id ==> #[trigger] after.has_user(x) == self.has_user(x)
        &&& forall|x: i64| x != id && self.has_user(x) ==> #[trigger] after.user(x) == self.user(x)
    }

    /// `delete_user_facts` holds of every store that obeys the rules.
    pub proof fn lemma_delete_user(self, id: i64)
        requires
            self.wf(),
        ensures
            self.delete_user_facts(id),
    {
        if self.has_user(id) {
            lemma_profiles_remove(self.users, id);
        }
    }

    /// What taking a user out of the queue changes: they no longer wait, the
    /// queue is shorter by their entry, and nothing changes for anybody
    /// else.
    pub open spec fn dequeue_user_facts(self, id: i64) -> bool {
        let after = self.dequeue_user(id);
        &&& after.wf()
        &&& after.users == self.users
        &&& after.chats == self.chats
        &&& !after.queued(id)
        &&& after.queue.len() == self.queue.len() - if self.queued(id) {
            1int
        } else {
            0int
        }
        &&& forall|x: i64| x != id ==> #[trigger] after.queued(x) == self.queued(x)
    }

    /// `dequeue_user_facts` holds of every store that obeys the rules.
    pub proof fn lemma_dequeue_user(self, id: i64)
        requires
            self.wf(),
        ensures
            self.dequeue_user_facts(id),
    {
        if self.queued(id) {
            lemma_entries_remove(self.queue, self.chats, wait_index(self.queue, id));
        }
    }

    /// What ending the session of a user changes: they and their partner no
    /// longer talk, and nothing changes for anybody else.
    pub open spec fn delete_chat_facts(self, id: i64) -> bool {
        let after = self.delete_chat(id);
        &&& after.wf()
        &&& after.users == self.users
        &&& after.queue == self.queue
        &&& !after.in_chat(id)
        &&& after.chats.len() == self.chats.len() - if self.in_chat(id) {
            1int
        } else {
            0int
        }
        &&& self.partner(id) matches Some(p) ==> p != id && !after.in_chat(p) && self.partner(p)
            == Some(id)
        &&& forall|x: i64|
            x != id && self.partner(id) != Some(x) ==> #[trigger] after.in_chat(x) == self.in_chat(
                x,
            )
        &&& forall|x: i64|
            x != id && self.partner(id) != Some(x) ==> #[trigger] after.partner(x) == self.partner(
                x,
            )
    }

    /// `delete_chat_facts` holds of every store that obeys the rules.
    pub proof fn lemma_delete_chat(self, id: i64)
        requires
            self.wf(),
        ensures
            self.delete_chat_facts(id),
    {
        if self.in_chat(id) {
            let i = talk_index(self.chats, id);
            lemma_chats_remove(self.queue, self.chats, i);
            lemma_partner_mutual(self.chats, id);
        }
    }

    /// What starting a session changes: it succeeds exactly for two
    /// different users who neither wait nor talk; then they are each other's
    /// partner, and nothing changes for anybody else.
    pub open spec fn create_chat_facts(self, a: i64, b: i64, chat_type: crate::models::chat_type::ChatType) -> bool {
        let (after, r) = self.create_chat(a, b, chat_type);
        &&& after.wf()
        &&& r is Ok <==> a != b && !self.in_chat(a) && !self.in_chat(b) && !self.queued(a)
            && !self.queued(b)
        &&& r is Err ==> after == self
        &&& r is Ok ==> after.partner(a) == Some(b) && after.partner(b) == Some(a)
        &&& after.users == self.users
        &&& after.queue == self.queue
        &&& forall|x: i64| x != a && x != b ==> #[trigger] after.in_chat(x) == self.in_chat(x)
        &&& forall|x: i64| x != a && x != b ==> #[trigger] after.partner(x) == self.partner(x)
    }

    /// `create_chat_facts` holds of every store that obeys the rules.
    pub proof fn lemma_create_chat(self, a: i64, b: i64, chat_type: crate::models::chat_type::ChatType)
        requires
            self.wf(),
        ensures
            self.create_chat_facts(a, b, chat_type),
    {
        if self.create_chat(a, b, chat_type).1 is Ok {
            lemma_chats_push(self.queue, self.chats, Chat { chat_one: a, chat_two: b, chat_type });
        }
    }

    /// What putting an entry into the queue as it is changes: it succeeds
    /// exactly for a user who neither waits nor talks; then they wait at the
    /// end of the queue, and nothing changes for anybody else.
    pub open spec fn insert_entry_facts(self, entry: QueueEntry) -> bool {
        let (after, r) = self.insert_entry(entry);
        &&& after.wf()
        &&& r is Ok <==> !self.queued(entry.user_id) && !self.in_chat(entry.user_id)
        &&& r is Err ==> after == self
        &&& r is Ok ==> after.queued(entry.user_id) && after.queue.last() == entry
        &&& after.users == self.users
        &&& after.chats == self.chats
        &&& forall|x: i64| x != entry.user_id ==> #[trigger] after.queued(x) == self.queued(x)
    }

    /// `insert_entry_facts` holds of every store that obeys the rules.
    pub proof fn lemma_insert_entry(self, entry: QueueEntry)
        requires
            self.wf(),
        ensures
            self.insert_entry_facts(entry),
    {
        if self.insert_entry(entry).1 is Ok {
            lemma_entries_push(self.queue, self.chats, entry);
        }
    }

    /// What find-or-enqueue changes. It is refused exactly for a seeker who
    /// talks. A match is never the seeker; their entry fitted the request;
    /// the two are each other's partner and neither waits any more. Without
    /// a match, which is when nothing in the queue fits, the seeker waits at
    /// the end of the queue. Nothing changes for anybody else, nor for any
    /// profile.
    pub open spec fn enqueue_user_facts(self, request: QueueEntry) -> bool {
        let (after, r) = self.enqueue_user(request);
        let me = request.user_id;
        &&& after.wf()
        &&& after.users == self.users
        &&& r is Err <==> self.in_chat(me)
        &&& r is Err ==> after == self
        &&& r is Ok ==> r->Ok_0 == self.candidate(request)
        &&& r matches Ok(Some(p)) ==> {
            &&& p != me
            &&& self.queued(p)
            &&& !self.in_chat(p)
            &&& self.queue[wait_index(self.queue, p)].mirrors(request)
            &&& after.partner(me) == Some(p)
            &&& after.partner(p) == Some(me)
            &&& after.chats == self.chats.push(
                Chat { chat_one: me, chat_two: p, chat_type: request.chat_type },
            )
            &&& !after.queued(me)
            &&& !after.queued(p)
            &&& forall|x: i64| x != me && x != p ==> #[trigger] after.queued(x) == self.queued(x)
            &&& forall|x: i64| x != me && x != p ==> #[trigger] after.in_chat(x) == self.in_chat(x)
            &&& forall|x: i64| x != me && x != p ==> #[trigger] after.partner(x) == self.partner(x)
        }
        &&& r matches Ok(None) ==> {
            &&& after.queued(me)
            &&& after.queue.last() == request
            &&& after.queue.len() == self.queue.len() + if self.queued(me) {
                0int
            } else {
                1int
            }
            &&& after.chats == self.chats
            &&& forall|i: int|
                0 <= i < self.queue.len() ==> !(#[trigger] self.queue[i]).mirrors(request)
            &&& forall|x: i64| x != me ==> #[trigger] after.queued(x) == self.queued(x)
        }
        &&& forall|i: int|
            !self.in_chat(me) && is_first_match(self.queue, request, i) ==> r == Ok::<
                Option<i64>,
                crate::error::Error,
            >(Some(self.queue[i].user_id))
    }

    /// `enqueue_user_facts` holds of every store that obeys the rules.
    pub proof fn lemma_enqueue_user(self, request: QueueEntry)
        requires
            self.wf(),
        ensures
            self.enqueue_user_facts(request),
    {
        let me = request.user_id;
        if !self.in_chat(me) {
            if has_match(self.queue, request) {
                let i = match_index(self.queue, request);
                assert(is_first_match(self.queue, request, i));
                let p = self.queue[i].user_id;
                lemma_wait_at(self.queue, i);
                assert(!self.in_chat(p)) by {
                    if self.in_chat(p) {
                        let j = talk_index(self.chats, p);
                        assert(!self.chats[j].involves(self.queue[i].user_id));
                    }
                }
                self.lemma_dequeue_user(p);
                let one = self.dequeue_user(p);
                one.lemma_dequeue_user(me);
                let two = one.dequeue_user(me);
                let c = Chat { chat_one: me, chat_two: p, chat_type: request.chat_type };
                lemma_chats_push(two.queue, two.chats, c);
                assert forall|k: int| is_first_match(self.queue, request, k) implies k == i by {
                    lemma_first_match(self.queue, request, k);
                }
            } else {
                self.lemma_dequeue_user(me);
                let mid = self.dequeue_user(me);
                lemma_entries_push(mid.queue, mid.chats, request);
                assert forall|i: int| 0 <= i < self.queue.len() implies !(
                #[trigger] self.queue[i]).mirrors(request) by {
                    if self.queue[i].mirrors(request) {
                        lemma_some_match(self.queue, request, i);
                    }
                }
            }
        }
    }
}

} // verus!
