use vstd::prelude::*;

use crate::commons::chassis::ServiceError;
use crate::models::discussion_queue::{Feed, NewFeed, PendingFeed};
use crate::models::discussions::{Discussion, DiscussionCriteria, NewDiscussion, NewDiscussionRequest};
use crate::models::users::UserCriteria;
use crate::store::{
    has_discussion, same_directory, same_enrollments, same_events, same_mails, unchanged, Store,
};

verus! {

/// The discussion row that persisting the given new message writes.
pub open spec fn discussion_row(n: NewDiscussion, now: i64) -> Discussion {
    Discussion {
        id: n.id,
        enrollment_id: n.enrollment_id,
        created_by_id: n.created_by_id,
        description: n.description,
        created_at: now,
        updated_at: now,
    }
}

/// Whether a feed row addresses the given user for the given thread.
pub open spec fn feed_addressed(f: Feed, user: Seq<char>, enr: Seq<char>) -> bool {
    f.to_id@ == user && f.enrollment_id@ == enr
}

/// The same feed row with its pending mark cleared.
pub open spec fn feed_read(f: Feed) -> Feed {
    Feed { is_pending: false, ..f }
}

/// One feed row after the read sweep of a reply: cleared where it
/// addresses the author for the thread, untouched otherwise.
pub open spec fn read_swept(f: Feed, user: Seq<char>, enr: Seq<char>) -> Feed {
    if feed_addressed(f, user, enr) {
        feed_read(f)
    } else {
        f
    }
}

/// How many feed rows await the user's response, over every thread.
pub open spec fn pending_count(feeds: Seq<Feed>, user: Seq<char>) -> int
    decreases feeds.len(),
{
    if feeds.len() == 0 {
        0
    } else {
        pending_count(feeds.drop_last(), user) + (
        if feeds.last().is_pending && feeds.last().to_id@ == user {
            1int
        } else {
            0int
        })
    }
}

/// How many feed rows await the user's response within one thread.
pub open spec fn pending_count_in(feeds: Seq<Feed>, user: Seq<char>, enr: Seq<char>) -> int
    decreases feeds.len(),
{
    if feeds.len() == 0 {
        0
    } else {
        pending_count_in(feeds.drop_last(), user, enr) + (
        if feeds.last().is_pending && feed_addressed(feeds.last(), user, enr) {
            1int
        } else {
            0int
        })
    }
}

/// A reply clears the author's whole backlog for the thread: once no
/// pending row addresses the author there, the author's pending count
/// restricted to that thread is zero.
pub proof fn lemma_reply_clears_thread(feeds: Seq<Feed>, user: Seq<char>, enr: Seq<char>)
    requires
        forall|i: int|
            0 <= i < feeds.len() && feed_addressed(#[trigger] feeds[i], user, enr)
                ==> !feeds[i].is_pending,
    ensures
        pending_count_in(feeds, user, enr) == 0,
    decreases feeds.len(),
{
    if feeds.len() > 0 {
        assert(feeds.last() == feeds[feeds.len() - 1]);
        assert(forall|i: int|
            0 <= i < feeds.drop_last().len() ==> #[trigger] feeds.drop_last()[i] == feeds[i]);
        lemma_reply_clears_thread(feeds.drop_last(), user, enr);
    }
}

/// Everything posting one discussion message writes in one transaction:
/// the message row, one pending feed row addressed to the other party,
/// and the author's own backlog for the thread marked read.
pub open spec fn discussion_posted(
    a: Store,
    b: Store,
    request: NewDiscussionRequest,
    d: Discussion,
    now: i64,
) -> bool {
    &&& b.discussions@ == a.discussions@.push(d)
    &&& d.id@.len() == 36
    &&& d.enrollment_id@ == request.enrollment_id@
    &&& d.created_by_id@ == request.created_by_id@
    &&& d.description@ == request.description@
    &&& d.created_at == now
    // the prior rows, swept for the author
    &&& b.feeds@.len() == a.feeds@.len() + 1
    &&& forall|i: int|
        0 <= i < a.feeds@.len() ==> b.feeds@[i] == read_swept(
            a.feeds@[i],
            request.created_by_id@,
            request.enrollment_id@,
        )
    // the fresh indicator for the other party
    &&& b.feeds@.last().id@ == d.id@
    &&& b.feeds@.last().discussion_id@ == d.id@
    &&& b.feeds@.last().to_id@ == request.to_id@
    &&& b.feeds@.last().enrollment_id@ == request.enrollment_id@
    &&& b.feeds@.last().created_at == now
    &&& b.feeds@.last().program_id@ == request.program_id@
    &&& b.feeds@.last().program_name@ == request.program_name@
    &&& b.feeds@.last().coach_id@ == request.coach_id@
    &&& b.feeds@.last().coach_name@ == request.coach_name@
    &&& b.feeds@.last().member_id@ == request.member_id@
    &&& b.feeds@.last().member_name@ == request.member_name@
    &&& b.feeds@.last().is_pending == (request.to_id@ != request.created_by_id@)
    // the author's backlog for the thread is gone
    &&& forall|i: int|
        0 <= i < b.feeds@.len() && feed_addressed(
            #[trigger] b.feeds@[i],
            request.created_by_id@,
            request.enrollment_id@,
        ) ==> !b.feeds@[i].is_pending
}

/// Posts one discussion message: the row, one pending feed for the other
/// party, and the author's backlog for the thread marked read, all in
/// one transaction.
pub fn create_new_discussion(store: &mut Store, request: &NewDiscussionRequest, now: i64) -> (r:
    Result<Discussion, ServiceError>)
    requires
        old(store).wf(),
    ensures
        final(store).wf(),
        same_directory(*old(store), *final(store)),
        same_enrollments(*old(store), *final(store)),
        same_events(*old(store), *final(store)),
        same_mails(*old(store), *final(store)),
        r is Err ==> (unchanged(*old(store), *final(store)) && r == Err::<
            Discussion,
            ServiceError,
        >(ServiceError::PersistenceError)),
        r matches Ok(d) ==> discussion_posted(*old(store), *final(store), *request, d, now),
{
    let new_discussion = NewDiscussion::from(request);
    if discussion_id_taken(store, new_discussion.id.as_str()) {
        return Err(ServiceError::PersistenceError);
    }
    let row = Discussion {
        id: new_discussion.id,
        enrollment_id: new_discussion.enrollment_id,
        created_by_id: new_discussion.created_by_id,
        description: new_discussion.description,
        created_at: now,
        updated_at: now,
    };
    let discussion = row.duplicate();
    store.discussions.push(row);
    let new_feed = NewFeed::from(request, discussion.id.as_str());
    store.feeds.push(
        Feed {
            id: new_feed.id,
            to_id: new_feed.to_id,
            discussion_id: new_feed.discussion_id,
            created_at: now,
            is_pending: true,
            enrollment_id: new_feed.enrollment_id,
            program_id: new_feed.program_id,
            program_name: new_feed.program_name,
            coach_id: new_feed.coach_id,
            coach_name: new_feed.coach_name,
            member_id: new_feed.member_id,
            member_name: new_feed.member_name,
        },
    );
    mark_as_read(store, request.created_by_id.as_str(), request.enrollment_id.as_str());
    proof {
        assert forall|a2: int, b2: int|
            0 <= a2 < b2 < store.discussions@.len() implies store.discussions@[a2].id@
            != store.discussions@[b2].id@ by {
            if b2 == store.discussions@.len() - 1 {
                assert(store.discussions@[a2] == old(store).discussions@[a2]);
            }
        }
        assert(discussion_posted(*old(store), *store, *request, discussion, now));
    }
    Ok(discussion)
}

fn discussion_id_taken(store: &Store, id: &str) -> (r: bool)
    ensures
        r == has_discussion(store.discussions@, id@),
{
    let key: String = id.to_owned();
    let mut i: usize = 0;
    while i < store.discussions.len()
        invariant
            0 <= i <= store.discussions@.len(),
            key@ == id@,
            forall|j: int| 0 <= j < i ==> store.discussions@[j].id@ != id@,
        decreases store.discussions@.len() - i,
    {
        if store.discussions[i].id.eq(&key) {
            return true;
        }
        i = i + 1;
    }
    false
}

/// Marks the user's whole pending backlog for one thread as read: a
/// reply says the author has seen everything prior in that thread.
fn mark_as_read(store: &mut Store, to_user_id: &str, for_enrollment_id: &str)
    ensures
        final(store).feeds@.len() == old(store).feeds@.len(),
        forall|i: int|
            0 <= i < old(store).feeds@.len() ==> final(store).feeds@[i] == read_swept(
                old(store).feeds@[i],
                to_user_id@,
                for_enrollment_id@,
            ),
        final(store).users@ == old(store).users@,
        final(store).programs@ == old(store).programs@,
        final(store).enrollments@ == old(store).enrollments@,
        final(store).sessions@ == old(store).sessions@,
        final(store).conferences@ == old(store).conferences@,
        final(store).session_users@ == old(store).session_users@,
        final(store).correspondences@ == old(store).correspondences@,
        final(store).mail_recipients@ == old(store).mail_recipients@,
        final(store).discussions@ == old(store).discussions@,
{
    let ukey: String = to_user_id.to_owned();
    let ekey: String = for_enrollment_id.to_owned();
    let mut i: usize = 0;
    while i < store.feeds.len()
        invariant
            0 <= i <= store.feeds@.len(),
            ukey@ == to_user_id@,
            ekey@ == for_enrollment_id@,
            store.feeds@.len() == old(store).feeds@.len(),
            store.users@ == old(store).users@,
            store.programs@ == old(store).programs@,
            store.enrollments@ == old(store).enrollments@,
            store.sessions@ == old(store).sessions@,
            store.conferences@ == old(store).conferences@,
            store.session_users@ == old(store).session_users@,
            store.correspondences@ == old(store).correspondences@,
            store.mail_recipients@ == old(store).mail_recipients@,
            store.discussions@ == old(store).discussions@,
            forall|j: int|
                0 <= j < i ==> store.feeds@[j] == read_swept(
                    old(store).feeds@[j],
                    to_user_id@,
                    for_enrollment_id@,
                ),
            forall|j: int| i <= j < store.feeds@.len() ==> store.feeds@[j] == old(store).feeds@[j],
        decreases store.feeds@.len() - i,
    {
        if store.feeds[i].is_pending && store.feeds[i].to_id.eq(&ukey)
            && store.feeds[i].enrollment_id.eq(&ekey) {
            let cur = store.feeds[i].duplicate();
            let upd = Feed { is_pending: false, ..cur };
            store.feeds.set(i, upd);
        }
        i = i + 1;
    }
}

/// Whether the row stands somewhere in the table.
pub open spec fn discussion_present(s: Seq<Discussion>, d: Discussion) -> bool {
    exists|i: int| 0 <= i < s.len() && s[i] == d
}

/// Every message of one enrollment's thread, in stored order.
pub fn get_discussions(store: &Store, criteria: &DiscussionCriteria) -> (r: Vec<Discussion>)
    ensures
        r@.len() <= store.discussions@.len(),
        forall|k: int|
            0 <= k < r@.len() ==> discussion_present(store.discussions@, #[trigger] r@[k])
                && r@[k].enrollment_id@ == criteria.enrollment_id@,
        forall|i: int|
            0 <= i < store.discussions@.len() && store.discussions@[i].enrollment_id@
                == criteria.enrollment_id@ ==> exists|k: int|
                0 <= k < r@.len() && r@[k] == #[trigger] store.discussions@[i],
{
    let key: String = criteria.enrollment_id.clone();
    let mut out: Vec<Discussion> = Vec::new();
    let mut i: usize = 0;
    while i < store.discussions.len()
        invariant
            0 <= i <= store.discussions@.len(),
            key@ == criteria.enrollment_id@,
            out@.len() <= i,
            forall|k: int|
                0 <= k < out@.len() ==> discussion_present(store.discussions@, #[trigger] out@[k])
                    && out@[k].enrollment_id@ == criteria.enrollment_id@,
            forall|ii: int|
                0 <= ii < i && store.discussions@[ii].enrollment_id@ == criteria.enrollment_id@
                    ==> exists|k: int|
                    0 <= k < out@.len() && out@[k] == #[trigger] store.discussions@[ii],
        decreases store.discussions@.len() - i,
    {
        let ghost prev = out@;
        if store.discussions[i].enrollment_id.eq(&key) {
            let d = store.discussions[i].duplicate();
            proof {
                assert(store.discussions@[i as int] == d);
            }
            out.push(d);
            proof {
                assert(out@[out@.len() - 1] == store.discussions@[i as int]);
            }
        }
        proof {
            assert forall|ii: int|
                0 <= ii < i + 1 && store.discussions@[ii].enrollment_id@
                    == criteria.enrollment_id@ implies exists|k: int|
                0 <= k < out@.len() && out@[k] == #[trigger] store.discussions@[ii] by {
                if ii < i {
                    let k = choose|k: int| 0 <= k < prev.len() && prev[k] == store.discussions@[ii];
                    assert(out@[k] == store.discussions@[ii]);
                } else {
                    assert(out@[out@.len() - 1] == store.discussions@[ii]);
                }
            }
        }
        i = i + 1;
    }
    out
}

/// How many feed rows await the user's response.
pub fn get_pending_feed_count(store: &Store, user_id: &str) -> (r: Result<i64, ServiceError>)
    requires
        store.feeds@.len() < 0x7fff_ffff_ffff_ffff,
    ensures
        r matches Ok(n) && n == pending_count(store.feeds@, user_id@),
{
    let key: String = user_id.to_owned();
    let mut count: i64 = 0;
    let mut i: usize = 0;
    while i < store.feeds.len()
        invariant
            0 <= i <= store.feeds@.len(),
            store.feeds@.len() < 0x7fff_ffff_ffff_ffff,
            key@ == user_id@,
            0 <= count <= i,
            count == pending_count(store.feeds@.take(i as int), user_id@),
        decreases store.feeds@.len() - i,
    {
        if store.feeds[i].is_pending && store.feeds[i].to_id.eq(&key) {
            count = count + 1;
        }
        proof {
            assert(store.feeds@.take(i + 1).drop_last() =~= store.feeds@.take(i as int));
            assert(store.feeds@.take(i + 1).last() == store.feeds@[i as int]);
        }
        i = i + 1;
    }
    proof {
        assert(store.feeds@.take(store.feeds@.len() as int) =~= store.feeds@);
    }
    Ok(count)
}

/// Whether a feed row is a pending indicator for the user with a message
/// and author to join.
pub open spec fn joinable_pending(store: Store, f: Feed, user: Seq<char>) -> bool {
    &&& f.is_pending
    &&& f.to_id@ == user
    &&& exists|i: int|
        0 <= i < store.discussions@.len() && store.discussions@[i].id@ == f.discussion_id@
            && has_discussion_author(store, store.discussions@[i])
}

/// Whether the author of the message is a known user.
pub open spec fn has_discussion_author(store: Store, d: Discussion) -> bool {
    exists|j: int| 0 <= j < store.users@.len() && store.users@[j].id@ == d.created_by_id@
}

/// Whether one returned pending feed is a faithful join of store rows.
pub open spec fn pending_feed_joined(store: Store, p: PendingFeed, user: Seq<char>) -> bool {
    &&& exists|i: int| 0 <= i < store.feeds@.len() && store.feeds@[i] == p.feed
    &&& p.feed.is_pending
    &&& p.feed.to_id@ == user
    &&& exists|i: int|
        0 <= i < store.discussions@.len() && store.discussions@[i].id@ == p.feed.discussion_id@
            && store.discussions@[i].description@ == p.description@ && exists|j: int|
            0 <= j < store.users@.len() && store.users@[j] == p.user && p.user.id@
                == store.discussions@[i].created_by_id@
}

/// Whether one stored feed row, by index, is a pending indicator for
/// the user whose message and author can be joined.
fn feed_joinable(store: &Store, i: usize, key: &String) -> (r: bool)
    requires
        store.wf(),
        i < store.feeds@.len(),
    ensures
        r == joinable_pending(*store, store.feeds@[i as int], key@),
{
    if !(store.feeds[i].is_pending && store.feeds[i].to_id.eq(key)) {
        return false;
    }
    match discussion_of(store, store.feeds[i].discussion_id.as_str()) {
        Some(d) => {
            match crate::services::users::find(store, d.created_by_id.as_str()) {
                Ok(_) => {
                    proof {
                        assert(joinable_pending(*store, store.feeds@[i as int], key@));
                    }
                    true
                },
                Err(_) => {
                    proof {
                        assert forall|ii: int|
                            0 <= ii < store.discussions@.len() && store.discussions@[ii].id@
                                == store.feeds@[i as int].discussion_id@ implies !has_discussion_author(
                            *store,
                            store.discussions@[ii],
                        ) by {
                            let jj = choose|jj: int|
                                0 <= jj < store.discussions@.len() && store.discussions@[jj] == d
                                    && d.id@ == store.feeds@[i as int].discussion_id@;
                            if ii < jj {
                                assert(store.discussions@[ii].id@ != store.discussions@[jj].id@);
                            } else if jj < ii {
                                assert(store.discussions@[jj].id@ != store.discussions@[ii].id@);
                            }
                        }
                    }
                    false
                },
            }
        },
        None => false,
    }
}

fn scan_latest(store: &Store, picked: &Vec<bool>, key: &String) -> (r: Option<usize>)
    requires
        store.wf(),
        picked@.len() == store.feeds@.len(),
    ensures
        match r {
            Some(b) => b < store.feeds@.len() && !picked@[b as int] && joinable_pending(
                *store,
                store.feeds@[b as int],
                key@,
            ) && forall|j: int|
                0 <= j < store.feeds@.len() && joinable_pending(
                    *store,
                    #[trigger] store.feeds@[j],
                    key@,
                ) && !picked@[j] ==> store.feeds@[b as int].created_at
                    >= store.feeds@[j].created_at,
            None => forall|j: int|
                0 <= j < store.feeds@.len() && joinable_pending(
                    *store,
                    #[trigger] store.feeds@[j],
                    key@,
                ) ==> picked@[j],
        },
{
    let mut best: Option<usize> = None;
    let mut i: usize = 0;
    while i < store.feeds.len()
        invariant
            store.wf(),
            0 <= i <= store.feeds@.len(),
            picked@.len() == store.feeds@.len(),
            match best {
                Some(b) => b < i && !picked@[b as int] && joinable_pending(
                    *store,
                    store.feeds@[b as int],
                    key@,
                ) && forall|j: int|
                    0 <= j < i && joinable_pending(*store, #[trigger] store.feeds@[j], key@)
                        && !picked@[j] ==> store.feeds@[b as int].created_at
                        >= store.feeds@[j].created_at,
                None => forall|j: int|
                    0 <= j < i && joinable_pending(*store, #[trigger] store.feeds@[j], key@)
                        ==> picked@[j],
            },
        decreases store.feeds@.len() - i,
    {
        if !picked[i] && feed_joinable(store, i, key) {
            match best {
                Some(b) => {
                    if store.feeds[i].created_at > store.feeds[b].created_at {
                        best = Some(i);
                    }
                },
                None => {
                    best = Some(i);
                },
            }
        }
        i = i + 1;
    }
    best
}

/// The messages awaiting the user's response, each joined with its text
/// and author: the newest first, capped at the feed page size of fifty.
pub fn get_pending_discussions(store: &Store, criteria: &UserCriteria) -> (r: Result<
    Vec<PendingFeed>,
    ServiceError,
>)
    requires
        store.wf(),
    ensures
        r matches Ok(v) && v@.len() <= 50 && (forall|k: int|
            0 <= k < v@.len() ==> pending_feed_joined(*store, #[trigger] v@[k], criteria.id@)) && (
        forall|k1: int, k2: int|
            0 <= k1 < k2 < v@.len() ==> v@[k1].feed.created_at >= v@[k2].feed.created_at) && (
        v@.len() < 50 ==> forall|j: int|
            0 <= j < store.feeds@.len() && joinable_pending(
                *store,
                #[trigger] store.feeds@[j],
                criteria.id@,
            ) ==> exists|k: int| 0 <= k < v@.len() && v@[k].feed == store.feeds@[j]) && (forall|
            k: int,
            j: int,
        |
            0 <= k < v@.len() && 0 <= j < store.feeds@.len() && joinable_pending(
                *store,
                #[trigger] store.feeds@[j],
                criteria.id@,
            ) && !(exists|k2: int| 0 <= k2 < v@.len() && v@[k2].feed == store.feeds@[j])
                ==> #[trigger] v@[k].feed.created_at >= store.feeds@[j].created_at) && ((forall|
            i: int,
            j: int,
        |
            0 <= i < store.feeds@.len() && 0 <= j < store.discussions@.len()
                && (#[trigger] store.feeds@[i]).discussion_id@ == (
            #[trigger] store.discussions@[j]).id@ ==> store.feeds@[i].created_at
                == store.discussions@[j].created_at) ==> forall|k1: int, k2: int, j1: int, j2: int|
            0 <= k1 < k2 < v@.len() && 0 <= j1 < store.discussions@.len() && 0 <= j2
                < store.discussions@.len() && (#[trigger] store.discussions@[j1]).id@ == (#[trigger] v@[k1]).feed.discussion_id@ && (#[trigger] store.discussions@[j2]).id@ == (#[trigger] v@[k2]).feed.discussion_id@ ==> store.discussions@[j1].created_at
                >= store.discussions@[j2].created_at),
{
    let key: String = criteria.id.clone();
    let n: usize = store.feeds.len();
    let mut picked: Vec<bool> = Vec::new();
    while picked.len() < n
        invariant
            picked@.len() <= n,
            forall|j: int| 0 <= j < picked@.len() ==> !(#[trigger] picked@[j]),
        decreases n - picked@.len(),
    {
        picked.push(false);
    }
    let mut out: Vec<PendingFeed> = Vec::new();
    let ghost mut chosen: Seq<int> = Seq::empty();
    while out.len() < 50
        invariant
            store.wf(),
            key@ == criteria.id@,
            n == store.feeds@.len(),
            picked@.len() == n,
            out@.len() <= 50,
            chosen.len() == out@.len(),
            forall|k: int|
                0 <= k < out@.len() ==> 0 <= #[trigger] chosen[k] < n && out@[k].feed
                    == store.feeds@[chosen[k]] && picked@[chosen[k]],
            forall|k: int|
                0 <= k < out@.len() ==> pending_feed_joined(*store, #[trigger] out@[k], criteria.id@),
            forall|k1: int, k2: int|
                0 <= k1 < k2 < out@.len() ==> out@[k1].feed.created_at
                    >= out@[k2].feed.created_at,
            forall|j: int|
                0 <= j < n && #[trigger] picked@[j] ==> exists|k: int|
                    0 <= k < chosen.len() && chosen[k] == j,
            forall|k: int, j: int|
                0 <= k < out@.len() && 0 <= j < n && joinable_pending(
                    *store,
                    #[trigger] store.feeds@[j],
                    criteria.id@,
                ) && !picked@[j] ==> #[trigger] out@[k].feed.created_at
                    >= store.feeds@[j].created_at,
        ensures
            out@.len() <= 50,
            forall|k: int|
                0 <= k < out@.len() ==> pending_feed_joined(*store, #[trigger] out@[k], criteria.id@),
            forall|k1: int, k2: int|
                0 <= k1 < k2 < out@.len() ==> out@[k1].feed.created_at
                    >= out@[k2].feed.created_at,
            out@.len() < 50 ==> forall|j: int|
                0 <= j < n && joinable_pending(*store, #[trigger] store.feeds@[j], criteria.id@)
                    ==> exists|k: int| 0 <= k < out@.len() && out@[k].feed == store.feeds@[j],
            forall|k: int, j: int|
                0 <= k < out@.len() && 0 <= j < n && joinable_pending(
                    *store,
                    #[trigger] store.feeds@[j],
                    criteria.id@,
                ) && !(exists|k2: int| 0 <= k2 < out@.len() && out@[k2].feed == store.feeds@[j])
                    ==> #[trigger] out@[k].feed.created_at >= store.feeds@[j].created_at,
        decreases 50 - out@.len(),
    {
        match scan_latest(store, &picked, &key) {
            Some(b) => {
                let d: Discussion = match discussion_of(
                    store,
                    store.feeds[b].discussion_id.as_str(),
                ) {
                    Some(d) => d,
                    None => {
                        // Joinable means the message is there.
                        proof {
                            assert(false);
                        }
                        return Err(ServiceError::PersistenceError);
                    },
                };
                let u: crate::models::users::User = match crate::services::users::find(
                    store,
                    d.created_by_id.as_str(),
                ) {
                    Ok(u) => u,
                    Err(_) => {
                        // Joinable means the author is there: the message
                        // rows carry unique ids, so the one found is the
                        // one the join speaks of.
                        proof {
                            let ii = choose|ii: int|
                                0 <= ii < store.discussions@.len() && store.discussions@[ii].id@
                                    == store.feeds@[b as int].discussion_id@
                                    && has_discussion_author(*store, store.discussions@[ii]);
                            let jj = choose|jj: int|
                                0 <= jj < store.discussions@.len() && store.discussions@[jj] == d
                                    && d.id@ == store.feeds@[b as int].discussion_id@;
                            if ii < jj {
                                assert(store.discussions@[ii].id@ != store.discussions@[jj].id@);
                            } else if jj < ii {
                                assert(store.discussions@[jj].id@ != store.discussions@[ii].id@);
                            }
                            assert(false);
                        }
                        return Err(ServiceError::PersistenceError);
                    },
                };
                let p = PendingFeed { description: d.description, feed: store.feeds[b].duplicate(), user: u };
                let ghost prev = out@;
                let ghost prev_chosen = chosen;
                proof {
                    assert(p.feed == store.feeds@[b as int]);
                    assert(pending_feed_joined(*store, p, criteria.id@));
                }
                out.push(p);
                picked.set(b, true);
                proof {
                    chosen = chosen.push(b as int);
                    assert(out@[out@.len() - 1].feed == store.feeds@[b as int]);
                    assert forall|j: int|
                        0 <= j < n && #[trigger] picked@[j] implies exists|k: int|
                        0 <= k < chosen.len() && chosen[k] == j by {
                        if j == b as int {
                            assert(chosen[chosen.len() - 1] == j);
                        } else {
                            let k = choose|k: int|
                                0 <= k < prev_chosen.len() && prev_chosen[k] == j;
                            assert(chosen[k] == j);
                        }
                    }
                }
            },
            None => {
                proof {
                    assert forall|j: int|
                        0 <= j < n && joinable_pending(
                            *store,
                            #[trigger] store.feeds@[j],
                            criteria.id@,
                        ) implies exists|k: int| 0 <= k < out@.len() && out@[k].feed
                        == store.feeds@[j] by {
                        let k = choose|k: int| 0 <= k < chosen.len() && chosen[k] == j;
                        assert(out@[k].feed == store.feeds@[j]);
                    }
                }
                break ;
            },
        }
    }
    proof {
        assert forall|k: int, j: int|
            0 <= k < out@.len() && 0 <= j < n && joinable_pending(
                *store,
                #[trigger] store.feeds@[j],
                criteria.id@,
            ) && !(exists|k2: int| 0 <= k2 < out@.len() && out@[k2].feed == store.feeds@[j])
            implies #[trigger] out@[k].feed.created_at >= store.feeds@[j].created_at by {
        }
        if (forall|i: int, j: int|
            0 <= i < store.feeds@.len() && 0 <= j < store.discussions@.len() && (
            #[trigger] store.feeds@[i]).discussion_id@ == (#[trigger] store.discussions@[j]).id@
                ==> store.feeds@[i].created_at == store.discussions@[j].created_at) {
            assert forall|k1: int, k2: int, j1: int, j2: int|
                0 <= k1 < k2 < out@.len() && 0 <= j1 < store.discussions@.len() && 0 <= j2
                    < store.discussions@.len() && (#[trigger] store.discussions@[j1]).id@ == (#[trigger] out@[k1]).feed.discussion_id@ && (#[trigger] store.discussions@[j2]).id@ == (#[trigger] out@[k2]).feed.discussion_id@ implies store.discussions@[j1].created_at
                >= store.discussions@[j2].created_at by {
                let i1 = choose|i: int|
                    0 <= i < store.feeds@.len() && store.feeds@[i] == out@[k1].feed;
                let i2 = choose|i: int|
                    0 <= i < store.feeds@.len() && store.feeds@[i] == out@[k2].feed;
                assert(store.feeds@[i1].created_at == store.discussions@[j1].created_at);
                assert(store.feeds@[i2].created_at == store.discussions@[j2].created_at);
            }
        }
    }
    Ok(out)
}

/// The message with the given id.
fn discussion_of(store: &Store, id: &str) -> (r: Option<Discussion>)
    requires
        store.wf(),
    ensures
        match r {
            Some(d) => exists|i: int|
                0 <= i < store.discussions@.len() && store.discussions@[i] == d && d.id@ == id@,
            None => !has_discussion(store.discussions@, id@),
        },
{
    let key: String = id.to_owned();
    let mut i: usize = 0;
    while i < store.discussions.len()
        invariant
            0 <= i <= store.discussions@.len(),
            key@ == id@,
            forall|j: int| 0 <= j < i ==> store.discussions@[j].id@ != id@,
        decreases store.discussions@.len() - i,
    {
        if store.discussions[i].id.eq(&key) {
            let d = store.discussions[i].duplicate();
            proof {
                assert(store.discussions@[i as int] == d);
            }
            return Some(d);
        }
        i = i + 1;
    }
    None
}

} // verus!
