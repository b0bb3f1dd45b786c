use vstd::prelude::*;

use crate::commons::chassis::ServiceError;
use crate::commons::util;
use crate::models::correspondences::{
    cancel_content, invite_content, MailOut, MailRecipient, EVENT,
};
use crate::models::session_users::{NewSessionUser, SessionCriteria, SessionPeople, SessionUser};
use crate::models::sessions::{
    transited_session, ChangeSessionStateRequest, NewSession, NewSessionRequest, Session,
    TargetState,
};
use crate::models::enrollments::Enrollment;
use crate::models::programs::Program;
use crate::models::users::User;
use crate::services::correspondences::{create_mail, staged_mail_appended};
use crate::services::enrollments;
use crate::services::programs;
use crate::services::users;
use crate::store::{
    has_session, lemma_session_index_is, same_directory, same_discussions, same_enrollments,
    same_mails, session_at, unchanged, Store,
};

verus! {

/// The session row that persisting the given new session writes.
pub open spec fn session_row(n: NewSession, now: i64) -> Session {
    Session {
        id: n.id,
        name: n.name,
        description: Some(n.description),
        program_id: n.program_id,
        enrollment_id: n.enrollment_id,
        people: Some(n.people),
        duration: n.duration,
        original_start_date: n.original_start_date,
        original_end_date: n.original_end_date,
        revised_start_date: None,
        revised_end_date: None,
        offered_start_date: None,
        offered_end_date: None,
        is_ready: n.is_ready,
        actual_start_date: None,
        actual_end_date: None,
        cancelled_at: None,
        created_at: now,
        updated_at: now,
        closing_notes: None,
        conference_id: n.conference_id,
        session_type: n.session_type,
    }
}

/// The session-user row that persisting the given association writes.
pub open spec fn session_user_row(n: NewSessionUser) -> SessionUser {
    SessionUser { id: n.id, session_id: n.session_id, user_id: n.user_id, user_type: n.user_type }
}

pub(crate) fn session_index_of(s: &Vec<Session>, id: &str) -> (r: Option<usize>)
    ensures
        match r {
            Some(i) => i < s@.len() && s@[i as int].id@ == id@,
            None => !has_session(s@, id@),
        },
{
    let key: String = id.to_owned();
    let mut i: usize = 0;
    while i < s.len()
        invariant
            0 <= i <= s@.len(),
            key@ == id@,
            forall|j: int| 0 <= j < i ==> s@[j].id@ != id@,
        decreases s@.len() - i,
    {
        if s[i].id.eq(&key) {
            return Some(i);
        }
        i = i + 1;
    }
    None
}

/// The session with the given id.
pub fn find(store: &Store, the_id: &str) -> (r: Result<Session, ServiceError>)
    ensures
        r is Ok <==> has_session(store.sessions@, the_id@),
        r matches Ok(x) ==> exists|i: int|
            0 <= i < store.sessions@.len() && store.sessions@[i] == x && x.id@ == the_id@,
        r is Err ==> (r matches Err(e) && e == ServiceError::NotFound),
{
    match session_index_of(&store.sessions, the_id) {
        Some(i) => {
            let x = store.sessions[i].duplicate();
            proof {
                assert(store.sessions@[i as int] == x);
            }
            Ok(x)
        },
        None => Err(ServiceError::NotFound),
    }
}

/// The session-user association with the given id.
pub fn find_session_user(store: &Store, session_user_id: &str) -> (r: Result<
    SessionUser,
    ServiceError,
>)
    ensures
        r is Ok <==> exists|i: int|
            0 <= i < store.session_users@.len() && store.session_users@[i].id@
                == session_user_id@,
        r matches Ok(x) ==> exists|i: int|
            0 <= i < store.session_users@.len() && store.session_users@[i] == x && x.id@
                == session_user_id@,
        r is Err ==> (r matches Err(e) && e == ServiceError::NotFound),
{
    let key: String = session_user_id.to_owned();
    let mut i: usize = 0;
    while i < store.session_users.len()
        invariant
            0 <= i <= store.session_users@.len(),
            key@ == session_user_id@,
            forall|j: int| 0 <= j < i ==> store.session_users@[j].id@ != session_user_id@,
        decreases store.session_users@.len() - i,
    {
        if store.session_users[i].id.eq(&key) {
            let x = store.session_users[i].duplicate();
            proof {
                assert(store.session_users@[i as int] == x);
            }
            return Ok(x);
        }
        i = i + 1;
    }
    Err(ServiceError::NotFound)
}

/// Whether the session is the fanned-out member session of the given
/// conference for the given member, going through its enrollment.
pub open spec fn session_pair_match(
    x: Session,
    enrollments: Seq<Enrollment>,
    conf_id: Seq<char>,
    member_id: Seq<char>,
) -> bool {
    &&& x.conference_id matches Some(c) && c@ == conf_id
    &&& exists|i: int|
        0 <= i < enrollments.len() && enrollments[i].id@ == x.enrollment_id@
            && enrollments[i].member_id@ == member_id
}

pub open spec fn conf_member_session(
    store: Store,
    x: Session,
    conf_id: Seq<char>,
    member_id: Seq<char>,
) -> bool {
    session_pair_match(x, store.enrollments@, conf_id, member_id)
}

/// How many sessions the store holds for one conference-member pair.
pub open spec fn pair_count(
    sessions: Seq<Session>,
    enrollments: Seq<Enrollment>,
    conf_id: Seq<char>,
    member_id: Seq<char>,
) -> int
    decreases sessions.len(),
{
    if sessions.len() == 0 {
        0
    } else {
        pair_count(sessions.drop_last(), enrollments, conf_id, member_id) + (
        if session_pair_match(sessions.last(), enrollments, conf_id, member_id) {
            1int
        } else {
            0int
        })
    }
}

/// Appending one session raises the pair's count exactly where the new
/// session matches the pair.
pub proof fn lemma_pair_count_push(
    sessions: Seq<Session>,
    enrollments: Seq<Enrollment>,
    x: Session,
    conf_id: Seq<char>,
    member_id: Seq<char>,
)
    ensures
        pair_count(sessions.push(x), enrollments, conf_id, member_id) == pair_count(
            sessions,
            enrollments,
            conf_id,
            member_id,
        ) + (if session_pair_match(x, enrollments, conf_id, member_id) {
            1int
        } else {
            0int
        }),
{
    assert(sessions.push(x).drop_last() =~= sessions);
    assert(sessions.push(x).last() == x);
}

/// The pair's count is positive exactly where some session matches it.
pub proof fn lemma_pair_count_has(
    sessions: Seq<Session>,
    enrollments: Seq<Enrollment>,
    conf_id: Seq<char>,
    member_id: Seq<char>,
)
    ensures
        pair_count(sessions, enrollments, conf_id, member_id) >= 0,
        (pair_count(sessions, enrollments, conf_id, member_id) > 0) <==> exists|k: int|
            0 <= k < sessions.len() && session_pair_match(
                #[trigger] sessions[k],
                enrollments,
                conf_id,
                member_id,
            ),
    decreases sessions.len(),
{
    if sessions.len() > 0 {
        lemma_pair_count_has(sessions.drop_last(), enrollments, conf_id, member_id);
        assert(sessions.last() == sessions[sessions.len() - 1]);
        assert(forall|k: int|
            0 <= k < sessions.drop_last().len() ==> #[trigger] sessions.drop_last()[k]
                == sessions[k]);
        if pair_count(sessions, enrollments, conf_id, member_id) > 0 {
            if session_pair_match(sessions.last(), enrollments, conf_id, member_id) {
            } else {
                let k = choose|k: int|
                    0 <= k < sessions.drop_last().len() && session_pair_match(
                        #[trigger] sessions.drop_last()[k],
                        enrollments,
                        conf_id,
                        member_id,
                    );
                assert(session_pair_match(sessions[k], enrollments, conf_id, member_id));
            }
        }
        if exists|k: int|
            0 <= k < sessions.len() && session_pair_match(
                #[trigger] sessions[k],
                enrollments,
                conf_id,
                member_id,
            ) {
            let k = choose|k: int|
                0 <= k < sessions.len() && session_pair_match(
                    #[trigger] sessions[k],
                    enrollments,
                    conf_id,
                    member_id,
                );
            if k < sessions.len() - 1 {
                assert(session_pair_match(
                    sessions.drop_last()[k],
                    enrollments,
                    conf_id,
                    member_id,
                ));
            }
        }
    }
}

/// Where no session carries the conference's id at all, no pair of that
/// conference counts, whatever the enrollments hold.
pub proof fn lemma_pair_count_zero_without_conference(
    sessions: Seq<Session>,
    enrollments: Seq<Enrollment>,
    conf_id: Seq<char>,
    member_id: Seq<char>,
)
    requires
        forall|i: int|
            0 <= i < sessions.len() ==> !((#[trigger] sessions[i]).conference_id matches Some(c)
                && c@ == conf_id),
    ensures
        pair_count(sessions, enrollments, conf_id, member_id) == 0,
    decreases sessions.len(),
{
    if sessions.len() > 0 {
        assert(sessions.last() == sessions[sessions.len() - 1]);
        assert(forall|i: int|
            0 <= i < sessions.drop_last().len() ==> #[trigger] sessions.drop_last()[i]
                == sessions[i]);
        lemma_pair_count_zero_without_conference(
            sessions.drop_last(),
            enrollments,
            conf_id,
            member_id,
        );
    }
}

/// A sweep that keeps every enrollment's id and member leaves every
/// pair count as it was.
pub proof fn lemma_pair_count_enrollments_stable(
    sessions: Seq<Session>,
    e1: Seq<Enrollment>,
    e2: Seq<Enrollment>,
    conf_id: Seq<char>,
    member_id: Seq<char>,
)
    requires
        e1.len() == e2.len(),
        forall|i: int|
            0 <= i < e1.len() ==> (#[trigger] e2[i]).id@ == e1[i].id@ && e2[i].member_id@
                == e1[i].member_id@,
    ensures
        pair_count(sessions, e2, conf_id, member_id) == pair_count(
            sessions,
            e1,
            conf_id,
            member_id,
        ),
    decreases sessions.len(),
{
    if sessions.len() > 0 {
        lemma_pair_count_enrollments_stable(sessions.drop_last(), e1, e2, conf_id, member_id);
        assert(session_pair_match(sessions.last(), e2, conf_id, member_id)
            == session_pair_match(sessions.last(), e1, conf_id, member_id)) by {
            if session_pair_match(sessions.last(), e1, conf_id, member_id) {
                let i = choose|i: int|
                    0 <= i < e1.len() && e1[i].id@ == sessions.last().enrollment_id@
                        && e1[i].member_id@ == member_id;
                assert(e2[i].id@ == sessions.last().enrollment_id@ && e2[i].member_id@
                    == member_id);
            }
            if session_pair_match(sessions.last(), e2, conf_id, member_id) {
                let i = choose|i: int|
                    0 <= i < e2.len() && e2[i].id@ == sessions.last().enrollment_id@
                        && e2[i].member_id@ == member_id;
                assert(e1[i].id@ == sessions.last().enrollment_id@ && e1[i].member_id@
                    == member_id);
            }
        }
    }
}

/// Whether the store holds a member session for the pair.
pub open spec fn has_conf_member_session(
    store: Store,
    conf_id: Seq<char>,
    member_id: Seq<char>,
) -> bool {
    exists|k: int|
        0 <= k < store.sessions@.len() && conf_member_session(
            store,
            store.sessions@[k],
            conf_id,
            member_id,
        )
}

/// The index of the first member session of the pair.
pub open spec fn first_conf_member_index(
    store: Store,
    k: int,
    conf_id: Seq<char>,
    member_id: Seq<char>,
) -> bool {
    &&& 0 <= k < store.sessions@.len()
    &&& conf_member_session(store, store.sessions@[k], conf_id, member_id)
    &&& forall|j: int|
        0 <= j < k ==> !conf_member_session(store, store.sessions@[j], conf_id, member_id)
}

/// The member session of the given conference and member.
pub fn find_by_conference(store: &Store, conf_id: &str, given_member_id: &str) -> (r: Result<
    Session,
    ServiceError,
>)
    requires
        store.wf(),
    ensures
        r is Ok <==> has_conf_member_session(*store, conf_id@, given_member_id@),
        r matches Ok(x) ==> exists|k: int|
            first_conf_member_index(*store, k, conf_id@, given_member_id@) && store.sessions@[k]
                == x,
        r is Err ==> (r matches Err(e) && e == ServiceError::NotFound),
{
    let ckey: String = conf_id.to_owned();
    let mut i: usize = 0;
    while i < store.sessions.len()
        invariant
            store.wf(),
            0 <= i <= store.sessions@.len(),
            ckey@ == conf_id@,
            forall|j: int|
                0 <= j < i ==> !conf_member_session(
                    *store,
                    store.sessions@[j],
                    conf_id@,
                    given_member_id@,
                ),
        decreases store.sessions@.len() - i,
    {
        let is_of_conf: bool = match &store.sessions[i].conference_id {
            Some(c) => c.eq(&ckey),
            None => false,
        };
        if is_of_conf {
            match enrollments::enrollment_id_index(
                &store.enrollments,
                store.sessions[i].enrollment_id.as_str(),
            ) {
                Some(j) => {
                    let mkey: String = given_member_id.to_owned();
                    if store.enrollments[j].member_id.eq(&mkey) {
                        let x = store.sessions[i].duplicate();
                        proof {
                            assert(store.sessions@[i as int] == x);
                            assert(conf_member_session(
                                *store,
                                store.sessions@[i as int],
                                conf_id@,
                                given_member_id@,
                            ));
                            assert(first_conf_member_index(
                                *store,
                                i as int,
                                conf_id@,
                                given_member_id@,
                            ));
                        }
                        return Ok(x);
                    }
                    proof {
                        assert forall|e: int|
                            0 <= e < store.enrollments@.len() && store.enrollments@[e].id@
                                == store.sessions@[i as int].enrollment_id@ implies !(
                        store.enrollments@[e].member_id@ == given_member_id@) by {
                            if e < j as int {
                                assert(store.enrollments@[e].id@ != store.enrollments@[j as int].id@);
                            } else if e > j as int {
                                assert(store.enrollments@[j as int].id@ != store.enrollments@[e].id@);
                            }
                        }
                        assert(!conf_member_session(
                            *store,
                            store.sessions@[i as int],
                            conf_id@,
                            given_member_id@,
                        ));
                    }
                },
                None => {
                    proof {
                        assert(!conf_member_session(
                            *store,
                            store.sessions@[i as int],
                            conf_id@,
                            given_member_id@,
                        ));
                    }
                },
            }
        }
        i = i + 1;
    }
    Err(ServiceError::NotFound)
}

/// Appends one session row; refused only where the fresh id already
/// exists, as the store's primary key would refuse it.
pub fn insert_session(store: &mut Store, new_session: &NewSession, now: i64) -> (r: Result<
    Session,
    ServiceError,
>)
    requires
        old(store).wf(),
    ensures
        final(store).wf(),
        same_directory(*old(store), *final(store)),
        same_enrollments(*old(store), *final(store)),
        same_mails(*old(store), *final(store)),
        same_discussions(*old(store), *final(store)),
        final(store).conferences@ == old(store).conferences@,
        final(store).session_users@ == old(store).session_users@,
        r is Err ==> (unchanged(*old(store), *final(store)) && r == Err::<Session, ServiceError>(
            ServiceError::PersistenceError,
        )),
        r is Err <==> has_session(old(store).sessions@, new_session.id@),
        r matches Ok(x) ==> x == session_row(*new_session, now) && final(store).sessions@ == old(
            store,
        ).sessions@.push(x),
{
    if session_index_of(&store.sessions, new_session.id.as_str()).is_some() {
        return Err(ServiceError::PersistenceError);
    }
    let row = Session {
        id: new_session.id.clone(),
        name: new_session.name.clone(),
        description: Some(new_session.description.clone()),
        program_id: new_session.program_id.clone(),
        enrollment_id: new_session.enrollment_id.clone(),
        people: Some(new_session.people.clone()),
        duration: new_session.duration,
        original_start_date: new_session.original_start_date,
        original_end_date: new_session.original_end_date,
        revised_start_date: None,
        revised_end_date: None,
        offered_start_date: None,
        offered_end_date: None,
        is_ready: new_session.is_ready,
        actual_start_date: None,
        actual_end_date: None,
        cancelled_at: None,
        created_at: now,
        updated_at: now,
        closing_notes: None,
        conference_id: match &new_session.conference_id {
            Some(c) => Some(c.clone()),
            None => None,
        },
        session_type: new_session.session_type.clone(),
    };
    let dup = row.duplicate();
    store.sessions.push(row);
    proof {
        assert forall|a: int, b: int|
            0 <= a < b < store.sessions@.len() implies store.sessions@[a].id@
            != store.sessions@[b].id@ by {
            if b == store.sessions@.len() - 1 {
                assert(store.sessions@[a] == old(store).sessions@[a]);
            }
        }
    }
    Ok(dup)
}

/// Appends the coach and member associations of a fresh session.
pub fn insert_session_users(store: &mut Store, coach: NewSessionUser, member: NewSessionUser) -> (r:
    Result<usize, ServiceError>)
    requires
        old(store).wf(),
    ensures
        final(store).wf(),
        same_directory(*old(store), *final(store)),
        same_enrollments(*old(store), *final(store)),
        same_mails(*old(store), *final(store)),
        same_discussions(*old(store), *final(store)),
        final(store).sessions@ == old(store).sessions@,
        final(store).conferences@ == old(store).conferences@,
        final(store).session_users@ == old(store).session_users@.push(
            session_user_row(coach),
        ).push(session_user_row(member)),
        r == Ok::<usize, ServiceError>(2usize),
{
    store.session_users.push(
        SessionUser {
            id: coach.id,
            session_id: coach.session_id,
            user_id: coach.user_id,
            user_type: coach.user_type,
        },
    );
    store.session_users.push(
        SessionUser {
            id: member.id,
            session_id: member.session_id,
            user_id: member.user_id,
            user_type: member.user_type,
        },
    );
    Ok(2)
}

/// Appends one member or coach association to an existing session.
pub fn insert_session_member(
    store: &mut Store,
    session: &Session,
    member: &User,
    session_user_type: &str,
) -> (r: Result<usize, ServiceError>)
    requires
        old(store).wf(),
    ensures
        final(store).wf(),
        same_directory(*old(store), *final(store)),
        same_enrollments(*old(store), *final(store)),
        same_mails(*old(store), *final(store)),
        same_discussions(*old(store), *final(store)),
        final(store).sessions@ == old(store).sessions@,
        final(store).conferences@ == old(store).conferences@,
        final(store).session_users@.len() == old(store).session_users@.len() + 1,
        final(store).session_users@ == old(store).session_users@.push(
            final(store).session_users@.last(),
        ),
        final(store).session_users@.last().session_id@ == session.id@,
        final(store).session_users@.last().user_id@ == member.id@,
        final(store).session_users@.last().user_type@ == session_user_type@,
        r == Ok::<usize, ServiceError>(1usize),
{
    let new_session_member = NewSessionUser::from(session, member, session_user_type);
    store.session_users.push(
        SessionUser {
            id: new_session_member.id,
            session_id: new_session_member.session_id,
            user_id: new_session_member.user_id,
            user_type: new_session_member.user_type,
        },
    );
    Ok(1)
}

/// Stages the calendar-invite mail of a fresh session: exactly one
/// pending `event` correspondence row whose content is the sequence-1
/// invitation payload.
pub fn create_session_mail(
    store: &mut Store,
    session: &Session,
    member: &User,
    coach: &User,
    now: i64,
) -> (r: Result<usize, ServiceError>)
    requires
        old(store).wf(),
    ensures
        final(store).wf(),
        same_directory(*old(store), *final(store)),
        same_enrollments(*old(store), *final(store)),
        same_discussions(*old(store), *final(store)),
        final(store).sessions@ == old(store).sessions@,
        final(store).conferences@ == old(store).conferences@,
        final(store).session_users@ == old(store).session_users@,
        r is Err ==> (unchanged(*old(store), *final(store)) && r == Err::<usize, ServiceError>(
            ServiceError::PersistenceError,
        )),
        r is Ok ==> staged_mail_appended(
            *old(store),
            *final(store),
            coach.id@,
            session.program_id@,
            session.enrollment_id@,
            session.name@,
            invite_content(*session, *coach, *member),
            EVENT@,
            *member,
            *coach,
            now,
        ),
{
    let mail_out: MailOut = MailOut::for_new_session(session, coach, member, now);
    let recipients: Vec<MailRecipient> = MailRecipient::build_recipients(
        member,
        coach,
        mail_out.id.as_str(),
    );
    let ghost mo = mail_out;
    let ghost recs = recipients@;
    match create_mail(store, mail_out, recipients, now) {
        Ok(n) => {
            proof {
                let a = *old(store);
                let b = *store;
                assert(b.correspondences@ =~= a.correspondences@.push(
                    crate::services::correspondences::mail_row(mo, now),
                ));
                assert(b.mail_recipients@[a.mail_recipients@.len() as int] == recs[0]);
                assert(b.mail_recipients@.last() == recs[1]);
                assert(b.mail_recipients@ =~= a.mail_recipients@ + seq![
                    b.mail_recipients@[a.mail_recipients@.len() as int],
                    b.mail_recipients@.last(),
                ]);
            }
            Ok(n)
        },
        Err(e) => Err(e),
    }
}

/// The sessions table after one command ran against the single session
/// with the given id; nothing else moved.
pub open spec fn mono_updated(
    a: Store,
    b: Store,
    id: Seq<char>,
    t: TargetState,
    notes: Option<String>,
    now: i64,
) -> bool {
    &&& b.sessions@.len() == a.sessions@.len()
    &&& forall|i: int|
        0 <= i < a.sessions@.len() ==> b.sessions@[i] == (if a.sessions@[i].id@ == id {
            transited_session(a.sessions@[i], t, notes, now)
        } else {
            a.sessions@[i]
        })
    &&& b.conferences@ == a.conferences@
}

/// The sessions and conferences tables after one command fanned out over
/// a whole conference: the conference row and every session carrying its
/// id moved through the same command with the same clock reading.
pub open spec fn fanout_updated(
    a: Store,
    b: Store,
    conf: Seq<char>,
    t: TargetState,
    notes: Option<String>,
    now: i64,
) -> bool {
    &&& b.sessions@.len() == a.sessions@.len()
    &&& forall|i: int|
        0 <= i < a.sessions@.len() ==> b.sessions@[i] == (
        if a.sessions@[i].conference_id matches Some(c) && c@ == conf {
            transited_session(a.sessions@[i], t, notes, now)
        } else {
            a.sessions@[i]
        })
    &&& b.conferences@.len() == a.conferences@.len()
    &&& forall|i: int|
        0 <= i < a.conferences@.len() ==> b.conferences@[i] == (if a.conferences@[i].id@ == conf {
            crate::models::conferences::transited_conference(a.conferences@[i], t, notes, now)
        } else {
            a.conferences@[i]
        })
}

/// Applies the command to every session fanned out from the conference,
/// in one sweep keyed by the conference id.
fn do_alter_multi_sessions_state(
    store: &mut Store,
    request: &ChangeSessionStateRequest,
    conf_id: &str,
    now: i64,
) -> (r: Result<usize, ServiceError>)
    requires
        old(store).wf(),
    ensures
        final(store).wf(),
        same_directory(*old(store), *final(store)),
        same_enrollments(*old(store), *final(store)),
        same_mails(*old(store), *final(store)),
        same_discussions(*old(store), *final(store)),
        final(store).conferences@ == old(store).conferences@,
        final(store).session_users@ == old(store).session_users@,
        final(store).sessions@.len() == old(store).sessions@.len(),
        forall|i: int|
            0 <= i < old(store).sessions@.len() ==> final(store).sessions@[i] == (
            if old(store).sessions@[i].conference_id matches Some(c) && c@ == conf_id@ {
                transited_session(
                    old(store).sessions@[i],
                    request.target_state,
                    request.closing_notes,
                    now,
                )
            } else {
                old(store).sessions@[i]
            }),
        r is Ok,
{
    let key: String = conf_id.to_owned();
    let mut count: usize = 0;
    let mut i: usize = 0;
    while i < store.sessions.len()
        invariant
            0 <= i <= store.sessions@.len(),
            key@ == conf_id@,
            count <= i,
            store.sessions@.len() == old(store).sessions@.len(),
            same_directory(*old(store), *store),
            same_enrollments(*old(store), *store),
            same_mails(*old(store), *store),
            same_discussions(*old(store), *store),
            store.conferences@ == old(store).conferences@,
            store.session_users@ == old(store).session_users@,
            forall|j: int|
                0 <= j < i ==> store.sessions@[j] == (
                if old(store).sessions@[j].conference_id matches Some(c) && c@ == conf_id@ {
                    transited_session(
                        old(store).sessions@[j],
                        request.target_state,
                        request.closing_notes,
                        now,
                    )
                } else {
                    old(store).sessions@[j]
                }),
            forall|j: int|
                i <= j < store.sessions@.len() ==> store.sessions@[j] == old(store).sessions@[j],
        decreases store.sessions@.len() - i,
    {
        let is_of_conf: bool = match &store.sessions[i].conference_id {
            Some(c) => c.eq(&key),
            None => false,
        };
        if is_of_conf {
            let upd = store.sessions[i].with_transition(request, now);
            store.sessions.set(i, upd);
            count = count + 1;
        }
        i = i + 1;
    }
    proof {
        assert forall|a: int, b: int|
            0 <= a < b < store.sessions@.len() implies store.sessions@[a].id@
            != store.sessions@[b].id@ by {
            assert(store.sessions@[a].id@ == old(store).sessions@[a].id@);
            assert(store.sessions@[b].id@ == old(store).sessions@[b].id@);
        }
    }
    Ok(count)
}

/// Applies the command to the one session named by the request.
fn do_alter_mono_session_state(
    store: &mut Store,
    request: &ChangeSessionStateRequest,
    now: i64,
) -> (r: Result<usize, ServiceError>)
    requires
        old(store).wf(),
    ensures
        final(store).wf(),
        same_directory(*old(store), *final(store)),
        same_enrollments(*old(store), *final(store)),
        same_mails(*old(store), *final(store)),
        same_discussions(*old(store), *final(store)),
        final(store).conferences@ == old(store).conferences@,
        final(store).session_users@ == old(store).session_users@,
        final(store).sessions@.len() == old(store).sessions@.len(),
        forall|i: int|
            0 <= i < old(store).sessions@.len() ==> final(store).sessions@[i] == (
            if old(store).sessions@[i].id@ == request.id@ {
                transited_session(
                    old(store).sessions@[i],
                    request.target_state,
                    request.closing_notes,
                    now,
                )
            } else {
                old(store).sessions@[i]
            }),
        r is Ok,
{
    let key: String = request.id.clone();
    let mut count: usize = 0;
    let mut i: usize = 0;
    while i < store.sessions.len()
        invariant
            0 <= i <= store.sessions@.len(),
            key@ == request.id@,
            count <= i,
            store.sessions@.len() == old(store).sessions@.len(),
            same_directory(*old(store), *store),
            same_enrollments(*old(store), *store),
            same_mails(*old(store), *store),
            same_discussions(*old(store), *store),
            store.conferences@ == old(store).conferences@,
            store.session_users@ == old(store).session_users@,
            forall|j: int|
                0 <= j < i ==> store.sessions@[j] == (
                if old(store).sessions@[j].id@ == request.id@ {
                    transited_session(
                        old(store).sessions@[j],
                        request.target_state,
                        request.closing_notes,
                        now,
                    )
                } else {
                    old(store).sessions@[j]
                }),
            forall|j: int|
                i <= j < store.sessions@.len() ==> store.sessions@[j] == old(store).sessions@[j],
        decreases store.sessions@.len() - i,
    {
        if store.sessions[i].id.eq(&key) {
            let upd = store.sessions[i].with_transition(request, now);
            store.sessions.set(i, upd);
            count = count + 1;
        }
        i = i + 1;
    }
    proof {
        assert forall|a: int, b: int|
            0 <= a < b < store.sessions@.len() implies store.sessions@[a].id@
            != store.sessions@[b].id@ by {
            assert(store.sessions@[a].id@ == old(store).sessions@[a].id@);
            assert(store.sessions@[b].id@ == old(store).sessions@[b].id@);
        }
    }
    Ok(count)
}

/// A field-for-field copy of the sessions table.
pub(crate) fn copy_sessions(v: &Vec<Session>) -> (r: Vec<Session>)
    ensures
        r@ == v@,
{
    let mut out: Vec<Session> = Vec::new();
    let mut i: usize = 0;
    while i < v.len()
        invariant
            0 <= i <= v@.len(),
            out@ == v@.take(i as int),
        decreases v@.len() - i,
    {
        out.push(v[i].duplicate());
        proof {
            assert(out@ =~= v@.take(i + 1));
        }
        i = i + 1;
    }
    proof {
        assert(v@.take(v@.len() as int) =~= v@);
    }
    out
}

/// A field-for-field copy of the session associations table.
pub(crate) fn copy_session_users(v: &Vec<SessionUser>) -> (r: Vec<SessionUser>)
    ensures
        r@ == v@,
{
    let mut out: Vec<SessionUser> = Vec::new();
    let mut i: usize = 0;
    while i < v.len()
        invariant
            0 <= i <= v@.len(),
            out@ == v@.take(i as int),
        decreases v@.len() - i,
    {
        out.push(v[i].duplicate());
        proof {
            assert(out@ =~= v@.take(i + 1));
        }
        i = i + 1;
    }
    proof {
        assert(v@.take(v@.len() as int) =~= v@);
    }
    out
}

/// Whether the user is recorded as the given role of the session,
/// through the session-user join.
pub open spec fn participant_pair(
    sus: Seq<SessionUser>,
    users: Seq<User>,
    sid: Seq<char>,
    role: Seq<char>,
    u: User,
) -> bool {
    exists|i: int, j: int|
        0 <= i < sus.len() && 0 <= j < users.len() && sus[i].session_id@ == sid
            && sus[i].user_type@ == role && users[j] == u && u.id@ == sus[i].user_id@
}

/// Whether some user is recorded as the given role of the session.
pub open spec fn has_participant(
    sus: Seq<SessionUser>,
    users: Seq<User>,
    sid: Seq<char>,
    role: Seq<char>,
) -> bool {
    exists|u: User| participant_pair(sus, users, sid, role, u)
}

/// The user recorded as the given role of the session.
fn find_participant(store: &Store, session_id: &str, role: &str) -> (r: Option<User>)
    ensures
        r matches Some(u) ==> participant_pair(
            store.session_users@,
            store.users@,
            session_id@,
            role@,
            u,
        ),
        r is None ==> !has_participant(store.session_users@, store.users@, session_id@, role@),
{
    let skey: String = session_id.to_owned();
    let rkey: String = role.to_owned();
    let mut i: usize = 0;
    while i < store.session_users.len()
        invariant
            0 <= i <= store.session_users@.len(),
            skey@ == session_id@,
            rkey@ == role@,
            forall|ii: int|
                0 <= ii < i ==> !(store.session_users@[ii].session_id@ == session_id@
                    && store.session_users@[ii].user_type@ == role@ && crate::store::has_user(
                    store.users@,
                    store.session_users@[ii].user_id@,
                )),
        decreases store.session_users@.len() - i,
    {
        if store.session_users[i].session_id.eq(&skey) && store.session_users[i].user_type.eq(
            &rkey,
        ) {
            match users::find(store, store.session_users[i].user_id.as_str()) {
                Ok(u) => {
                    proof {
                        let j = choose|j: int|
                            0 <= j < store.users@.len() && store.users@[j] == u && u.id@
                                == store.session_users@[i as int].user_id@;
                        assert(participant_pair(
                            store.session_users@,
                            store.users@,
                            session_id@,
                            role@,
                            u,
                        ));
                    }
                    return Some(u);
                },
                Err(_) => {},
            }
        }
        i = i + 1;
    }
    proof {
        assert forall|u: User|
            !participant_pair(store.session_users@, store.users@, session_id@, role@, u) by {
            if participant_pair(store.session_users@, store.users@, session_id@, role@, u) {
                let (ii, jj): (int, int) = choose|ii: int, jj: int|
                    0 <= ii < store.session_users@.len() && 0 <= jj < store.users@.len()
                        && store.session_users@[ii].session_id@ == session_id@
                        && store.session_users@[ii].user_type@ == role@ && store.users@[jj] == u
                        && u.id@ == store.session_users@[ii].user_id@;
                assert(crate::store::has_user(store.users@, store.session_users@[ii].user_id@));
            }
        }
    }
    None
}

/// Whether the store holds everything a booking needs: the program, its
/// coach, the member, and the member's enrollment in the program.
pub open spec fn create_session_refs_ok(store: Store, request: NewSessionRequest) -> bool {
    &&& crate::store::has_program(store.programs@, request.program_id@)
    &&& crate::store::has_user(
        store.users@,
        crate::store::program_at(store.programs@, request.program_id@).coach_id@,
    )
    &&& crate::store::has_user(store.users@, request.member_id@)
    &&& crate::store::has_member_enrollment(
        store.enrollments@,
        request.program_id@,
        request.member_id@,
    )
}

/// Everything one created session writes in one transaction: the row
/// itself, its two participant associations, the enrollment gone stale,
/// and exactly one staged invitation mail.
pub open spec fn created_session_shape(
    a: Store,
    b: Store,
    request: NewSessionRequest,
    x: Session,
    program: Program,
    coach: User,
    member: User,
    e: Enrollment,
    now: i64,
) -> bool {
    &&& exists|i: int| 0 <= i < a.programs@.len() && a.programs@[i] == program
    &&& program.id@ == request.program_id@
    &&& exists|i: int| 0 <= i < a.users@.len() && a.users@[i] == coach
    &&& coach.id@ == program.coach_id@
    &&& exists|i: int| 0 <= i < a.users@.len() && a.users@[i] == member
    &&& member.id@ == request.member_id@
    &&& exists|i: int| 0 <= i < a.enrollments@.len() && a.enrollments@[i] == e
    &&& e.program_id@ == program.id@
    &&& e.member_id@ == member.id@
    // the session row
    &&& b.sessions@ == a.sessions@.push(x)
    &&& x.id@.len() == 36
    &&& x.name@ == request.name@
    &&& x.description matches Some(d) && d@ == request.description@
    &&& x.program_id@ == request.program_id@
    &&& x.enrollment_id@ == e.id@
    &&& x.people matches Some(p) && p@ == coach.full_name@ + " and "@ + member.full_name@
    &&& x.duration == request.duration
    &&& crate::commons::util::parsed_schedule_of(request.start_time@) matches Some(t)
        ==> x.original_start_date == crate::commons::util::minute_floor(t)
    &&& x.original_end_date == x.original_start_date + request.duration * 60
    &&& !x.is_ready
    &&& x.actual_start_date is None
    &&& x.actual_end_date is None
    &&& x.cancelled_at is None
    &&& x.closing_notes is None
    &&& x.conference_id is None
    &&& x.created_at == now
    // the two participant associations
    &&& b.session_users@.len() == a.session_users@.len() + 2
    &&& b.session_users@ == a.session_users@.push(
        b.session_users@[a.session_users@.len() as int],
    ).push(b.session_users@.last())
    &&& b.session_users@[a.session_users@.len() as int].session_id@ == x.id@
    &&& b.session_users@[a.session_users@.len() as int].user_id@ == coach.id@
    &&& b.session_users@[a.session_users@.len() as int].user_type@ == crate::commons::util::COACH@
    &&& b.session_users@.last().session_id@ == x.id@
    &&& b.session_users@.last().user_id@ == member.id@
    &&& b.session_users@.last().user_type@ == crate::commons::util::MEMBER@
    // the enrollment is no longer new
    &&& b.enrollments@.len() == a.enrollments@.len()
    &&& forall|i: int|
        0 <= i < a.enrollments@.len() ==> b.enrollments@[i] == (if a.enrollments@[i].id@ == e.id@ {
            crate::services::enrollments::marked_old(a.enrollments@[i])
        } else {
            a.enrollments@[i]
        })
    // exactly one staged invitation mail
    &&& staged_mail_appended(
        a,
        b,
        coach.id@,
        x.program_id@,
        x.enrollment_id@,
        x.name@,
        invite_content(x, coach, member),
        EVENT@,
        member,
        coach,
        now,
    )
}

fn session_row_exec(n: &NewSession, now: i64) -> (r: Session)
    ensures
        r == session_row(*n, now),
{
    Session {
        id: n.id.clone(),
        name: n.name.clone(),
        description: Some(n.description.clone()),
        program_id: n.program_id.clone(),
        enrollment_id: n.enrollment_id.clone(),
        people: Some(n.people.clone()),
        duration: n.duration,
        original_start_date: n.original_start_date,
        original_end_date: n.original_end_date,
        revised_start_date: None,
        revised_end_date: None,
        offered_start_date: None,
        offered_end_date: None,
        is_ready: n.is_ready,
        actual_start_date: None,
        actual_end_date: None,
        cancelled_at: None,
        created_at: now,
        updated_at: now,
        closing_notes: None,
        conference_id: match &n.conference_id {
            Some(c) => Some(c.clone()),
            None => None,
        },
        session_type: n.session_type.clone(),
    }
}

/// Books a stand-alone session: one session row, its coach and member
/// associations, the enrollment marked stale, and exactly one staged
/// invitation mail, all in one transaction.
pub fn create_session(store: &mut Store, request: &NewSessionRequest, now: i64) -> (r: Result<
    Session,
    ServiceError,
>)
    requires
        old(store).wf(),
    ensures
        final(store).wf(),
        same_directory(*old(store), *final(store)),
        same_discussions(*old(store), *final(store)),
        final(store).conferences@ == old(store).conferences@,
        r is Err ==> unchanged(*old(store), *final(store)),
        r is Err ==> (r == Err::<Session, ServiceError>(ServiceError::NotFound) || r == Err::<
            Session,
            ServiceError,
        >(ServiceError::PersistenceError)),
        r == Err::<Session, ServiceError>(ServiceError::NotFound) <==> !create_session_refs_ok(
            *old(store),
            *request,
        ),
        r == Err::<Session, ServiceError>(ServiceError::PersistenceError)
            ==> create_session_refs_ok(*old(store), *request),
        r matches Ok(x) ==> exists|program: Program, coach: User, member: User, e: Enrollment|
            created_session_shape(
                *old(store),
                *final(store),
                *request,
                x,
                program,
                coach,
                member,
                e,
                now,
            ),
{
    let program: Program = match programs::find(store, request.program_id.as_str()) {
        Ok(p) => p,
        Err(_) => {
            return Err(ServiceError::NotFound);
        },
    };
    proof {
        let i = choose|i: int|
            0 <= i < store.programs@.len() && store.programs@[i] == program && program.id@
                == request.program_id@;
        crate::store::lemma_program_index_is(store.programs@, request.program_id@, i);
        assert(crate::store::program_at(store.programs@, request.program_id@) == program);
    }
    let coach: User = match users::find(store, program.coach_id.as_str()) {
        Ok(u) => u,
        Err(_) => {
            return Err(ServiceError::NotFound);
        },
    };
    let member: User = match users::find(store, request.member_id.as_str()) {
        Ok(u) => u,
        Err(_) => {
            return Err(ServiceError::NotFound);
        },
    };
    let enrollment: Enrollment = match enrollments::find(store, &program, &member) {
        Ok(e) => e,
        Err(_) => {
            return Err(ServiceError::NotFound);
        },
    };
    proof {
        assert(create_session_refs_ok(*store, *request));
    }
    let people_involved: String = util::concat(coach.full_name.as_str(), member.full_name.as_str());
    let new_session = NewSession::from(request, enrollment.id.clone(), people_involved);
    let preview: Session = session_row_exec(&new_session, now);
    let mail_out: MailOut = MailOut::for_new_session(&preview, &coach, &member, now);
    if session_index_of(&store.sessions, new_session.id.as_str()).is_some() {
        return Err(ServiceError::PersistenceError);
    }
    if crate::services::correspondences::correspondence_index_of(
        &store.correspondences,
        mail_out.id.as_str(),
    ).is_some() {
        return Err(ServiceError::PersistenceError);
    }
    let session: Session = match insert_session(store, &new_session, now) {
        Ok(s) => s,
        Err(_) => {
            // The fresh session id was checked free before any write.
            proof {
                assert(false);
            }
            return Err(ServiceError::PersistenceError);
        },
    };
    let new_session_coach = NewSessionUser::from(&session, &coach, util::COACH);
    let new_session_member = NewSessionUser::from(&session, &member, util::MEMBER);
    let _ = insert_session_users(store, new_session_coach, new_session_member);
    let _ = enrollments::mark_as_old(store, enrollment.id.as_str());
    let recipients: Vec<MailRecipient> = MailRecipient::build_recipients(
        &member,
        &coach,
        mail_out.id.as_str(),
    );
    let ghost mo = mail_out;
    let ghost recs = recipients@;
    match create_mail(store, mail_out, recipients, now) {
        Ok(_) => {},
        Err(_) => {
            // The fresh mail id was checked free before any write.
            proof {
                assert(false);
            }
            return Err(ServiceError::PersistenceError);
        },
    }
    proof {
        let a = *old(store);
        let b = *store;
        assert(b.correspondences@ =~= a.correspondences@.push(
            crate::services::correspondences::mail_row(mo, now),
        ));
        assert(b.mail_recipients@[a.mail_recipients@.len() as int] == recs[0]);
        assert(b.mail_recipients@.last() == recs[1]);
        assert(b.mail_recipients@ =~= a.mail_recipients@ + seq![
            b.mail_recipients@[a.mail_recipients@.len() as int],
            b.mail_recipients@.last(),
        ]);
        assert(b.session_users@ =~= a.session_users@.push(
            b.session_users@[a.session_users@.len() as int],
        ).push(b.session_users@.last()));
        assert(created_session_shape(
            a,
            b,
            *request,
            session,
            program,
            coach,
            member,
            enrollment,
            now,
        ));
    }
    Ok(session)
}

/// What one lifecycle command does to the store: refused outright on a
/// terminal event, fanned out over the whole conference where the session
/// belongs to one, and on a stand-alone cancellation joined by exactly
/// one staged cancellation mail.
pub open spec fn state_change_outcome(
    a: Store,
    b: Store,
    request: ChangeSessionStateRequest,
    r: Result<Session, ServiceError>,
    now: i64,
) -> bool {
    let present = has_session(a.sessions@, request.id@);
    let s = session_at(a.sessions@, request.id@);
    let wants_cancel_mail = present && !s.is_terminal() && s.conference_id is None
        && request.target_state == TargetState::CANCEL;
    &&& (r == Err::<Session, ServiceError>(ServiceError::StateChangeProhibited) <==> present
        && s.is_terminal())
    &&& (r == Err::<Session, ServiceError>(ServiceError::NotFound) <==> !present || (
    wants_cancel_mail && !(has_participant(
        a.session_users@,
        a.users@,
        request.id@,
        crate::commons::util::COACH@,
    ) && has_participant(
        a.session_users@,
        a.users@,
        request.id@,
        crate::commons::util::MEMBER@,
    ))))
    &&& (r == Err::<Session, ServiceError>(ServiceError::PersistenceError) ==> wants_cancel_mail)
    &&& (r is Err ==> r == Err::<Session, ServiceError>(ServiceError::NotFound) || r == Err::<
        Session,
        ServiceError,
    >(ServiceError::StateChangeProhibited) || r == Err::<Session, ServiceError>(
        ServiceError::PersistenceError,
    ))
    &&& (r matches Ok(x) ==> {
        &&& present
        &&& !s.is_terminal()
        &&& x == transited_session(s, request.target_state, request.closing_notes, now)
        &&& b.session_users@ == a.session_users@
        &&& match s.conference_id {
            Some(c) => fanout_updated(
                a,
                b,
                c@,
                request.target_state,
                request.closing_notes,
                now,
            ) && same_mails(a, b),
            None => {
                &&& mono_updated(a, b, request.id@, request.target_state, request.closing_notes, now)
                &&& (request.target_state != TargetState::CANCEL ==> same_mails(a, b))
                &&& (request.target_state == TargetState::CANCEL ==> exists|coach: User, member: User|
                    {
                        &&& participant_pair(
                            a.session_users@,
                            a.users@,
                            request.id@,
                            crate::commons::util::COACH@,
                            coach,
                        )
                        &&& participant_pair(
                            a.session_users@,
                            a.users@,
                            request.id@,
                            crate::commons::util::MEMBER@,
                            member,
                        )
                        &&& staged_mail_appended(
                            a,
                            b,
                            coach.id@,
                            x.program_id@,
                            x.enrollment_id@,
                            x.name@,
                            cancel_content(x, coach, member),
                            EVENT@,
                            member,
                            coach,
                            now,
                        )
                    })
            },
        }
    })
}

/// Drives one event through one lifecycle command, in one transaction.
/// A terminal event is never touched: the guard refuses the command and
/// the store keeps every table as it was. The guard reads the session
/// row the request names; on every store this library writes, that row
/// and its conference row turn terminal together, since the fan-out
/// moves them in one call. A conference session carries the command to
/// its conference row and every sibling session, all stamped with this
/// single clock reading. Cancelling a stand-alone session additionally
/// stages exactly one cancellation mail.
pub fn change_session_state(
    store: &mut Store,
    request: &ChangeSessionStateRequest,
    now: i64,
) -> (r: Result<Session, ServiceError>)
    requires
        old(store).wf(),
    ensures
        final(store).wf(),
        same_directory(*old(store), *final(store)),
        same_enrollments(*old(store), *final(store)),
        same_discussions(*old(store), *final(store)),
        r is Err ==> unchanged(*old(store), *final(store)),
        state_change_outcome(*old(store), *final(store), *request, r, now),
{
    let s: Session = match find(store, request.id.as_str()) {
        Ok(s) => s,
        Err(_) => {
            return Err(ServiceError::NotFound);
        },
    };
    proof {
        let i = choose|i: int|
            0 <= i < store.sessions@.len() && store.sessions@[i] == s && s.id@ == request.id@;
        lemma_session_index_is(store.sessions@, request.id@, i);
        assert(session_at(store.sessions@, request.id@) == s);
    }
    if !s.can_transition() {
        return Err(ServiceError::StateChangeProhibited);
    }
    let updated: Session = s.with_transition(request, now);
    match &s.conference_id {
        Some(cid) => {
            let conf_key: String = cid.clone();
            let _ = do_alter_multi_sessions_state(store, request, conf_key.as_str(), now);
            let _ = crate::services::conferences::sync_conference_state(
                store,
                request,
                conf_key.as_str(),
                now,
            );
            Ok(updated)
        },
        None => {
            let is_cancel: bool = request.target_state == TargetState::CANCEL;
            if is_cancel {
                let coach: User = match find_participant(store, request.id.as_str(), util::COACH) {
                    Some(u) => u,
                    None => {
                        return Err(ServiceError::NotFound);
                    },
                };
                let member: User = match find_participant(
                    store,
                    request.id.as_str(),
                    util::MEMBER,
                ) {
                    Some(u) => u,
                    None => {
                        return Err(ServiceError::NotFound);
                    },
                };
                let mail_out: MailOut = MailOut::for_cancel_session(&updated, &coach, &member, now);
                if crate::services::correspondences::correspondence_index_of(
                    &store.correspondences,
                    mail_out.id.as_str(),
                ).is_some() {
                    return Err(ServiceError::PersistenceError);
                }
                let _ = do_alter_mono_session_state(store, request, now);
                let recipients: Vec<MailRecipient> = MailRecipient::build_recipients(
                    &member,
                    &coach,
                    mail_out.id.as_str(),
                );
                let ghost mo = mail_out;
                let ghost recs = recipients@;
                match create_mail(store, mail_out, recipients, now) {
                    Ok(_) => {},
                    Err(_) => {
                        // The fresh mail id was checked free before the
                        // session rows moved.
                        proof {
                            assert(false);
                        }
                        return Err(ServiceError::PersistenceError);
                    },
                }
                proof {
                    let a = *old(store);
                    let b = *store;
                    assert(b.correspondences@ =~= a.correspondences@.push(
                        crate::services::correspondences::mail_row(mo, now),
                    ));
                    assert(b.mail_recipients@[a.mail_recipients@.len() as int] == recs[0]);
                    assert(b.mail_recipients@.last() == recs[1]);
                    assert(b.mail_recipients@ =~= a.mail_recipients@ + seq![
                        b.mail_recipients@[a.mail_recipients@.len() as int],
                        b.mail_recipients@.last(),
                    ]);
                }
                Ok(updated)
            } else {
                let _ = do_alter_mono_session_state(store, request, now);
                Ok(updated)
            }
        },
    }
}

/// Unbooks a member's conference session: permitted only while the
/// session has neither started nor been cancelled; the association rows
/// leave with the session row.
pub fn remove_conference_session(store: &mut Store, conf_id: &str, given_member_id: &str) -> (r:
    Result<bool, ServiceError>)
    requires
        old(store).wf(),
    ensures
        final(store).wf(),
        same_directory(*old(store), *final(store)),
        same_enrollments(*old(store), *final(store)),
        same_mails(*old(store), *final(store)),
        same_discussions(*old(store), *final(store)),
        final(store).conferences@ == old(store).conferences@,
        r is Err ==> unchanged(*old(store), *final(store)),
        r is Err ==> (r == Err::<bool, ServiceError>(ServiceError::NotFound) || r == Err::<
            bool,
            ServiceError,
        >(ServiceError::UnremovableSession)),
        r == Err::<bool, ServiceError>(ServiceError::NotFound) <==> !has_conf_member_session(
            *old(store),
            conf_id@,
            given_member_id@,
        ),
        r == Err::<bool, ServiceError>(ServiceError::UnremovableSession) <==> exists|k: int|
            first_conf_member_index(*old(store), k, conf_id@, given_member_id@) && !old(
                store,
            ).sessions@[k].spec_can_delete(),
        r matches Ok(b) ==> b && exists|k: int|
            {
                &&& first_conf_member_index(*old(store), k, conf_id@, given_member_id@)
                &&& old(store).sessions@[k].spec_can_delete()
                &&& final(store).sessions@ == old(store).sessions@.remove(k)
                &&& final(store).session_users@ == old(store).session_users@.filter(
                    session_user_away(old(store).sessions@[k].id@),
                )
            },
{
    let session: Session = match find_by_conference(store, conf_id, given_member_id) {
        Ok(s) => s,
        Err(_) => {
            return Err(ServiceError::NotFound);
        },
    };
    let ghost k = choose|k: int|
        first_conf_member_index(*old(store), k, conf_id@, given_member_id@)
            && old(store).sessions@[k] == session;
    if !session.can_delete() {
        proof {
            assert(!old(store).sessions@[k].spec_can_delete());
        }
        return Err(ServiceError::UnremovableSession);
    }
    proof {
        assert forall|k2: int|
            first_conf_member_index(*old(store), k2, conf_id@, given_member_id@) implies k2
            == k by {
            if k2 < k {
                assert(!conf_member_session(
                    *old(store),
                    old(store).sessions@[k2],
                    conf_id@,
                    given_member_id@,
                ));
            } else if k < k2 {
                assert(!conf_member_session(
                    *old(store),
                    old(store).sessions@[k],
                    conf_id@,
                    given_member_id@,
                ));
            }
        }
    }
    delete_session_users_of(store, session.id.as_str());
    let idx: usize = match session_index_of(&store.sessions, session.id.as_str()) {
        Some(i) => i,
        None => {
            // The session was just found for the pair, so its id is here.
            proof {
                assert(false);
            }
            return Err(ServiceError::UnremovableSession);
        },
    };
    proof {
        lemma_session_index_is(store.sessions@, session.id@, idx as int);
        lemma_session_index_is(store.sessions@, session.id@, k);
        assert(idx as int == k);
    }
    let _removed = store.sessions.remove(idx);
    proof {
        assert forall|a: int, b: int|
            0 <= a < b < store.sessions@.len() implies store.sessions@[a].id@
            != store.sessions@[b].id@ by {
            let oa: int = if a < k {
                a
            } else {
                a + 1
            };
            let ob: int = if b < k {
                b
            } else {
                b + 1
            };
            assert(store.sessions@[a] == old(store).sessions@[oa]);
            assert(store.sessions@[b] == old(store).sessions@[ob]);
        }
    }
    Ok(true)
}

/// Keeps the association rows of every session but the named one.
pub open spec fn session_user_away(sid: Seq<char>) -> spec_fn(SessionUser) -> bool {
    |su: SessionUser| su.session_id@ != sid
}

/// Removes every association row of the named session.
fn delete_session_users_of(store: &mut Store, session_id: &str)
    ensures
        final(store).session_users@ == old(store).session_users@.filter(
            session_user_away(session_id@),
        ),
        final(store).sessions@ == old(store).sessions@,
        final(store).conferences@ == old(store).conferences@,
        final(store).users@ == old(store).users@,
        final(store).programs@ == old(store).programs@,
        final(store).enrollments@ == old(store).enrollments@,
        final(store).correspondences@ == old(store).correspondences@,
        final(store).mail_recipients@ == old(store).mail_recipients@,
        final(store).discussions@ == old(store).discussions@,
        final(store).feeds@ == old(store).feeds@,
{
    let key: String = session_id.to_owned();
    let mut kept: Vec<SessionUser> = Vec::new();
    let mut i: usize = 0;
    proof {
        reveal(Seq::filter);
    }
    while i < store.session_users.len()
        invariant
            0 <= i <= store.session_users@.len(),
            key@ == session_id@,
            kept@ == store.session_users@.take(i as int).filter(session_user_away(session_id@)),
        decreases store.session_users@.len() - i,
    {
        if !store.session_users[i].session_id.eq(&key) {
            kept.push(store.session_users[i].duplicate());
        }
        proof {
            crate::store::lemma_filter_take_step(
                store.session_users@,
                session_user_away(session_id@),
                i as int,
            );
        }
        i = i + 1;
    }
    proof {
        assert(store.session_users@.take(store.session_users@.len() as int)
            =~= store.session_users@);
    }
    store.session_users = kept;
}


/// Whether one returned row faithfully joins an association of the named
/// session with its user.
pub open spec fn person_of_session(store: Store, p: SessionPeople, sid: Seq<char>) -> bool {
    &&& exists|i: int| 0 <= i < store.session_users@.len() && store.session_users@[i] == p.session_user
    &&& p.session_user.session_id@ == sid
    &&& exists|j: int| 0 <= j < store.users@.len() && store.users@[j] == p.user
    &&& p.user.id@ == p.session_user.user_id@
}

/// Whether an association row belongs to a session of the named
/// conference.
pub open spec fn association_of_conference(store: Store, su: SessionUser, cid: Seq<char>) -> bool {
    exists|k: int|
        0 <= k < store.sessions@.len() && store.sessions@[k].id@ == su.session_id@ && (
        store.sessions@[k].conference_id matches Some(c) && c@ == cid)
}

/// Whether one returned row faithfully joins an association of the named
/// conference with its user.
pub open spec fn person_of_conference(store: Store, p: SessionPeople, cid: Seq<char>) -> bool {
    &&& exists|i: int| 0 <= i < store.session_users@.len() && store.session_users@[i] == p.session_user
    &&& association_of_conference(store, p.session_user, cid)
    &&& exists|j: int| 0 <= j < store.users@.len() && store.users@[j] == p.user
    &&& p.user.id@ == p.session_user.user_id@
}

/// The participants of one session, each association joined with its
/// user; associations whose user is unknown are left out, as an inner
/// join leaves them out.
pub fn get_session_people(store: &Store, given_session_id: &str) -> (r: Vec<SessionPeople>)
    ensures
        forall|k: int|
            0 <= k < r@.len() ==> person_of_session(*store, #[trigger] r@[k], given_session_id@),
        forall|i: int|
            0 <= i < store.session_users@.len() && (#[trigger] store.session_users@[i]).session_id@
                == given_session_id@ && crate::store::has_user(
                store.users@,
                store.session_users@[i].user_id@,
            ) ==> exists|k: int| 0 <= k < r@.len() && r@[k].session_user == store.session_users@[i],
{
    let key: String = given_session_id.to_owned();
    let mut out: Vec<SessionPeople> = Vec::new();
    let mut i: usize = 0;
    while i < store.session_users.len()
        invariant
            0 <= i <= store.session_users@.len(),
            key@ == given_session_id@,
            forall|k: int|
                0 <= k < out@.len() ==> person_of_session(
                    *store,
                    #[trigger] out@[k],
                    given_session_id@,
                ),
            forall|ii: int|
                0 <= ii < i && (#[trigger] store.session_users@[ii]).session_id@
                    == given_session_id@ && crate::store::has_user(
                    store.users@,
                    store.session_users@[ii].user_id@,
                ) ==> exists|k: int|
                    0 <= k < out@.len() && out@[k].session_user == store.session_users@[ii],
        decreases store.session_users@.len() - i,
    {
        let ghost prev = out@;
        if store.session_users[i].session_id.eq(&key) {
            match users::find(store, store.session_users[i].user_id.as_str()) {
                Ok(u) => {
                    let p = SessionPeople { session_user: store.session_users[i].duplicate(), user: u };
                    proof {
                        assert(p.session_user == store.session_users@[i as int]);
                    }
                    out.push(p);
                    proof {
                        assert(out@[out@.len() - 1].session_user == store.session_users@[i as int]);
                    }
                },
                Err(_) => {},
            }
        }
        proof {
            assert forall|ii: int|
                0 <= ii < i + 1 && (#[trigger] store.session_users@[ii]).session_id@
                    == given_session_id@ && crate::store::has_user(
                    store.users@,
                    store.session_users@[ii].user_id@,
                ) implies exists|k: int|
                0 <= k < out@.len() && out@[k].session_user == store.session_users@[ii] by {
                if ii < i {
                    let k = choose|k: int|
                        0 <= k < prev.len() && prev[k].session_user == store.session_users@[ii];
                    assert(out@[k].session_user == store.session_users@[ii]);
                } else {
                    assert(out@[out@.len() - 1].session_user == store.session_users@[ii]);
                }
            }
        }
        i = i + 1;
    }
    out
}

/// Every participant of every session of one conference, each
/// association joined with its user.
pub fn get_conference_people(store: &Store, conf_id: &str) -> (r: Vec<SessionPeople>)
    requires
        store.wf(),
    ensures
        forall|k: int|
            0 <= k < r@.len() ==> person_of_conference(*store, #[trigger] r@[k], conf_id@),
        forall|i: int|
            0 <= i < store.session_users@.len() && association_of_conference(
                *store,
                #[trigger] store.session_users@[i],
                conf_id@,
            ) && crate::store::has_user(store.users@, store.session_users@[i].user_id@) ==> exists|
                k: int,
            | 0 <= k < r@.len() && r@[k].session_user == store.session_users@[i],
{
    let ckey: String = conf_id.to_owned();
    let mut out: Vec<SessionPeople> = Vec::new();
    let mut i: usize = 0;
    while i < store.session_users.len()
        invariant
            store.wf(),
            0 <= i <= store.session_users@.len(),
            ckey@ == conf_id@,
            forall|k: int|
                0 <= k < out@.len() ==> person_of_conference(*store, #[trigger] out@[k], conf_id@),
            forall|ii: int|
                0 <= ii < i && association_of_conference(
                    *store,
                    #[trigger] store.session_users@[ii],
                    conf_id@,
                ) && crate::store::has_user(store.users@, store.session_users@[ii].user_id@)
                    ==> exists|k: int|
                    0 <= k < out@.len() && out@[k].session_user == store.session_users@[ii],
        decreases store.session_users@.len() - i,
    {
        let ghost prev = out@;
        let of_conference: bool = match session_index_of(
            &store.sessions,
            store.session_users[i].session_id.as_str(),
        ) {
            Some(si) => {
                let matches_conf: bool = match &store.sessions[si].conference_id {
                    Some(c) => c.eq(&ckey),
                    None => false,
                };
                proof {
                    if matches_conf {
                        assert(association_of_conference(
                            *store,
                            store.session_users@[i as int],
                            conf_id@,
                        ));
                    } else {
                        assert forall|k: int|
                            0 <= k < store.sessions@.len() && store.sessions@[k].id@
                                == store.session_users@[i as int].session_id@ implies !(
                        store.sessions@[k].conference_id matches Some(c) && c@ == conf_id@) by {
                            lemma_session_index_is(
                                store.sessions@,
                                store.session_users@[i as int].session_id@,
                                k,
                            );
                            lemma_session_index_is(
                                store.sessions@,
                                store.session_users@[i as int].session_id@,
                                si as int,
                            );
                        }
                    }
                }
                matches_conf
            },
            None => {
                proof {
                    assert(!association_of_conference(
                        *store,
                        store.session_users@[i as int],
                        conf_id@,
                    ));
                }
                false
            },
        };
        if of_conference {
            match users::find(store, store.session_users[i].user_id.as_str()) {
                Ok(u) => {
                    let p = SessionPeople { session_user: store.session_users[i].duplicate(), user: u };
                    proof {
                        assert(p.session_user == store.session_users@[i as int]);
                    }
                    out.push(p);
                    proof {
                        assert(out@[out@.len() - 1].session_user == store.session_users@[i as int]);
                    }
                },
                Err(_) => {},
            }
        }
        proof {
            assert forall|ii: int|
                0 <= ii < i + 1 && association_of_conference(
                    *store,
                    #[trigger] store.session_users@[ii],
                    conf_id@,
                ) && crate::store::has_user(store.users@, store.session_users@[ii].user_id@)
                implies exists|k: int|
                0 <= k < out@.len() && out@[k].session_user == store.session_users@[ii] by {
                if ii < i {
                    let k = choose|k: int|
                        0 <= k < prev.len() && prev[k].session_user == store.session_users@[ii];
                    assert(out@[k].session_user == store.session_users@[ii]);
                } else {
                    assert(out@[out@.len() - 1].session_user == store.session_users@[ii]);
                }
            }
        }
        i = i + 1;
    }
    out
}

/// The people of one event: for a conference session, everyone across
/// the whole conference; for a stand-alone session, its own pair.
pub fn get_people(store: &Store, criteria: &SessionCriteria) -> (r: Result<
    Vec<SessionPeople>,
    ServiceError,
>)
    requires
        store.wf(),
    ensures
        r is Ok <==> has_session(store.sessions@, criteria.id@),
        r is Err ==> (r matches Err(e) && e == ServiceError::NotFound),
        r matches Ok(v) ==> {
            let s = session_at(store.sessions@, criteria.id@);
            match s.conference_id {
                Some(c) => forall|k: int|
                    0 <= k < v@.len() ==> person_of_conference(*store, #[trigger] v@[k], c@),
                None => forall|k: int|
                    0 <= k < v@.len() ==> person_of_session(*store, #[trigger] v@[k], criteria.id@),
            }
        },
{
    let session: Session = match find(store, criteria.id.as_str()) {
        Ok(s) => s,
        Err(_) => {
            return Err(ServiceError::NotFound);
        },
    };
    proof {
        let i = choose|i: int|
            0 <= i < store.sessions@.len() && store.sessions@[i] == session && session.id@
                == criteria.id@;
        lemma_session_index_is(store.sessions@, criteria.id@, i);
        assert(session_at(store.sessions@, criteria.id@) == session);
    }
    match &session.conference_id {
        Some(cid) => {
            let conf_key: String = cid.clone();
            Ok(get_conference_people(store, conf_key.as_str()))
        },
        None => Ok(get_session_people(store, criteria.id.as_str())),
    }
}

} // verus!
