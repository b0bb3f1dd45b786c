use vstd::prelude::*;

use crate::commons::chassis::ServiceError;
use crate::commons::util;
use crate::models::conferences::{
    transited_conference, Conference, IntentionState, MemberRequest, NewConference,
    NewConferenceRequest,
};
use crate::models::correspondences::{invite_content, MailOut, MailRecipient, EVENT};
use crate::models::programs::Program;
use crate::models::sessions::{ChangeSessionStateRequest, NewSession, Session};
use crate::models::users::User;
use crate::services::correspondences::{create_mail, staged_mail_appended};
use crate::services::enrollments;
use crate::services::programs;
use crate::services::sessions::{
    find_by_conference, first_conf_member_index, has_conf_member_session, insert_session,
    insert_session_member, remove_conference_session, session_index_of, session_row,
};
use crate::services::users;
use crate::store::{
    has_conference, has_program, has_session, same_directory, same_discussions, same_enrollments,
    same_mails, unchanged, Store,
};

verus! {

/// The conference row that persisting the given new conference writes.
pub open spec fn conference_row(n: NewConference, now: i64) -> Conference {
    Conference {
        id: n.id,
        name: n.name,
        description: Some(n.description),
        program_id: n.program_id,
        people: Some(n.people),
        duration: n.duration,
        original_start_date: n.original_start_date,
        original_end_date: n.original_end_date,
        revised_start_date: None,
        revised_end_date: None,
        offered_start_date: None,
        offered_end_date: None,
        is_ready: false,
        actual_start_date: None,
        actual_end_date: None,
        cancelled_at: None,
        closing_notes: None,
        created_at: now,
        updated_at: now,
    }
}

pub(crate) fn conference_index_of(s: &Vec<Conference>, id: &str) -> (r: Option<usize>)
    ensures
        match r {
            Some(i) => i < s@.len() && s@[i as int].id@ == id@,
            None => !has_conference(s@, id@),
        },
{
    let key: String = id.to_owned();
    let mut i: usize = 0;
    while i < s.len()
        invariant
            0 <= i <= s@.len(),
            key@ == id@,
            forall|j: int| 0 <= j < i ==> s@[j].id@ != id@,
        decreases s@.len() - i,
    {
        if s[i].id.eq(&key) {
            return Some(i);
        }
        i = i + 1;
    }
    None
}

/// The conference with the given id.
pub fn find(store: &Store, conf_id: &str) -> (r: Result<Conference, ServiceError>)
    ensures
        r is Ok <==> has_conference(store.conferences@, conf_id@),
        r matches Ok(c) ==> exists|i: int|
            0 <= i < store.conferences@.len() && store.conferences@[i] == c && c.id@ == conf_id@,
        r is Err ==> (r matches Err(e) && e == ServiceError::NotFound),
{
    match conference_index_of(&store.conferences, conf_id) {
        Some(i) => {
            let c = store.conferences[i].duplicate();
            proof {
                assert(store.conferences@[i as int] == c);
            }
            Ok(c)
        },
        None => Err(ServiceError::NotFound),
    }
}

/// Appends one conference row; refused only where the fresh id already
/// exists, as the store's primary key would refuse it.
fn insert_conference(store: &mut Store, new_conference: NewConference, now: i64) -> (r: Result<
    Conference,
    ServiceError,
>)
    requires
        old(store).wf(),
    ensures
        final(store).wf(),
        same_directory(*old(store), *final(store)),
        same_enrollments(*old(store), *final(store)),
        same_mails(*old(store), *final(store)),
        same_discussions(*old(store), *final(store)),
        final(store).sessions@ == old(store).sessions@,
        final(store).session_users@ == old(store).session_users@,
        r is Err ==> (unchanged(*old(store), *final(store)) && r == Err::<
            Conference,
            ServiceError,
        >(ServiceError::PersistenceError)),
        r matches Ok(c) ==> c == conference_row(new_conference, now) && final(store).conferences@
            == old(store).conferences@.push(c),
{
    if conference_index_of(&store.conferences, new_conference.id.as_str()).is_some() {
        return Err(ServiceError::PersistenceError);
    }
    let row = Conference {
        id: new_conference.id,
        name: new_conference.name,
        description: Some(new_conference.description),
        program_id: new_conference.program_id,
        people: Some(new_conference.people),
        duration: new_conference.duration,
        original_start_date: new_conference.original_start_date,
        original_end_date: new_conference.original_end_date,
        revised_start_date: None,
        revised_end_date: None,
        offered_start_date: None,
        offered_end_date: None,
        is_ready: false,
        actual_start_date: None,
        actual_end_date: None,
        cancelled_at: None,
        closing_notes: None,
        created_at: now,
        updated_at: now,
    };
    let dup = row.duplicate();
    store.conferences.push(row);
    proof {
        assert forall|a: int, b: int|
            0 <= a < b < store.conferences@.len() implies store.conferences@[a].id@
            != store.conferences@[b].id@ by {
            if b == store.conferences@.len() - 1 {
                assert(store.conferences@[a] == old(store).conferences@[a]);
            }
        }
    }
    Ok(dup)
}

/// Keeps the conference row's state in step with its sessions: the same
/// command its sessions just went through, stamped with the same clock
/// reading.
pub fn sync_conference_state(
    store: &mut Store,
    request: &ChangeSessionStateRequest,
    conf_id: &str,
    now: i64,
) -> (r: Result<usize, ServiceError>)
    requires
        old(store).wf(),
    ensures
        final(store).wf(),
        same_directory(*old(store), *final(store)),
        same_enrollments(*old(store), *final(store)),
        same_mails(*old(store), *final(store)),
        same_discussions(*old(store), *final(store)),
        final(store).sessions@ == old(store).sessions@,
        final(store).session_users@ == old(store).session_users@,
        final(store).conferences@.len() == old(store).conferences@.len(),
        forall|i: int|
            0 <= i < old(store).conferences@.len() ==> final(store).conferences@[i] == (
            if old(store).conferences@[i].id@ == conf_id@ {
                transited_conference(
                    old(store).conferences@[i],
                    request.target_state,
                    request.closing_notes,
                    now,
                )
            } else {
                old(store).conferences@[i]
            }),
        has_conference(old(store).conferences@, conf_id@) ==> r == Ok::<usize, ServiceError>(
            1usize,
        ),
        !has_conference(old(store).conferences@, conf_id@) ==> r == Ok::<usize, ServiceError>(
            0usize,
        ),
{
    let key: String = conf_id.to_owned();
    let mut count: usize = 0;
    let mut i: usize = 0;
    while i < store.conferences.len()
        invariant
            old(store).wf(),
            0 <= i <= store.conferences@.len(),
            key@ == conf_id@,
            count <= i,
            (count as int) == (if (exists|j: int|
                0 <= j < i && old(store).conferences@[j].id@ == conf_id@) {
                1int
            } else {
                0int
            }),
            store.conferences@.len() == old(store).conferences@.len(),
            same_directory(*old(store), *store),
            same_enrollments(*old(store), *store),
            same_mails(*old(store), *store),
            same_discussions(*old(store), *store),
            store.sessions@ == old(store).sessions@,
            store.session_users@ == old(store).session_users@,
            forall|j: int|
                0 <= j < i ==> store.conferences@[j] == (
                if old(store).conferences@[j].id@ == conf_id@ {
                    transited_conference(
                        old(store).conferences@[j],
                        request.target_state,
                        request.closing_notes,
                        now,
                    )
                } else {
                    old(store).conferences@[j]
                }),
            forall|j: int|
                i <= j < store.conferences@.len() ==> store.conferences@[j] == old(
                    store,
                ).conferences@[j],
        decreases store.conferences@.len() - i,
    {
        if store.conferences[i].id.eq(&key) {
            let upd = store.conferences[i].with_transition(request, now);
            store.conferences.set(i, upd);
            count = count + 1;
        }
        i = i + 1;
    }
    proof {
        assert forall|a: int, b: int|
            0 <= a < b < store.conferences@.len() implies store.conferences@[a].id@
            != store.conferences@[b].id@ by {
            assert(store.conferences@[a].id@ == old(store).conferences@[a].id@);
            assert(store.conferences@[b].id@ == old(store).conferences@[b].id@);
        }
    }
    Ok(count)
}

/// Everything finding-or-creating one member session guarantees: an
/// existing session for the pair comes back with nothing written at all
/// (adding a member twice leaves exactly one session); a fresh one
/// carries the conference's schedule and state snapshot, brings one
/// association row, stales the enrollment, and stages one invitation
/// mail unless the member is the coach.
pub open spec fn member_session_created(
    a: Store,
    b: Store,
    conference: Conference,
    member_id: Seq<char>,
    coach: User,
    x: Session,
    now: i64,
    member: User,
    e_id: Seq<char>,
) -> bool {
    &&& exists|i: int| 0 <= i < a.users@.len() && a.users@[i] == member
    &&& member.id@ == member_id
    // the fresh session snapshots the conference
    &&& b.sessions@ == a.sessions@.push(x)
    &&& x.id@.len() == 36
    &&& x.name@ == conference.name@
    &&& x.description matches Some(d) && d@ == (match conference.description {
        Some(v) => v@,
        None => "_"@,
    })
    &&& x.program_id@ == conference.program_id@
    &&& x.enrollment_id@ == e_id
    &&& exists|i: int|
        0 <= i < a.enrollments@.len() && a.enrollments@[i].id@ == e_id
            && a.enrollments@[i].member_id@ == member_id
    &&& x.duration == conference.duration
    &&& x.original_start_date == conference.original_start_date
    &&& x.original_end_date == conference.original_end_date
    &&& x.is_ready == conference.is_ready
    &&& x.conference_id matches Some(ci) && ci@ == conference.id@
    &&& x.session_type@ == util::MULTI@
    &&& x.actual_start_date is None
    &&& x.actual_end_date is None
    &&& x.cancelled_at is None
    &&& x.created_at == now
    // one association row for the member
    &&& b.session_users@.len() == a.session_users@.len() + 1
    &&& b.session_users@ == a.session_users@.push(b.session_users@.last())
    &&& b.session_users@.last().session_id@ == x.id@
    &&& b.session_users@.last().user_id@ == member.id@
    &&& b.session_users@.last().user_type@ == (if coach.id@ == member.id@ {
        util::COACH@
    } else {
        util::MEMBER@
    })
    // the enrollment is no longer new
    &&& b.enrollments@.len() == a.enrollments@.len()
    &&& forall|i: int|
        0 <= i < a.enrollments@.len() ==> b.enrollments@[i] == (if a.enrollments@[i].id@ == e_id {
            crate::services::enrollments::marked_old(a.enrollments@[i])
        } else {
            a.enrollments@[i]
        })
    // the invitation mail, skipped for the coach's own session
    &&& (coach.id@ == member.id@ ==> same_mails(a, b))
    &&& (coach.id@ != member.id@ ==> staged_mail_appended(
        a,
        b,
        coach.id@,
        x.program_id@,
        x.enrollment_id@,
        x.name@,
        invite_content(x, coach, member),
        EVENT@,
        member,
        coach,
        now,
    ))
}

pub open spec fn member_session_outcome(
    a: Store,
    b: Store,
    conference: Conference,
    member_id: Seq<char>,
    coach: User,
    x: Session,
    now: i64,
) -> bool {
    if has_conf_member_session(a, conference.id@, member_id) {
        &&& unchanged(a, b)
        &&& exists|k: int| first_conf_member_index(a, k, conference.id@, member_id) && a.sessions@[k] == x
    } else {
        exists|member: User, e_id: Seq<char>|
            member_session_created(a, b, conference, member_id, coach, x, now, member, e_id)
    }
}

/// Whether the store holds what a fresh member session needs: the member
/// and the member's enrollment in the conference's program.
pub open spec fn member_refs_ok(store: Store, program: Program, member_id: Seq<char>) -> bool {
    &&& crate::store::has_user(store.users@, member_id)
    &&& crate::store::has_member_enrollment(store.enrollments@, program.id@, member_id)
}

/// The member session of the pair, created from the conference's current
/// snapshot where none exists yet; idempotent for an existing pair.
pub fn find_or_create_session(
    store: &mut Store,
    conference: &Conference,
    member_id: &str,
    program: &Program,
    coach: &User,
    now: i64,
) -> (r: Result<Session, ServiceError>)
    requires
        old(store).wf(),
    ensures
        final(store).wf(),
        same_directory(*old(store), *final(store)),
        same_discussions(*old(store), *final(store)),
        final(store).conferences@ == old(store).conferences@,
        r is Err ==> unchanged(*old(store), *final(store)),
        r is Err ==> (r == Err::<Session, ServiceError>(ServiceError::StateChangeProhibited) || r
            == Err::<Session, ServiceError>(ServiceError::NotFound) || r == Err::<
            Session,
            ServiceError,
        >(ServiceError::PersistenceError)),
        r == Err::<Session, ServiceError>(ServiceError::StateChangeProhibited)
            <==> conference.is_terminal(),
        r == Err::<Session, ServiceError>(ServiceError::NotFound) <==> !conference.is_terminal()
            && !has_conf_member_session(*old(store), conference.id@, member_id@)
            && !member_refs_ok(*old(store), *program, member_id@),
        r == Err::<Session, ServiceError>(ServiceError::PersistenceError) ==> (
        !conference.is_terminal() && !has_conf_member_session(*old(store), conference.id@, member_id@)
            && member_refs_ok(*old(store), *program, member_id@)),
        r matches Ok(x) ==> member_session_outcome(
            *old(store),
            *final(store),
            *conference,
            member_id@,
            *coach,
            x,
            now,
        ),
{
    // A terminal conference admits no new member: its state could never
    // be carried onto the fresh session.
    if !conference.can_transition() {
        return Err(ServiceError::StateChangeProhibited);
    }
    match find_by_conference(store, conference.id.as_str(), member_id) {
        Ok(session) => {
            return Ok(session);
        },
        Err(_) => {},
    }
    let member: User = match users::find(store, member_id) {
        Ok(u) => u,
        Err(_) => {
            return Err(ServiceError::NotFound);
        },
    };
    let enrollment = match enrollments::find(store, program, &member) {
        Ok(e) => e,
        Err(_) => {
            return Err(ServiceError::NotFound);
        },
    };
    let is_coach_session: bool = coach.id.eq(&member.id);
    let people_involved: String = if is_coach_session {
        coach.full_name.clone()
    } else {
        util::concat(coach.full_name.as_str(), member.full_name.as_str())
    };
    let user_type: &str = if is_coach_session {
        util::COACH
    } else {
        util::MEMBER
    };
    let fuzzy_id = util::fuzzy_id();
    let new_session = NewSession {
        id: fuzzy_id,
        name: conference.name.clone(),
        description: conference.description().to_owned(),
        program_id: conference.program_id.clone(),
        enrollment_id: enrollment.id.clone(),
        people: people_involved,
        duration: conference.duration,
        original_start_date: conference.original_start_date,
        original_end_date: conference.original_end_date,
        conference_id: Some(conference.id.clone()),
        session_type: util::MULTI.to_owned(),
        is_ready: conference.is_ready,
    };
    let preview: Session = match insert_session_preview(store, &new_session, now) {
        Ok(p) => p,
        Err(e) => {
            return Err(e);
        },
    };
    let mail_out: MailOut = MailOut::for_new_session(&preview, coach, &member, now);
    if !is_coach_session && crate::services::correspondences::correspondence_index_of(
        &store.correspondences,
        mail_out.id.as_str(),
    ).is_some() {
        return Err(ServiceError::PersistenceError);
    }
    let session: Session = match insert_session(store, &new_session, now) {
        Ok(s) => s,
        Err(_) => {
            // The fresh session id was checked free before any write.
            proof {
                assert(false);
            }
            return Err(ServiceError::PersistenceError);
        },
    };
    let _ = insert_session_member(store, &session, &member, user_type);
    let _ = enrollments::mark_as_old(store, enrollment.id.as_str());
    if !is_coach_session {
        let recipients: Vec<MailRecipient> = MailRecipient::build_recipients(
            &member,
            coach,
            mail_out.id.as_str(),
        );
        let ghost mo = mail_out;
        let ghost recs = recipients@;
        match create_mail(store, mail_out, recipients, now) {
            Ok(_) => {},
            Err(_) => {
                // The fresh mail id was checked free before any write.
                proof {
                    assert(false);
                }
                return Err(ServiceError::PersistenceError);
            },
        }
        proof {
            let a = *old(store);
            let b = *store;
            assert(b.correspondences@ =~= a.correspondences@.push(
                crate::services::correspondences::mail_row(mo, now),
            ));
            assert(b.mail_recipients@[a.mail_recipients@.len() as int] == recs[0]);
            assert(b.mail_recipients@.last() == recs[1]);
            assert(b.mail_recipients@ =~= a.mail_recipients@ + seq![
                b.mail_recipients@[a.mail_recipients@.len() as int],
                b.mail_recipients@.last(),
            ]);
            assert(b.sessions@ =~= a.sessions@.push(session));
            assert(b.session_users@ =~= a.session_users@.push(b.session_users@.last()));
            assert(member_session_created(
                a,
                b,
                *conference,
                member_id@,
                *coach,
                session,
                now,
                member,
                enrollment.id@,
            ));
            assert(member_session_outcome(a, b, *conference, member_id@, *coach, session, now));
        }
        Ok(session)
    } else {
        proof {
            let a = *old(store);
            let b = *store;
            assert(b.sessions@ =~= a.sessions@.push(session));
            assert(b.session_users@ =~= a.session_users@.push(b.session_users@.last()));
            assert(member_session_created(
                a,
                b,
                *conference,
                member_id@,
                *coach,
                session,
                now,
                member,
                enrollment.id@,
            ));
            assert(member_session_outcome(a, b, *conference, member_id@, *coach, session, now));
        }
        Ok(session)
    }
}

/// Refuses a duplicate session id before anything is written, and hands
/// back the row the insert will write.
fn insert_session_preview(store: &Store, n: &NewSession, now: i64) -> (r: Result<
    Session,
    ServiceError,
>)
    ensures
        r is Err <==> has_session(store.sessions@, n.id@),
        r is Err ==> r == Err::<Session, ServiceError>(ServiceError::PersistenceError),
        r matches Ok(p) ==> p == session_row(*n, now),
{
    if session_index_of(&store.sessions, n.id.as_str()).is_some() {
        return Err(ServiceError::PersistenceError);
    }
    Ok(
        Session {
            id: n.id.clone(),
            name: n.name.clone(),
            description: Some(n.description.clone()),
            program_id: n.program_id.clone(),
            enrollment_id: n.enrollment_id.clone(),
            people: Some(n.people.clone()),
            duration: n.duration,
            original_start_date: n.original_start_date,
            original_end_date: n.original_end_date,
            revised_start_date: None,
            revised_end_date: None,
            offered_start_date: None,
            offered_end_date: None,
            is_ready: n.is_ready,
            actual_start_date: None,
            actual_end_date: None,
            cancelled_at: None,
            created_at: now,
            updated_at: now,
            closing_notes: None,
            conference_id: match &n.conference_id {
                Some(c) => Some(c.clone()),
                None => None,
            },
            session_type: n.session_type.clone(),
        },
    )
}

/// Books a conference: its row, the coach's self enrollment where none
/// exists, and the coach's own session, in one transaction.
pub fn create_conference(store: &mut Store, request: &NewConferenceRequest, now: i64) -> (r: Result<
    Conference,
    ServiceError,
>)
    requires
        old(store).wf(),
    ensures
        final(store).wf(),
        same_directory(*old(store), *final(store)),
        same_discussions(*old(store), *final(store)),
        same_mails(*old(store), *final(store)),
        r is Err ==> unchanged(*old(store), *final(store)),
        r is Err ==> (r == Err::<Conference, ServiceError>(ServiceError::NotFound) || r == Err::<
            Conference,
            ServiceError,
        >(ServiceError::PersistenceError)),
        r == Err::<Conference, ServiceError>(ServiceError::NotFound) <==> !has_program(
            old(store).programs@,
            request.program_id@,
        ) || !crate::store::has_user(
            old(store).users@,
            crate::store::program_at(old(store).programs@, request.program_id@).coach_id@,
        ),
        r == Err::<Conference, ServiceError>(ServiceError::PersistenceError) ==> (has_program(
            old(store).programs@,
            request.program_id@,
        ) && crate::store::has_user(
            old(store).users@,
            crate::store::program_at(old(store).programs@, request.program_id@).coach_id@,
        )),
        r matches Ok(c) ==> {
            &&& final(store).conferences@ == old(store).conferences@.push(c)
            &&& c.id@.len() == 36
            &&& c.name@ == request.name@
            &&& c.description matches Some(d) && d@ == request.description@
            &&& c.program_id@ == request.program_id@
            &&& c.duration == request.duration
            &&& crate::commons::util::parsed_schedule_of(request.start_time@) matches Some(t)
                ==> c.original_start_date == crate::commons::util::minute_floor(t)
            &&& c.original_end_date == c.original_start_date + request.duration * 60
            &&& !c.is_ready
            &&& c.actual_start_date is None
            &&& c.actual_end_date is None
            &&& c.cancelled_at is None
            &&& c.created_at == now
            &&& exists|coach: User|
                {
                    &&& exists|i: int|
                        0 <= i < old(store).users@.len() && old(store).users@[i] == coach
                    &&& coach.id@ == crate::store::program_at(
                        old(store).programs@,
                        request.program_id@,
                    ).coach_id@
                    &&& coach_session_booked(*old(store), *final(store), c, coach)
                    &&& ((forall|i: int|
                        0 <= i < old(store).sessions@.len() ==> !((
                        #[trigger] old(store).sessions@[i]).conference_id matches Some(ci) && ci@
                            == c.id@)) ==> crate::services::sessions::pair_count(
                        final(store).sessions@,
                        final(store).enrollments@,
                        c.id@,
                        coach.id@,
                    ) == 1 && final(store).sessions@.len() == old(store).sessions@.len() + 1)
                }
        },
{
    let program: Program = match programs::find(store, request.program_id.as_str()) {
        Ok(p) => p,
        Err(_) => {
            return Err(ServiceError::NotFound);
        },
    };
    proof {
        let i = choose|i: int|
            0 <= i < store.programs@.len() && store.programs@[i] == program && program.id@
                == request.program_id@;
        crate::store::lemma_program_index_is(store.programs@, request.program_id@, i);
        assert(crate::store::program_at(store.programs@, request.program_id@) == program);
    }
    let coach: User = match users::find(store, program.coach_id.as_str()) {
        Ok(u) => u,
        Err(_) => {
            return Err(ServiceError::NotFound);
        },
    };
    let people_involved: String = coach.full_name.clone();
    let new_conference = NewConference::from(request, people_involved);
    let conference: Conference = match insert_conference(store, new_conference, now) {
        Ok(c) => c,
        Err(e) => {
            return Err(e);
        },
    };
    let ghost m2 = *store;
    match create_coach_session(store, &conference, &program, &coach, now) {
        Ok(_) => {
            proof {
                lemma_booked_views(*old(store), m2, *store, conference, coach);
                if (forall|i: int|
                    0 <= i < old(store).sessions@.len() ==> !((
                    #[trigger] old(store).sessions@[i]).conference_id matches Some(ci) && ci@
                        == conference.id@)) {
                    let x = choose|x: Session|
                        {
                            &&& store.sessions@ == old(store).sessions@.push(x)
                            &&& crate::services::sessions::session_pair_match(
                                x,
                                store.enrollments@,
                                conference.id@,
                                coach.id@,
                            )
                            &&& x.name@ == conference.name@
                            &&& x.duration == conference.duration
                            &&& x.original_start_date == conference.original_start_date
                            &&& x.original_end_date == conference.original_end_date
                        };
                    crate::services::sessions::lemma_pair_count_zero_without_conference(
                        old(store).sessions@,
                        store.enrollments@,
                        conference.id@,
                        coach.id@,
                    );
                    crate::services::sessions::lemma_pair_count_push(
                        old(store).sessions@,
                        store.enrollments@,
                        x,
                        conference.id@,
                        coach.id@,
                    );
                }
            }
            Ok(conference)
        },
        Err(e) => {
            // One transaction: a failed coach session leaves nothing
            // behind, so the conference row leaves with it.
            rollback_conference(store, conference.id.as_str());
            proof {
                assert(store.conferences@ =~= old(store).conferences@);
            }
            Err(e)
        },
    }
}

/// Two stores with the same enrollments and sessions back the same
/// booked-coach-session shape.
proof fn lemma_booked_views(a1: Store, a2: Store, b: Store, conference: Conference, coach: User)
    requires
        a1.enrollments@ == a2.enrollments@,
        a1.sessions@ == a2.sessions@,
        coach_session_booked(a2, b, conference, coach),
    ensures
        coach_session_booked(a1, b, conference, coach),
{
    if b.sessions@ == a2.sessions@ {
    } else {
        let x = choose|x: Session|
            {
                &&& b.sessions@ == a2.sessions@.push(x)
                &&& x.conference_id matches Some(ci) && ci@ == conference.id@
                &&& x.name@ == conference.name@
                &&& x.program_id@ == conference.program_id@
                &&& x.duration == conference.duration
                &&& x.original_start_date == conference.original_start_date
                &&& x.original_end_date == conference.original_end_date
            };
        assert(b.sessions@ == a1.sessions@.push(x));
    }
    if (forall|i: int|
        0 <= i < a1.sessions@.len() ==> !((#[trigger] a1.sessions@[i]).conference_id matches Some(
            ci,
        ) && ci@ == conference.id@)) {
        assert(forall|i: int|
            0 <= i < a2.sessions@.len() ==> !((#[trigger] a2.sessions@[i]).conference_id
                matches Some(ci) && ci@ == conference.id@));
        let x = choose|x: Session|
            {
                &&& b.sessions@ == a2.sessions@.push(x)
                &&& crate::services::sessions::session_pair_match(
                    x,
                    b.enrollments@,
                    conference.id@,
                    coach.id@,
                )
                &&& x.name@ == conference.name@
                &&& x.duration == conference.duration
                &&& x.original_start_date == conference.original_start_date
                &&& x.original_end_date == conference.original_end_date
            };
        assert(b.sessions@ == a1.sessions@.push(x));
    }
}

/// Removes the conference row appended last, undoing the failed booking.
fn rollback_conference(store: &mut Store, conf_id: &str)
    requires
        old(store).conferences@.len() > 0,
        old(store).conferences@.last().id@ == conf_id@,
        old(store).wf(),
    ensures
        final(store).wf(),
        final(store).conferences@ == old(store).conferences@.drop_last(),
        same_directory(*old(store), *final(store)),
        same_enrollments(*old(store), *final(store)),
        same_mails(*old(store), *final(store)),
        same_discussions(*old(store), *final(store)),
        final(store).sessions@ == old(store).sessions@,
        final(store).session_users@ == old(store).session_users@,
{
    let _ = store.conferences.pop();
    proof {
        assert(store.conferences@ =~= old(store).conferences@.drop_last());
    }
}

/// The coach's own session of a fresh conference, carried by the coach's
/// self enrollment.
fn create_coach_session(
    store: &mut Store,
    conference: &Conference,
    program: &Program,
    coach: &User,
    now: i64,
) -> (r: Result<Session, ServiceError>)
    requires
        old(store).wf(),
        !conference.is_terminal(),
        exists|i: int| 0 <= i < old(store).programs@.len() && old(store).programs@[i] == *program,
        program.id@ == conference.program_id@,
        exists|i: int| 0 <= i < old(store).users@.len() && old(store).users@[i] == *coach,
        coach.id@ == program.coach_id@,
    ensures
        final(store).wf(),
        same_directory(*old(store), *final(store)),
        same_discussions(*old(store), *final(store)),
        same_mails(*old(store), *final(store)),
        final(store).conferences@ == old(store).conferences@,
        r is Err ==> (unchanged(*old(store), *final(store)) && r == Err::<Session, ServiceError>(
            ServiceError::PersistenceError,
        )),
        r is Ok ==> coach_session_booked(*old(store), *final(store), *conference, *coach),
{
    proof {
        let i = choose|i: int|
            0 <= i < store.programs@.len() && store.programs@[i] == *program;
        crate::store::lemma_program_index_is(store.programs@, conference.program_id@, i);
        assert(crate::store::program_at(store.programs@, conference.program_id@) == *program);
    }
    let saved: Vec<crate::models::enrollments::Enrollment> = enrollments::copy_enrollments(
        &store.enrollments,
    );
    match enrollments::find_or_create_coach_enrollment(store, conference.program_id.as_str(), now) {
        Ok(_) => {},
        Err(e) => {
            proof {
                assert(crate::store::has_program(old(store).programs@, conference.program_id@));
            }
            return Err(e);
        },
    }
    let ghost mid = *store;
    let coach_id: String = coach.id.clone();
    proof {
        assert(member_refs_ok(mid, *program, coach_id@));
    }
    match find_or_create_session(store, conference, coach_id.as_str(), program, coach, now) {
        Ok(x) => {
            proof {
                lemma_coach_session_shape(*old(store), mid, *store, *conference, *coach, x, now);
            }
            Ok(x)
        },
        Err(e) => {
            // One transaction: a failed coach session takes the coach
            // enrollment write back with it.
            store.enrollments = saved;
            proof {
                assert(unchanged(*old(store), *store));
            }
            Err(e)
        },
    }
}

/// Everything booking the coach's own session changes: enrollments grow
/// by at most the coach's self enrollment and lose only `is_new` marks;
/// and where nothing yet carried the fresh conference id, exactly one
/// session does afterwards, matched to the coach.
pub open spec fn coach_session_booked(a: Store, b: Store, conference: Conference, coach: User) -> bool {
    &&& b.enrollments@.len() == a.enrollments@.len() || b.enrollments@.len() == a.enrollments@.len()
        + 1
    &&& forall|i: int|
        0 <= i < a.enrollments@.len() ==> (#[trigger] b.enrollments@[i] == a.enrollments@[i]
            || b.enrollments@[i] == crate::services::enrollments::marked_old(a.enrollments@[i]))
    &&& b.enrollments@.len() == a.enrollments@.len() + 1 ==> (b.enrollments@.last().program_id@
        == conference.program_id@ && b.enrollments@.last().member_id@ == coach.id@)
    &&& crate::store::has_member_enrollment(b.enrollments@, conference.program_id@, coach.id@)
    &&& (b.sessions@ == a.sessions@ || exists|x: Session|
        {
            &&& b.sessions@ == a.sessions@.push(x)
            &&& x.conference_id matches Some(ci) && ci@ == conference.id@
            &&& x.name@ == conference.name@
            &&& x.program_id@ == conference.program_id@
            &&& x.duration == conference.duration
            &&& x.original_start_date == conference.original_start_date
            &&& x.original_end_date == conference.original_end_date
        })
    &&& ((forall|i: int|
        0 <= i < a.sessions@.len() ==> !((#[trigger] a.sessions@[i]).conference_id matches Some(
            ci,
        ) && ci@ == conference.id@)) ==> exists|x: Session|
        {
            &&& b.sessions@ == a.sessions@.push(x)
            &&& crate::services::sessions::session_pair_match(
                x,
                b.enrollments@,
                conference.id@,
                coach.id@,
            )
            &&& x.name@ == conference.name@
            &&& x.duration == conference.duration
            &&& x.original_start_date == conference.original_start_date
            &&& x.original_end_date == conference.original_end_date
        })
}

/// Reads the per-step contracts of the coach enrollment and the coach
/// session back into the one shape `coach_session_booked` states.
proof fn lemma_coach_session_shape(
    a: Store,
    mid: Store,
    b: Store,
    conference: Conference,
    coach: User,
    x: Session,
    now: i64,
)
    requires
        mid.enrollments@ == a.enrollments@ || (mid.enrollments@.len() == a.enrollments@.len() + 1
            && mid.enrollments@ == a.enrollments@.push(mid.enrollments@.last())
            && mid.enrollments@.last().program_id@ == conference.program_id@
            && mid.enrollments@.last().member_id@ == coach.id@),
        crate::store::has_member_enrollment(mid.enrollments@, conference.program_id@, coach.id@),
        mid.sessions@ == a.sessions@,
        member_session_outcome(mid, b, conference, coach.id@, coach, x, now),
    ensures
        coach_session_booked(a, b, conference, coach),
{
    if has_conf_member_session(mid, conference.id@, coach.id@) {
        assert(unchanged(mid, b));
        assert(forall|i: int|
            0 <= i < a.enrollments@.len() ==> #[trigger] b.enrollments@[i] == mid.enrollments@[i]);
        let w = choose|i: int|
            0 <= i < mid.enrollments@.len() && mid.enrollments@[i].program_id@
                == conference.program_id@ && mid.enrollments@[i].member_id@ == coach.id@;
        assert(b.enrollments@[w].program_id@ == conference.program_id@ && b.enrollments@[w].member_id@
            == coach.id@);
        if exists|i: int|
            0 <= i < mid.sessions@.len() && ((#[trigger] mid.sessions@[i]).conference_id matches Some(
                ci,
            ) && ci@ == conference.id@) {
        } else {
            let k = choose|k: int|
                0 <= k < mid.sessions@.len() && crate::services::sessions::conf_member_session(
                    mid,
                    mid.sessions@[k],
                    conference.id@,
                    coach.id@,
                );
        }
    } else {
        let (member, e_id): (User, Seq<char>) = choose|member: User, e_id: Seq<char>|
            member_session_created(mid, b, conference, coach.id@, coach, x, now, member, e_id);
        assert(member_session_created(mid, b, conference, coach.id@, coach, x, now, member, e_id));
        // every enrollment keeps its id, program and member through the sweep
        assert(forall|i: int|
            0 <= i < mid.enrollments@.len() ==> (#[trigger] b.enrollments@[i] == mid.enrollments@[i]
                || b.enrollments@[i] == crate::services::enrollments::marked_old(
                    mid.enrollments@[i],
                )));
        let w = choose|i: int|
            0 <= i < mid.enrollments@.len() && mid.enrollments@[i].program_id@
                == conference.program_id@ && mid.enrollments@[i].member_id@ == coach.id@;
        assert(b.enrollments@[w].program_id@ == conference.program_id@ && b.enrollments@[w].member_id@
            == coach.id@);
        assert(crate::store::has_member_enrollment(
            b.enrollments@,
            conference.program_id@,
            coach.id@,
        ));
        // the fresh session matches the coach pair under the final enrollments
        let we = choose|i: int|
            0 <= i < mid.enrollments@.len() && mid.enrollments@[i].id@ == e_id
                && mid.enrollments@[i].member_id@ == coach.id@;
        assert(b.enrollments@[we].id@ == e_id && b.enrollments@[we].member_id@ == coach.id@);
        assert(crate::services::sessions::session_pair_match(
            x,
            b.enrollments@,
            conference.id@,
            coach.id@,
        ));
    }
}

/// Whether adding this member is refused by the library's own rules: the
/// conference is terminal, or there is no session for the pair yet and
/// the member or the member's enrolment in the conference's program is
/// missing.
pub open spec fn member_add_blocked(a: Store, conference: Conference, member_id: Seq<char>) -> bool {
    conference.is_terminal() || (!has_conf_member_session(a, conference.id@, member_id) && !(
    crate::store::has_user(a.users@, member_id) && crate::store::has_member_enrollment(
        a.enrollments@,
        conference.program_id@,
        member_id,
    )))
}

/// The membership call's ADD outcome, member by member in request order:
/// each listed member either went through `member_session_outcome` and
/// appears in `added`, or was blocked by the library's own rules and was
/// skipped; nothing else moved.
pub open spec fn members_added(
    a: Store,
    b: Store,
    conference: Conference,
    coach: User,
    ids: Seq<String>,
    added: Seq<String>,
    now: i64,
) -> bool
    decreases ids.len(),
{
    if ids.len() == 0 {
        unchanged(a, b) && added.len() == 0
    } else {
        ||| (exists|mid: Store, x: Session|
            {
                &&& !conference.is_terminal()
                &&& member_session_outcome(a, mid, conference, ids[0]@, coach, x, now)
                &&& added.len() >= 1
                &&& added[0]@ == ids[0]@
                &&& members_added(mid, b, conference, coach, ids.skip(1), added.skip(1), now)
            })
        ||| (member_add_blocked(a, conference, ids[0]@) && members_added(
            a,
            b,
            conference,
            coach,
            ids.skip(1),
            added,
            now,
        ))
    }
}

/// The member-session outcome only reads the store's tables, so any
/// store with the same tables backs the same outcome.
proof fn lemma_outcome_views(
    a: Store,
    m: Store,
    b: Store,
    conference: Conference,
    member_id: Seq<char>,
    coach: User,
    x: Session,
    now: i64,
)
    requires
        unchanged(a, m),
        member_session_outcome(m, b, conference, member_id, coach, x, now),
    ensures
        member_session_outcome(a, b, conference, member_id, coach, x, now),
{
    if has_conf_member_session(m, conference.id@, member_id) {
        let k = choose|k: int|
            0 <= k < m.sessions@.len() && crate::services::sessions::conf_member_session(
                m,
                m.sessions@[k],
                conference.id@,
                member_id,
            );
        assert(crate::services::sessions::conf_member_session(
            a,
            a.sessions@[k],
            conference.id@,
            member_id,
        ));
        let kk = choose|kk: int|
            first_conf_member_index(m, kk, conference.id@, member_id) && m.sessions@[kk] == x;
        assert(first_conf_member_index(a, kk, conference.id@, member_id)) by {
            assert(crate::services::sessions::conf_member_session(
                a,
                a.sessions@[kk],
                conference.id@,
                member_id,
            ));
            assert forall|j: int|
                0 <= j < kk implies !crate::services::sessions::conf_member_session(
                a,
                a.sessions@[j],
                conference.id@,
                member_id,
            ) by {
                assert(a.sessions@[j] == m.sessions@[j]);
                assert(!crate::services::sessions::conf_member_session(
                    m,
                    m.sessions@[j],
                    conference.id@,
                    member_id,
                ));
            }
        }
        assert(a.sessions@[kk] == x);
    } else {
        assert(!has_conf_member_session(a, conference.id@, member_id)) by {
            if has_conf_member_session(a, conference.id@, member_id) {
                let k = choose|k: int|
                    0 <= k < a.sessions@.len() && crate::services::sessions::conf_member_session(
                        a,
                        a.sessions@[k],
                        conference.id@,
                        member_id,
                    );
                assert(crate::services::sessions::conf_member_session(
                    m,
                    m.sessions@[k],
                    conference.id@,
                    member_id,
                ));
            }
        }
        let (member, e_id): (User, Seq<char>) = choose|member: User, e_id: Seq<char>|
            member_session_created(m, b, conference, member_id, coach, x, now, member, e_id);
        assert(member_session_created(a, b, conference, member_id, coach, x, now, member, e_id));
    }
}

/// Appending one successful member addition to a finished chain extends
/// the chain.
proof fn lemma_members_added_step_ok(
    a: Store,
    m: Store,
    b: Store,
    conference: Conference,
    coach: User,
    ids: Seq<String>,
    added: Seq<String>,
    id: String,
    x: Session,
    now: i64,
)
    requires
        members_added(a, m, conference, coach, ids, added, now),
        !conference.is_terminal(),
        member_session_outcome(m, b, conference, id@, coach, x, now),
    ensures
        members_added(a, b, conference, coach, ids.push(id), added.push(id), now),
    decreases ids.len(),
{
    assert(ids.push(id)[0] == (if ids.len() == 0 {
        id
    } else {
        ids[0]
    }));
    if ids.len() == 0 {
        lemma_outcome_views(a, m, b, conference, id@, coach, x, now);
        assert(ids.push(id).skip(1) =~= Seq::<String>::empty());
        assert(added.push(id).skip(1) =~= Seq::<String>::empty());
        assert(members_added(b, b, conference, coach, Seq::empty(), Seq::empty(), now));
        assert(added.push(id)[0]@ == id@);
    } else {
        assert(ids.push(id).skip(1) =~= ids.skip(1).push(id));
        if exists|mid: Store, x0: Session|
            {
                &&& !conference.is_terminal()
                &&& member_session_outcome(a, mid, conference, ids[0]@, coach, x0, now)
                &&& added.len() >= 1
                &&& added[0]@ == ids[0]@
                &&& members_added(mid, m, conference, coach, ids.skip(1), added.skip(1), now)
            } {
            let (mid, x0): (Store, Session) = choose|mid: Store, x0: Session|
                {
                    &&& !conference.is_terminal()
                    &&& member_session_outcome(a, mid, conference, ids[0]@, coach, x0, now)
                    &&& added.len() >= 1
                    &&& added[0]@ == ids[0]@
                    &&& members_added(mid, m, conference, coach, ids.skip(1), added.skip(1), now)
                };
            lemma_members_added_step_ok(
                mid,
                m,
                b,
                conference,
                coach,
                ids.skip(1),
                added.skip(1),
                id,
                x,
                now,
            );
            assert(added.push(id).skip(1) =~= added.skip(1).push(id));
            assert(added.push(id)[0]@ == ids.push(id)[0]@);
        } else {
            assert(member_add_blocked(a, conference, ids[0]@) && members_added(
                a,
                m,
                conference,
                coach,
                ids.skip(1),
                added,
                now,
            ));
            lemma_members_added_step_ok(
                a,
                m,
                b,
                conference,
                coach,
                ids.skip(1),
                added,
                id,
                x,
                now,
            );
        }
    }
}

/// Appending one blocked member to a finished chain extends the chain
/// without touching the store or the reported list.
proof fn lemma_members_added_step_blocked(
    a: Store,
    m: Store,
    conference: Conference,
    coach: User,
    ids: Seq<String>,
    added: Seq<String>,
    id: String,
    now: i64,
)
    requires
        members_added(a, m, conference, coach, ids, added, now),
        member_add_blocked(m, conference, id@),
    ensures
        members_added(a, m, conference, coach, ids.push(id), added, now),
    decreases ids.len(),
{
    if ids.len() == 0 {
        assert(member_add_blocked(a, conference, id@)) by {
            if !conference.is_terminal() {
                if has_conf_member_session(a, conference.id@, id@) {
                    let k = choose|k: int|
                        0 <= k < a.sessions@.len()
                            && crate::services::sessions::conf_member_session(
                            a,
                            a.sessions@[k],
                            conference.id@,
                            id@,
                        );
                    assert(crate::services::sessions::conf_member_session(
                        m,
                        m.sessions@[k],
                        conference.id@,
                        id@,
                    ));
                }
            }
        }
        assert(ids.push(id).skip(1) =~= ids);
        assert(ids.push(id)[0] == id);
    } else {
        assert(ids.push(id).skip(1) =~= ids.skip(1).push(id));
        assert(ids.push(id)[0] == ids[0]);
        if exists|mid: Store, x0: Session|
            {
                &&& !conference.is_terminal()
                &&& member_session_outcome(a, mid, conference, ids[0]@, coach, x0, now)
                &&& added.len() >= 1
                &&& added[0]@ == ids[0]@
                &&& members_added(mid, m, conference, coach, ids.skip(1), added.skip(1), now)
            } {
            let (mid, x0): (Store, Session) = choose|mid: Store, x0: Session|
                {
                    &&& !conference.is_terminal()
                    &&& member_session_outcome(a, mid, conference, ids[0]@, coach, x0, now)
                    &&& added.len() >= 1
                    &&& added[0]@ == ids[0]@
                    &&& members_added(mid, m, conference, coach, ids.skip(1), added.skip(1), now)
                };
            lemma_members_added_step_blocked(
                mid,
                m,
                conference,
                coach,
                ids.skip(1),
                added.skip(1),
                id,
                now,
            );
        } else {
            assert(member_add_blocked(a, conference, ids[0]@) && members_added(
                a,
                m,
                conference,
                coach,
                ids.skip(1),
                added,
                now,
            ));
            lemma_members_added_step_blocked(a, m, conference, coach, ids.skip(1), added, id, now);
        }
    }
}

/// One member's removal, as `remove_conference_session` performs it: the
/// pair's first session, deletable, leaves together with its association
/// rows; nothing else moves.
pub open spec fn member_removal(a: Store, b: Store, conf_id: Seq<char>, member_id: Seq<char>) -> bool {
    exists|k: int|
        {
            &&& first_conf_member_index(a, k, conf_id, member_id)
            &&& a.sessions@[k].spec_can_delete()
            &&& b.sessions@ == a.sessions@.remove(k)
            &&& b.session_users@ == a.session_users@.filter(
                crate::services::sessions::session_user_away(a.sessions@[k].id@),
            )
            &&& same_directory(a, b)
            &&& same_enrollments(a, b)
            &&& same_mails(a, b)
            &&& same_discussions(a, b)
            &&& b.conferences@ == a.conferences@
        }
}

/// Whether removing this member is refused by the library's own rules:
/// no session for the pair, or the pair's session has started or was
/// cancelled.
pub open spec fn member_remove_blocked(a: Store, conf_id: Seq<char>, member_id: Seq<char>) -> bool {
    !has_conf_member_session(a, conf_id, member_id) || (exists|k: int|
        first_conf_member_index(a, k, conf_id, member_id) && !a.sessions@[k].spec_can_delete())
}

/// The membership call's REMOVE outcome, member by member in request
/// order: each listed member's session either left and the member
/// appears in `removed`, or the removal guard refused it and it was
/// skipped; nothing else moved.
pub open spec fn members_removed(
    a: Store,
    b: Store,
    conf_id: Seq<char>,
    ids: Seq<String>,
    removed: Seq<String>,
) -> bool
    decreases ids.len(),
{
    if ids.len() == 0 {
        unchanged(a, b) && removed.len() == 0
    } else {
        ||| (exists|mid: Store|
            {
                &&& member_removal(a, mid, conf_id, ids[0]@)
                &&& removed.len() >= 1
                &&& removed[0]@ == ids[0]@
                &&& members_removed(mid, b, conf_id, ids.skip(1), removed.skip(1))
            })
        ||| (member_remove_blocked(a, conf_id, ids[0]@) && members_removed(
            a,
            b,
            conf_id,
            ids.skip(1),
            removed,
        ))
    }
}

/// Appending one successful removal to a finished chain extends the
/// chain.
proof fn lemma_members_removed_step_ok(
    a: Store,
    m: Store,
    b: Store,
    conf_id: Seq<char>,
    ids: Seq<String>,
    removed: Seq<String>,
    id: String,
)
    requires
        members_removed(a, m, conf_id, ids, removed),
        member_removal(m, b, conf_id, id@),
    ensures
        members_removed(a, b, conf_id, ids.push(id), removed.push(id)),
    decreases ids.len(),
{
    if ids.len() == 0 {
        assert(member_removal(a, b, conf_id, id@)) by {
            let k = choose|k: int|
                {
                    &&& first_conf_member_index(m, k, conf_id, id@)
                    &&& m.sessions@[k].spec_can_delete()
                    &&& b.sessions@ == m.sessions@.remove(k)
                    &&& b.session_users@ == m.session_users@.filter(
                        crate::services::sessions::session_user_away(m.sessions@[k].id@),
                    )
                    &&& same_directory(m, b)
                    &&& same_enrollments(m, b)
                    &&& same_mails(m, b)
                    &&& same_discussions(m, b)
                    &&& b.conferences@ == m.conferences@
                };
            assert(first_conf_member_index(a, k, conf_id, id@)) by {
                assert(crate::services::sessions::conf_member_session(
                    a,
                    a.sessions@[k],
                    conf_id,
                    id@,
                ));
                assert forall|j: int|
                    0 <= j < k implies !crate::services::sessions::conf_member_session(
                    a,
                    a.sessions@[j],
                    conf_id,
                    id@,
                ) by {
                    assert(a.sessions@[j] == m.sessions@[j]);
                    assert(!crate::services::sessions::conf_member_session(
                        m,
                        m.sessions@[j],
                        conf_id,
                        id@,
                    ));
                }
            }
        }
        assert(ids.push(id).skip(1) =~= ids);
        assert(removed.push(id).skip(1) =~= removed);
        assert(ids.push(id)[0] == id);
        assert(removed.push(id)[0]@ == id@);
        assert(members_removed(b, b, conf_id, ids, removed));
    } else {
        assert(ids.push(id).skip(1) =~= ids.skip(1).push(id));
        assert(ids.push(id)[0] == ids[0]);
        if exists|mid: Store|
            {
                &&& member_removal(a, mid, conf_id, ids[0]@)
                &&& removed.len() >= 1
                &&& removed[0]@ == ids[0]@
                &&& members_removed(mid, m, conf_id, ids.skip(1), removed.skip(1))
            } {
            let mid: Store = choose|mid: Store|
                {
                    &&& member_removal(a, mid, conf_id, ids[0]@)
                    &&& removed.len() >= 1
                    &&& removed[0]@ == ids[0]@
                    &&& members_removed(mid, m, conf_id, ids.skip(1), removed.skip(1))
                };
            lemma_members_removed_step_ok(mid, m, b, conf_id, ids.skip(1), removed.skip(1), id);
            assert(removed.push(id).skip(1) =~= removed.skip(1).push(id));
            assert(removed.push(id)[0]@ == ids.push(id)[0]@);
        } else {
            assert(member_remove_blocked(a, conf_id, ids[0]@) && members_removed(
                a,
                m,
                conf_id,
                ids.skip(1),
                removed,
            ));
            lemma_members_removed_step_ok(a, m, b, conf_id, ids.skip(1), removed, id);
        }
    }
}

/// Appending one refused removal to a finished chain extends the chain
/// without touching the store or the reported list.
proof fn lemma_members_removed_step_blocked(
    a: Store,
    m: Store,
    conf_id: Seq<char>,
    ids: Seq<String>,
    removed: Seq<String>,
    id: String,
)
    requires
        members_removed(a, m, conf_id, ids, removed),
        member_remove_blocked(m, conf_id, id@),
    ensures
        members_removed(a, m, conf_id, ids.push(id), removed),
    decreases ids.len(),
{
    if ids.len() == 0 {
        assert(member_remove_blocked(a, conf_id, id@)) by {
            if !has_conf_member_session(m, conf_id, id@) {
                if has_conf_member_session(a, conf_id, id@) {
                    let k = choose|k: int|
                        0 <= k < a.sessions@.len()
                            && crate::services::sessions::conf_member_session(
                            a,
                            a.sessions@[k],
                            conf_id,
                            id@,
                        );
                    assert(crate::services::sessions::conf_member_session(
                        m,
                        m.sessions@[k],
                        conf_id,
                        id@,
                    ));
                }
            } else {
                let k = choose|k: int|
                    first_conf_member_index(m, k, conf_id, id@) && !m.sessions@[k].spec_can_delete();
                assert(first_conf_member_index(a, k, conf_id, id@)) by {
                    assert(crate::services::sessions::conf_member_session(
                        a,
                        a.sessions@[k],
                        conf_id,
                        id@,
                    ));
                    assert forall|j: int|
                        0 <= j < k implies !crate::services::sessions::conf_member_session(
                        a,
                        a.sessions@[j],
                        conf_id,
                        id@,
                    ) by {
                        assert(a.sessions@[j] == m.sessions@[j]);
                        assert(!crate::services::sessions::conf_member_session(
                            m,
                            m.sessions@[j],
                            conf_id,
                            id@,
                        ));
                    }
                }
            }
        }
        assert(ids.push(id).skip(1) =~= ids);
        assert(ids.push(id)[0] == id);
    } else {
        assert(ids.push(id).skip(1) =~= ids.skip(1).push(id));
        assert(ids.push(id)[0] == ids[0]);
        if exists|mid: Store|
            {
                &&& member_removal(a, mid, conf_id, ids[0]@)
                &&& removed.len() >= 1
                &&& removed[0]@ == ids[0]@
                &&& members_removed(mid, m, conf_id, ids.skip(1), removed.skip(1))
            } {
            let mid: Store = choose|mid: Store|
                {
                    &&& member_removal(a, mid, conf_id, ids[0]@)
                    &&& removed.len() >= 1
                    &&& removed[0]@ == ids[0]@
                    &&& members_removed(mid, m, conf_id, ids.skip(1), removed.skip(1))
                };
            lemma_members_removed_step_blocked(mid, m, conf_id, ids.skip(1), removed.skip(1), id);
        } else {
            assert(member_remove_blocked(a, conf_id, ids[0]@) && members_removed(
                a,
                m,
                conf_id,
                ids.skip(1),
                removed,
            ));
            lemma_members_removed_step_blocked(a, m, conf_id, ids.skip(1), removed, id);
        }
    }
}

/// The chain only reads its final store's tables, so any store with the
/// same tables closes the same chain.
proof fn lemma_members_added_final_views(
    a: Store,
    b1: Store,
    b2: Store,
    conference: Conference,
    coach: User,
    ids: Seq<String>,
    added: Seq<String>,
    now: i64,
)
    requires
        members_added(a, b1, conference, coach, ids, added, now),
        unchanged(b1, b2),
    ensures
        members_added(a, b2, conference, coach, ids, added, now),
    decreases ids.len(),
{
    if ids.len() == 0 {
    } else {
        if exists|mid: Store, x0: Session|
            {
                &&& !conference.is_terminal()
                &&& member_session_outcome(a, mid, conference, ids[0]@, coach, x0, now)
                &&& added.len() >= 1
                &&& added[0]@ == ids[0]@
                &&& members_added(mid, b1, conference, coach, ids.skip(1), added.skip(1), now)
            } {
            let (mid, x0): (Store, Session) = choose|mid: Store, x0: Session|
                {
                    &&& !conference.is_terminal()
                    &&& member_session_outcome(a, mid, conference, ids[0]@, coach, x0, now)
                    &&& added.len() >= 1
                    &&& added[0]@ == ids[0]@
                    &&& members_added(mid, b1, conference, coach, ids.skip(1), added.skip(1), now)
                };
            lemma_members_added_final_views(
                mid,
                b1,
                b2,
                conference,
                coach,
                ids.skip(1),
                added.skip(1),
                now,
            );
        } else {
            assert(member_add_blocked(a, conference, ids[0]@) && members_added(
                a,
                b1,
                conference,
                coach,
                ids.skip(1),
                added,
                now,
            ));
            lemma_members_added_final_views(
                a,
                b1,
                b2,
                conference,
                coach,
                ids.skip(1),
                added,
                now,
            );
        }
    }
}

/// The removal chain only reads its final store's tables, so any store
/// with the same tables closes the same chain.
proof fn lemma_members_removed_final_views(
    a: Store,
    b1: Store,
    b2: Store,
    conf_id: Seq<char>,
    ids: Seq<String>,
    removed: Seq<String>,
)
    requires
        members_removed(a, b1, conf_id, ids, removed),
        unchanged(b1, b2),
    ensures
        members_removed(a, b2, conf_id, ids, removed),
    decreases ids.len(),
{
    if ids.len() == 0 {
    } else {
        if exists|mid: Store|
            {
                &&& member_removal(a, mid, conf_id, ids[0]@)
                &&& removed.len() >= 1
                &&& removed[0]@ == ids[0]@
                &&& members_removed(mid, b1, conf_id, ids.skip(1), removed.skip(1))
            } {
            let mid: Store = choose|mid: Store|
                {
                    &&& member_removal(a, mid, conf_id, ids[0]@)
                    &&& removed.len() >= 1
                    &&& removed[0]@ == ids[0]@
                    &&& members_removed(mid, b1, conf_id, ids.skip(1), removed.skip(1))
                };
            lemma_members_removed_final_views(mid, b1, b2, conf_id, ids.skip(1), removed.skip(1));
        } else {
            assert(member_remove_blocked(a, conf_id, ids[0]@) && members_removed(
                a,
                b1,
                conf_id,
                ids.skip(1),
                removed,
            ));
            lemma_members_removed_final_views(a, b1, b2, conf_id, ids.skip(1), removed);
        }
    }
}

/// The ADD outcome under a named coach: the program's coach drove every
/// member addition of the chain.
pub open spec fn members_added_by(
    a: Store,
    b: Store,
    conference_id: Seq<char>,
    ids: Seq<String>,
    added: Seq<String>,
    now: i64,
    coach: User,
) -> bool {
    &&& exists|i: int| 0 <= i < a.users@.len() && a.users@[i] == coach
    &&& coach.id@ == crate::store::program_at(
        a.programs@,
        crate::store::conference_at(a.conferences@, conference_id).program_id@,
    ).coach_id@
    &&& members_added(
        a,
        b,
        crate::store::conference_at(a.conferences@, conference_id),
        coach,
        ids,
        added,
        now,
    )
}

/// Whether the membership call's own lookups miss: the conference, its
/// program, or that program's coach.
pub open spec fn membership_refs_missing(store: Store, conference_id: Seq<char>) -> bool {
    ||| !has_conference(store.conferences@, conference_id)
    ||| !has_program(
        store.programs@,
        crate::store::conference_at(store.conferences@, conference_id).program_id@,
    )
    ||| !crate::store::has_user(
        store.users@,
        crate::store::program_at(
            store.programs@,
            crate::store::conference_at(store.conferences@, conference_id).program_id@,
        ).coach_id@,
    )
}

/// Adds or removes the named members of a conference, member by member
/// in request order: a member whose own guard refuses is skipped, and
/// the reported list is exactly the members whose step went through.
pub fn manage_members(store: &mut Store, member_request: &MemberRequest, now: i64) -> (r: Result<
    Vec<String>,
    ServiceError,
>)
    requires
        old(store).wf(),
    ensures
        final(store).wf(),
        same_directory(*old(store), *final(store)),
        same_discussions(*old(store), *final(store)),
        final(store).conferences@ == old(store).conferences@,
        r is Err ==> unchanged(*old(store), *final(store)),
        r is Err ==> (r == Err::<Vec<String>, ServiceError>(ServiceError::NotFound) || r == Err::<
            Vec<String>,
            ServiceError,
        >(ServiceError::PersistenceError)),
        member_request.intention == IntentionState::ADD ==> (r == Err::<Vec<String>, ServiceError>(
            ServiceError::NotFound,
        ) <==> membership_refs_missing(*old(store), member_request.conference_id@)),
        member_request.intention == IntentionState::REMOVE ==> ((r == Err::<
            Vec<String>,
            ServiceError,
        >(ServiceError::NotFound) <==> !has_conference(
            old(store).conferences@,
            member_request.conference_id@,
        )) && (r is Err ==> r == Err::<Vec<String>, ServiceError>(ServiceError::NotFound))),
        member_request.intention == IntentionState::ADD ==> (r matches Ok(v) ==> v@.len()
            <= member_request.member_ids@.len() && exists|coach: User|
            members_added_by(
                *old(store),
                *final(store),
                member_request.conference_id@,
                member_request.member_ids@,
                v@,
                now,
                coach,
            )),
        member_request.intention == IntentionState::ADD ==> (r matches Ok(v) ==> forall|j: int|
            0 <= j < v@.len() ==> has_conf_member_session(
                *final(store),
                member_request.conference_id@,
                #[trigger] v@[j]@,
            )),
        member_request.intention == IntentionState::REMOVE ==> (r matches Ok(v) ==> v@.len()
            <= member_request.member_ids@.len() && members_removed(
            *old(store),
            *final(store),
            member_request.conference_id@,
            member_request.member_ids@,
            v@,
        )),
{
    if member_request.intention == IntentionState::ADD {
        return add_members(store, member_request, now);
    }
    remove_members(store, member_request, now)
}

/// Creates one member session per named member; a member whose session
/// exists already keeps exactly that one session, and a blocked member
/// is skipped. A store-level refusal of a fresh id aborts the whole
/// call with nothing written, as one transaction would.
fn add_members(store: &mut Store, member_request: &MemberRequest, now: i64) -> (r: Result<
    Vec<String>,
    ServiceError,
>)
    requires
        old(store).wf(),
    ensures
        final(store).wf(),
        same_directory(*old(store), *final(store)),
        same_discussions(*old(store), *final(store)),
        final(store).conferences@ == old(store).conferences@,
        r is Err ==> unchanged(*old(store), *final(store)),
        r is Err ==> (r == Err::<Vec<String>, ServiceError>(ServiceError::NotFound) || r == Err::<
            Vec<String>,
            ServiceError,
        >(ServiceError::PersistenceError)),
        r == Err::<Vec<String>, ServiceError>(ServiceError::NotFound) <==> membership_refs_missing(
            *old(store),
            member_request.conference_id@,
        ),
        r matches Ok(v) ==> v@.len() <= member_request.member_ids@.len() && exists|coach: User|
            members_added_by(
                *old(store),
                *final(store),
                member_request.conference_id@,
                member_request.member_ids@,
                v@,
                now,
                coach,
            ),
        r matches Ok(v) ==> forall|j: int|
            0 <= j < v@.len() ==> has_conf_member_session(
                *final(store),
                member_request.conference_id@,
                #[trigger] v@[j]@,
            ),
{
    let conference: Conference = match find(store, member_request.conference_id.as_str()) {
        Ok(c) => c,
        Err(_) => {
            return Err(ServiceError::NotFound);
        },
    };
    proof {
        let i = choose|i: int|
            0 <= i < store.conferences@.len() && store.conferences@[i] == conference
                && conference.id@ == member_request.conference_id@;
        crate::store::lemma_conference_index_is(
            store.conferences@,
            member_request.conference_id@,
            i,
        );
        assert(crate::store::conference_at(store.conferences@, member_request.conference_id@)
            == conference);
    }
    let program: Program = match programs::find(store, conference.program_id.as_str()) {
        Ok(p) => p,
        Err(_) => {
            return Err(ServiceError::NotFound);
        },
    };
    proof {
        let i = choose|i: int|
            0 <= i < store.programs@.len() && store.programs@[i] == program && program.id@
                == conference.program_id@;
        crate::store::lemma_program_index_is(store.programs@, conference.program_id@, i);
        assert(crate::store::program_at(store.programs@, conference.program_id@) == program);
    }
    let coach: User = match users::find(store, program.coach_id.as_str()) {
        Ok(u) => u,
        Err(_) => {
            return Err(ServiceError::NotFound);
        },
    };
    proof {
        assert(crate::store::conference_at(
            old(store).conferences@,
            member_request.conference_id@,
        ) == conference);
        assert(crate::store::program_at(old(store).programs@, conference.program_id@) == program);
        assert(exists|ii: int|
            0 <= ii < old(store).users@.len() && old(store).users@[ii] == coach);
        assert(!membership_refs_missing(*old(store), member_request.conference_id@));
    }
    let saved_sessions = crate::services::sessions::copy_sessions(&store.sessions);
    let saved_session_users = crate::services::sessions::copy_session_users(&store.session_users);
    let saved_enrollments = enrollments::copy_enrollments(&store.enrollments);
    let saved_correspondences = crate::services::correspondences::copy_correspondences(
        &store.correspondences,
    );
    let saved_recipients = crate::services::correspondences::copy_mail_recipients(
        &store.mail_recipients,
    );
    let mut added_members: Vec<String> = Vec::new();
    let mut i: usize = 0;
    proof {
        assert(members_added(
            *old(store),
            *store,
            conference,
            coach,
            member_request.member_ids@.take(0),
            added_members@,
            now,
        ));
    }
    while i < member_request.member_ids.len()
        invariant
            store.wf(),
            0 <= i <= member_request.member_ids@.len(),
            added_members@.len() <= i,
            conference.id@ == member_request.conference_id@,
            program.id@ == conference.program_id@,
            same_directory(*old(store), *store),
            same_discussions(*old(store), *store),
            store.conferences@ == old(store).conferences@,
            saved_sessions@ == old(store).sessions@,
            saved_session_users@ == old(store).session_users@,
            saved_enrollments@ == old(store).enrollments@,
            saved_correspondences@ == old(store).correspondences@,
            saved_recipients@ == old(store).mail_recipients@,
            old(store).wf(),
            !membership_refs_missing(*old(store), member_request.conference_id@),
            crate::store::conference_at(old(store).conferences@, member_request.conference_id@)
                == conference,
            crate::store::program_at(old(store).programs@, conference.program_id@) == program,
            coach.id@ == program.coach_id@,
            exists|ii: int| 0 <= ii < old(store).users@.len() && old(store).users@[ii] == coach,
            members_added(
                *old(store),
                *store,
                conference,
                coach,
                member_request.member_ids@.take(i as int),
                added_members@,
                now,
            ),
            forall|j: int|
                0 <= j < added_members@.len() ==> has_conf_member_session(
                    *store,
                    member_request.conference_id@,
                    #[trigger] added_members@[j]@,
                ),
        decreases member_request.member_ids@.len() - i,
    {
        let ghost before = *store;
        let ghost prev_added = added_members@;
        let result = find_or_create_session(
            store,
            &conference,
            member_request.member_ids[i].as_str(),
            &program,
            &coach,
            now,
        );
        if result.is_ok() {
            proof {
                assert(has_conf_member_session(
                    *store,
                    conference.id@,
                    member_request.member_ids@[i as int]@,
                )) by {
                    let x = result->Ok_0;
                    if has_conf_member_session(before, conference.id@, member_request.member_ids@[i as int]@) {
                        let k = choose|k: int|
                            0 <= k < before.sessions@.len() && crate::services::sessions::conf_member_session(
                                before,
                                before.sessions@[k],
                                conference.id@,
                                member_request.member_ids@[i as int]@,
                            );
                        assert(crate::services::sessions::conf_member_session(
                            *store,
                            store.sessions@[k],
                            conference.id@,
                            member_request.member_ids@[i as int]@,
                        ));
                    } else {
                        let k = before.sessions@.len() as int;
                        assert(store.sessions@[k] == x);
                        let (member, e_id): (User, Seq<char>) = choose|member: User, e_id: Seq<char>|
                            member_session_created(
                                before,
                                *store,
                                conference,
                                member_request.member_ids@[i as int]@,
                                coach,
                                x,
                                now,
                                member,
                                e_id,
                            );
                        let ei = choose|ii: int|
                            0 <= ii < before.enrollments@.len() && before.enrollments@[ii].id@ == e_id
                                && before.enrollments@[ii].member_id@
                                == member_request.member_ids@[i as int]@;
                        assert(store.enrollments@[ei].id@ == e_id && store.enrollments@[ei].member_id@
                            == member_request.member_ids@[i as int]@);
                        assert(crate::services::sessions::conf_member_session(
                            *store,
                            store.sessions@[k],
                            conference.id@,
                            member_request.member_ids@[i as int]@,
                        ));
                    }
                }
                assert forall|j: int|
                    0 <= j < added_members@.len() implies has_conf_member_session(
                    *store,
                    member_request.conference_id@,
                    #[trigger] added_members@[j]@,
                ) by {
                    lemma_growth_keeps_membership(
                        before,
                        *store,
                        member_request.conference_id@,
                        added_members@[j]@,
                    );
                }
                lemma_members_added_step_ok(
                    *old(store),
                    before,
                    *store,
                    conference,
                    coach,
                    member_request.member_ids@.take(i as int),
                    prev_added,
                    member_request.member_ids@[i as int],
                    result->Ok_0,
                    now,
                );
            }
            added_members.push(member_request.member_ids[i].clone());
            proof {
                assert(member_request.member_ids@.take(i + 1)
                    =~= member_request.member_ids@.take(i as int).push(
                    member_request.member_ids@[i as int],
                ));
                assert(added_members@ =~= prev_added.push(member_request.member_ids@[i as int]));
            }
        } else {
            match result {
                Err(ServiceError::PersistenceError) => {
                    // One transaction: a store-level refusal of a fresh
                    // id takes every member's writes back with it.
                    store.sessions = saved_sessions;
                    store.session_users = saved_session_users;
                    store.enrollments = saved_enrollments;
                    store.correspondences = saved_correspondences;
                    store.mail_recipients = saved_recipients;
                    proof {
                        assert(unchanged(*old(store), *store));
                    }
                    return Err(ServiceError::PersistenceError);
                },
                _ => {
                    proof {
                        assert(unchanged(before, *store));
                        assert(member_add_blocked(
                            before,
                            conference,
                            member_request.member_ids@[i as int]@,
                        ));
                        lemma_members_added_step_blocked(
                            *old(store),
                            before,
                            conference,
                            coach,
                            member_request.member_ids@.take(i as int),
                            prev_added,
                            member_request.member_ids@[i as int],
                            now,
                        );
                        assert(member_request.member_ids@.take(i + 1)
                            =~= member_request.member_ids@.take(i as int).push(
                            member_request.member_ids@[i as int],
                        ));
                        lemma_members_added_final_views(
                            *old(store),
                            before,
                            *store,
                            conference,
                            coach,
                            member_request.member_ids@.take(i + 1),
                            prev_added,
                            now,
                        );
                    }
                },
            }
        }
        i = i + 1;
    }
    proof {
        assert(member_request.member_ids@.take(member_request.member_ids@.len() as int)
            =~= member_request.member_ids@);
        assert(coach.id@ == crate::store::program_at(
            old(store).programs@,
            crate::store::conference_at(
                old(store).conferences@,
                member_request.conference_id@,
            ).program_id@,
        ).coach_id@);
        assert(members_added_by(
            *old(store),
            *store,
            member_request.conference_id@,
            member_request.member_ids@,
            added_members@,
            now,
            coach,
        ));
    }
    Ok(added_members)
}

/// A store that only grew or staled rows keeps every member session it
/// had.
proof fn lemma_growth_keeps_membership(a: Store, b: Store, conf: Seq<char>, member: Seq<char>)
    requires
        has_conf_member_session(a, conf, member),
        b.sessions@ == a.sessions@ || exists|x: Session| b.sessions@ == a.sessions@.push(x),
        b.enrollments@.len() == a.enrollments@.len(),
        forall|i: int|
            0 <= i < a.enrollments@.len() ==> (b.enrollments@[i].id@ == a.enrollments@[i].id@
                && b.enrollments@[i].member_id@ == a.enrollments@[i].member_id@),
    ensures
        has_conf_member_session(b, conf, member),
{
    let k = choose|k: int|
        0 <= k < a.sessions@.len() && crate::services::sessions::conf_member_session(a, a.sessions@[k], conf, member);
    assert(b.sessions@[k] == a.sessions@[k]);
    let ii = choose|ii: int|
        0 <= ii < a.enrollments@.len() && a.enrollments@[ii].id@ == a.sessions@[k].enrollment_id@
            && a.enrollments@[ii].member_id@ == member;
    assert(b.enrollments@[ii].id@ == a.sessions@[k].enrollment_id@);
    assert(crate::services::sessions::conf_member_session(b, b.sessions@[k], conf, member));
}

/// Removes the member session of each named member, where its guard
/// permits; a member whose session has started or was cancelled, or who
/// has none, is skipped.
fn remove_members(store: &mut Store, member_request: &MemberRequest, now: i64) -> (r: Result<
    Vec<String>,
    ServiceError,
>)
    requires
        old(store).wf(),
    ensures
        final(store).wf(),
        same_directory(*old(store), *final(store)),
        same_enrollments(*old(store), *final(store)),
        same_mails(*old(store), *final(store)),
        same_discussions(*old(store), *final(store)),
        final(store).conferences@ == old(store).conferences@,
        r is Err ==> (unchanged(*old(store), *final(store)) && r == Err::<
            Vec<String>,
            ServiceError,
        >(ServiceError::NotFound)),
        r == Err::<Vec<String>, ServiceError>(ServiceError::NotFound) <==> !has_conference(
            old(store).conferences@,
            member_request.conference_id@,
        ),
        r matches Ok(v) ==> v@.len() <= member_request.member_ids@.len() && members_removed(
            *old(store),
            *final(store),
            member_request.conference_id@,
            member_request.member_ids@,
            v@,
        ),
{
    let conf_id: String = member_request.conference_id.clone();
    if conference_index_of(&store.conferences, conf_id.as_str()).is_none() {
        return Err(ServiceError::NotFound);
    }
    let mut removed: Vec<String> = Vec::new();
    let mut i: usize = 0;
    proof {
        assert(members_removed(
            *old(store),
            *store,
            member_request.conference_id@,
            member_request.member_ids@.take(0),
            removed@,
        ));
    }
    while i < member_request.member_ids.len()
        invariant
            store.wf(),
            old(store).wf(),
            0 <= i <= member_request.member_ids@.len(),
            removed@.len() <= i,
            conf_id@ == member_request.conference_id@,
            same_directory(*old(store), *store),
            same_enrollments(*old(store), *store),
            same_mails(*old(store), *store),
            same_discussions(*old(store), *store),
            store.conferences@ == old(store).conferences@,
            members_removed(
                *old(store),
                *store,
                member_request.conference_id@,
                member_request.member_ids@.take(i as int),
                removed@,
            ),
        decreases member_request.member_ids@.len() - i,
    {
        let ghost before = *store;
        let ghost prev_removed = removed@;
        let result = remove_conference_session(
            store,
            conf_id.as_str(),
            member_request.member_ids[i].as_str(),
        );
        if result.is_ok() {
            proof {
                assert(member_removal(
                    before,
                    *store,
                    member_request.conference_id@,
                    member_request.member_ids@[i as int]@,
                )) by {
                    let k = choose|k: int|
                        {
                            &&& first_conf_member_index(
                                before,
                                k,
                                conf_id@,
                                member_request.member_ids@[i as int]@,
                            )
                            &&& before.sessions@[k].spec_can_delete()
                            &&& store.sessions@ == before.sessions@.remove(k)
                            &&& store.session_users@ == before.session_users@.filter(
                                crate::services::sessions::session_user_away(
                                    before.sessions@[k].id@,
                                ),
                            )
                        };
                    assert(first_conf_member_index(
                        before,
                        k,
                        member_request.conference_id@,
                        member_request.member_ids@[i as int]@,
                    ));
                }
                lemma_members_removed_step_ok(
                    *old(store),
                    before,
                    *store,
                    member_request.conference_id@,
                    member_request.member_ids@.take(i as int),
                    prev_removed,
                    member_request.member_ids@[i as int],
                );
            }
            removed.push(member_request.member_ids[i].clone());
            proof {
                assert(member_request.member_ids@.take(i + 1)
                    =~= member_request.member_ids@.take(i as int).push(
                    member_request.member_ids@[i as int],
                ));
                assert(removed@ =~= prev_removed.push(member_request.member_ids@[i as int]));
            }
        } else {
            proof {
                assert(unchanged(before, *store));
                assert(member_remove_blocked(
                    before,
                    member_request.conference_id@,
                    member_request.member_ids@[i as int]@,
                ));
                lemma_members_removed_step_blocked(
                    *old(store),
                    before,
                    member_request.conference_id@,
                    member_request.member_ids@.take(i as int),
                    prev_removed,
                    member_request.member_ids@[i as int],
                );
                assert(member_request.member_ids@.take(i + 1)
                    =~= member_request.member_ids@.take(i as int).push(
                    member_request.member_ids@[i as int],
                ));
                lemma_members_removed_final_views(
                    *old(store),
                    before,
                    *store,
                    member_request.conference_id@,
                    member_request.member_ids@.take(i + 1),
                    prev_removed,
                );
            }
        }
        i = i + 1;
    }
    proof {
        assert(member_request.member_ids@.take(member_request.member_ids@.len() as int)
            =~= member_request.member_ids@);
    }
    Ok(removed)
}

/// Adding a member to a conference twice yields exactly one member
/// session for the pair: where none existed, the first addition creates
/// it, and the second addition, finding it, writes nothing at all.
pub proof fn lemma_add_member_idempotent(
    s0: Store,
    s1: Store,
    s2: Store,
    conference: Conference,
    member_id: Seq<char>,
    coach: User,
    x1: Session,
    x2: Session,
    now1: i64,
    now2: i64,
)
    requires
        crate::services::sessions::pair_count(
            s0.sessions@,
            s0.enrollments@,
            conference.id@,
            member_id,
        ) == 0,
        member_session_outcome(s0, s1, conference, member_id, coach, x1, now1),
        member_session_outcome(s1, s2, conference, member_id, coach, x2, now2),
    ensures
        crate::services::sessions::pair_count(
            s2.sessions@,
            s2.enrollments@,
            conference.id@,
            member_id,
        ) == 1,
{
    crate::services::sessions::lemma_pair_count_has(
        s0.sessions@,
        s0.enrollments@,
        conference.id@,
        member_id,
    );
    assert(!has_conf_member_session(s0, conference.id@, member_id));
    let (member, e_id): (User, Seq<char>) = choose|member: User, e_id: Seq<char>|
        member_session_created(s0, s1, conference, member_id, coach, x1, now1, member, e_id);
    assert(member_session_created(s0, s1, conference, member_id, coach, x1, now1, member, e_id));
    // the enrollment sweep kept every id and member
    assert(forall|i: int|
        0 <= i < s0.enrollments@.len() ==> (#[trigger] s1.enrollments@[i]).id@
            == s0.enrollments@[i].id@ && s1.enrollments@[i].member_id@
            == s0.enrollments@[i].member_id@);
    crate::services::sessions::lemma_pair_count_enrollments_stable(
        s0.sessions@,
        s0.enrollments@,
        s1.enrollments@,
        conference.id@,
        member_id,
    );
    // the fresh session matches the pair, so the count became one
    let i0 = choose|i: int|
        0 <= i < s0.enrollments@.len() && s0.enrollments@[i].id@ == e_id
            && s0.enrollments@[i].member_id@ == member_id;
    assert(s1.enrollments@[i0].id@ == x1.enrollment_id@ && s1.enrollments@[i0].member_id@
        == member_id);
    assert(crate::services::sessions::session_pair_match(
        x1,
        s1.enrollments@,
        conference.id@,
        member_id,
    ));
    crate::services::sessions::lemma_pair_count_push(
        s0.sessions@,
        s1.enrollments@,
        x1,
        conference.id@,
        member_id,
    );
    assert(crate::services::sessions::pair_count(
        s1.sessions@,
        s1.enrollments@,
        conference.id@,
        member_id,
    ) == 1);
    // the second addition saw the pair taken and left every table alone
    assert(s1.sessions@[s1.sessions@.len() - 1] == x1);
    assert(has_conf_member_session(s1, conference.id@, member_id));
    assert(unchanged(s1, s2));
}

} // verus!
