use vstd::prelude::*;

use crate::commons::chassis::ServiceError;
use crate::models::correspondences::{MailOut, MailRecipient};
use crate::models::enrollments::{Enrollment, ManagedEnrollmentRequest, NewEnrollment, NewEnrollmentRequest};
use crate::models::programs::Program;
use crate::models::users::User;
use crate::services::correspondences::{create_mail, staged_mail_appended};
use crate::services::programs;
use crate::services::users;
use crate::store::{
    has_correspondence, has_member_enrollment, has_program, has_user, same_directory,
    same_discussions, same_events, same_mails, unchanged, Store,
};

verus! {

/// The enrollment row that persisting the given new enrollment writes:
/// fresh rows are `is_new` until a session touches them.
pub open spec fn enrollment_row(n: NewEnrollment, now: i64) -> Enrollment {
    Enrollment {
        id: n.id,
        program_id: n.program_id,
        member_id: n.member_id,
        created_at: now,
        updated_at: now,
        is_new: true,
    }
}

/// The same enrollment row, marked as no longer new.
pub open spec fn marked_old(e: Enrollment) -> Enrollment {
    Enrollment { is_new: false, ..e }
}

pub(crate) fn enrollment_pair_index(s: &Vec<Enrollment>, program_id: &str, member_id: &str) -> (r:
    Option<usize>)
    ensures
        match r {
            Some(i) => i < s@.len() && s@[i as int].program_id@ == program_id@
                && s@[i as int].member_id@ == member_id@,
            None => !has_member_enrollment(s@, program_id@, member_id@),
        },
{
    let pkey: String = program_id.to_owned();
    let mkey: String = member_id.to_owned();
    let mut i: usize = 0;
    while i < s.len()
        invariant
            0 <= i <= s@.len(),
            pkey@ == program_id@,
            mkey@ == member_id@,
            forall|j: int|
                0 <= j < i ==> !(s@[j].program_id@ == program_id@ && s@[j].member_id@
                    == member_id@),
        decreases s@.len() - i,
    {
        if s[i].program_id.eq(&pkey) && s[i].member_id.eq(&mkey) {
            return Some(i);
        }
        i = i + 1;
    }
    None
}

pub(crate) fn enrollment_id_index(s: &Vec<Enrollment>, id: &str) -> (r: Option<usize>)
    ensures
        match r {
            Some(i) => i < s@.len() && s@[i as int].id@ == id@,
            None => !crate::store::has_enrollment(s@, id@),
        },
{
    let key: String = id.to_owned();
    let mut i: usize = 0;
    while i < s.len()
        invariant
            0 <= i <= s@.len(),
            key@ == id@,
            forall|j: int| 0 <= j < i ==> s@[j].id@ != id@,
        decreases s@.len() - i,
    {
        if s[i].id.eq(&key) {
            return Some(i);
        }
        i = i + 1;
    }
    None
}

/// The enrollment of the given user in the given program.
pub fn find(store: &Store, program: &Program, user: &User) -> (r: Result<Enrollment, ServiceError>)
    ensures
        r is Ok <==> has_member_enrollment(store.enrollments@, program.id@, user.id@),
        r matches Ok(e) ==> exists|i: int|
            0 <= i < store.enrollments@.len() && store.enrollments@[i] == e && e.program_id@
                == program.id@ && e.member_id@ == user.id@,
        r is Err ==> (r matches Err(x) && x == ServiceError::NotFound),
{
    match enrollment_pair_index(&store.enrollments, program.id.as_str(), user.id.as_str()) {
        Some(i) => {
            let e = store.enrollments[i].duplicate();
            proof {
                assert(store.enrollments@[i as int] == e);
            }
            Ok(e)
        },
        None => Err(ServiceError::NotFound),
    }
}

/// Clears the `is_new` mark of the enrollment with the given id; the
/// count of rows the sweep touched comes back, zero where none matched.
pub fn mark_as_old(store: &mut Store, enrollment_id: &str) -> (r: Result<usize, ServiceError>)
    requires
        old(store).wf(),
    ensures
        final(store).wf(),
        same_directory(*old(store), *final(store)),
        same_events(*old(store), *final(store)),
        same_mails(*old(store), *final(store)),
        same_discussions(*old(store), *final(store)),
        final(store).enrollments@.len() == old(store).enrollments@.len(),
        forall|i: int|
            0 <= i < old(store).enrollments@.len() ==> final(store).enrollments@[i] == (
            if old(store).enrollments@[i].id@ == enrollment_id@ {
                marked_old(old(store).enrollments@[i])
            } else {
                old(store).enrollments@[i]
            }),
        r is Ok,
{
    let key: String = enrollment_id.to_owned();
    let mut count: usize = 0;
    let mut i: usize = 0;
    while i < store.enrollments.len()
        invariant
            0 <= i <= store.enrollments@.len(),
            key@ == enrollment_id@,
            count <= i,
            store.enrollments@.len() == old(store).enrollments@.len(),
            same_directory(*old(store), *store),
            same_events(*old(store), *store),
            same_mails(*old(store), *store),
            same_discussions(*old(store), *store),
            forall|j: int|
                0 <= j < i ==> store.enrollments@[j] == (
                if old(store).enrollments@[j].id@ == enrollment_id@ {
                    marked_old(old(store).enrollments@[j])
                } else {
                    old(store).enrollments@[j]
                }),
            forall|j: int|
                i <= j < store.enrollments@.len() ==> store.enrollments@[j] == old(
                    store,
                ).enrollments@[j],
        decreases store.enrollments@.len() - i,
    {
        if store.enrollments[i].id.eq(&key) {
            let cur = store.enrollments[i].duplicate();
            let upd = Enrollment { is_new: false, ..cur };
            store.enrollments.set(i, upd);
            count = count + 1;
        }
        i = i + 1;
    }
    proof {
        assert(forall|a: int, b: int|
            0 <= a < b < store.enrollments@.len() ==> store.enrollments@[a].id@
                != store.enrollments@[b].id@);
    }
    Ok(count)
}

/// Enrolls a user in a program: refused where either is unknown or the
/// user is enrolled already.
pub fn create_new_enrollment(store: &mut Store, request: &NewEnrollmentRequest, now: i64) -> (r:
    Result<Enrollment, ServiceError>)
    requires
        old(store).wf(),
    ensures
        final(store).wf(),
        same_directory(*old(store), *final(store)),
        same_events(*old(store), *final(store)),
        same_mails(*old(store), *final(store)),
        same_discussions(*old(store), *final(store)),
        r is Err ==> unchanged(*old(store), *final(store)),
        r == Err::<Enrollment, ServiceError>(ServiceError::NotFound) <==> !has_user(
            old(store).users@,
            request.user_id@,
        ) || !has_program(old(store).programs@, request.program_id@),
        r == Err::<Enrollment, ServiceError>(ServiceError::Validation) <==> has_user(
            old(store).users@,
            request.user_id@,
        ) && has_program(old(store).programs@, request.program_id@) && has_member_enrollment(
            old(store).enrollments@,
            request.program_id@,
            request.user_id@,
        ),
        r matches Ok(e) ==> final(store).enrollments@ == old(store).enrollments@.push(e)
            && e.program_id@ == request.program_id@ && e.member_id@ == request.user_id@
            && e.is_new && e.created_at == now && e.id@.len() == 36 && !has_member_enrollment(
            old(store).enrollments@,
            request.program_id@,
            request.user_id@,
        ),
{
    let user: User = match users::find(store, request.user_id.as_str()) {
        Ok(u) => u,
        Err(_) => {
            return Err(ServiceError::NotFound);
        },
    };
    let program: Program = match programs::find(store, request.program_id.as_str()) {
        Ok(p) => p,
        Err(_) => {
            return Err(ServiceError::NotFound);
        },
    };
    if enrollment_pair_index(
        &store.enrollments,
        request.program_id.as_str(),
        request.user_id.as_str(),
    ).is_some() {
        return Err(ServiceError::Validation);
    }
    let new_enrollment = NewEnrollment::from(&program, &user);
    insert_enrollment(store, new_enrollment, now)
}

/// Appends one enrollment row; refused only where the fresh id already
/// exists, as the store's primary key would refuse it.
fn insert_enrollment(store: &mut Store, n: NewEnrollment, now: i64) -> (r: Result<
    Enrollment,
    ServiceError,
>)
    requires
        old(store).wf(),
    ensures
        final(store).wf(),
        same_directory(*old(store), *final(store)),
        same_events(*old(store), *final(store)),
        same_mails(*old(store), *final(store)),
        same_discussions(*old(store), *final(store)),
        r is Err ==> (unchanged(*old(store), *final(store)) && r == Err::<
            Enrollment,
            ServiceError,
        >(ServiceError::PersistenceError)),
        r matches Ok(e) ==> e == enrollment_row(n, now) && final(store).enrollments@ == old(
            store,
        ).enrollments@.push(e),
{
    if enrollment_id_index(&store.enrollments, n.id.as_str()).is_some() {
        return Err(ServiceError::PersistenceError);
    }
    let row = Enrollment {
        id: n.id,
        program_id: n.program_id,
        member_id: n.member_id,
        created_at: now,
        updated_at: now,
        is_new: true,
    };
    let dup = row.duplicate();
    store.enrollments.push(row);
    proof {
        assert forall|a: int, b: int|
            0 <= a < b < store.enrollments@.len() implies store.enrollments@[a].id@
            != store.enrollments@[b].id@ by {
            if b == store.enrollments@.len() - 1 {
                assert(store.enrollments@[a] == old(store).enrollments@[a]);
            }
        }
    }
    Ok(dup)
}

/// The coach's own enrollment in a program, created on first need: the
/// special self-enrollment behind a conference's coach session.
pub fn find_or_create_coach_enrollment(store: &mut Store, program_id: &str, now: i64) -> (r: Result<
    Enrollment,
    ServiceError,
>)
    requires
        old(store).wf(),
    ensures
        final(store).wf(),
        same_directory(*old(store), *final(store)),
        same_events(*old(store), *final(store)),
        same_mails(*old(store), *final(store)),
        same_discussions(*old(store), *final(store)),
        r is Err ==> unchanged(*old(store), *final(store)),
        r is Err ==> (r == Err::<Enrollment, ServiceError>(ServiceError::NotFound) || r == Err::<
            Enrollment,
            ServiceError,
        >(ServiceError::PersistenceError)),
        r == Err::<Enrollment, ServiceError>(ServiceError::NotFound) <==> !has_program(
            old(store).programs@,
            program_id@,
        ),
        r matches Ok(e) ==> e.program_id@ == program_id@ && e.member_id@ == crate::store::program_at(
            old(store).programs@,
            program_id@,
        ).coach_id@ && has_member_enrollment(final(store).enrollments@, program_id@, e.member_id@)
            && (final(store).enrollments@ == old(store).enrollments@ || final(store).enrollments@
            == old(store).enrollments@.push(e)),
{
    let program: Program = match programs::find(store, program_id) {
        Ok(p) => p,
        Err(_) => {
            return Err(ServiceError::NotFound);
        },
    };
    proof {
        let i = choose|i: int|
            0 <= i < store.programs@.len() && store.programs@[i] == program && program.id@
                == program_id@;
        crate::store::lemma_program_index_is(store.programs@, program_id@, i);
        assert(crate::store::program_at(store.programs@, program_id@) == program);
    }
    match enrollment_pair_index(&store.enrollments, program_id, program.coach_id.as_str()) {
        Some(i) => {
            let e = store.enrollments[i].duplicate();
            proof {
                assert(store.enrollments@[i as int] == e);
                assert(has_member_enrollment(store.enrollments@, program_id@, e.member_id@));
            }
            Ok(e)
        },
        None => {
            let new_enrollment = NewEnrollment::from(&program, &program_coach_stub(&program));
            let created = insert_enrollment(store, new_enrollment, now);
            proof {
                if created is Ok {
                    let e = created->Ok_0;
                    assert(store.enrollments@.last() == e);
                    assert(has_member_enrollment(store.enrollments@, program_id@, e.member_id@));
                }
            }
            created
        },
    }
}

/// A user value carrying just the coach's id, for building the coach's
/// self enrollment.
fn program_coach_stub(program: &Program) -> (r: User)
    ensures
        r.id@ == program.coach_id@,
{
    User {
        id: program.coach_id.clone(),
        full_name: program.coach_name.clone(),
        email: String::new(),
        blocked: false,
        user_type: crate::commons::util::COACH.to_owned(),
        created_at: program.created_at,
        updated_at: program.updated_at,
        password: String::new(),
    }
}

/// Enrolls a member on the coach's initiative and stages the invitation
/// mail atomically with the enrollment write.
pub fn create_managed_enrollment(
    store: &mut Store,
    request: &ManagedEnrollmentRequest,
    now: i64,
) -> (r: Result<Enrollment, ServiceError>)
    requires
        old(store).wf(),
    ensures
        final(store).wf(),
        same_directory(*old(store), *final(store)),
        same_events(*old(store), *final(store)),
        same_discussions(*old(store), *final(store)),
        r is Err ==> unchanged(*old(store), *final(store)),
        r is Err ==> (r == Err::<Enrollment, ServiceError>(ServiceError::NotFound) || r == Err::<
            Enrollment,
            ServiceError,
        >(ServiceError::Validation) || r == Err::<Enrollment, ServiceError>(
            ServiceError::PersistenceError,
        )),
        r == Err::<Enrollment, ServiceError>(ServiceError::NotFound) <==> !managed_refs_ok(
            *old(store),
            *request,
        ),
        r == Err::<Enrollment, ServiceError>(ServiceError::Validation) <==> managed_refs_ok(
            *old(store),
            *request,
        ) && managed_member_enrolled(*old(store), *request),
        r == Err::<Enrollment, ServiceError>(ServiceError::PersistenceError) ==> (managed_refs_ok(
            *old(store),
            *request,
        ) && !managed_member_enrolled(*old(store), *request)),
        r matches Ok(e) ==> final(store).enrollments@ == old(store).enrollments@.push(e)
            && e.program_id@ == request.program_id@ && e.is_new && e.created_at == now && (
        exists|member: User, coach: User|
            {
                &&& first_user_by_email(old(store).users@, request.member_mail@, member)
                &&& !has_member_enrollment(
                    old(store).enrollments@,
                    request.program_id@,
                    member.id@,
                )
                &&& e.member_id@ == member.id@
                &&& user_present(old(store).users@, coach)
                &&& coach.id@ == request.coach_id@
                &&& staged_mail_appended(
                    *old(store),
                    *final(store),
                    request.coach_id@,
                    request.program_id@,
                    e.id@,
                    request.subject@,
                    request.message@,
                    crate::models::correspondences::NORMAL@,
                    member,
                    coach,
                    now,
                )
            }),
{
    let member: User = match find_user_by_email(store, request.member_mail.as_str()) {
        Some(u) => u,
        None => {
            return Err(ServiceError::NotFound);
        },
    };
    let program: Program = match find_owned_program(
        store,
        request.program_id.as_str(),
        request.coach_id.as_str(),
    ) {
        Some(p) => p,
        None => {
            return Err(ServiceError::NotFound);
        },
    };
    let coach: User = match users::find(store, request.coach_id.as_str()) {
        Ok(u) => u,
        Err(_) => {
            return Err(ServiceError::NotFound);
        },
    };
    if enrollment_pair_index(
        &store.enrollments,
        request.program_id.as_str(),
        member.id.as_str(),
    ).is_some() {
        proof {
            assert(managed_member_enrolled(*store, *request));
        }
        return Err(ServiceError::Validation);
    }
    proof {
        assert(!managed_member_enrolled(*store, *request)) by {
            if managed_member_enrolled(*store, *request) {
                let m2 = choose|m2: User|
                    first_user_by_email(store.users@, request.member_mail@, m2)
                        && has_member_enrollment(
                        store.enrollments@,
                        request.program_id@,
                        m2.id@,
                    );
                let i1 = choose|i: int|
                    0 <= i < store.users@.len() && store.users@[i] == member && member.email@
                        == request.member_mail@ && (forall|j: int|
                        0 <= j < i ==> store.users@[j].email@ != request.member_mail@);
                let i2 = choose|i: int|
                    0 <= i < store.users@.len() && store.users@[i] == m2 && m2.email@
                        == request.member_mail@ && (forall|j: int|
                        0 <= j < i ==> store.users@[j].email@ != request.member_mail@);
                if i1 < i2 {
                    assert(store.users@[i1].email@ != request.member_mail@);
                } else if i2 < i1 {
                    assert(store.users@[i2].email@ != request.member_mail@);
                }
                assert(m2 == member);
            }
        }
    }
    let new_enrollment = NewEnrollment::from(&program, &member);
    let mail_out: MailOut = MailOut::for_enrollment(request, new_enrollment.id.as_str(), now);
    if correspondences_has(store, mail_out.id.as_str()) {
        return Err(ServiceError::PersistenceError);
    }
    let enrollment = match insert_enrollment(store, new_enrollment, now) {
        Ok(e) => e,
        Err(x) => {
            return Err(x);
        },
    };
    let recipients: Vec<MailRecipient> = MailRecipient::build_recipients(
        &member,
        &coach,
        mail_out.id.as_str(),
    );
    let ghost mo = mail_out;
    let ghost recs = recipients@;
    match create_mail(store, mail_out, recipients, now) {
        Ok(_) => {
            let out = enrollment.duplicate();
            proof {
                let a = *old(store);
                let b = *store;
                assert(b.correspondences@ =~= a.correspondences@.push(
                    crate::services::correspondences::mail_row(mo, now),
                ));
                assert(b.correspondences@.last()
                    == crate::services::correspondences::mail_row(mo, now));
                assert(b.mail_recipients@[a.mail_recipients@.len() as int] == recs[0]);
                assert(b.mail_recipients@.last() == recs[1]);
                assert(b.mail_recipients@ =~= a.mail_recipients@ + seq![
                    b.mail_recipients@[a.mail_recipients@.len() as int],
                    b.mail_recipients@.last(),
                ]);
                assert(final_managed_shape_holds(
                    *old(store),
                    *store,
                    *request,
                    out,
                    member,
                    coach,
                    now,
                ));
            }
            Ok(out)
        },
        Err(_) => {
            // The fresh mail id was checked free before any write, so
            // staging cannot be refused here.
            proof {
                assert(false);
            }
            Err(ServiceError::PersistenceError)
        },
    }
}

/// Some row of the users table equals the given user.
pub open spec fn user_present(s: Seq<User>, u: User) -> bool {
    exists|i: int| 0 <= i < s.len() && s[i] == u
}

/// Some user carries the given email.
pub open spec fn some_user_by_email(users: Seq<User>, mail: Seq<char>) -> bool {
    exists|i: int| 0 <= i < users.len() && users[i].email@ == mail
}

/// The given user is the first row carrying the email: what a lookup by
/// email hands back.
pub open spec fn first_user_by_email(users: Seq<User>, mail: Seq<char>, u: User) -> bool {
    exists|i: int|
        0 <= i < users.len() && users[i] == u && u.email@ == mail && (forall|j: int|
            0 <= j < i ==> users[j].email@ != mail)
}

/// Some program carries the given id under the given coach.
pub open spec fn owned_program_present(
    programs: Seq<Program>,
    program_id: Seq<char>,
    coach_id: Seq<char>,
) -> bool {
    exists|i: int|
        0 <= i < programs.len() && programs[i].id@ == program_id && programs[i].coach_id@
            == coach_id
}

/// Every lookup a managed enrollment makes: the member by mail, the
/// program under the requesting coach, and the coach.
pub open spec fn managed_refs_ok(store: Store, request: ManagedEnrollmentRequest) -> bool {
    &&& some_user_by_email(store.users@, request.member_mail@)
    &&& owned_program_present(store.programs@, request.program_id@, request.coach_id@)
    &&& crate::store::has_user(store.users@, request.coach_id@)
}

/// The member the managed enrollment would enroll is enrolled already.
pub open spec fn managed_member_enrolled(store: Store, request: ManagedEnrollmentRequest) -> bool {
    exists|member: User|
        first_user_by_email(store.users@, request.member_mail@, member) && has_member_enrollment(
            store.enrollments@,
            request.program_id@,
            member.id@,
        )
}

/// The witness block of create_managed_enrollment's postcondition.
pub open spec fn final_managed_shape_holds(
    a: Store,
    b: Store,
    request: ManagedEnrollmentRequest,
    e: Enrollment,
    member: User,
    coach: User,
    now: i64,
) -> bool {
    &&& first_user_by_email(a.users@, request.member_mail@, member)
    &&& !has_member_enrollment(a.enrollments@, request.program_id@, member.id@)
    &&& e.member_id@ == member.id@
    &&& user_present(a.users@, coach)
    &&& coach.id@ == request.coach_id@
    &&& staged_mail_appended(
        a,
        b,
        request.coach_id@,
        request.program_id@,
        e.id@,
        request.subject@,
        request.message@,
        crate::models::correspondences::NORMAL@,
        member,
        coach,
        now,
    )
}

fn correspondences_has(store: &Store, id: &str) -> (r: bool)
    ensures
        r == has_correspondence(store.correspondences@, id@),
{
    match crate::services::correspondences::correspondence_index_of(&store.correspondences, id) {
        Some(i) => {
            proof {
                assert(has_correspondence(store.correspondences@, id@));
            }
            true
        },
        None => false,
    }
}

/// A field-for-field copy of the enrollments table.
pub(crate) fn copy_enrollments(v: &Vec<Enrollment>) -> (r: Vec<Enrollment>)
    ensures
        r@ == v@,
{
    let mut out: Vec<Enrollment> = Vec::new();
    let mut i: usize = 0;
    while i < v.len()
        invariant
            0 <= i <= v@.len(),
            out@ == v@.take(i as int),
        decreases v@.len() - i,
    {
        out.push(v[i].duplicate());
        proof {
            assert(out@ =~= v@.take(i + 1));
        }
        i = i + 1;
    }
    proof {
        assert(v@.take(v@.len() as int) =~= v@);
    }
    out
}

/// The first user whose email matches.
fn find_user_by_email(store: &Store, email: &str) -> (r: Option<User>)
    ensures
        match r {
            Some(u) => first_user_by_email(store.users@, email@, u),
            None => !some_user_by_email(store.users@, email@),
        },
{
    let key: String = email.to_owned();
    let mut i: usize = 0;
    while i < store.users.len()
        invariant
            0 <= i <= store.users@.len(),
            key@ == email@,
            forall|j: int| 0 <= j < i ==> store.users@[j].email@ != email@,
        decreases store.users@.len() - i,
    {
        if store.users[i].email.eq(&key) {
            let u = store.users[i].duplicate();
            proof {
                assert(store.users@[i as int] == u);
                assert(first_user_by_email(store.users@, email@, u));
            }
            return Some(u);
        }
        i = i + 1;
    }
    None
}

/// The program with the given id owned by the given coach.
fn find_owned_program(store: &Store, program_id: &str, coach_id: &str) -> (r: Option<Program>)
    ensures
        match r {
            Some(p) => p.id@ == program_id@ && p.coach_id@ == coach_id@ && exists|i: int|
                0 <= i < store.programs@.len() && store.programs@[i] == p,
            None => forall|i: int|
                0 <= i < store.programs@.len() ==> !(store.programs@[i].id@ == program_id@
                    && store.programs@[i].coach_id@ == coach_id@),
        },
{
    let pkey: String = program_id.to_owned();
    let ckey: String = coach_id.to_owned();
    let mut i: usize = 0;
    while i < store.programs.len()
        invariant
            0 <= i <= store.programs@.len(),
            pkey@ == program_id@,
            ckey@ == coach_id@,
            forall|j: int|
                0 <= j < i ==> !(store.programs@[j].id@ == program_id@ && store.programs@[j].coach_id@
                    == coach_id@),
        decreases store.programs@.len() - i,
    {
        if store.programs[i].id.eq(&pkey) && store.programs[i].coach_id.eq(&ckey) {
            let p = store.programs[i].duplicate();
            proof {
                assert(store.programs@[i as int] == p);
            }
            return Some(p);
        }
        i = i + 1;
    }
    None
}

} // verus!
