use ferris::commons::chassis::ServiceError;
use ferris::models::conferences::{IntentionState, MemberRequest, NewConferenceRequest};
use ferris::models::correspondences::{MailOut, MailRecipient};
use ferris::models::discussions::NewDiscussionRequest;
use ferris::models::enrollments::{Enrollment, ManagedEnrollmentRequest};
use ferris::models::programs::Program;
use ferris::models::sessions::{
    ChangeSessionStateRequest, NewSessionRequest, SessionStatus, TargetState,
};
use ferris::models::users::User;
use ferris::services::conferences;
use ferris::services::correspondences;
use ferris::services::discussions;
use ferris::services::enrollments;
use ferris::services::sessions;
use ferris::store::Store;

const T0: i64 = 1700000000;

fn user(id: &str, name: &str, email: &str) -> User {
    User {
        id: String::from(id),
        full_name: String::from(name),
        email: String::from(email),
        blocked: false,
        user_type: String::from("member"),
        created_at: T0,
        updated_at: T0,
        password: String::new(),
    }
}

fn program(id: &str, coach_id: &str, coach_name: &str) -> Program {
    Program {
        id: String::from(id),
        name: String::from("Rust Coaching"),
        description: Some(String::from("All about Rust")),
        active: true,
        coach_name: String::from(coach_name),
        coach_id: String::from(coach_id),
        created_at: T0,
        updated_at: T0,
        is_private: false,
        genre_id: None,
        is_parent: true,
        parent_program_id: None,
    }
}

fn enrollment(id: &str, program_id: &str, member_id: &str) -> Enrollment {
    Enrollment {
        id: String::from(id),
        program_id: String::from(program_id),
        member_id: String::from(member_id),
        created_at: T0,
        updated_at: T0,
        is_new: true,
    }
}

fn seeded_store() -> Store {
    let mut store = Store::new();
    store.users.push(user("u-coach", "Cora Coach", "coach@example.org"));
    store.users.push(user("u-m1", "Mira One", "m1@example.org"));
    store.users.push(user("u-m2", "Milo Two", "m2@example.org"));
    store.programs.push(program("p-1", "u-coach", "Cora Coach"));
    store.enrollments.push(enrollment("e-m1", "p-1", "u-m1"));
    store.enrollments.push(enrollment("e-m2", "p-1", "u-m2"));
    store
}

fn session_request() -> NewSessionRequest {
    NewSessionRequest {
        program_id: String::from("p-1"),
        member_id: String::from("u-m1"),
        name: String::from("Weekly sync"),
        description: String::from("Plan the week"),
        duration: 30,
        start_time: String::from("2030-01-01T03:00:00Z"),
    }
}

fn conference_request() -> NewConferenceRequest {
    NewConferenceRequest {
        program_id: String::from("p-1"),
        name: String::from("All hands"),
        description: String::from("Everyone joins"),
        duration: 30,
        start_time: String::from("2030-01-01T03:00:00Z"),
    }
}

fn change(id: &str, target: TargetState, notes: Option<&str>) -> ChangeSessionStateRequest {
    ChangeSessionStateRequest {
        id: String::from(id),
        target_state: target,
        closing_notes: notes.map(String::from),
    }
}

#[test]
fn create_session_writes_the_whole_transaction() {
    let mut store = seeded_store();
    let session = sessions::create_session(&mut store, &session_request(), T0).unwrap();
    assert_eq!(1, store.sessions.len());
    assert_eq!("Weekly sync", store.sessions[0].name.as_str());
    assert_eq!("e-m1", session.enrollment_id.as_str());
    assert_eq!(Some(String::from("Cora Coach and Mira One")), store.sessions[0].people);
    // both participants are associated
    assert_eq!(2, store.session_users.len());
    assert_eq!("coach", store.session_users[0].user_type.as_str());
    assert_eq!("member", store.session_users[1].user_type.as_str());
    // the enrollment is no longer new
    assert!(!store.enrollments[0].is_new);
    assert!(store.enrollments[1].is_new);
}

#[test]
fn create_session_misses_are_not_found() {
    let mut store = seeded_store();
    let mut request = session_request();
    request.member_id = String::from("u-nobody");
    assert!(matches!(
        sessions::create_session(&mut store, &request, T0),
        Err(ServiceError::NotFound)
    ));
    assert_eq!(0, store.sessions.len());
    assert_eq!(0, store.correspondences.len());
}

#[test]
fn creating_a_session_stages_exactly_one_invite() {
    let mut store = seeded_store();
    let _ = sessions::create_session(&mut store, &session_request(), T0).unwrap();
    // the business write produced exactly one event mail, sequence 1
    assert_eq!(1, store.correspondences.len());
    let mail = &store.correspondences[0];
    assert_eq!("event", mail.mail_type.as_str());
    assert_eq!("pending", mail.status.as_str());
    assert_eq!("out", mail.in_out.as_str());
    assert_eq!("Weekly sync", mail.subject.as_str());
    assert_eq!("schedule@krscode.com", mail.from_email.as_str());
    let payload: serde_json::Value =
        serde_json::from_str(mail.content.as_ref().unwrap().as_str()).unwrap();
    assert_eq!(Some(1), payload["sequence"].as_i64());
    assert_eq!(Some("CONFIRMED"), payload["status"].as_str());
    assert_eq!(Some("REQUEST"), payload["method"].as_str());
    assert_eq!(Some("coach@example.org"), payload["organizer"].as_str());
    assert_eq!(Some("m1@example.org"), payload["attendee"].as_str());
    assert_eq!(Some("20300101T030000Z"), payload["startDate"].as_str());
    assert_eq!(Some("20300101T033000Z"), payload["endDate"].as_str());
    // member to, coach cc
    assert_eq!(2, store.mail_recipients.len());
    assert_eq!("to", store.mail_recipients[0].to_type.as_str());
    assert_eq!("m1@example.org", store.mail_recipients[0].to_email.as_str());
    assert_eq!("cc", store.mail_recipients[1].to_type.as_str());
    assert_eq!("coach@example.org", store.mail_recipients[1].to_email.as_str());
}

#[test]
fn terminal_events_refuse_every_transition() {
    let mut store = seeded_store();
    let session = sessions::create_session(&mut store, &session_request(), T0).unwrap();
    let sid = session.id.as_str();
    let done = sessions::change_session_state(
        &mut store,
        &change(sid, TargetState::DONE, Some("wrapped up")),
        T0 + 60,
    )
    .unwrap();
    assert_eq!(Some(T0 + 60), done.actual_end_date);
    let mails_before = store.correspondences.len();
    // once terminal, every further command is refused and nothing moves
    for target in [TargetState::READY, TargetState::START, TargetState::DONE, TargetState::CANCEL]
    {
        let result = sessions::change_session_state(
            &mut store,
            &change(sid, target, None),
            T0 + 120,
        );
        assert!(matches!(result, Err(ServiceError::StateChangeProhibited)));
    }
    let row = sessions::find(&store, sid).unwrap();
    assert_eq!(Some(T0 + 60), row.actual_end_date);
    assert_eq!(None, row.actual_start_date);
    assert_eq!(None, row.cancelled_at);
    assert_eq!(Some(String::from("wrapped up")), row.closing_notes);
    assert_eq!(mails_before, store.correspondences.len());
}

#[test]
fn cancelling_a_session_stages_the_cancellation() {
    let mut store = seeded_store();
    let session = sessions::create_session(&mut store, &session_request(), T0).unwrap();
    let _ = sessions::change_session_state(
        &mut store,
        &change(session.id.as_str(), TargetState::CANCEL, Some("snowed in")),
        T0 + 60,
    )
    .unwrap();
    assert_eq!(2, store.correspondences.len());
    let mail = &store.correspondences[1];
    assert_eq!("event", mail.mail_type.as_str());
    let payload: serde_json::Value =
        serde_json::from_str(mail.content.as_ref().unwrap().as_str()).unwrap();
    assert_eq!(Some(99), payload["sequence"].as_i64());
    assert_eq!(Some("CANCELLED"), payload["status"].as_str());
    assert_eq!(Some("CANCEL"), payload["method"].as_str());
    assert_eq!(Some("snowed in"), payload["description"].as_str());
    let row = sessions::find(&store, session.id.as_str()).unwrap();
    assert_eq!(Some(T0 + 60), row.cancelled_at);
}

fn booked_conference(store: &mut Store) -> String {
    let conference = conferences::create_conference(store, &conference_request(), T0).unwrap();
    let request = MemberRequest {
        conference_id: conference.id.clone(),
        member_ids: vec![String::from("u-m1"), String::from("u-m2")],
        intention: IntentionState::ADD,
    };
    let added = conferences::manage_members(store, &request, T0).unwrap();
    assert_eq!(2, added.len());
    conference.id.clone()
}

#[test]
fn conference_booking_fans_out_member_sessions() {
    let mut store = seeded_store();
    let conf_id = booked_conference(&mut store);
    // one coach session and two member sessions, all sharing the id
    assert_eq!(3, store.sessions.len());
    for s in &store.sessions {
        assert_eq!(Some(conf_id.clone()), s.conference_id);
        assert_eq!("multi", s.session_type.as_str());
        assert_eq!(30, s.duration);
    }
    // the coach's self enrollment was created on the way
    assert_eq!(3, store.enrollments.len());
    assert_eq!("u-coach", store.enrollments[2].member_id.as_str());
    // invites went to the two members, none for the coach's own session
    assert_eq!(2, store.correspondences.len());
}

#[test]
fn adding_a_member_twice_keeps_one_session() {
    let mut store = seeded_store();
    let conf_id = booked_conference(&mut store);
    let request = MemberRequest {
        conference_id: conf_id.clone(),
        member_ids: vec![String::from("u-m1")],
        intention: IntentionState::ADD,
    };
    let added = conferences::manage_members(&mut store, &request, T0 + 60).unwrap();
    assert_eq!(1, added.len());
    // still exactly one session for the pair, and no second invite
    assert_eq!(3, store.sessions.len());
    assert_eq!(2, store.correspondences.len());
}

#[test]
fn done_fans_out_one_timestamp_to_every_session() {
    let mut store = seeded_store();
    let conf_id = booked_conference(&mut store);
    let member_session = sessions::find_by_conference(&store, conf_id.as_str(), "u-m1").unwrap();
    let stamp = T0 + 3600;
    let _ = sessions::change_session_state(
        &mut store,
        &change(member_session.id.as_str(), TargetState::DONE, Some("over")),
        stamp,
    )
    .unwrap();
    for s in &store.sessions {
        assert_eq!(Some(stamp), s.actual_end_date);
        assert_eq!(Some(String::from("over")), s.closing_notes);
    }
    assert_eq!(Some(stamp), store.conferences[0].actual_end_date);
}

#[test]
fn cancelled_conference_admits_no_new_member() {
    let mut store = seeded_store();
    let conf_id = booked_conference(&mut store);
    let coach_session = sessions::find_by_conference(&store, conf_id.as_str(), "u-coach").unwrap();
    let stamp = T0 + 3600;
    let _ = sessions::change_session_state(
        &mut store,
        &change(coach_session.id.as_str(), TargetState::CANCEL, Some("called off")),
        stamp,
    )
    .unwrap();
    // every session of the conference shows CANCELLED
    assert_eq!(3, store.sessions.len());
    for s in &store.sessions {
        assert_eq!(SessionStatus::CANCELLED, s.status(stamp));
    }
    // no further addition succeeds against the cancelled conference
    let request = MemberRequest {
        conference_id: conf_id.clone(),
        member_ids: vec![String::from("u-m1"), String::from("u-m2")],
        intention: IntentionState::ADD,
    };
    let added = conferences::manage_members(&mut store, &request, stamp + 60).unwrap();
    assert_eq!(0, added.len());
    assert_eq!(3, store.sessions.len());
}

#[test]
fn removal_guard_protects_started_and_cancelled_sessions() {
    let mut store = seeded_store();
    let conf_id = booked_conference(&mut store);
    let member_session = sessions::find_by_conference(&store, conf_id.as_str(), "u-m1").unwrap();
    let _ = sessions::change_session_state(
        &mut store,
        &change(member_session.id.as_str(), TargetState::START, None),
        T0 + 60,
    )
    .unwrap();
    // started: every member session has actual_start now, so none is removable
    assert_eq!(
        Err(ServiceError::UnremovableSession),
        sessions::remove_conference_session(&mut store, conf_id.as_str(), "u-m1")
    );
    assert_eq!(
        Err(ServiceError::UnremovableSession),
        sessions::remove_conference_session(&mut store, conf_id.as_str(), "u-m2")
    );
    assert_eq!(3, store.sessions.len());
}

#[test]
fn members_can_leave_before_the_start() {
    let mut store = seeded_store();
    let conf_id = booked_conference(&mut store);
    let member_session = sessions::find_by_conference(&store, conf_id.as_str(), "u-m1").unwrap();
    let users_before = store.session_users.len();
    assert_eq!(
        Ok(true),
        sessions::remove_conference_session(&mut store, conf_id.as_str(), "u-m1")
    );
    assert_eq!(2, store.sessions.len());
    assert_eq!(users_before - 1, store.session_users.len());
    for su in &store.session_users {
        assert_ne!(member_session.id, su.session_id);
    }
    assert_eq!(
        Err(ServiceError::NotFound),
        sessions::remove_conference_session(&mut store, conf_id.as_str(), "u-m1")
    );
}

#[test]
fn people_of_an_event_follow_its_kind() {
    let mut store = seeded_store();
    let solo = sessions::create_session(&mut store, &session_request(), T0).unwrap();
    let solo_people = sessions::get_people(
        &store,
        &ferris::models::session_users::SessionCriteria { id: solo.id.clone() },
    )
    .unwrap();
    assert_eq!(2, solo_people.len());

    let conf_id = booked_conference(&mut store);
    let member_session = sessions::find_by_conference(&store, conf_id.as_str(), "u-m1").unwrap();
    let conf_people = sessions::get_people(
        &store,
        &ferris::models::session_users::SessionCriteria { id: member_session.id.clone() },
    )
    .unwrap();
    // one association per conference session: the coach's own and one per member
    assert_eq!(3, conf_people.len());
}

fn staged_mail(store: &mut Store, tag: &str, to_send_on: i64) {
    let request = ManagedEnrollmentRequest {
        program_id: String::from("p-1"),
        coach_id: String::from("u-coach"),
        member_mail: String::from("m1@example.org"),
        subject: format!("subject {}", tag),
        message: format!("message {}", tag),
    };
    let mail_out = MailOut::for_enrollment(&request, "e-m1", to_send_on);
    let member = user("u-m1", "Mira One", "m1@example.org");
    let coach = user("u-coach", "Cora Coach", "coach@example.org");
    let recipients = MailRecipient::build_recipients(&member, &coach, mail_out.id.as_str());
    correspondences::create_mail(store, mail_out, recipients, to_send_on).unwrap();
}

#[test]
fn a_duplicate_outbox_id_is_refused_like_a_key_clash() {
    let mut store = seeded_store();
    let make = || MailOut {
        id: String::from("fixed-id"),
        from_user_id: String::from("u-coach"),
        program_id: String::from("p-1"),
        enrollment_id: String::from("e-m1"),
        from_email: String::from("schedule@krscode.com"),
        subject: String::from("s"),
        content: Some(String::from("c")),
        in_out: String::from("out"),
        status: String::from("pending"),
        reply_to: String::from(" "),
        error: String::from(" "),
        to_send_on: T0,
        mail_type: String::from("normal"),
    };
    assert_eq!(Ok(0), correspondences::create_mail(&mut store, make(), Vec::new(), T0));
    assert!(matches!(
        correspondences::create_mail(&mut store, make(), Vec::new(), T0),
        Err(ServiceError::PersistenceError)
    ));
    assert_eq!(1, store.correspondences.len());
}

#[test]
fn claims_take_the_oldest_and_never_overlap() {
    let mut store = seeded_store();
    for (tag, at) in [("a", 500), ("b", 100), ("c", 400), ("d", 200), ("e", 300)] {
        staged_mail(&mut store, tag, at);
    }
    let first = correspondences::sendable_mails(&mut store).unwrap();
    assert_eq!(3, first.len());
    // the batch itself comes oldest first
    let first_times: Vec<i64> = first.iter().map(|m| m.correspondence.to_send_on).collect();
    assert_eq!(vec![100, 200, 300], first_times);
    // the claim flipped exactly those three to marked
    let marked: Vec<&str> = store
        .correspondences
        .iter()
        .filter(|c| c.status.as_str() == "marked")
        .map(|c| c.id.as_str())
        .collect();
    assert_eq!(3, marked.len());
    let second = correspondences::sendable_mails(&mut store).unwrap();
    assert_eq!(2, second.len());
    let second_times: Vec<i64> = second.iter().map(|m| m.correspondence.to_send_on).collect();
    assert_eq!(vec![400, 500], second_times);
    // no id appears in both batches
    for m1 in &first {
        for m2 in &second {
            assert_ne!(m1.correspondence.id, m2.correspondence.id);
        }
    }
    // a third sweep finds nothing pending
    let third = correspondences::sendable_mails(&mut store).unwrap();
    assert_eq!(0, third.len());
}

#[test]
fn each_claimed_mail_carries_its_recipients() {
    let mut store = seeded_store();
    staged_mail(&mut store, "solo", 100);
    let batch = correspondences::sendable_mails(&mut store).unwrap();
    assert_eq!(1, batch.len());
    assert_eq!("subject solo", batch[0].correspondence.subject.as_str());
    assert_eq!("pending", batch[0].correspondence.status.as_str());
    assert_eq!(2, batch[0].receipients.len());
    assert_eq!("m1@example.org", batch[0].receipients[0].to_email.as_str());
    assert_eq!("coach@example.org", batch[0].receipients[1].to_email.as_str());
}

#[test]
fn managed_enrollment_stages_the_invitation() {
    let mut store = Store::new();
    store.users.push(user("u-coach", "Cora Coach", "coach@example.org"));
    store.users.push(user("u-m1", "Mira One", "m1@example.org"));
    store.programs.push(program("p-1", "u-coach", "Cora Coach"));
    let request = ManagedEnrollmentRequest {
        program_id: String::from("p-1"),
        coach_id: String::from("u-coach"),
        member_mail: String::from("m1@example.org"),
        subject: String::from("Welcome aboard"),
        message: String::from("Glad to have you"),
    };
    let enrollment = enrollments::create_managed_enrollment(&mut store, &request, T0).unwrap();
    assert_eq!("p-1", enrollment.program_id.as_str());
    assert_eq!("u-m1", enrollment.member_id.as_str());
    assert_eq!(1, store.correspondences.len());
    let mail = &store.correspondences[0];
    assert_eq!("normal", mail.mail_type.as_str());
    assert_eq!("Welcome aboard", mail.subject.as_str());
    assert_eq!(Some(String::from("Glad to have you")), mail.content);
    // enrolling the same member again is refused
    assert!(matches!(
        enrollments::create_managed_enrollment(&mut store, &request, T0 + 1),
        Err(ServiceError::Validation)
    ));
}

fn discussion(author: &str, to: &str, text: &str) -> NewDiscussionRequest {
    NewDiscussionRequest {
        enrollment_id: String::from("e-m1"),
        created_by_id: String::from(author),
        description: String::from(text),
        to_id: String::from(to),
        program_id: String::from("p-1"),
        program_name: String::from("Rust Coaching"),
        coach_id: String::from("u-coach"),
        coach_name: String::from("Cora Coach"),
        member_id: String::from("u-m1"),
        member_name: String::from("Mira One"),
    }
}

#[test]
fn pending_feeds_come_newest_first() {
    let mut store = seeded_store();
    for at in [T0, T0 + 5, T0 + 2] {
        let request = discussion("u-coach", "u-m1", "ping");
        discussions::create_new_discussion(&mut store, &request, at).unwrap();
    }
    let pending =
        discussions::get_pending_discussions(&store, &ferris::models::users::UserCriteria {
            id: String::from("u-m1"),
        })
        .unwrap();
    assert_eq!(3, pending.len());
    assert_eq!(T0 + 5, pending[0].feed.created_at);
    assert_eq!(T0 + 2, pending[1].feed.created_at);
    assert_eq!(T0, pending[2].feed.created_at);
}

#[test]
fn a_reply_clears_the_whole_backlog_of_the_thread() {
    let mut store = seeded_store();
    // the coach writes five messages; the member's backlog grows to five
    for k in 0..5 {
        let request = discussion("u-coach", "u-m1", "ping");
        discussions::create_new_discussion(&mut store, &request, T0 + k).unwrap();
    }
    assert_eq!(Ok(5), discussions::get_pending_feed_count(&store, "u-m1"));
    assert_eq!(Ok(0), discussions::get_pending_feed_count(&store, "u-coach"));
    // one reply clears all five at once and leaves one for the coach
    let reply = discussion("u-m1", "u-coach", "pong");
    discussions::create_new_discussion(&mut store, &reply, T0 + 10).unwrap();
    assert_eq!(Ok(0), discussions::get_pending_feed_count(&store, "u-m1"));
    assert_eq!(Ok(1), discussions::get_pending_feed_count(&store, "u-coach"));
    // the pending view joins message and author
    let pending =
        discussions::get_pending_discussions(&store, &ferris::models::users::UserCriteria {
            id: String::from("u-coach"),
        })
        .unwrap();
    assert_eq!(1, pending.len());
    assert_eq!("pong", pending[0].description.as_str());
    assert_eq!("u-m1", pending[0].user.id.as_str());
    // the thread reads back in full
    let thread = discussions::get_discussions(
        &store,
        &ferris::models::discussions::DiscussionCriteria { enrollment_id: String::from("e-m1") },
    );
    assert_eq!(6, thread.len());
}
