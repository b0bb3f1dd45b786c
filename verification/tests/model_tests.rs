use ferris::models::abstract_tasks::{NewAbstractTask, NewAbstractTaskRequest};
use ferris::models::correspondences::FerrisEvent;
use ferris::models::enrollments::NewEnrollmentRequest;
use ferris::models::master_plans::{LinkUnit, NewMasterPlanRequest, UpdateMasterPlanRequest};
use ferris::models::master_tasks::{NewMasterTaskRequest, UpdateMasterTaskRequest};
use ferris::models::notes::NewNoteRequest;
use ferris::models::objectives::NewObjectiveRequest;
use ferris::models::observations::{NewObservationRequest, UpdateObservationRequest};
use ferris::models::options::{NewOptionRequest, UpdateOptionRequest};
use ferris::models::programs::NewProgramRequest;
use ferris::models::sessions::{
    NewSession, NewSessionRequest, Session, SessionStatus, TargetState,
};
use ferris::models::users::{Registration, ResetPasswordRequest};

// A valid clock reading used by the date validators: 2020-08-27T06:53:09Z.
const CLOCK: i64 = 1598511189;

fn session_request() -> NewSessionRequest {
    NewSessionRequest {
        program_id: String::from("p-1"),
        member_id: String::from("u-m1"),
        name: String::from("Weekly sync"),
        description: String::from("Plan the week"),
        duration: 30,
        start_time: String::from("2030-01-01T03:00:00Z"),
    }
}

#[test]
fn session_request_validates_clean_input() {
    let errors = session_request().validate_at(CLOCK);
    assert_eq!(0, errors.len());
}

#[test]
fn session_request_rejects_bad_fields() {
    let request = NewSessionRequest {
        program_id: String::from(" "),
        member_id: String::from(""),
        name: String::from(" "),
        description: String::from(""),
        duration: 10,
        start_time: String::from("2010-01-01T03:00:00Z"),
    };
    let errors = request.validate_at(CLOCK);
    assert_eq!(6, errors.len());
    assert_eq!("start_time", errors[0].field.as_str());
    assert_eq!("should be a future date.", errors[0].message.as_str());
    assert_eq!("duration", errors[1].field.as_str());
    assert_eq!("should be a minimum of 15 minutes", errors[1].message.as_str());
    assert_eq!("program_id", errors[2].field.as_str());
    assert_eq!("member_id", errors[3].field.as_str());
    assert_eq!("name", errors[4].field.as_str());
    assert_eq!("description", errors[5].field.as_str());
}

#[test]
fn validation_against_the_live_clock_accepts_a_far_future_booking() {
    let mut request = session_request();
    request.start_time = String::from("2300-01-01T03:00:00Z");
    assert_eq!(0, request.validate().len());
}

#[test]
fn session_request_rejects_unparsable_date() {
    let mut request = session_request();
    request.start_time = String::from("tomorrow");
    let errors = request.validate_at(CLOCK);
    assert_eq!(1, errors.len());
    assert_eq!("start_time", errors[0].field.as_str());
    assert_eq!("unparsable date.", errors[0].message.as_str());
}

#[test]
fn new_session_snapshots_the_request() {
    let request = session_request();
    let s = NewSession::from(&request, String::from("e-1"), String::from("C and M"));
    assert_eq!(36, s.id.chars().count());
    assert_eq!("Weekly sync", s.name.as_str());
    assert_eq!("e-1", s.enrollment_id.as_str());
    assert_eq!("C and M", s.people.as_str());
    assert_eq!(1893466800, s.original_start_date);
    assert_eq!(1893466800 + 30 * 60, s.original_end_date);
    assert!(s.conference_id.is_none());
    assert_eq!("mono", s.session_type.as_str());
    assert!(!s.is_ready);
}

fn bare_session() -> Session {
    Session {
        id: String::from("s-1"),
        name: String::from("n"),
        description: None,
        program_id: String::from("p-1"),
        enrollment_id: String::from("e-1"),
        people: None,
        duration: 30,
        original_start_date: 1893466800,
        original_end_date: 1893468600,
        revised_start_date: None,
        revised_end_date: None,
        offered_start_date: None,
        offered_end_date: None,
        is_ready: false,
        actual_start_date: None,
        actual_end_date: None,
        cancelled_at: None,
        created_at: CLOCK,
        updated_at: CLOCK,
        closing_notes: None,
        conference_id: None,
        session_type: String::from("mono"),
    }
}

#[test]
fn status_walks_the_lifecycle() {
    let mut s = bare_session();
    assert_eq!(SessionStatus::PLANNED, s.status(CLOCK));
    assert_eq!(SessionStatus::OVERDUE, s.status(1893466800 + 120));
    s.is_ready = true;
    assert_eq!(SessionStatus::READY, s.status(CLOCK));
    s.actual_start_date = Some(CLOCK);
    assert_eq!(SessionStatus::PROGRESS, s.status(CLOCK));
    s.actual_end_date = Some(CLOCK);
    assert_eq!(SessionStatus::DONE, s.status(CLOCK));
    s.cancelled_at = Some(CLOCK);
    assert_eq!(SessionStatus::CANCELLED, s.status(CLOCK));
}

#[test]
fn terminal_guard_follows_the_timestamps() {
    let mut s = bare_session();
    assert!(s.can_transition());
    assert!(!s.is_closed());
    s.actual_end_date = Some(CLOCK);
    assert!(!s.can_transition());
    assert!(s.is_closed());
    let mut s2 = bare_session();
    s2.cancelled_at = Some(CLOCK);
    assert!(!s2.can_transition());
}

#[test]
fn transitions_write_only_their_fields() {
    let s = bare_session();
    let done = ferris::models::sessions::ChangeSessionStateRequest {
        id: String::from("s-1"),
        target_state: TargetState::DONE,
        closing_notes: Some(String::from("all good")),
    };
    let t = s.with_transition(&done, 42);
    assert_eq!(Some(42), t.actual_end_date);
    assert_eq!(Some(String::from("all good")), t.closing_notes);
    assert_eq!(None, t.cancelled_at);
    assert_eq!(None, t.actual_start_date);
    assert_eq!("s-1", t.id.as_str());
}

#[test]
fn removal_guard_wants_an_untouched_session() {
    let mut s = bare_session();
    assert!(s.can_delete());
    s.actual_start_date = Some(CLOCK);
    assert!(!s.can_delete());
    let mut s2 = bare_session();
    s2.cancelled_at = Some(CLOCK);
    assert!(!s2.can_delete());
}

#[test]
fn event_payload_renders_like_the_wire_format() {
    let event = FerrisEvent {
        id: String::from("s1"),
        description: Some(String::from("desc")),
        organizer: Some(String::from("c@x")),
        attendee: Some(String::from("m@x")),
        sequence: 1,
        startDate: String::from("20300101T030000Z"),
        endDate: String::from("20300101T033000Z"),
        status: String::from("CONFIRMED"),
        method: String::from("REQUEST"),
    };
    let text = event.to_json();
    let expected = "{\"id\":\"s1\",\"description\":\"desc\",\"organizer\":\"c@x\",\"attendee\":\"m@x\",\"sequence\":1,\"startDate\":\"20300101T030000Z\",\"endDate\":\"20300101T033000Z\",\"status\":\"CONFIRMED\",\"method\":\"REQUEST\"}";
    assert_eq!(expected, text.as_str());
}

#[test]
fn event_payload_escapes_as_json() {
    let tricky = String::from("a\"b\\c\nd\te\u{1}f");
    let event = FerrisEvent {
        id: String::from("s1"),
        description: Some(tricky.clone()),
        organizer: None,
        attendee: None,
        sequence: -7,
        startDate: String::from(""),
        endDate: String::from(""),
        status: String::from("CONFIRMED"),
        method: String::from("REQUEST"),
    };
    let text = event.to_json();
    let parsed: serde_json::Value = serde_json::from_str(text.as_str()).unwrap();
    assert_eq!(Some(tricky.as_str()), parsed["description"].as_str());
    assert!(parsed["organizer"].is_null());
    assert!(parsed["attendee"].is_null());
    assert_eq!(Some(-7), parsed["sequence"].as_i64());
}

#[test]
fn simple_validators_report_each_blank_field() {
    let r = NewAbstractTaskRequest { name: String::from(" "), coach_id: String::from("c") };
    let errors = r.validate();
    assert_eq!(1, errors.len());
    assert_eq!("name", errors[0].field.as_str());
    assert_eq!("Name is a must.", errors[0].message.as_str());
    let ok = NewAbstractTaskRequest { name: String::from("n"), coach_id: String::from("c") };
    assert_eq!(0, ok.validate().len());
    let task = NewAbstractTask::from(&ok);
    assert_eq!("n", task.name.as_str());
    assert_eq!(36, task.id.chars().count());

    let r = NewMasterPlanRequest {
        name: String::from(""),
        description: String::from(""),
        coach_id: String::from(""),
    };
    assert_eq!(3, r.validate().len());

    let r = NewMasterTaskRequest {
        master_plan_id: String::from("m"),
        abstract_task_id: String::from("a"),
        duration: 0,
        min: 0,
        max: 0,
        task_type: String::from("t"),
        coach_id: String::from("c"),
        role_id: String::from("r"),
        coordinates: String::from(""),
    };
    let errors = r.validate();
    assert_eq!(1, errors.len());
    assert_eq!("duration", errors[0].field.as_str());

    let r = UpdateMasterTaskRequest {
        id: String::from(""),
        duration: 5,
        min: 0,
        max: 0,
        task_type: String::from("t"),
        role_id: String::from("r"),
        coordinates: String::from(""),
    };
    let errors = r.validate();
    assert_eq!(1, errors.len());
    assert_eq!("id", errors[0].field.as_str());

    let r = NewEnrollmentRequest { program_id: String::from(""), user_id: String::from("u") };
    let errors = r.validate();
    assert_eq!(1, errors.len());
    assert_eq!("The Program id is invalid.", errors[0].message.as_str());

    let r = NewObservationRequest {
        enrollment_id: String::from(" "),
        description: String::from("d"),
    };
    assert_eq!(1, r.validate().len());
    let r = UpdateObservationRequest { id: String::from("x"), description: String::from("d") };
    assert_eq!(0, r.validate().len());
    let r = NewOptionRequest { enrollment_id: String::from("e"), description: String::from("d") };
    assert_eq!(0, r.validate().len());
    let r = UpdateOptionRequest { id: String::from(""), description: String::from("d") };
    assert_eq!(1, r.validate().len());

    let r = NewProgramRequest {
        name: String::from("n"),
        coach_id: String::from(""),
        description: String::from("d"),
        is_private: false,
        genre_id: None,
    };
    let errors = r.validate();
    assert_eq!(1, errors.len());
    assert_eq!("coach_id", errors[0].field.as_str());

    let r = NewNoteRequest {
        session_user_id: String::from(""),
        description: String::from(""),
        files: None,
        remind_at: None,
    };
    assert_eq!(2, r.validate().len());

    let r = Registration {
        full_name: String::from(""),
        email: String::from("a@b"),
        password: String::from("pw"),
    };
    let errors = r.validate();
    assert_eq!(1, errors.len());
    assert_eq!("full_name", errors[0].field.as_str());

    let r = ResetPasswordRequest {
        email: String::from(""),
        password: String::from(""),
        new_password: String::from(""),
    };
    assert_eq!(3, r.validate().len());
}

#[test]
fn objective_validator_uses_hours() {
    let r = NewObjectiveRequest {
        enrollment_id: String::from("e"),
        duration: 0,
        start_time: String::from("2030-01-01T03:00:00Z"),
        description: String::from("d"),
    };
    let errors = r.validate_at(CLOCK);
    assert_eq!(1, errors.len());
    assert_eq!("should be a minimum of 1 hour.", errors[0].message.as_str());
    let o = ferris::models::objectives::NewObjective::from(&ferris::models::objectives::NewObjectiveRequest {
        enrollment_id: String::from("e"),
        duration: 2,
        start_time: String::from("2030-01-01T03:00:00Z"),
        description: String::from("d"),
    });
    assert_eq!(1893466800, o.original_start_date);
    assert_eq!(1893466800 + 2 * 3600, o.original_end_date);
}

#[test]
fn master_plan_links_carry_their_units() {
    let request = UpdateMasterPlanRequest {
        master_plan_id: String::from("mp-1"),
        tasks: Vec::new(),
        links: vec![
            LinkUnit {
                source_id: String::from("a"),
                target_id: String::from("b"),
                coordinates: String::from("0,0"),
                priority: 1,
                is_forward: true,
            },
            LinkUnit {
                source_id: String::from("b"),
                target_id: String::from("c"),
                coordinates: String::from("1,1"),
                priority: 2,
                is_forward: false,
            },
        ],
    };
    let links = request.as_master_task_links();
    assert_eq!(2, links.len());
    assert_eq!("mp-1", links[0].master_plan_id.as_str());
    assert_eq!("a", links[0].source_task_id.as_str());
    assert_eq!("c", links[1].target_task_id.as_str());
    assert!(!links[1].is_forward);
}
