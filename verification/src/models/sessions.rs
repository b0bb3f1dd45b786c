use vstd::prelude::*;

use crate::commons::chassis::{push_error, ve_views, ValidationError};
use crate::commons::util;
use crate::commons::util::{blank_text, minute_floor, parsed_schedule_of, ts_ok, TS_LIMIT};

verus! {

/// A schedulable event: a stand-alone coaching session, or one per-member
/// session fanned out from a conference (then `conference_id` is set).
pub struct Session {
    pub id: String,
    pub name: String,
    pub description: Option<String>,
    pub program_id: String,
    pub enrollment_id: String,
    pub people: Option<String>,
    pub duration: i32,
    pub original_start_date: i64,
    pub original_end_date: i64,
    pub revised_start_date: Option<i64>,
    pub revised_end_date: Option<i64>,
    pub offered_start_date: Option<i64>,
    pub offered_end_date: Option<i64>,
    pub is_ready: bool,
    pub actual_start_date: Option<i64>,
    pub actual_end_date: Option<i64>,
    pub cancelled_at: Option<i64>,
    pub created_at: i64,
    pub updated_at: i64,
    pub closing_notes: Option<String>,
    pub conference_id: Option<String>,
    pub session_type: String,
}

/// The status an event derives from its timestamps.
#[derive(Clone, Copy, PartialEq, Eq, Structural, Debug)]
pub enum SessionStatus {
    DONE,
    PROGRESS,
    CANCELLED,
    READY,
    OVERDUE,
    PLANNED,
}

/// The commands of the lifecycle state machine.
#[derive(Clone, Copy, PartialEq, Eq, Structural, Debug)]
pub enum TargetState {
    READY,
    START,
    DONE,
    CANCEL,
}

/// A request to drive one event through one lifecycle command.
pub struct ChangeSessionStateRequest {
    pub id: String,
    pub target_state: TargetState,
    pub closing_notes: Option<String>,
}

impl Session {
    /// An event is terminal once it is cancelled or completed; no further
    /// transition is permitted then.
    pub open spec fn is_terminal(&self) -> bool {
        self.cancelled_at is Some || self.actual_end_date is Some
    }

    /// The lifecycle guard: a transition is permitted only on a
    /// non-terminal event.
    pub fn can_transition(&self) -> (r: bool)
        ensures
            r == !self.is_terminal(),
    {
        self.cancelled_at.is_none() && self.actual_end_date.is_none()
    }

    /// The membership removal guard: only a session that has not started
    /// and is not cancelled may be deleted.
    pub open spec fn spec_can_delete(&self) -> bool {
        self.actual_start_date is None && self.cancelled_at is None
    }

    pub fn can_delete(&self) -> (r: bool)
        ensures
            r == self.spec_can_delete(),
    {
        self.actual_start_date.is_none() && self.cancelled_at.is_none()
    }

    /// Whether this session is a fanned-out member of a conference.
    pub open spec fn spec_is_conference(&self) -> bool {
        self.conference_id is Some
    }

    pub fn is_conference(&self) -> (r: bool)
        ensures
            r == self.spec_is_conference(),
    {
        self.conference_id.is_some()
    }

    pub fn id(&self) -> (r: &str)
        ensures
            r@ == self.id@,
    {
        self.id.as_str()
    }

    pub fn program_id(&self) -> (r: &str)
        ensures
            r@ == self.program_id@,
    {
        self.program_id.as_str()
    }

    pub fn enrollment_id(&self) -> (r: &str)
        ensures
            r@ == self.enrollment_id@,
    {
        self.enrollment_id.as_str()
    }

    pub fn name(&self) -> (r: &str)
        ensures
            r@ == self.name@,
    {
        self.name.as_str()
    }

    pub fn description(&self) -> (r: &str)
        ensures
            match self.description {
                Some(ref v) => r@ == v@,
                None => r@ == "_"@,
            },
    {
        match &self.description {
            None => "_",
            Some(value) => value.as_str(),
        }
    }

    pub fn people(&self) -> (r: &str)
        ensures
            match self.people {
                Some(ref v) => r@ == v@,
                None => r@ == "_"@,
            },
    {
        match &self.people {
            None => "_",
            Some(value) => value.as_str(),
        }
    }

    pub fn duration(&self) -> (r: i32)
        ensures
            r == self.duration,
    {
        self.duration
    }

    pub open spec fn spec_schedule_start(&self) -> i64 {
        match self.revised_start_date {
            Some(v) => v,
            None => self.original_start_date,
        }
    }

    pub open spec fn spec_schedule_end(&self) -> i64 {
        match self.revised_end_date {
            Some(v) => v,
            None => self.original_end_date,
        }
    }

    /// The start the attendees should go by: the revised one where set.
    pub fn schedule_start(&self) -> (r: i64)
        ensures
            r == self.spec_schedule_start(),
    {
        match self.revised_start_date {
            Some(v) => v,
            None => self.original_start_date,
        }
    }

    /// The end the attendees should go by: the revised one where set.
    pub fn schedule_end(&self) -> (r: i64)
        ensures
            r == self.spec_schedule_end(),
    {
        match self.revised_end_date {
            Some(v) => v,
            None => self.original_end_date,
        }
    }

    pub fn is_closed(&self) -> (r: bool)
        ensures
            r == self.is_terminal(),
    {
        if self.cancelled_at.is_some() {
            return true;
        }
        if self.actual_end_date.is_some() {
            return true;
        }
        false
    }

    /// The status the event derives from its timestamps at the given
    /// clock reading: CANCELLED and DONE are terminal; PROGRESS once
    /// started; READY when marked; else OVERDUE past the effective start,
    /// else PLANNED.
    pub open spec fn spec_status(&self, clock: int) -> SessionStatus {
        if self.cancelled_at is Some {
            SessionStatus::CANCELLED
        } else if self.actual_end_date is Some {
            SessionStatus::DONE
        } else if self.actual_start_date is Some {
            SessionStatus::PROGRESS
        } else if self.is_ready {
            SessionStatus::READY
        } else if minute_floor(self.spec_schedule_start() as int) < minute_floor(clock) {
            SessionStatus::OVERDUE
        } else {
            SessionStatus::PLANNED
        }
    }

    pub fn status(&self, clock: i64) -> (r: SessionStatus)
        requires
            ts_ok(self.spec_schedule_start() as int),
            ts_ok(clock as int),
        ensures
            r == self.spec_status(clock as int),
    {
        if self.cancelled_at.is_some() {
            return SessionStatus::CANCELLED;
        }
        if self.actual_end_date.is_some() {
            return SessionStatus::DONE;
        }
        if self.actual_start_date.is_some() {
            return SessionStatus::PROGRESS;
        }
        if self.is_ready {
            return SessionStatus::READY;
        }
        if util::is_past_date(self.schedule_start(), clock) {
            return SessionStatus::OVERDUE;
        }
        SessionStatus::PLANNED
    }

    pub fn closing_notes(&self) -> (r: Option<String>)
        ensures
            r == self.closing_notes,
    {
        match &self.closing_notes {
            Some(v) => Some(v.clone()),
            None => None,
        }
    }
}

/// The pure transition function of the lifecycle state machine: the same
/// event after the command, timestamps taken from the single clock
/// reading handed in.
pub open spec fn transited_session(
    s: Session,
    target: TargetState,
    notes: Option<String>,
    now: i64,
) -> Session {
    match target {
        TargetState::READY => Session { is_ready: true, ..s },
        TargetState::START => Session { actual_start_date: Some(now), ..s },
        TargetState::DONE => Session {
            actual_end_date: Some(now),
            closing_notes: notes,
            ..s
        },
        TargetState::CANCEL => Session {
            cancelled_at: Some(now),
            closing_notes: notes,
            ..s
        },
    }
}

impl Session {
    /// This session after the requested command, against the given clock
    /// reading.
    pub fn with_transition(&self, request: &ChangeSessionStateRequest, now: i64) -> (r: Session)
        ensures
            r == transited_session(*self, request.target_state, request.closing_notes, now),
    {
        let notes: Option<String> = match &request.closing_notes {
            Some(s) => Some(s.clone()),
            None => None,
        };
        match request.target_state {
            TargetState::READY => Session { is_ready: true, ..self.duplicate() },
            TargetState::START => Session {
                actual_start_date: Some(now),
                ..self.duplicate()
            },
            TargetState::DONE => Session {
                actual_end_date: Some(now),
                closing_notes: notes,
                ..self.duplicate()
            },
            TargetState::CANCEL => Session {
                cancelled_at: Some(now),
                closing_notes: notes,
                ..self.duplicate()
            },
        }
    }

    /// A field-for-field copy.
    pub fn duplicate(&self) -> (r: Session)
        ensures
            r == *self,
    {
        Session {
            id: self.id.clone(),
            name: self.name.clone(),
            description: match &self.description {
                Some(v) => Some(v.clone()),
                None => None,
            },
            program_id: self.program_id.clone(),
            enrollment_id: self.enrollment_id.clone(),
            people: match &self.people {
                Some(v) => Some(v.clone()),
                None => None,
            },
            duration: self.duration,
            original_start_date: self.original_start_date,
            original_end_date: self.original_end_date,
            revised_start_date: self.revised_start_date,
            revised_end_date: self.revised_end_date,
            offered_start_date: self.offered_start_date,
            offered_end_date: self.offered_end_date,
            is_ready: self.is_ready,
            actual_start_date: self.actual_start_date,
            actual_end_date: self.actual_end_date,
            cancelled_at: self.cancelled_at,
            created_at: self.created_at,
            updated_at: self.updated_at,
            closing_notes: match &self.closing_notes {
                Some(v) => Some(v.clone()),
                None => None,
            },
            conference_id: match &self.conference_id {
                Some(v) => Some(v.clone()),
                None => None,
            },
            session_type: self.session_type.clone(),
        }
    }
}

pub struct NewSessionRequest {
    pub program_id: String,
    pub member_id: String,
    pub name: String,
    pub description: String,
    pub duration: i32,
    pub start_time: String,
}

/// The checks that fail on a new-session request at the given clock
/// reading, in the order they are reported.
pub open spec fn new_session_errors(r: &NewSessionRequest, clock: int) -> Seq<
    (Seq<char>, Seq<char>),
> {
    let e0 = Seq::<(Seq<char>, Seq<char>)>::empty();
    let e1 = if parsed_schedule_of(r.start_time@) is None {
        e0.push(("start_time"@, "unparsable date."@))
    } else {
        e0
    };
    let e2 = if parsed_schedule_of(r.start_time@) matches Some(t) && minute_floor(t)
        < minute_floor(clock) {
        e1.push(("start_time"@, "should be a future date."@))
    } else {
        e1
    };
    let e3 = if r.duration < 15 {
        e2.push(("duration"@, "should be a minimum of 15 minutes"@))
    } else {
        e2
    };
    let e4 = if blank_text(r.program_id@) {
        e3.push(("program_id"@, "Program fuzzy id is a must."@))
    } else {
        e3
    };
    let e5 = if blank_text(r.member_id@) {
        e4.push(("member_id"@, "Member fuzzy id is a must."@))
    } else {
        e4
    };
    let e6 = if blank_text(r.name@) {
        e5.push(("name"@, "name of the session is a must."@))
    } else {
        e5
    };
    if blank_text(r.description@) {
        e6.push(("description"@, "description of the session is a must."@))
    } else {
        e6
    }
}

impl NewSessionRequest {
    /// The checks against an explicit clock reading.
    pub fn validate_at(&self, clock: i64) -> (r: Vec<ValidationError>)
        requires
            ts_ok(clock as int),
        ensures
            ve_views(r@) == new_session_errors(self, clock as int),
    {
        let mut errors: Vec<ValidationError> = Vec::new();
        if !util::is_valid_date(self.start_time.as_str()) {
            push_error(&mut errors, "start_time", "unparsable date.");
        }
        let date: i64 = util::as_date(self.start_time.as_str());
        if util::is_valid_date(self.start_time.as_str()) && util::is_past_date(date, clock) {
            push_error(&mut errors, "start_time", "should be a future date.");
        }
        if self.duration < 15 {
            push_error(&mut errors, "duration", "should be a minimum of 15 minutes");
        }
        if util::is_blank(self.program_id.as_str()) {
            push_error(&mut errors, "program_id", "Program fuzzy id is a must.");
        }
        if util::is_blank(self.member_id.as_str()) {
            push_error(&mut errors, "member_id", "Member fuzzy id is a must.");
        }
        if util::is_blank(self.name.as_str()) {
            push_error(&mut errors, "name", "name of the session is a must.");
        }
        if util::is_blank(self.description.as_str()) {
            push_error(&mut errors, "description", "description of the session is a must.");
        }
        errors
    }

    /// The checks against the clock of the moment.
    pub fn validate(&self) -> (r: Vec<ValidationError>)
        ensures
            exists|c: int|
                -TS_LIMIT <= c <= TS_LIMIT && ve_views(r@) == new_session_errors(self, c),
    {
        let clock: i64 = util::now();
        let r = self.validate_at(clock);
        proof {
            assert(-TS_LIMIT <= clock as int <= TS_LIMIT && ve_views(r@) == new_session_errors(
                self,
                clock as int,
            ));
        }
        r
    }
}

/// The persistable form of a new stand-alone session, with a fresh id.
pub struct NewSession {
    pub id: String,
    pub name: String,
    pub description: String,
    pub program_id: String,
    pub enrollment_id: String,
    pub people: String,
    pub duration: i32,
    pub original_start_date: i64,
    pub original_end_date: i64,
    pub conference_id: Option<String>,
    pub session_type: String,
    pub is_ready: bool,
}

impl NewSession {
    pub fn from(request: &NewSessionRequest, enrollment_id: String, people: String) -> (r:
        NewSession)
        ensures
            r.id@.len() == 36,
            r.name@ == request.name@,
            r.description@ == request.description@,
            r.program_id@ == request.program_id@,
            r.enrollment_id@ == enrollment_id@,
            r.people@ == people@,
            r.duration == request.duration,
            ts_ok(r.original_start_date as int),
            parsed_schedule_of(request.start_time@) matches Some(t) ==> r.original_start_date
                == minute_floor(t),
            r.original_end_date == r.original_start_date + request.duration * 60,
            r.conference_id is None,
            r.session_type@ == util::MONO@,
            !r.is_ready,
    {
        let start_date: i64 = util::as_date(request.start_time.as_str());
        let end_date: i64 = start_date + (request.duration as i64) * 60;
        let fuzzy_id = util::fuzzy_id();
        NewSession {
            id: fuzzy_id,
            name: request.name.clone(),
            description: request.description.clone(),
            program_id: request.program_id.clone(),
            enrollment_id,
            people,
            duration: request.duration,
            original_start_date: start_date,
            original_end_date: end_date,
            conference_id: None,
            session_type: util::MONO.to_owned(),
            is_ready: false,
        }
    }
}

} // verus!
