use vstd::prelude::*;

use crate::commons::chassis::{push_error, ve_views, ValidationError};
use crate::commons::util;
use crate::commons::util::{blank_text, minute_floor, parsed_schedule_of, ts_ok, TS_LIMIT};
use crate::models::sessions::{ChangeSessionStateRequest, TargetState};

verus! {

/// A multi-party event that fans out into one session per member; the
/// conference row is the authority for the whole group's state.
pub struct Conference {
    pub id: String,
    pub name: String,
    pub description: Option<String>,
    pub program_id: String,
    pub people: Option<String>,
    pub duration: i32,
    pub original_start_date: i64,
    pub original_end_date: i64,
    pub revised_start_date: Option<i64>,
    pub revised_end_date: Option<i64>,
    pub offered_start_date: Option<i64>,
    pub offered_end_date: Option<i64>,
    pub is_ready: bool,
    pub actual_start_date: Option<i64>,
    pub actual_end_date: Option<i64>,
    pub cancelled_at: Option<i64>,
    pub closing_notes: Option<String>,
    pub created_at: i64,
    pub updated_at: i64,
}

impl Conference {
    /// A conference is terminal once it is cancelled or completed.
    pub open spec fn is_terminal(&self) -> bool {
        self.cancelled_at is Some || self.actual_end_date is Some
    }

    pub fn can_transition(&self) -> (r: bool)
        ensures
            r == !self.is_terminal(),
    {
        self.cancelled_at.is_none() && self.actual_end_date.is_none()
    }

    pub fn id(&self) -> (r: &str)
        ensures
            r@ == self.id@,
    {
        self.id.as_str()
    }

    pub fn name(&self) -> (r: &str)
        ensures
            r@ == self.name@,
    {
        self.name.as_str()
    }

    pub fn description(&self) -> (r: &str)
        ensures
            match self.description {
                Some(ref v) => r@ == v@,
                None => r@ == "_"@,
            },
    {
        match &self.description {
            None => "_",
            Some(value) => value.as_str(),
        }
    }

    pub fn program_id(&self) -> (r: &str)
        ensures
            r@ == self.program_id@,
    {
        self.program_id.as_str()
    }

    pub fn people(&self) -> (r: &str)
        ensures
            match self.people {
                Some(ref v) => r@ == v@,
                None => r@ == "_"@,
            },
    {
        match &self.people {
            None => "_",
            Some(value) => value.as_str(),
        }
    }

    pub fn duration(&self) -> (r: i32)
        ensures
            r == self.duration,
    {
        self.duration
    }

    pub open spec fn spec_schedule_start(&self) -> i64 {
        match self.revised_start_date {
            Some(v) => v,
            None => self.original_start_date,
        }
    }

    pub open spec fn spec_schedule_end(&self) -> i64 {
        match self.revised_end_date {
            Some(v) => v,
            None => self.original_end_date,
        }
    }

    pub fn schedule_start(&self) -> (r: i64)
        ensures
            r == self.spec_schedule_start(),
    {
        match self.revised_start_date {
            Some(v) => v,
            None => self.original_start_date,
        }
    }

    pub fn schedule_end(&self) -> (r: i64)
        ensures
            r == self.spec_schedule_end(),
    {
        match self.revised_end_date {
            Some(v) => v,
            None => self.original_end_date,
        }
    }

    pub fn actual_start(&self) -> (r: Option<i64>)
        ensures
            r == self.actual_start_date,
    {
        self.actual_start_date
    }

    pub fn actual_end(&self) -> (r: Option<i64>)
        ensures
            r == self.actual_end_date,
    {
        self.actual_end_date
    }

    pub fn closing_notes(&self) -> (r: Option<String>)
        ensures
            r == self.closing_notes,
    {
        match &self.closing_notes {
            Some(v) => Some(v.clone()),
            None => None,
        }
    }

    /// A field-for-field copy.
    pub fn duplicate(&self) -> (r: Conference)
        ensures
            r == *self,
    {
        Conference {
            id: self.id.clone(),
            name: self.name.clone(),
            description: match &self.description {
                Some(v) => Some(v.clone()),
                None => None,
            },
            program_id: self.program_id.clone(),
            people: match &self.people {
                Some(v) => Some(v.clone()),
                None => None,
            },
            duration: self.duration,
            original_start_date: self.original_start_date,
            original_end_date: self.original_end_date,
            revised_start_date: self.revised_start_date,
            revised_end_date: self.revised_end_date,
            offered_start_date: self.offered_start_date,
            offered_end_date: self.offered_end_date,
            is_ready: self.is_ready,
            actual_start_date: self.actual_start_date,
            actual_end_date: self.actual_end_date,
            cancelled_at: self.cancelled_at,
            closing_notes: match &self.closing_notes {
                Some(v) => Some(v.clone()),
                None => None,
            },
            created_at: self.created_at,
            updated_at: self.updated_at,
        }
    }
}

/// The pure transition function applied to the conference row itself,
/// identical in shape to the one applied to its sessions.
pub open spec fn transited_conference(
    c: Conference,
    target: TargetState,
    notes: Option<String>,
    now: i64,
) -> Conference {
    match target {
        TargetState::READY => Conference { is_ready: true, ..c },
        TargetState::START => Conference { actual_start_date: Some(now), ..c },
        TargetState::DONE => Conference {
            actual_end_date: Some(now),
            closing_notes: notes,
            ..c
        },
        TargetState::CANCEL => Conference {
            cancelled_at: Some(now),
            closing_notes: notes,
            ..c
        },
    }
}

impl Conference {
    /// This conference after the requested command, against the given
    /// clock reading.
    pub fn with_transition(&self, request: &ChangeSessionStateRequest, now: i64) -> (r: Conference)
        ensures
            r == transited_conference(*self, request.target_state, request.closing_notes, now),
    {
        let notes: Option<String> = match &request.closing_notes {
            Some(s) => Some(s.clone()),
            None => None,
        };
        match request.target_state {
            TargetState::READY => Conference { is_ready: true, ..self.duplicate() },
            TargetState::START => Conference {
                actual_start_date: Some(now),
                ..self.duplicate()
            },
            TargetState::DONE => Conference {
                actual_end_date: Some(now),
                closing_notes: notes,
                ..self.duplicate()
            },
            TargetState::CANCEL => Conference {
                cancelled_at: Some(now),
                closing_notes: notes,
                ..self.duplicate()
            },
        }
    }
}

pub struct NewConferenceRequest {
    pub program_id: String,
    pub name: String,
    pub description: String,
    pub duration: i32,
    pub start_time: String,
}

/// The checks that fail on a new-conference request at the given clock
/// reading, in the order they are reported.
pub open spec fn new_conference_errors(r: &NewConferenceRequest, clock: int) -> Seq<
    (Seq<char>, Seq<char>),
> {
    let e0 = Seq::<(Seq<char>, Seq<char>)>::empty();
    let e1 = if parsed_schedule_of(r.start_time@) is None {
        e0.push(("start_time"@, "unparsable date."@))
    } else {
        e0
    };
    let e2 = if parsed_schedule_of(r.start_time@) matches Some(t) && minute_floor(t)
        < minute_floor(clock) {
        e1.push(("start_time"@, "should be a future date."@))
    } else {
        e1
    };
    let e3 = if r.duration < 15 {
        e2.push(("duration"@, "should be a minimum of 15 minutes"@))
    } else {
        e2
    };
    let e4 = if blank_text(r.program_id@) {
        e3.push(("program_id"@, "Program fuzzy id is a must."@))
    } else {
        e3
    };
    let e5 = if blank_text(r.name@) {
        e4.push(("name"@, "name of the conference is a must."@))
    } else {
        e4
    };
    if blank_text(r.description@) {
        e5.push(("description"@, "description of the conference is a must."@))
    } else {
        e5
    }
}

impl NewConferenceRequest {
    /// The checks against an explicit clock reading.
    pub fn validate_at(&self, clock: i64) -> (r: Vec<ValidationError>)
        requires
            ts_ok(clock as int),
        ensures
            ve_views(r@) == new_conference_errors(self, clock as int),
    {
        let mut errors: Vec<ValidationError> = Vec::new();
        if !util::is_valid_date(self.start_time.as_str()) {
            push_error(&mut errors, "start_time", "unparsable date.");
        }
        let date: i64 = util::as_date(self.start_time.as_str());
        if util::is_valid_date(self.start_time.as_str()) && util::is_past_date(date, clock) {
            push_error(&mut errors, "start_time", "should be a future date.");
        }
        if self.duration < 15 {
            push_error(&mut errors, "duration", "should be a minimum of 15 minutes");
        }
        if util::is_blank(self.program_id.as_str()) {
            push_error(&mut errors, "program_id", "Program fuzzy id is a must.");
        }
        if util::is_blank(self.name.as_str()) {
            push_error(&mut errors, "name", "name of the conference is a must.");
        }
        if util::is_blank(self.description.as_str()) {
            push_error(&mut errors, "description", "description of the conference is a must.");
        }
        errors
    }

    /// The checks against the clock of the moment.
    pub fn validate(&self) -> (r: Vec<ValidationError>)
        ensures
            exists|c: int|
                -TS_LIMIT <= c <= TS_LIMIT && ve_views(r@) == new_conference_errors(self, c),
    {
        let clock: i64 = util::now();
        let r = self.validate_at(clock);
        proof {
            assert(-TS_LIMIT <= clock as int <= TS_LIMIT && ve_views(r@) == new_conference_errors(
                self,
                clock as int,
            ));
        }
        r
    }
}

/// The persistable form of a new conference, with a fresh id.
pub struct NewConference {
    pub id: String,
    pub name: String,
    pub description: String,
    pub program_id: String,
    pub people: String,
    pub duration: i32,
    pub original_start_date: i64,
    pub original_end_date: i64,
}

impl NewConference {
    pub fn from(request: &NewConferenceRequest, people: String) -> (r: NewConference)
        ensures
            r.id@.len() == 36,
            r.name@ == request.name@,
            r.description@ == request.description@,
            r.program_id@ == request.program_id@,
            r.people@ == people@,
            r.duration == request.duration,
            ts_ok(r.original_start_date as int),
            parsed_schedule_of(request.start_time@) matches Some(t) ==> r.original_start_date
                == minute_floor(t),
            r.original_end_date == r.original_start_date + request.duration * 60,
    {
        let start_date: i64 = util::as_date(request.start_time.as_str());
        let end_date: i64 = start_date + (request.duration as i64) * 60;
        let fuzzy_id = util::fuzzy_id();
        NewConference {
            id: fuzzy_id,
            name: request.name.clone(),
            description: request.description.clone(),
            program_id: request.program_id.clone(),
            people,
            duration: request.duration,
            original_start_date: start_date,
            original_end_date: end_date,
        }
    }
}

/// Whether a membership request adds or removes the named members.
#[derive(Clone, Copy, PartialEq, Eq, Structural, Debug)]
pub enum IntentionState {
    ADD,
    REMOVE,
}

/// A request to add or remove members of a conference.
pub struct MemberRequest {
    pub conference_id: String,
    pub member_ids: Vec<String>,
    pub intention: IntentionState,
}

} // verus!
