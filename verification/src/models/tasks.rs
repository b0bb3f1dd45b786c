use vstd::prelude::*;

use crate::commons::chassis::{push_error, ve_views, ValidationError};
use crate::commons::util;
use crate::commons::util::{blank_text, minute_floor, parsed_schedule_of, ts_ok, TS_LIMIT};

verus! {

/// A scheduled piece of work assigned to one actor of an enrollment.
pub struct Task {
    pub id: String,
    pub enrollment_id: String,
    pub actor_id: String,
    pub name: String,
    pub duration: i32,
    pub min: i32,
    pub max: i32,
    pub original_start_date: i64,
    pub original_end_date: i64,
    pub revised_start_date: Option<i64>,
    pub revised_end_date: Option<i64>,
    pub offered_start_date: Option<i64>,
    pub offered_end_date: Option<i64>,
    pub actual_start_date: Option<i64>,
    pub actual_end_date: Option<i64>,
    pub locked: bool,
    pub created_at: i64,
    pub updated_at: i64,
    pub description: Option<String>,
}

/// The derived progress state of a task.
#[derive(Clone, Copy, PartialEq, Eq, Structural, Debug)]
pub enum TaskStatus {
    DONE,
    PLANNED,
    PROGRESS,
    DUE,
    DELAY,
}

impl Task {
    pub fn id(&self) -> (r: &str)
        ensures
            r@ == self.id@,
    {
        self.id.as_str()
    }

    pub fn name(&self) -> (r: &str)
        ensures
            r@ == self.name@,
    {
        self.name.as_str()
    }

    pub fn enrollment_id(&self) -> (r: &str)
        ensures
            r@ == self.enrollment_id@,
    {
        self.enrollment_id.as_str()
    }

    pub fn actor_id(&self) -> (r: &str)
        ensures
            r@ == self.actor_id@,
    {
        self.actor_id.as_str()
    }

    pub open spec fn spec_schedule_start(&self) -> i64 {
        match self.revised_start_date {
            Some(v) => v,
            None => self.original_start_date,
        }
    }

    pub open spec fn spec_schedule_end(&self) -> i64 {
        match self.revised_end_date {
            Some(v) => v,
            None => self.original_end_date,
        }
    }

    /// The start the actor should go by: the revised one where set.
    pub fn schedule_start(&self) -> (r: i64)
        ensures
            r == self.spec_schedule_start(),
    {
        match self.revised_start_date {
            Some(v) => v,
            None => self.original_start_date,
        }
    }

    /// The end the actor should go by: the revised one where set.
    pub fn schedule_end(&self) -> (r: i64)
        ensures
            r == self.spec_schedule_end(),
    {
        match self.revised_end_date {
            Some(v) => v,
            None => self.original_end_date,
        }
    }

    /// The status the task derives from its timestamps at the given clock
    /// reading.
    pub open spec fn spec_status(&self, clock: int) -> TaskStatus {
        if self.actual_end_date is Some {
            TaskStatus::DONE
        } else if self.actual_start_date is Some {
            TaskStatus::PROGRESS
        } else if minute_floor(self.spec_schedule_start() as int) < minute_floor(clock) {
            TaskStatus::DUE
        } else if minute_floor(self.spec_schedule_end() as int) < minute_floor(clock) {
            TaskStatus::DELAY
        } else {
            TaskStatus::PLANNED
        }
    }

    pub fn status(&self, clock: i64) -> (r: TaskStatus)
        requires
            ts_ok(self.spec_schedule_start() as int),
            ts_ok(self.spec_schedule_end() as int),
            ts_ok(clock as int),
        ensures
            r == self.spec_status(clock as int),
    {
        if self.actual_end_date.is_some() {
            return TaskStatus::DONE;
        }
        if self.actual_start_date.is_some() {
            return TaskStatus::PROGRESS;
        }
        if util::is_past_date(self.schedule_start(), clock) {
            return TaskStatus::DUE;
        }
        if util::is_past_date(self.schedule_end(), clock) {
            return TaskStatus::DELAY;
        }
        TaskStatus::PLANNED
    }

    pub fn description(&self) -> (r: &str)
        ensures
            match self.description {
                Some(ref v) => r@ == v@,
                None => r@ == "_"@,
            },
    {
        match &self.description {
            None => "_",
            Some(value) => value.as_str(),
        }
    }
}

pub struct NewTaskRequest {
    pub enrollment_id: String,
    pub actor_id: String,
    pub start_time: String,
    pub duration: i32,
    pub description: String,
    pub name: String,
}

/// The checks that fail on a new-task request at the given clock reading,
/// in the order they are reported.
pub open spec fn new_task_errors(r: &NewTaskRequest, clock: int) -> Seq<(Seq<char>, Seq<char>)> {
    let e0 = Seq::<(Seq<char>, Seq<char>)>::empty();
    let e1 = if parsed_schedule_of(r.start_time@) is None {
        e0.push(("start_time"@, "unparsable date."@))
    } else {
        e0
    };
    let e2 = if parsed_schedule_of(r.start_time@) matches Some(t) && minute_floor(t)
        < minute_floor(clock) {
        e1.push(("start_time"@, "should be a future date."@))
    } else {
        e1
    };
    let e3 = if r.duration <= 0 {
        e2.push(("duration"@, "should be a minimum of 1 hour."@))
    } else {
        e2
    };
    if blank_text(r.enrollment_id@) {
        e3.push(("enrollment_id"@, "Enrollment Id is a must."@))
    } else {
        e3
    }
}

impl NewTaskRequest {
    /// The checks against an explicit clock reading.
    pub fn validate_at(&self, clock: i64) -> (r: Vec<ValidationError>)
        requires
            ts_ok(clock as int),
        ensures
            ve_views(r@) == new_task_errors(self, clock as int),
    {
        let mut errors: Vec<ValidationError> = Vec::new();
        if !util::is_valid_date(self.start_time.as_str()) {
            push_error(&mut errors, "start_time", "unparsable date.");
        }
        let date: i64 = util::as_date(self.start_time.as_str());
        if util::is_valid_date(self.start_time.as_str()) && util::is_past_date(date, clock) {
            push_error(&mut errors, "start_time", "should be a future date.");
        }
        if self.duration <= 0 {
            push_error(&mut errors, "duration", "should be a minimum of 1 hour.");
        }
        if util::is_blank(self.enrollment_id.as_str()) {
            push_error(&mut errors, "enrollment_id", "Enrollment Id is a must.");
        }
        errors
    }

    /// The checks against the clock of the moment.
    pub fn validate(&self) -> (r: Vec<ValidationError>)
        ensures
            exists|c: int| -TS_LIMIT <= c <= TS_LIMIT && ve_views(r@) == new_task_errors(self, c),
    {
        let clock: i64 = util::now();
        let r = self.validate_at(clock);
        proof {
            assert(-TS_LIMIT <= clock as int <= TS_LIMIT && ve_views(r@) == new_task_errors(
                self,
                clock as int,
            ));
        }
        r
    }
}

/// The persistable form of a new task, with a fresh id.
pub struct NewTask {
    pub id: String,
    pub enrollment_id: String,
    pub actor_id: String,
    pub duration: i32,
    pub original_start_date: i64,
    pub original_end_date: i64,
    pub description: String,
    pub name: String,
}

impl NewTask {
    pub fn from(request: &NewTaskRequest) -> (r: NewTask)
        ensures
            r.id@.len() == 36,
            r.enrollment_id@ == request.enrollment_id@,
            r.actor_id@ == request.actor_id@,
            r.duration == request.duration,
            r.description@ == request.description@,
            r.name@ == request.name@,
            ts_ok(r.original_start_date as int),
            parsed_schedule_of(request.start_time@) matches Some(t) ==> r.original_start_date
                == minute_floor(t),
            r.original_end_date == r.original_start_date + request.duration * 3600,
    {
        let start_date: i64 = util::as_date(request.start_time.as_str());
        let end_date: i64 = start_date + (request.duration as i64) * 3600;
        let fuzzy_id = util::fuzzy_id();
        NewTask {
            id: fuzzy_id,
            enrollment_id: request.enrollment_id.clone(),
            actor_id: request.actor_id.clone(),
            duration: request.duration,
            original_start_date: start_date,
            original_end_date: end_date,
            description: request.description.clone(),
            name: request.name.clone(),
        }
    }
}

} // verus!
