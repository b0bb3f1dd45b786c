use vstd::prelude::*;

use crate::commons::chassis::{push_error, ve_views, ValidationError};
use crate::commons::util;
use crate::commons::util::blank_text;

verus! {

/// One task node of a master plan.
pub struct MasterTask {
    pub id: String,
    pub master_plan_id: String,
    pub abstract_task_id: String,
    pub duration: i32,
    pub min: i32,
    pub max: i32,
    pub task_type: String,
    pub created_at: i64,
    pub updated_at: i64,
    pub coach_id: String,
    pub role_id: String,
    pub coordinates: String,
}

pub struct NewMasterTaskRequest {
    pub master_plan_id: String,
    pub abstract_task_id: String,
    pub duration: i32,
    pub min: i32,
    pub max: i32,
    pub task_type: String,
    pub coach_id: String,
    pub role_id: String,
    pub coordinates: String,
}

/// The checks that fail on a new-master-task request, in the order they
/// are reported.
pub open spec fn new_master_task_errors(r: &NewMasterTaskRequest) -> Seq<(Seq<char>, Seq<char>)> {
    let e0 = Seq::<(Seq<char>, Seq<char>)>::empty();
    let e1 = if blank_text(r.master_plan_id@) {
        e0.push(("master_task_id"@, "Master Task Id is a must."@))
    } else {
        e0
    };
    let e2 = if blank_text(r.abstract_task_id@) {
        e1.push(("abstract_task_id"@, "Abstract Task Id is a must"@))
    } else {
        e1
    };
    let e3 = if r.duration <= 0 {
        e2.push(("duration"@, "should be a minimum of 1 minute."@))
    } else {
        e2
    };
    let e4 = if blank_text(r.coach_id@) {
        e3.push(("coach_id"@, "Coach Id is a must"@))
    } else {
        e3
    };
    let e5 = if blank_text(r.role_id@) {
        e4.push(("role_id"@, "Role Id is a must"@))
    } else {
        e4
    };
    if blank_text(r.task_type@) {
        e5.push(("task_type"@, "Please provide Task Type"@))
    } else {
        e5
    }
}

impl NewMasterTaskRequest {
    pub fn validate(&self) -> (r: Vec<ValidationError>)
        ensures
            ve_views(r@) == new_master_task_errors(self),
            r@.len() == 0 <==> !blank_text(self.master_plan_id@) && !blank_text(
                self.abstract_task_id@,
            ) && self.duration > 0 && !blank_text(self.coach_id@) && !blank_text(self.role_id@)
                && !blank_text(self.task_type@),
    {
        let mut errors: Vec<ValidationError> = Vec::new();
        if util::is_blank(self.master_plan_id.as_str()) {
            push_error(&mut errors, "master_task_id", "Master Task Id is a must.");
        }
        if util::is_blank(self.abstract_task_id.as_str()) {
            push_error(&mut errors, "abstract_task_id", "Abstract Task Id is a must");
        }
        if self.duration <= 0 {
            push_error(&mut errors, "duration", "should be a minimum of 1 minute.");
        }
        if util::is_blank(self.coach_id.as_str()) {
            push_error(&mut errors, "coach_id", "Coach Id is a must");
        }
        if util::is_blank(self.role_id.as_str()) {
            push_error(&mut errors, "role_id", "Role Id is a must");
        }
        if util::is_blank(self.task_type.as_str()) {
            push_error(&mut errors, "task_type", "Please provide Task Type");
        }
        errors
    }
}

/// The persistable form of a new master task, with a fresh id.
pub struct NewMasterTask {
    pub id: String,
    pub master_plan_id: String,
    pub abstract_task_id: String,
    pub duration: i32,
    pub task_type: String,
    pub coach_id: String,
    pub role_id: String,
    pub coordinates: String,
}

impl NewMasterTask {
    pub fn from(request: &NewMasterTaskRequest) -> (r: NewMasterTask)
        ensures
            r.id@.len() == 36,
            r.master_plan_id@ == request.master_plan_id@,
            r.abstract_task_id@ == request.abstract_task_id@,
            r.duration == request.duration,
            r.task_type@ == request.task_type@,
            r.coach_id@ == request.coach_id@,
            r.role_id@ == request.role_id@,
            r.coordinates@ == request.coordinates@,
    {
        let fuzzy_id = util::fuzzy_id();
        NewMasterTask {
            id: fuzzy_id,
            master_plan_id: request.master_plan_id.clone(),
            abstract_task_id: request.abstract_task_id.clone(),
            duration: request.duration,
            task_type: request.task_type.clone(),
            coach_id: request.coach_id.clone(),
            role_id: request.role_id.clone(),
            coordinates: request.coordinates.clone(),
        }
    }
}

/// The fields an update may change on a stored master task.
pub struct UpdateMasterTask {
    pub duration: i32,
    pub min: i32,
    pub max: i32,
    pub task_type: String,
    pub role_id: String,
    pub coordinates: String,
}

pub struct UpdateMasterTaskRequest {
    pub id: String,
    pub duration: i32,
    pub min: i32,
    pub max: i32,
    pub task_type: String,
    pub role_id: String,
    pub coordinates: String,
}

/// The checks that fail on an update-master-task request, in the order
/// they are reported.
pub open spec fn update_master_task_errors(r: &UpdateMasterTaskRequest) -> Seq<
    (Seq<char>, Seq<char>),
> {
    let e0 = Seq::<(Seq<char>, Seq<char>)>::empty();
    let e1 = if blank_text(r.id@) {
        e0.push(("id"@, "Id is a must."@))
    } else {
        e0
    };
    let e2 = if blank_text(r.role_id@) {
        e1.push(("role_id"@, "Role Id is a must."@))
    } else {
        e1
    };
    if r.duration <= 0 {
        e2.push(("duration"@, "should be a minimum of 1 minute."@))
    } else {
        e2
    }
}

impl UpdateMasterTaskRequest {
    pub fn validate(&self) -> (r: Vec<ValidationError>)
        ensures
            ve_views(r@) == update_master_task_errors(self),
            r@.len() == 0 <==> !blank_text(self.id@) && !blank_text(self.role_id@)
                && self.duration > 0,
    {
        let mut errors: Vec<ValidationError> = Vec::new();
        if util::is_blank(self.id.as_str()) {
            push_error(&mut errors, "id", "Id is a must.");
        }
        if util::is_blank(self.role_id.as_str()) {
            push_error(&mut errors, "role_id", "Role Id is a must.");
        }
        if self.duration <= 0 {
            push_error(&mut errors, "duration", "should be a minimum of 1 minute.");
        }
        errors
    }
}

pub struct MasterTaskCriteria {
    pub master_plan_id: String,
}

} // verus!
