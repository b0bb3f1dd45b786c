use vstd::prelude::*;

use crate::commons::chassis::{push_error, ve_views, ValidationError};
use crate::commons::util;
use crate::commons::util::blank_text;

verus! {

/// A reusable task template owned by a coach.
pub struct AbstractTask {
    pub id: String,
    pub name: String,
    pub coach_id: String,
}

impl AbstractTask {
    pub fn id(&self) -> (r: &str)
        ensures
            r@ == self.id@,
    {
        self.id.as_str()
    }

    pub fn name(&self) -> (r: &str)
        ensures
            r@ == self.name@,
    {
        self.name.as_str()
    }

    pub fn coach_id(&self) -> (r: &str)
        ensures
            r@ == self.coach_id@,
    {
        self.coach_id.as_str()
    }
}

pub struct NewAbstractTaskRequest {
    pub name: String,
    pub coach_id: String,
}

/// The checks that fail on a new-abstract-task request, in the order they
/// are reported.
pub open spec fn new_abstract_task_errors(r: &NewAbstractTaskRequest) -> Seq<
    (Seq<char>, Seq<char>),
> {
    let e0 = Seq::<(Seq<char>, Seq<char>)>::empty();
    let e1 = if blank_text(r.name@) {
        e0.push(("name"@, "Name is a must."@))
    } else {
        e0
    };
    if blank_text(r.coach_id@) {
        e1.push(("coach_id"@, "Coach is a must."@))
    } else {
        e1
    }
}

impl NewAbstractTaskRequest {
    pub fn validate(&self) -> (r: Vec<ValidationError>)
        ensures
            ve_views(r@) == new_abstract_task_errors(self),
            r@.len() == 0 <==> !blank_text(self.name@) && !blank_text(self.coach_id@),
    {
        let mut errors: Vec<ValidationError> = Vec::new();
        if util::is_blank(self.name.as_str()) {
            push_error(&mut errors, "name", "Name is a must.");
        }
        if util::is_blank(self.coach_id.as_str()) {
            push_error(&mut errors, "coach_id", "Coach is a must.");
        }
        errors
    }
}

/// The persistable form of a new abstract task, with a fresh id.
pub struct NewAbstractTask {
    pub id: String,
    pub name: String,
    pub coach_id: String,
}

impl NewAbstractTask {
    pub fn from(request: &NewAbstractTaskRequest) -> (r: NewAbstractTask)
        ensures
            r.id@.len() == 36,
            r.name@ == request.name@,
            r.coach_id@ == request.coach_id@,
    {
        let fuzzy_id = util::fuzzy_id();
        NewAbstractTask { id: fuzzy_id, name: request.name.clone(), coach_id: request.coach_id.clone() }
    }
}

pub struct AbstractTaskCriteria {
    pub coach_id: String,
}

} // verus!
