use vstd::prelude::*;

use crate::commons::chassis::{push_error, ve_views, ValidationError};
use crate::commons::util;
use crate::commons::util::blank_text;

verus! {

/// A free-text observation recorded against an enrollment.
pub struct Observation {
    pub id: String,
    pub enrollment_id: String,
    pub description: Option<String>,
    pub created_at: i64,
    pub updated_at: i64,
}

impl Observation {
    pub fn id(&self) -> (r: &str)
        ensures
            r@ == self.id@,
    {
        self.id.as_str()
    }

    pub fn enrollment_id(&self) -> (r: &str)
        ensures
            r@ == self.enrollment_id@,
    {
        self.enrollment_id.as_str()
    }

    pub fn description(&self) -> (r: &str)
        ensures
            match self.description {
                Some(ref v) => r@ == v@,
                None => r@ == "_"@,
            },
    {
        match &self.description {
            None => "_",
            Some(value) => value.as_str(),
        }
    }
}

pub struct NewObservationRequest {
    pub enrollment_id: String,
    pub description: String,
}

/// The checks that fail on a new-observation request.
pub open spec fn new_observation_errors(r: &NewObservationRequest) -> Seq<(Seq<char>, Seq<char>)> {
    let e0 = Seq::<(Seq<char>, Seq<char>)>::empty();
    if blank_text(r.enrollment_id@) {
        e0.push(("enrollment_id"@, "Enrollment Id is a must."@))
    } else {
        e0
    }
}

impl NewObservationRequest {
    pub fn validate(&self) -> (r: Vec<ValidationError>)
        ensures
            ve_views(r@) == new_observation_errors(self),
            r@.len() == 0 <==> !blank_text(self.enrollment_id@),
    {
        let mut errors: Vec<ValidationError> = Vec::new();
        if util::is_blank(self.enrollment_id.as_str()) {
            push_error(&mut errors, "enrollment_id", "Enrollment Id is a must.");
        }
        errors
    }
}

pub struct UpdateObservationRequest {
    pub id: String,
    pub description: String,
}

/// The checks that fail on an update-observation request.
pub open spec fn update_observation_errors(r: &UpdateObservationRequest) -> Seq<
    (Seq<char>, Seq<char>),
> {
    let e0 = Seq::<(Seq<char>, Seq<char>)>::empty();
    if blank_text(r.id@) {
        e0.push(("id"@, "Id is a must."@))
    } else {
        e0
    }
}

impl UpdateObservationRequest {
    pub fn validate(&self) -> (r: Vec<ValidationError>)
        ensures
            ve_views(r@) == update_observation_errors(self),
            r@.len() == 0 <==> !blank_text(self.id@),
    {
        let mut errors: Vec<ValidationError> = Vec::new();
        if util::is_blank(self.id.as_str()) {
            push_error(&mut errors, "id", "Id is a must.");
        }
        errors
    }
}

/// The persistable form of a new observation, with a fresh id.
pub struct NewObservation {
    pub id: String,
    pub enrollment_id: String,
    pub description: String,
}

impl NewObservation {
    pub fn from(request: &NewObservationRequest) -> (r: NewObservation)
        ensures
            r.id@.len() == 36,
            r.enrollment_id@ == request.enrollment_id@,
            r.description@ == request.description@,
    {
        let fuzzy_id = util::fuzzy_id();
        NewObservation {
            id: fuzzy_id,
            enrollment_id: request.enrollment_id.clone(),
            description: request.description.clone(),
        }
    }
}

} // verus!
