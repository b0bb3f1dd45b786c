use vstd::prelude::*;

use crate::commons::chassis::{push_error, ve_views, ValidationError};
use crate::commons::util;
use crate::commons::util::blank_text;

verus! {

/// A genre-level program template that coaches can be associated with.
pub struct BaseProgram {
    pub id: String,
    pub name: String,
    pub description: Option<String>,
    pub genre_id: String,
    pub active: bool,
    pub created_at: i64,
    pub updated_at: i64,
}

impl BaseProgram {
    pub fn id(&self) -> (r: &str)
        ensures
            r@ == self.id@,
    {
        self.id.as_str()
    }

    pub fn name(&self) -> (r: &str)
        ensures
            r@ == self.name@,
    {
        self.name.as_str()
    }

    pub fn description(&self) -> (r: &str)
        ensures
            match self.description {
                Some(ref v) => r@ == v@,
                None => r@ == "_"@,
            },
    {
        match &self.description {
            None => "_",
            Some(value) => value.as_str(),
        }
    }

    pub fn genre_id(&self) -> (r: &str)
        ensures
            r@ == self.genre_id@,
    {
        self.genre_id.as_str()
    }
}

pub struct NewBaseProgramRequest {
    pub name: String,
    pub description: String,
    pub genre_id: String,
    pub coach_id: String,
}

/// The checks that fail on a new-base-program request, in the order they
/// are reported.
pub open spec fn new_base_program_errors(r: &NewBaseProgramRequest) -> Seq<(Seq<char>, Seq<char>)> {
    let e0 = Seq::<(Seq<char>, Seq<char>)>::empty();
    let e1 = if blank_text(r.name@) {
        e0.push(("name"@, "The name of the base program is a must."@))
    } else {
        e0
    };
    let e2 = if blank_text(r.description@) {
        e1.push(("description"@, "We need a description to start with."@))
    } else {
        e1
    };
    let e3 = if blank_text(r.coach_id@) {
        e2.push(("coach_id"@, "coach id is a must"@))
    } else {
        e2
    };
    if blank_text(r.genre_id@) {
        e3.push(("genre_id"@, "The genre of the program is required."@))
    } else {
        e3
    }
}

impl NewBaseProgramRequest {
    pub fn validate(&self) -> (r: Vec<ValidationError>)
        ensures
            ve_views(r@) == new_base_program_errors(self),
            r@.len() == 0 <==> !blank_text(self.name@) && !blank_text(self.description@)
                && !blank_text(self.coach_id@) && !blank_text(self.genre_id@),
    {
        let mut errors: Vec<ValidationError> = Vec::new();
        if util::is_blank(self.name.as_str()) {
            push_error(&mut errors, "name", "The name of the base program is a must.");
        }
        if util::is_blank(self.description.as_str()) {
            push_error(&mut errors, "description", "We need a description to start with.");
        }
        if util::is_blank(self.coach_id.as_str()) {
            push_error(&mut errors, "coach_id", "coach id is a must");
        }
        if util::is_blank(self.genre_id.as_str()) {
            push_error(&mut errors, "genre_id", "The genre of the program is required.");
        }
        errors
    }
}

/// The persistable form of a new base program, with a fresh id.
pub struct NewBaseProgram {
    pub id: String,
    pub name: String,
    pub description: String,
    pub genre_id: String,
    pub active: bool,
}

impl NewBaseProgram {
    pub fn from(request: &NewBaseProgramRequest) -> (r: NewBaseProgram)
        ensures
            r.id@.len() == 36,
            r.name@ == request.name@,
            r.description@ == request.description@,
            r.genre_id@ == request.genre_id@,
            !r.active,
    {
        let fuzzy_id = util::fuzzy_id();
        NewBaseProgram {
            id: fuzzy_id,
            name: request.name.clone(),
            description: request.description.clone(),
            genre_id: request.genre_id.clone(),
            active: false,
        }
    }
}

} // verus!
