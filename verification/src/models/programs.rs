use vstd::prelude::*;

use crate::commons::chassis::{push_error, ve_views, ValidationError};
use crate::commons::util;
use crate::commons::util::blank_text;
use crate::models::coaches::Coach;

verus! {

/// One program a coach offers; a parent program may spawn per-coach
/// copies.
pub struct Program {
    pub id: String,
    pub name: String,
    pub description: Option<String>,
    pub active: bool,
    pub coach_name: String,
    pub coach_id: String,
    pub created_at: i64,
    pub updated_at: i64,
    pub is_private: bool,
    pub genre_id: Option<String>,
    pub is_parent: bool,
    pub parent_program_id: Option<String>,
}

impl Program {
    pub fn id(&self) -> (r: &str)
        ensures
            r@ == self.id@,
    {
        self.id.as_str()
    }

    pub fn active(&self) -> (r: bool)
        ensures
            r == self.active,
    {
        self.active
    }

    pub fn name(&self) -> (r: &str)
        ensures
            r@ == self.name@,
    {
        self.name.as_str()
    }

    pub fn description(&self) -> (r: &str)
        ensures
            match self.description {
                Some(ref v) => r@ == v@,
                None => r@ == "_"@,
            },
    {
        match &self.description {
            None => "_",
            Some(value) => value.as_str(),
        }
    }

    pub fn coach_name(&self) -> (r: &str)
        ensures
            r@ == self.coach_name@,
    {
        self.coach_name.as_str()
    }

    pub fn coach_id(&self) -> (r: &str)
        ensures
            r@ == self.coach_id@,
    {
        self.coach_id.as_str()
    }

    pub fn is_private(&self) -> (r: bool)
        ensures
            r == self.is_private,
    {
        self.is_private
    }

    pub fn is_parent(&self) -> (r: bool)
        ensures
            r == self.is_parent,
    {
        self.is_parent
    }

    /// A field-for-field copy.
    pub fn duplicate(&self) -> (r: Program)
        ensures
            r == *self,
    {
        Program {
            id: self.id.clone(),
            name: self.name.clone(),
            description: match &self.description {
                Some(v) => Some(v.clone()),
                None => None,
            },
            active: self.active,
            coach_name: self.coach_name.clone(),
            coach_id: self.coach_id.clone(),
            created_at: self.created_at,
            updated_at: self.updated_at,
            is_private: self.is_private,
            genre_id: match &self.genre_id {
                Some(v) => Some(v.clone()),
                None => None,
            },
            is_parent: self.is_parent,
            parent_program_id: match &self.parent_program_id {
                Some(v) => Some(v.clone()),
                None => None,
            },
        }
    }

    /// The parent program's id; the program's own id where no parent is
    /// recorded.
    pub fn coalesce_parent_id(&self) -> (r: &str)
        ensures
            match self.parent_program_id {
                Some(ref v) => r@ == v@,
                None => r@ == self.id@,
            },
    {
        match &self.parent_program_id {
            None => self.id.as_str(),
            Some(value) => value.as_str(),
        }
    }
}

pub struct NewProgramRequest {
    pub name: String,
    pub coach_id: String,
    pub description: String,
    pub is_private: bool,
    pub genre_id: Option<String>,
}

/// The checks that fail on a new-program request, in the order they are
/// reported.
pub open spec fn new_program_errors(r: &NewProgramRequest) -> Seq<(Seq<char>, Seq<char>)> {
    let e0 = Seq::<(Seq<char>, Seq<char>)>::empty();
    let e1 = if blank_text(r.name@) {
        e0.push(("name"@, "name of the program is a must."@))
    } else {
        e0
    };
    let e2 = if blank_text(r.coach_id@) {
        e1.push(("coach_id"@, "coach id is a must"@))
    } else {
        e1
    };
    if blank_text(r.description@) {
        e2.push(("description"@, "description of the program is a must."@))
    } else {
        e2
    }
}

impl NewProgramRequest {
    pub fn validate(&self) -> (r: Vec<ValidationError>)
        ensures
            ve_views(r@) == new_program_errors(self),
            r@.len() == 0 <==> !blank_text(self.name@) && !blank_text(self.coach_id@)
                && !blank_text(self.description@),
    {
        let mut errors: Vec<ValidationError> = Vec::new();
        if util::is_blank(self.name.as_str()) {
            push_error(&mut errors, "name", "name of the program is a must.");
        }
        if util::is_blank(self.coach_id.as_str()) {
            push_error(&mut errors, "coach_id", "coach id is a must");
        }
        if util::is_blank(self.description.as_str()) {
            push_error(&mut errors, "description", "description of the program is a must.");
        }
        errors
    }
}

/// The persistable form of a new program, with a fresh id.
pub struct NewProgram {
    pub id: String,
    pub name: String,
    pub description: String,
    pub active: bool,
    pub is_private: bool,
    pub coach_name: String,
    pub coach_id: String,
    pub is_parent: bool,
    pub parent_program_id: String,
    pub genre_id: Option<String>,
}

impl NewProgram {
    /// A parent program carries its own id as the parent id.
    pub fn from_request(request: &NewProgramRequest, coach: &Coach) -> (r: NewProgram)
        ensures
            r.id@.len() == 36,
            r.parent_program_id@ == r.id@,
            r.is_parent,
            r.name@ == request.name@,
            r.description@ == request.description@,
            r.is_private == request.is_private,
            !r.active,
            r.coach_name@ == coach.full_name@,
            r.coach_id@ == coach.id@,
            r.genre_id == request.genre_id,
    {
        let fuzzy_id = util::fuzzy_id();
        NewProgram {
            id: fuzzy_id.clone(),
            parent_program_id: fuzzy_id,
            is_parent: true,
            name: request.name.clone(),
            description: request.description.clone(),
            is_private: request.is_private,
            active: false,
            coach_name: coach.full_name.clone(),
            coach_id: coach.id.clone(),
            genre_id: match &request.genre_id {
                Some(v) => Some(v.clone()),
                None => None,
            },
        }
    }

    /// A program spawned while attaching another coach to a parent
    /// program.
    pub fn from_parent_program(parent_program: &Program, coach: &Coach) -> (r: NewProgram)
        ensures
            r.id@.len() == 36,
            r.parent_program_id@ == parent_program.id@,
            !r.is_parent,
            r.name@ == parent_program.name@,
            r.description@ == "-"@,
            r.is_private,
            r.active == parent_program.active,
            r.coach_name@ == coach.full_name@,
            r.coach_id@ == coach.id@,
            r.genre_id == parent_program.genre_id,
    {
        let fuzzy_id = util::fuzzy_id();
        NewProgram {
            id: fuzzy_id,
            parent_program_id: parent_program.id.clone(),
            is_parent: false,
            name: parent_program.name.clone(),
            description: "-".to_owned(),
            is_private: true,
            active: parent_program.active,
            coach_name: coach.full_name.clone(),
            coach_id: coach.id.clone(),
            genre_id: match &parent_program.genre_id {
                Some(v) => Some(v.clone()),
                None => None,
            },
        }
    }
}

/// Whether a program state change activates or deactivates it.
#[derive(Clone, Copy, PartialEq, Eq, Structural, Debug)]
pub enum ProgramTargetState {
    ACTIVATE,
    DEACTIVATE,
}

pub struct ChangeProgramStateRequest {
    pub id: String,
    pub target_state: ProgramTargetState,
}

pub struct AssociateCoachRequest {
    pub peer_coach_email: String,
    pub program_id: String,
    pub admin_coach_id: String,
}

} // verus!
