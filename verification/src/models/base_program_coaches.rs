use vstd::prelude::*;

use crate::commons::util;

verus! {

/// The association of a coach with a base program.
pub struct BaseProgramCoach {
    pub id: String,
    pub base_program_id: String,
    pub coach_id: String,
    pub is_admin: bool,
    pub created_at: i64,
    pub updated_at: i64,
}

impl BaseProgramCoach {
    pub fn id(&self) -> (r: &str)
        ensures
            r@ == self.id@,
    {
        self.id.as_str()
    }

    pub fn base_program_id(&self) -> (r: &str)
        ensures
            r@ == self.base_program_id@,
    {
        self.base_program_id.as_str()
    }

    pub fn coach_id(&self) -> (r: &str)
        ensures
            r@ == self.coach_id@,
    {
        self.coach_id.as_str()
    }

    pub fn is_admin(&self) -> (r: bool)
        ensures
            r == self.is_admin,
    {
        self.is_admin
    }
}

/// The persistable association of a coach with a base program, with a
/// fresh id.
pub struct NewBaseProgramCoach {
    pub id: String,
    pub base_program_id: String,
    pub coach_id: String,
    pub is_admin: bool,
}

/// A request to associate a peer coach with a base program.
pub struct AssociateCoachRequest {
    pub base_program_id: String,
    pub coach_id: String,
    pub admin_coach_id: String,
    pub is_admin: bool,
}

impl NewBaseProgramCoach {
    pub fn from(request: &AssociateCoachRequest) -> (r: NewBaseProgramCoach)
        ensures
            r.id@.len() == 36,
            r.base_program_id@ == request.base_program_id@,
            r.coach_id@ == request.coach_id@,
            r.is_admin == request.is_admin,
    {
        let fuzzy_id = util::fuzzy_id();
        NewBaseProgramCoach {
            id: fuzzy_id,
            base_program_id: request.base_program_id.clone(),
            coach_id: request.coach_id.clone(),
            is_admin: request.is_admin,
        }
    }
}

} // verus!
