use vstd::prelude::*;

use crate::commons::util;

verus! {

/// A convenience grouping of users assembled for one purpose.
pub struct Team {
    pub id: i32,
    pub name: String,
    pub fuzzy_id: String,
    pub created_at: i64,
    pub updated_at: i64,
}

impl Team {
    pub fn fuzzy_id(&self) -> (r: &str)
        ensures
            r@ == self.fuzzy_id@,
    {
        self.fuzzy_id.as_str()
    }

    pub fn name(&self) -> (r: &str)
        ensures
            r@ == self.name@,
    {
        self.name.as_str()
    }
}

/// A request to create a new team; the owner's mail is kept for adding
/// members later.
pub struct NewTeamRequest {
    pub owner_email: String,
    pub team_name: String,
}

pub struct TeamQuery {
    pub fuzzy_id: String,
}

/// The persistable form of a new team, with a fresh fuzzy id.
pub struct NewTeam {
    pub name: String,
    pub fuzzy_id: String,
}

impl NewTeam {
    pub fn from(new_team_request: &NewTeamRequest) -> (r: NewTeam)
        ensures
            r.name@ == new_team_request.team_name@,
            r.fuzzy_id@.len() == 36,
    {
        let hype = util::fuzzy_id();
        NewTeam { name: new_team_request.team_name.clone(), fuzzy_id: hype }
    }
}

} // verus!
