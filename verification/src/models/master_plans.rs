use vstd::prelude::*;

use crate::commons::chassis::{push_error, ve_views, ValidationError};
use crate::commons::util;
use crate::commons::util::blank_text;

verus! {

/// A named flow-chart of master tasks owned by a coach.
pub struct MasterPlan {
    pub id: String,
    pub name: String,
    pub description: String,
    pub coach_id: String,
}

impl MasterPlan {
    pub fn id(&self) -> (r: &str)
        ensures
            r@ == self.id@,
    {
        self.id.as_str()
    }

    pub fn name(&self) -> (r: &str)
        ensures
            r@ == self.name@,
    {
        self.name.as_str()
    }

    pub fn description(&self) -> (r: &str)
        ensures
            r@ == self.description@,
    {
        self.description.as_str()
    }

    pub fn coach_id(&self) -> (r: &str)
        ensures
            r@ == self.coach_id@,
    {
        self.coach_id.as_str()
    }
}

pub struct NewMasterPlanRequest {
    pub name: String,
    pub description: String,
    pub coach_id: String,
}

/// The checks that fail on a new-master-plan request, in the order they
/// are reported.
pub open spec fn new_master_plan_errors(r: &NewMasterPlanRequest) -> Seq<(Seq<char>, Seq<char>)> {
    let e0 = Seq::<(Seq<char>, Seq<char>)>::empty();
    let e1 = if blank_text(r.name@) {
        e0.push(("name"@, "Name is a must."@))
    } else {
        e0
    };
    let e2 = if blank_text(r.description@) {
        e1.push(("description"@, "Description is a must."@))
    } else {
        e1
    };
    if blank_text(r.coach_id@) {
        e2.push(("coach_id"@, "Coach is a must."@))
    } else {
        e2
    }
}

impl NewMasterPlanRequest {
    pub fn validate(&self) -> (r: Vec<ValidationError>)
        ensures
            ve_views(r@) == new_master_plan_errors(self),
            r@.len() == 0 <==> !blank_text(self.name@) && !blank_text(self.description@)
                && !blank_text(self.coach_id@),
    {
        let mut errors: Vec<ValidationError> = Vec::new();
        if util::is_blank(self.name.as_str()) {
            push_error(&mut errors, "name", "Name is a must.");
        }
        if util::is_blank(self.description.as_str()) {
            push_error(&mut errors, "description", "Description is a must.");
        }
        if util::is_blank(self.coach_id.as_str()) {
            push_error(&mut errors, "coach_id", "Coach is a must.");
        }
        errors
    }
}

/// The persistable form of a new master plan, with a fresh id.
pub struct NewMasterPlan {
    pub id: String,
    pub name: String,
    pub description: String,
    pub coach_id: String,
}

impl NewMasterPlan {
    pub fn from(request: &NewMasterPlanRequest) -> (r: NewMasterPlan)
        ensures
            r.id@.len() == 36,
            r.name@ == request.name@,
            r.description@ == request.description@,
            r.coach_id@ == request.coach_id@,
    {
        let fuzzy_id = util::fuzzy_id();
        NewMasterPlan {
            id: fuzzy_id,
            name: request.name.clone(),
            coach_id: request.coach_id.clone(),
            description: request.description.clone(),
        }
    }
}

pub struct MasterPlanCriteria {
    pub coach_id: String,
}

/// One task node placed on the plan's chart.
pub struct TaskUnit {
    pub id: String,
    pub coordinates: String,
}

/// One directed link between two task nodes on the plan's chart.
pub struct LinkUnit {
    pub source_id: String,
    pub target_id: String,
    pub coordinates: String,
    pub priority: i32,
    pub is_forward: bool,
}

pub struct UpdateMasterPlanRequest {
    pub master_plan_id: String,
    pub tasks: Vec<TaskUnit>,
    pub links: Vec<LinkUnit>,
}

/// The persistable form of one link of a master plan, with a fresh id.
pub struct NewMasterTaskLink {
    pub id: String,
    pub master_plan_id: String,
    pub source_task_id: String,
    pub target_task_id: String,
    pub coordinates: String,
    pub priority: i32,
    pub is_forward: bool,
}

/// Whether a stored link carries over the fields of the given link unit
/// for the given plan.
pub open spec fn link_carried(l: NewMasterTaskLink, u: LinkUnit, plan_id: Seq<char>) -> bool {
    &&& l.id@.len() == 36
    &&& l.master_plan_id@ == plan_id
    &&& l.source_task_id@ == u.source_id@
    &&& l.target_task_id@ == u.target_id@
    &&& l.coordinates@ == u.coordinates@
    &&& l.priority == u.priority
    &&& l.is_forward == u.is_forward
}

impl NewMasterTaskLink {
    pub fn from(link: &LinkUnit, plan_id: &str) -> (r: NewMasterTaskLink)
        ensures
            link_carried(r, *link, plan_id@),
    {
        let fuzzy_id = util::fuzzy_id();
        NewMasterTaskLink {
            id: fuzzy_id,
            master_plan_id: plan_id.to_owned(),
            source_task_id: link.source_id.clone(),
            target_task_id: link.target_id.clone(),
            coordinates: link.coordinates.clone(),
            priority: link.priority,
            is_forward: link.is_forward,
        }
    }
}

impl UpdateMasterPlanRequest {
    /// One stored link for each link unit of the request, in order.
    pub fn as_master_task_links(&self) -> (r: Vec<NewMasterTaskLink>)
        ensures
            r@.len() == self.links@.len(),
            forall|i: int|
                0 <= i < r@.len() ==> link_carried(
                    #[trigger] r@[i],
                    self.links@[i],
                    self.master_plan_id@,
                ),
    {
        let mut new_links: Vec<NewMasterTaskLink> = Vec::new();
        let mut i: usize = 0;
        while i < self.links.len()
            invariant
                0 <= i <= self.links@.len(),
                new_links@.len() == i,
                forall|k: int|
                    0 <= k < i ==> link_carried(
                        #[trigger] new_links@[k],
                        self.links@[k],
                        self.master_plan_id@,
                    ),
            decreases self.links@.len() - i,
        {
            let new_link = NewMasterTaskLink::from(&self.links[i], self.master_plan_id.as_str());
            new_links.push(new_link);
            i = i + 1;
        }
        new_links
    }
}

} // verus!
