use vstd::prelude::*;

use crate::models::abstract_tasks::AbstractTask;
use crate::models::correspondences::Mailable;
use crate::models::discussion_queue::PendingFeed;
use crate::models::discussions::Discussion;
use crate::models::enrollments::Enrollment;
use crate::models::master_plans::MasterPlan;
use crate::models::master_tasks::MasterTask;
use crate::models::notes::Note;
use crate::models::objectives::Objective;
use crate::models::observations::Observation;
use crate::models::options::Constraint;
use crate::models::programs::Program;
use crate::models::session_users::SessionPeople;
use crate::models::sessions::Session;
use crate::models::tasks::Task;
use crate::models::users::User;

verus! {

/// The error taxonomy of the service layer.
#[derive(Clone, Copy, PartialEq, Eq, Structural, Debug)]
pub enum ServiceError {
    /// Bad input shape, rejected before any write.
    Validation,
    /// The event is already terminal; no transition is permitted.
    StateChangeProhibited,
    /// An event, conference or member lookup missed.
    NotFound,
    /// The membership removal guard refused the target session.
    UnremovableSession,
    /// The underlying store refused a write.
    PersistenceError,
    /// The external mail transport failed; recorded, never thrown.
    DeliveryError,
}

/// A single failed check on one field of an inbound request.
pub struct ValidationError {
    pub field: String,
    pub message: String,
}

/// The field and message texts of one validation error.
pub open spec fn ve_view(e: ValidationError) -> (Seq<char>, Seq<char>) {
    (e.field@, e.message@)
}

/// The field and message texts of a list of validation errors.
pub open spec fn ve_views(v: Seq<ValidationError>) -> Seq<(Seq<char>, Seq<char>)> {
    v.map_values(|e: ValidationError| ve_view(e))
}

impl ValidationError {
    pub fn new(field: &str, message: &str) -> (r: ValidationError)
        ensures
            r.field@ == field@,
            r.message@ == message@,
    {
        ValidationError { field: field.to_owned(), message: message.to_owned() }
    }
}

/// Appends one failed check to the running list.
pub fn push_error(errors: &mut Vec<ValidationError>, field: &str, message: &str)
    ensures
        ve_views(final(errors)@) == ve_views(old(errors)@).push((field@, message@)),
{
    errors.push(ValidationError::new(field, message));
    proof {
        assert(ve_views(errors@) =~= ve_views(old(errors)@).push((field@, message@)));
    }
}

/// What a query hands back when the store fails.
pub struct QueryError {
    pub message: String,
}

/// The outcome of a read operation: rows, or one query error.
pub struct QueryResult<T>(pub Result<T, QueryError>);

impl<T> QueryResult<T> {
    pub fn error(&self) -> (r: Option<&QueryError>)
        ensures
            self.0 is Err <==> r is Some,
            self.0 matches Err(e) ==> r matches Some(q) && *q == e,
    {
        match &self.0 {
            Ok(_) => None,
            Err(e) => Some(e),
        }
    }
}

/// The outcome of a write operation: the written value, or the failed
/// checks.
pub struct MutationResult<T>(pub Result<T, Vec<ValidationError>>);

impl<T> MutationResult<T> {
    pub fn errors(&self) -> (r: Option<&Vec<ValidationError>>)
        ensures
            self.0 is Err <==> r is Some,
            self.0 matches Err(e) ==> r matches Some(v) && *v == e,
    {
        match &self.0 {
            Ok(_) => None,
            Err(e) => Some(e),
        }
    }
}

impl QueryResult<Vec<AbstractTask>> {
    pub fn abstract_tasks(&self) -> (r: Option<&Vec<AbstractTask>>)
        ensures
            self.0 is Ok <==> r is Some,
            self.0 matches Ok(v) ==> (r matches Some(x) && *x == v),
    {
        match &self.0 {
            Ok(v) => Some(v),
            Err(_) => None,
        }
    }
}

impl QueryResult<Vec<MasterPlan>> {
    pub fn master_plans(&self) -> (r: Option<&Vec<MasterPlan>>)
        ensures
            self.0 is Ok <==> r is Some,
            self.0 matches Ok(v) ==> (r matches Some(x) && *x == v),
    {
        match &self.0 {
            Ok(v) => Some(v),
            Err(_) => None,
        }
    }
}

impl QueryResult<Vec<MasterTask>> {
    pub fn master_tasks(&self) -> (r: Option<&Vec<MasterTask>>)
        ensures
            self.0 is Ok <==> r is Some,
            self.0 matches Ok(v) ==> (r matches Some(x) && *x == v),
    {
        match &self.0 {
            Ok(v) => Some(v),
            Err(_) => None,
        }
    }
}

impl QueryResult<Vec<Objective>> {
    pub fn objectives(&self) -> (r: Option<&Vec<Objective>>)
        ensures
            self.0 is Ok <==> r is Some,
            self.0 matches Ok(v) ==> (r matches Some(x) && *x == v),
    {
        match &self.0 {
            Ok(v) => Some(v),
            Err(_) => None,
        }
    }
}

impl QueryResult<Vec<Constraint>> {
    pub fn constraints(&self) -> (r: Option<&Vec<Constraint>>)
        ensures
            self.0 is Ok <==> r is Some,
            self.0 matches Ok(v) ==> (r matches Some(x) && *x == v),
    {
        match &self.0 {
            Ok(v) => Some(v),
            Err(_) => None,
        }
    }
}

impl QueryResult<Vec<Observation>> {
    pub fn observations(&self) -> (r: Option<&Vec<Observation>>)
        ensures
            self.0 is Ok <==> r is Some,
            self.0 matches Ok(v) ==> (r matches Some(x) && *x == v),
    {
        match &self.0 {
            Ok(v) => Some(v),
            Err(_) => None,
        }
    }
}

impl QueryResult<Vec<Task>> {
    pub fn tasks(&self) -> (r: Option<&Vec<Task>>)
        ensures
            self.0 is Ok <==> r is Some,
            self.0 matches Ok(v) ==> (r matches Some(x) && *x == v),
    {
        match &self.0 {
            Ok(v) => Some(v),
            Err(_) => None,
        }
    }
}

impl QueryResult<Vec<Note>> {
    pub fn notes(&self) -> (r: Option<&Vec<Note>>)
        ensures
            self.0 is Ok <==> r is Some,
            self.0 matches Ok(v) ==> (r matches Some(x) && *x == v),
    {
        match &self.0 {
            Ok(v) => Some(v),
            Err(_) => None,
        }
    }
}

impl QueryResult<Vec<Discussion>> {
    pub fn discussions(&self) -> (r: Option<&Vec<Discussion>>)
        ensures
            self.0 is Ok <==> r is Some,
            self.0 matches Ok(v) ==> (r matches Some(x) && *x == v),
    {
        match &self.0 {
            Ok(v) => Some(v),
            Err(_) => None,
        }
    }
}

impl QueryResult<Vec<PendingFeed>> {
    pub fn feeds(&self) -> (r: Option<&Vec<PendingFeed>>)
        ensures
            self.0 is Ok <==> r is Some,
            self.0 matches Ok(v) ==> (r matches Some(x) && *x == v),
    {
        match &self.0 {
            Ok(v) => Some(v),
            Err(_) => None,
        }
    }
}

impl QueryResult<Vec<Mailable>> {
    pub fn mails(&self) -> (r: Option<&Vec<Mailable>>)
        ensures
            self.0 is Ok <==> r is Some,
            self.0 matches Ok(v) ==> (r matches Some(x) && *x == v),
    {
        match &self.0 {
            Ok(v) => Some(v),
            Err(_) => None,
        }
    }
}

impl QueryResult<Vec<SessionPeople>> {
    pub fn users(&self) -> (r: Option<&Vec<SessionPeople>>)
        ensures
            self.0 is Ok <==> r is Some,
            self.0 matches Ok(v) ==> (r matches Some(x) && *x == v),
    {
        match &self.0 {
            Ok(v) => Some(v),
            Err(_) => None,
        }
    }
}

impl MutationResult<Session> {
    pub fn session(&self) -> (r: Option<&Session>)
        ensures
            self.0 is Ok <==> r is Some,
            self.0 matches Ok(v) ==> (r matches Some(x) && *x == v),
    {
        match &self.0 {
            Ok(v) => Some(v),
            Err(_) => None,
        }
    }
}

impl MutationResult<User> {
    pub fn user(&self) -> (r: Option<&User>)
        ensures
            self.0 is Ok <==> r is Some,
            self.0 matches Ok(v) ==> (r matches Some(x) && *x == v),
    {
        match &self.0 {
            Ok(v) => Some(v),
            Err(_) => None,
        }
    }
}

impl MutationResult<AbstractTask> {
    pub fn abstract_task(&self) -> (r: Option<&AbstractTask>)
        ensures
            self.0 is Ok <==> r is Some,
            self.0 matches Ok(v) ==> (r matches Some(x) && *x == v),
    {
        match &self.0 {
            Ok(v) => Some(v),
            Err(_) => None,
        }
    }
}

impl MutationResult<MasterPlan> {
    pub fn master_plan(&self) -> (r: Option<&MasterPlan>)
        ensures
            self.0 is Ok <==> r is Some,
            self.0 matches Ok(v) ==> (r matches Some(x) && *x == v),
    {
        match &self.0 {
            Ok(v) => Some(v),
            Err(_) => None,
        }
    }
}

impl MutationResult<MasterTask> {
    pub fn master_task(&self) -> (r: Option<&MasterTask>)
        ensures
            self.0 is Ok <==> r is Some,
            self.0 matches Ok(v) ==> (r matches Some(x) && *x == v),
    {
        match &self.0 {
            Ok(v) => Some(v),
            Err(_) => None,
        }
    }
}

impl MutationResult<Program> {
    pub fn program(&self) -> (r: Option<&Program>)
        ensures
            self.0 is Ok <==> r is Some,
            self.0 matches Ok(v) ==> (r matches Some(x) && *x == v),
    {
        match &self.0 {
            Ok(v) => Some(v),
            Err(_) => None,
        }
    }
}

impl MutationResult<Enrollment> {
    pub fn enrollment(&self) -> (r: Option<&Enrollment>)
        ensures
            self.0 is Ok <==> r is Some,
            self.0 matches Ok(v) ==> (r matches Some(x) && *x == v),
    {
        match &self.0 {
            Ok(v) => Some(v),
            Err(_) => None,
        }
    }
}

impl MutationResult<Note> {
    pub fn note(&self) -> (r: Option<&Note>)
        ensures
            self.0 is Ok <==> r is Some,
            self.0 matches Ok(v) ==> (r matches Some(x) && *x == v),
    {
        match &self.0 {
            Ok(v) => Some(v),
            Err(_) => None,
        }
    }
}

impl MutationResult<Discussion> {
    pub fn discussion(&self) -> (r: Option<&Discussion>)
        ensures
            self.0 is Ok <==> r is Some,
            self.0 matches Ok(v) ==> (r matches Some(x) && *x == v),
    {
        match &self.0 {
            Ok(v) => Some(v),
            Err(_) => None,
        }
    }
}

impl MutationResult<Objective> {
    pub fn objective(&self) -> (r: Option<&Objective>)
        ensures
            self.0 is Ok <==> r is Some,
            self.0 matches Ok(v) ==> (r matches Some(x) && *x == v),
    {
        match &self.0 {
            Ok(v) => Some(v),
            Err(_) => None,
        }
    }
}

impl MutationResult<Constraint> {
    pub fn constraint(&self) -> (r: Option<&Constraint>)
        ensures
            self.0 is Ok <==> r is Some,
            self.0 matches Ok(v) ==> (r matches Some(x) && *x == v),
    {
        match &self.0 {
            Ok(v) => Some(v),
            Err(_) => None,
        }
    }
}

impl MutationResult<Observation> {
    pub fn observation(&self) -> (r: Option<&Observation>)
        ensures
            self.0 is Ok <==> r is Some,
            self.0 matches Ok(v) ==> (r matches Some(x) && *x == v),
    {
        match &self.0 {
            Ok(v) => Some(v),
            Err(_) => None,
        }
    }
}

impl MutationResult<Task> {
    pub fn task(&self) -> (r: Option<&Task>)
        ensures
            self.0 is Ok <==> r is Some,
            self.0 matches Ok(v) ==> (r matches Some(x) && *x == v),
    {
        match &self.0 {
            Ok(v) => Some(v),
            Err(_) => None,
        }
    }
}

impl MutationResult<String> {
    pub fn rows(&self) -> (r: Option<&String>)
        ensures
            self.0 is Ok <==> r is Some,
            self.0 matches Ok(v) ==> (r matches Some(x) && *x == v),
    {
        match &self.0 {
            Ok(v) => Some(v),
            Err(_) => None,
        }
    }
}

/// A mutation result that carries one service-level failure message.
pub fn service_error<T>(message: &str) -> (r: MutationResult<T>)
    ensures
        r.0 matches Err(v) && ve_views(v@) == seq![("service"@, message@)],
{
    let mut v: Vec<ValidationError> = Vec::new();
    let ve = ValidationError { field: "service".to_owned(), message: message.to_owned() };
    v.push(ve);
    proof {
        assert(ve_views(v@) =~= seq![("service"@, message@)]);
    }
    MutationResult(Err(v))
}

} // verus!
