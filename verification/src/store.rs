use vstd::prelude::*;

use crate::models::conferences::Conference;
use crate::models::correspondences::{Correspondence, MailRecipient};
use crate::models::discussion_queue::Feed;
use crate::models::discussions::Discussion;
use crate::models::enrollments::Enrollment;
use crate::models::programs::Program;
use crate::models::session_users::SessionUser;
use crate::models::sessions::Session;
use crate::models::users::User;

verus! {

/// The single relational store of the platform, one vector per table.
/// Every write sequence of the services runs as one call against it, the
/// way a relational backend runs each such sequence inside one
/// transaction.
pub struct Store {
    pub users: Vec<User>,
    pub programs: Vec<Program>,
    pub enrollments: Vec<Enrollment>,
    pub sessions: Vec<Session>,
    pub conferences: Vec<Conference>,
    pub session_users: Vec<SessionUser>,
    pub correspondences: Vec<Correspondence>,
    pub mail_recipients: Vec<MailRecipient>,
    pub discussions: Vec<Discussion>,
    pub feeds: Vec<Feed>,
}

pub open spec fn has_user(s: Seq<User>, id: Seq<char>) -> bool {
    exists|i: int| 0 <= i < s.len() && s[i].id@ == id
}

pub open spec fn has_program(s: Seq<Program>, id: Seq<char>) -> bool {
    exists|i: int| 0 <= i < s.len() && s[i].id@ == id
}

pub open spec fn has_session(s: Seq<Session>, id: Seq<char>) -> bool {
    exists|i: int| 0 <= i < s.len() && s[i].id@ == id
}

pub open spec fn session_index(s: Seq<Session>, id: Seq<char>) -> int {
    choose|i: int| 0 <= i < s.len() && s[i].id@ == id
}

/// The session row holding the given id, where one exists.
pub open spec fn session_at(s: Seq<Session>, id: Seq<char>) -> Session {
    s[session_index(s, id)]
}

pub open spec fn program_index(s: Seq<Program>, id: Seq<char>) -> int {
    choose|i: int| 0 <= i < s.len() && s[i].id@ == id
}

/// The program row holding the given id, where one exists.
pub open spec fn program_at(s: Seq<Program>, id: Seq<char>) -> Program {
    s[program_index(s, id)]
}

pub open spec fn has_conference(s: Seq<Conference>, id: Seq<char>) -> bool {
    exists|i: int| 0 <= i < s.len() && s[i].id@ == id
}

pub open spec fn conference_index(s: Seq<Conference>, id: Seq<char>) -> int {
    choose|i: int| 0 <= i < s.len() && s[i].id@ == id
}

/// The conference row holding the given id, where one exists.
pub open spec fn conference_at(s: Seq<Conference>, id: Seq<char>) -> Conference {
    s[conference_index(s, id)]
}

pub open spec fn has_enrollment(s: Seq<Enrollment>, id: Seq<char>) -> bool {
    exists|i: int| 0 <= i < s.len() && s[i].id@ == id
}

pub open spec fn has_correspondence(s: Seq<Correspondence>, id: Seq<char>) -> bool {
    exists|i: int| 0 <= i < s.len() && s[i].id@ == id
}

pub open spec fn has_discussion(s: Seq<Discussion>, id: Seq<char>) -> bool {
    exists|i: int| 0 <= i < s.len() && s[i].id@ == id
}

/// An enrollment of the given member in the given program.
pub open spec fn has_member_enrollment(
    s: Seq<Enrollment>,
    program_id: Seq<char>,
    member_id: Seq<char>,
) -> bool {
    exists|i: int|
        0 <= i < s.len() && s[i].program_id@ == program_id && s[i].member_id@ == member_id
}

impl Store {
    /// No two rows of a table share an id: what a relational schema's
    /// primary keys enforce.
    pub open spec fn wf(&self) -> bool {
        &&& forall|i: int, j: int|
            0 <= i < j < self.users@.len() ==> self.users@[i].id@ != self.users@[j].id@
        &&& forall|i: int, j: int|
            0 <= i < j < self.programs@.len() ==> self.programs@[i].id@ != self.programs@[j].id@
        &&& forall|i: int, j: int|
            0 <= i < j < self.enrollments@.len() ==> self.enrollments@[i].id@
                != self.enrollments@[j].id@
        &&& forall|i: int, j: int|
            0 <= i < j < self.sessions@.len() ==> self.sessions@[i].id@ != self.sessions@[j].id@
        &&& forall|i: int, j: int|
            0 <= i < j < self.conferences@.len() ==> self.conferences@[i].id@
                != self.conferences@[j].id@
        &&& forall|i: int, j: int|
            0 <= i < j < self.correspondences@.len() ==> self.correspondences@[i].id@
                != self.correspondences@[j].id@
        &&& forall|i: int, j: int|
            0 <= i < j < self.discussions@.len() ==> self.discussions@[i].id@
                != self.discussions@[j].id@
    }

    /// A store with every table empty.
    pub fn new() -> (r: Store)
        ensures
            r.wf(),
            r.users@.len() == 0,
            r.programs@.len() == 0,
            r.enrollments@.len() == 0,
            r.sessions@.len() == 0,
            r.conferences@.len() == 0,
            r.session_users@.len() == 0,
            r.correspondences@.len() == 0,
            r.mail_recipients@.len() == 0,
            r.discussions@.len() == 0,
            r.feeds@.len() == 0,
    {
        Store {
            users: Vec::new(),
            programs: Vec::new(),
            enrollments: Vec::new(),
            sessions: Vec::new(),
            conferences: Vec::new(),
            session_users: Vec::new(),
            correspondences: Vec::new(),
            mail_recipients: Vec::new(),
            discussions: Vec::new(),
            feeds: Vec::new(),
        }
    }
}

/// The users and programs tables, which this subsystem reads and never
/// writes, are unchanged.
pub open spec fn same_directory(a: Store, b: Store) -> bool {
    &&& a.users@ == b.users@
    &&& a.programs@ == b.programs@
}

pub open spec fn same_enrollments(a: Store, b: Store) -> bool {
    a.enrollments@ == b.enrollments@
}

pub open spec fn same_events(a: Store, b: Store) -> bool {
    &&& a.sessions@ == b.sessions@
    &&& a.conferences@ == b.conferences@
    &&& a.session_users@ == b.session_users@
}

pub open spec fn same_mails(a: Store, b: Store) -> bool {
    &&& a.correspondences@ == b.correspondences@
    &&& a.mail_recipients@ == b.mail_recipients@
}

pub open spec fn same_discussions(a: Store, b: Store) -> bool {
    &&& a.discussions@ == b.discussions@
    &&& a.feeds@ == b.feeds@
}

/// No table changed at all.
pub open spec fn unchanged(a: Store, b: Store) -> bool {
    &&& same_directory(a, b)
    &&& same_enrollments(a, b)
    &&& same_events(a, b)
    &&& same_mails(a, b)
    &&& same_discussions(a, b)
}

/// Filtering one more element either keeps the accumulated list or
/// appends that element, by the filter's own unfolding.
pub proof fn lemma_filter_take_step<A>(s: Seq<A>, pred: spec_fn(A) -> bool, i: int)
    requires
        0 <= i < s.len(),
    ensures
        s.take(i + 1).filter(pred) == (if pred(s[i]) {
            s.take(i).filter(pred).push(s[i])
        } else {
            s.take(i).filter(pred)
        }),
{
    reveal(Seq::filter);
    assert(s.take(i + 1).drop_last() =~= s.take(i));
    assert(s.take(i + 1).last() == s[i]);
}

/// With unique program ids, any index holding the id is the index.
pub proof fn lemma_program_index_is(s: Seq<Program>, id: Seq<char>, i: int)
    requires
        forall|a: int, b: int| 0 <= a < b < s.len() ==> s[a].id@ != s[b].id@,
        0 <= i < s.len(),
        s[i].id@ == id,
    ensures
        program_index(s, id) == i,
        has_program(s, id),
{
    assert(has_program(s, id));
    let j = program_index(s, id);
    if i < j {
        assert(s[i].id@ != s[j].id@);
    } else if j < i {
        assert(s[j].id@ != s[i].id@);
    }
}

/// With unique conference ids, any index holding the id is the index.
pub proof fn lemma_conference_index_is(s: Seq<Conference>, id: Seq<char>, i: int)
    requires
        forall|a: int, b: int| 0 <= a < b < s.len() ==> s[a].id@ != s[b].id@,
        0 <= i < s.len(),
        s[i].id@ == id,
    ensures
        conference_index(s, id) == i,
        has_conference(s, id),
{
    assert(has_conference(s, id));
    let j = conference_index(s, id);
    if i < j {
        assert(s[i].id@ != s[j].id@);
    } else if j < i {
        assert(s[j].id@ != s[i].id@);
    }
}

/// With unique session ids, any index holding the id is the index.
pub proof fn lemma_session_index_is(s: Seq<Session>, id: Seq<char>, i: int)
    requires
        forall|a: int, b: int| 0 <= a < b < s.len() ==> s[a].id@ != s[b].id@,
        0 <= i < s.len(),
        s[i].id@ == id,
    ensures
        session_index(s, id) == i,
        has_session(s, id),
{
    assert(has_session(s, id));
    let j = session_index(s, id);
    if i < j {
        assert(s[i].id@ != s[j].id@);
    } else if j < i {
        assert(s[j].id@ != s[i].id@);
    }
}




} // verus!
