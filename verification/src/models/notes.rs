use vstd::prelude::*;

use crate::commons::chassis::{push_error, ve_views, ValidationError};
use crate::commons::util;
use crate::commons::util::{blank_text, minute_floor, parsed_schedule_of, ts_ok};
use crate::models::session_users::SessionUser;

verus! {

/// A note captured against a session by one of its participants.
pub struct Note {
    pub id: String,
    pub session_id: String,
    pub created_by_id: String,
    pub session_user_id: String,
    pub description: String,
    pub remind_at: Option<i64>,
    pub is_private: bool,
    pub created_at: i64,
    pub updated_at: i64,
}

impl Note {
    pub fn id(&self) -> (r: &str)
        ensures
            r@ == self.id@,
    {
        self.id.as_str()
    }

    pub fn session_id(&self) -> (r: &str)
        ensures
            r@ == self.session_id@,
    {
        self.session_id.as_str()
    }

    pub fn description(&self) -> (r: &str)
        ensures
            r@ == self.description@,
    {
        self.description.as_str()
    }

    pub fn is_private(&self) -> (r: bool)
        ensures
            r == self.is_private,
    {
        self.is_private
    }

    pub fn remind_at(&self) -> (r: Option<i64>)
        ensures
            r == self.remind_at,
    {
        self.remind_at
    }
}

/// One file attached to a note.
pub struct FileRequest {
    pub path: String,
    pub name: String,
    pub file_type: String,
    pub size: i32,
}

pub struct NewNoteRequest {
    pub session_user_id: String,
    pub description: String,
    pub files: Option<Vec<FileRequest>>,
    pub remind_at: Option<String>,
}

/// The checks that fail on a new-note request, in the order they are
/// reported.
pub open spec fn new_note_errors(r: &NewNoteRequest) -> Seq<(Seq<char>, Seq<char>)> {
    let e0 = Seq::<(Seq<char>, Seq<char>)>::empty();
    let e1 = if blank_text(r.session_user_id@) {
        e0.push(("session_user_id"@, "Missing the session_user_fuzzy_id"@))
    } else {
        e0
    };
    if blank_text(r.description@) {
        e1.push(("desciption"@, "Description of the note is a must."@))
    } else {
        e1
    }
}

impl NewNoteRequest {
    pub fn validate(&self) -> (r: Vec<ValidationError>)
        ensures
            ve_views(r@) == new_note_errors(self),
            r@.len() == 0 <==> !blank_text(self.session_user_id@) && !blank_text(
                self.description@,
            ),
    {
        let mut errors: Vec<ValidationError> = Vec::new();
        if util::is_blank(self.session_user_id.as_str()) {
            push_error(&mut errors, "session_user_id", "Missing the session_user_fuzzy_id");
        }
        if util::is_blank(self.description.as_str()) {
            push_error(&mut errors, "desciption", "Description of the note is a must.");
        }
        errors
    }
}

/// The persistable form of a new note, with a fresh id.
pub struct NewNote {
    pub id: String,
    pub session_id: String,
    pub created_by_id: String,
    pub session_user_id: String,
    pub description: String,
    pub remind_at: Option<i64>,
}

impl NewNote {
    pub fn from(request: &NewNoteRequest, session_user: SessionUser) -> (r: NewNote)
        ensures
            r.id@.len() == 36,
            r.session_id@ == session_user.session_id@,
            r.created_by_id@ == session_user.user_id@,
            r.description@ == request.description@,
            r.session_user_id@ == session_user.id@,
            request.remind_at is None ==> r.remind_at is None,
            request.remind_at matches Some(text) ==> r.remind_at matches Some(v) && ts_ok(
                v as int,
            ) && (parsed_schedule_of(text@) matches Some(t) ==> v == minute_floor(t)),
    {
        let remind_at: Option<i64> = match &request.remind_at {
            Some(value) => {
                let date: i64 = util::as_date(value.as_str());
                Some(date)
            },
            None => None,
        };
        let fuzzy_id = util::fuzzy_id();
        NewNote {
            id: fuzzy_id,
            session_id: session_user.session_id,
            created_by_id: session_user.user_id,
            description: request.description.clone(),
            session_user_id: session_user.id,
            remind_at,
        }
    }
}

/// The persistable form of one file attached to a note, with a fresh id.
pub struct NewNoteFile {
    pub id: String,
    pub session_note_id: String,
    pub file_name: String,
    pub file_path: String,
    pub file_type: Option<String>,
    pub file_size: Option<i32>,
}

impl NewNoteFile {
    pub fn from(request: &FileRequest, session_note_id: String) -> (r: NewNoteFile)
        ensures
            r.id@.len() == 36,
            r.session_note_id@ == session_note_id@,
            r.file_path@ == request.path@,
            r.file_name@ == request.name@,
            r.file_type matches Some(t) && t@ == request.file_type@,
            r.file_size matches Some(s) && s == request.size,
    {
        let fuzzy_id = util::fuzzy_id();
        NewNoteFile {
            id: fuzzy_id,
            session_note_id,
            file_path: request.path.clone(),
            file_name: request.name.clone(),
            file_type: Some(request.file_type.clone()),
            file_size: Some(request.size),
        }
    }
}

pub struct NoteCriteria {
    pub session_user_id: String,
}

} // verus!
