use vstd::prelude::*;

use crate::commons::chassis::{push_error, ve_views, ValidationError};

verus! {

/// A running container of validation errors collected while handling
/// form fields.
pub struct Ferror {
    pub errors: Vec<ValidationError>,
}

impl Ferror {
    pub fn new() -> (r: Ferror)
        ensures
            r.errors@.len() == 0,
    {
        Ferror { errors: Vec::new() }
    }

    pub fn push(&mut self, field: &str, message: &str)
        ensures
            ve_views(final(self).errors@) == ve_views(old(self).errors@).push(
                (field@, message@),
            ),
    {
        push_error(&mut self.errors, field, message);
    }

    pub fn is_empty(&self) -> (r: bool)
        ensures
            r == (self.errors@.len() == 0),
    {
        self.errors.len() == 0
    }
}

} // verus!
