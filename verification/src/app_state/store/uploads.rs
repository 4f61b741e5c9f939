use vstd::prelude::*;

use crate::common::date::Date;
use crate::common::file;
use crate::common::id::Id;
use crate::common::id_map::IdMap;

verus! {

/// A file that a user uploaded.
#[derive(Debug, Clone, Copy)]
pub struct Upload {
    pub id: Id,
    pub user_id: Id,
    pub size: u64,
    pub type_: file::Type,
    pub date_uploaded: Date,
}

/// The uploaded files, by identifier.
pub struct Uploads {
    inner: IdMap<Upload>,
}

impl View for Uploads {
    type V = Map<Id, Upload>;

    closed spec fn view(&self) -> Map<Id, Upload> {
        self.inner@
    }
}

impl Uploads {
    pub fn new() -> (r: Uploads)
        ensures
            r@ == Map::<Id, Upload>::empty(),
    {
        Uploads { inner: IdMap::new() }
    }

    /// Adds an upload under its identifier, which must be new.
    pub fn create(&mut self, upload: Upload)
        requires
            !old(self)@.contains_key(upload.id),
        ensures
            final(self)@ == old(self)@.insert(upload.id, upload),
    {
        self.inner.insert(upload.id, upload);
    }

    /// The upload with identifier `session_id`, if any.
    pub fn get(&self, session_id: &Id) -> (r: Option<&Upload>)
        ensures
            r == if self@.contains_key(*session_id) {
                Some(&self@[*session_id])
            } else {
                None
            },
    {
        self.inner.get(session_id)
    }
}

} // verus!
