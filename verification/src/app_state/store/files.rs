use vstd::prelude::*;

use crate::common::date::Date;
use crate::common::file;
use crate::common::id::Id;
use crate::common::id_map::IdMap;

verus! {

/// The state of an expected file: announced, being uploaded, or stored as
/// a blob.
#[derive(Clone, Copy, Debug)]
pub enum Upload {
    New { id: Id, file_type: file::Type, max_size: u64, date: Date },
    Uploading { id: Id, file_type: file::Type, date: Date },
    Ready { id: Id, file_type: file::Type, date: Date, size: u64, blob_id: Id },
}

/// The expected files, by identifier.
pub struct Uploads {
    inner: IdMap<Upload>,
}

impl View for Uploads {
    type V = Map<Id, Upload>;

    closed spec fn view(&self) -> Map<Id, Upload> {
        self.inner@
    }
}

impl Uploads {
    pub fn new() -> (r: Uploads)
        ensures
            r@ == Map::<Id, Upload>::empty(),
    {
        Uploads { inner: IdMap::new() }
    }

    /// Announces file `id` of type `file_type`, at most `max_size` bytes.
    pub fn upload_new(&mut self, id: Id, file_type: file::Type, max_size: u64, date: Date)
        requires
            !old(self)@.contains_key(id),
        ensures
            final(self)@ == old(self)@.insert(id, Upload::New { id, file_type, max_size, date }),
    {
        self.inner.insert(id, Upload::New { id, file_type, max_size, date });
    }

    /// Registers file `id`, of type `file_type`, as being uploaded since
    /// `date`. No file with that identifier may exist yet.
    pub fn upload_start(&mut self, id: Id, file_type: file::Type, date: Date)
        requires
            !old(self)@.contains_key(id),
        ensures
            final(self)@ == old(self)@.insert(id, Upload::Uploading { id, file_type, date }),
    {
        self.inner.insert(id, Upload::Uploading { id, file_type, date });
    }

    /// Marks an announced file as being uploaded.
    pub fn upload_begin(&mut self, id: Id)
        requires
            old(self)@.contains_key(id),
            old(self)@[id] is New,
        ensures
            final(self)@ == old(self)@.insert(id, started(old(self)@[id])),
    {
        let current = match self.inner.get(&id) {
            Some(u) => *u,
            None => {
                assert(false);
                return ;
            },
        };
        let next = match current {
            Upload::New { id, file_type, date, .. } => Upload::Uploading { id, file_type, date },
            _ => {
                assert(false);
                return ;
            },
        };
        self.inner.insert(id, next);
    }

    /// Marks a file being uploaded as stored in blob `blob_id`, `size`
    /// bytes long.
    pub fn upload_finish(&mut self, file_id: Id, blob_id: Id, size: u64)
        requires
            old(self)@.contains_key(file_id),
            old(self)@[file_id] is Uploading,
        ensures
            final(self)@ == old(self)@.insert(file_id, finished(old(self)@[file_id], blob_id, size)),
    {
        let current = match self.inner.get(&file_id) {
            Some(u) => *u,
            None => {
                assert(false);
                return ;
            },
        };
        let next = match current {
            Upload::Uploading { id, file_type, date } => Upload::Ready {
                id,
                file_type,
                date,
                size,
                blob_id,
            },
            _ => {
                assert(false);
                return ;
            },
        };
        self.inner.insert(file_id, next);
    }

    /// The file with identifier `id`, if any.
    pub fn get(&self, id: &Id) -> (r: Option<&Upload>)
        ensures
            r == if self@.contains_key(*id) {
                Some(&self@[*id])
            } else {
                None
            },
    {
        self.inner.get(id)
    }
}

/// An announced file once its upload has begun.
pub open spec fn started(u: Upload) -> Upload {
    match u {
        Upload::New { id, file_type, date, .. } => Upload::Uploading { id, file_type, date },
        _ => u,
    }
}

/// A file being uploaded once it is stored.
pub open spec fn finished(u: Upload, blob_id: Id, size: u64) -> Upload {
    match u {
        Upload::Uploading { id, file_type, date } => Upload::Ready {
            id,
            file_type,
            date,
            size,
            blob_id,
        },
        _ => u,
    }
}

} // verus!
