use vstd::prelude::*;

use crate::common::id::Id;
use crate::common::id_map::IdMap;

verus! {

/// Blobs kept in memory, by identifier.
pub struct Blobs {
    blobs: IdMap<Vec<u8>>,
}

/// The blob is not there.
#[derive(Debug, Clone, Copy, PartialEq, Eq, Structural)]
pub enum BlobsReadError {
    NotFound,
}

/// The blob is not there.
#[derive(Debug, Clone, Copy, PartialEq, Eq, Structural)]
pub enum BlobsDeleteError {
    NotFound,
}

/// The contents of the blob stored under each identifier.
pub open spec fn contents_of(blobs: Map<Id, Vec<u8>>) -> Map<Id, Seq<u8>> {
    blobs.map_values(|b: Vec<u8>| b@)
}

impl View for Blobs {
    type V = Map<Id, Seq<u8>>;

    closed spec fn view(&self) -> Map<Id, Seq<u8>> {
        contents_of(self.blobs@)
    }
}

impl Blobs {
    /// No blobs.
    pub fn new() -> (r: Blobs)
        ensures
            r@ == Map::<Id, Seq<u8>>::empty(),
    {
        let r = Blobs { blobs: IdMap::new() };
        assert(r@ =~= Map::<Id, Seq<u8>>::empty());
        r
    }

    /// A reader of a copy of blob `id`.
    pub fn read(&self, id: Id) -> (r: Result<BlobReader, BlobsReadError>)
        ensures
            match r {
                Ok(reader) => self@.contains_key(id) && reader.remaining() == self@[id],
                Err(_) => !self@.contains_key(id),
            },
    {
        match self.blobs.get(&id) {
            Some(blob) => {
                let copy = blob.clone();
                let reader = BlobReader { blob: copy, position: 0 };
                assert(reader.remaining() =~= blob@);
                Ok(reader)
            },
            None => Err(BlobsReadError::NotFound),
        }
    }

    /// Stores what was written to `blob_writer` under a new random
    /// identifier, and returns the identifier. (A blob already stored
    /// under the same identifier would be replaced.)
    pub fn insert(&mut self, blob_writer: BlobWriter) -> (r: Id)
        ensures
            final(self)@ == old(self)@.insert(r, blob_writer@),
    {
        let id = Id::new();
        let BlobWriter { blob } = blob_writer;
        self.blobs.insert(id, blob);
        assert(self@ =~= old(self)@.insert(id, blob_writer@));
        id
    }

    /// A writer of a new, empty blob.
    pub fn new_blob(&self) -> (r: BlobWriter)
        ensures
            r@ == Seq::<u8>::empty(),
    {
        BlobWriter { blob: Vec::new() }
    }

    /// Removes blob `id`.
    pub fn delete(&mut self, id: Id) -> (r: Result<(), BlobsDeleteError>)
        ensures
            r is Ok <==> old(self)@.contains_key(id),
            final(self)@ == old(self)@.remove(id),
    {
        let removed = self.blobs.remove(&id);
        assert(self@ =~= old(self)@.remove(id));
        match removed {
            Some(_) => Ok(()),
            None => Err(BlobsDeleteError::NotFound),
        }
    }
}

/// Reads a blob from its start.
pub struct BlobReader {
    blob: Vec<u8>,
    position: usize,
}

impl BlobReader {
    #[verifier::type_invariant]
    spec fn position_in_bounds(self) -> bool {
        self.position <= self.blob@.len()
    }

    /// The bytes still to be read.
    pub closed spec fn remaining(&self) -> Seq<u8> {
        self.blob@.skip(self.position as int)
    }

    /// The next bytes, at most `len` of them; none once all have been read.
    pub fn read(&mut self, len: usize) -> (r: Vec<u8>)
        ensures
            r@ == old(self).remaining().take(
                if len < old(self).remaining().len() {
                    len as int
                } else {
                    old(self).remaining().len() as int
                },
            ),
            final(self).remaining() == old(self).remaining().skip(r@.len() as int),
    {
        proof {
            use_type_invariant(&*self);
        }
        let mut r: Vec<u8> = Vec::new();
        let ghost start = self.position;
        while r.len() < len && self.position < self.blob.len()
            invariant
                start <= self.position <= self.blob@.len(),
                self.blob@ == old(self).blob@,
                start == old(self).position,
                r@ == self.blob@.subrange(start as int, self.position as int),
                r@.len() <= len,
            decreases self.blob@.len() - self.position,
        {
            r.push(self.blob[self.position]);
            self.position = self.position + 1;
        }
        assert(r@ =~= old(self).remaining().take(r@.len() as int));
        assert(self.remaining() =~= old(self).remaining().skip(r@.len() as int));
        r
    }
}

/// Writes a new blob.
pub struct BlobWriter {
    blob: Vec<u8>,
}

impl View for BlobWriter {
    type V = Seq<u8>;

    closed spec fn view(&self) -> Seq<u8> {
        self.blob@
    }
}

impl BlobWriter {
    /// Appends `buf`; returns how many bytes were written (all of them).
    pub fn write(&mut self, buf: &[u8]) -> (r: usize)
        ensures
            r == buf@.len(),
            final(self)@ == old(self)@ + buf@,
    {
        let mut i: usize = 0;
        while i < buf.len()
            invariant
                0 <= i <= buf@.len(),
                self.blob@ == old(self).blob@ + buf@.take(i as int),
            decreases buf@.len() - i,
        {
            self.blob.push(buf[i]);
            i = i + 1;
            assert(self.blob@ =~= old(self).blob@ + buf@.take(i as int));
        }
        assert(buf@.take(i as int) =~= buf@);
        buf.len()
    }
}

} // verus!
