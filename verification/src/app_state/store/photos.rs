use vstd::prelude::*;

use crate::common::id::Id;
use crate::common::id_map::IdMap;

verus! {

/// A photo whose file has been uploaded.
#[derive(Clone, Copy, Debug)]
pub struct Photo {
    pub photo_id: Id,
    pub file_id: Id,
}

/// A photo whose file is still to be uploaded.
#[derive(Clone, Copy, Debug)]
pub struct PhotoUploading {
    pub photo_id: Id,
    pub file_id: Id,
}

/// The photos: those uploaded, by photo, and those waiting for their file,
/// by file.
pub struct Photos {
    photos: IdMap<Photo>,
    uploading: IdMap<PhotoUploading>,
}

impl Photos {
    /// The uploaded photos, by photo identifier.
    pub closed spec fn photo_map(&self) -> Map<Id, Photo> {
        self.photos@
    }

    /// The photos waiting for their file, by file identifier.
    pub closed spec fn uploading_map(&self) -> Map<Id, PhotoUploading> {
        self.uploading@
    }

    pub fn new() -> (r: Photos)
        ensures
            r.photo_map() == Map::<Id, Photo>::empty(),
            r.uploading_map() == Map::<Id, PhotoUploading>::empty(),
    {
        Photos { photos: IdMap::new(), uploading: IdMap::new() }
    }

    /// The photo waiting for file `file_id`, if any.
    pub fn waiting_for(&self, file_id: &Id) -> (r: Option<&PhotoUploading>)
        ensures
            r == if self.uploading_map().contains_key(*file_id) {
                Some(&self.uploading_map()[*file_id])
            } else {
                None
            },
    {
        self.uploading.get(file_id)
    }

    /// Whether photo `photo_id` has been uploaded.
    pub fn has_photo(&self, photo_id: &Id) -> (r: bool)
        ensures
            r == self.photo_map().contains_key(*photo_id),
    {
        self.photos.contains_key(photo_id)
    }

    /// Records that photo `photo_id` waits for file `file_id`.
    pub fn photo_new_upload(&mut self, photo_id: Id, file_id: Id)
        requires
            !old(self).uploading_map().contains_key(file_id),
        ensures
            final(self).uploading_map() == old(self).uploading_map().insert(
                file_id,
                PhotoUploading { photo_id, file_id },
            ),
            final(self).photo_map() == old(self).photo_map(),
    {
        self.uploading.insert(file_id, PhotoUploading { photo_id, file_id });
    }

    /// Records that file `file_id` has arrived: its photo moves from the
    /// waiting photos to the uploaded ones.
    pub fn photo_upload_finish(&mut self, file_id: Id)
        requires
            old(self).uploading_map().contains_key(file_id),
            !old(self).photo_map().contains_key(old(self).uploading_map()[file_id].photo_id),
        ensures
            final(self).uploading_map() == old(self).uploading_map().remove(file_id),
            final(self).photo_map() == old(self).photo_map().insert(
                old(self).uploading_map()[file_id].photo_id,
                Photo {
                    photo_id: old(self).uploading_map()[file_id].photo_id,
                    file_id: old(self).uploading_map()[file_id].file_id,
                },
            ),
    {
        let PhotoUploading { photo_id, file_id } = match self.uploading.remove(&file_id) {
            Some(p) => p,
            None => {
                assert(false);
                return ;
            },
        };
        self.photos.insert(photo_id, Photo { photo_id, file_id });
    }
}

} // verus!
