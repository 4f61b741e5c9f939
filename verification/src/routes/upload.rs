use vstd::prelude::*;

use crate::app_state::event::{DateEvent, Event};
use crate::app_state::store::files::Upload;
use crate::app_state::store::{Store, StoreView};
use crate::app_state::AppRequest;
use crate::common::date::Date;
use crate::common::file;
use crate::common::http::{get_file_type, mime_essence};
use crate::common::id::{bs58_decoded, id_text_is_valid, lemma_id_bytes_determine_id, Id};

verus! {

/// The answer to an upload.
#[derive(Debug, Clone, Copy, PartialEq, Eq, Structural)]
pub enum Output {
    Success,
    NotAuthenticated,
    InvalidId,
    InvalidMimeType,
    FileUploadError,
    NotFound,
    AlreadyUploading,
    AlreadyUploaded,
    WrongFileType,
    TooLarge,
}

/// The announced file that an upload fills, and how large it may be.
#[derive(Debug, Clone, Copy)]
pub struct UploadTarget {
    pub file_id: Id,
    pub max_size: u64,
}

/// The file type that an optional `Content-Type` value names.
pub open spec fn content_file_type(content_type: Option<&str>) -> Option<file::Type> {
    match content_type {
        Some(c) => match mime_essence(c@) {
            Some(essence) => file::type_of_mime(essence),
            None => None,
        },
        None => None,
    }
}

/// Whether file `id` may be uploaded with type `file_type`: it must have
/// been announced, with that type, and not be uploading or uploaded yet.
/// On success, its size limit.
pub open spec fn upload_check(files: Map<Id, Upload>, id: Id, file_type: file::Type) -> Result<
    u64,
    Output,
> {
    if !files.contains_key(id) {
        Err(Output::NotFound)
    } else {
        match files[id] {
            Upload::Ready { .. } => Err(Output::AlreadyUploaded),
            Upload::Uploading { .. } => Err(Output::AlreadyUploading),
            Upload::New { file_type: announced, max_size, .. } => if announced != file_type {
                Err(Output::WrongFileType)
            } else {
                Ok(max_size)
            },
        }
    }
}

/// The answer to an upload to file `id` sent with `Content-Type` value
/// `content_type`.
pub open spec fn start_outcome(files: Map<Id, Upload>, id: Id, content_type: Option<&str>) -> Result<
    UploadTarget,
    Output,
> {
    match content_file_type(content_type) {
        None => Err(Output::InvalidMimeType),
        Some(ft) => match upload_check(files, id, ft) {
            Err(e) => Err(e),
            Ok(max_size) => Ok(UploadTarget { file_id: id, max_size }),
        },
    }
}

/// Checks an upload to the file whose identifier is the text `file_id`,
/// sent with `Content-Type` value `content_type`, and on success records
/// that the upload has begun.
pub fn start_upload(state: &mut AppRequest, file_id: &str, content_type: Option<&str>) -> (r: Result<
    UploadTarget,
    Output,
>)
    ensures
        final(state).date() == old(state).date(),
        !id_text_is_valid(file_id@) ==> r == Err::<UploadTarget, Output>(Output::InvalidId),
        id_text_is_valid(file_id@) && content_file_type(content_type) is None ==> r == Err::<
            UploadTarget,
            Output,
        >(Output::InvalidMimeType),
        forall|id: Id|
            bs58_decoded(file_id@) == Some(#[trigger] id@) ==> r == start_outcome(
                old(state).store_view().files,
                id,
                content_type,
            ),
        match r {
            Ok(target) => {
                let e = DateEvent {
                    date: old(state).date(),
                    kind: Event::FileUploadStart { file_id: target.file_id },
                };
                &&& final(state).store_view() == old(state).store_view().apply(e)
                &&& final(state).log() == old(state).log().push(e)
            },
            Err(_) => final(state).store_view() == old(state).store_view() && final(state).log()
                == old(state).log(),
        },
{
    let id = match Id::from_str(file_id) {
        Ok(id) => id,
        Err(_) => {
            return Err(Output::InvalidId);
        },
    };
    proof {
        assert forall|other: Id| bs58_decoded(file_id@) == Some(other@) implies other == id by {
            lemma_id_bytes_determine_id(other, id);
        }
    }
    let file_type = match get_file_type(content_type) {
        Some(file_type) => file_type,
        None => {
            return Err(Output::InvalidMimeType);
        },
    };
    let max_size = match state.get_store().files.get(&id) {
        None => {
            return Err(Output::NotFound);
        },
        Some(Upload::Ready { .. }) => {
            return Err(Output::AlreadyUploaded);
        },
        Some(Upload::Uploading { .. }) => {
            return Err(Output::AlreadyUploading);
        },
        Some(Upload::New { file_type: announced, max_size, .. }) => {
            if *announced != file_type {
                return Err(Output::WrongFileType);
            }
            *max_size
        },
    };
    state.write(Event::FileUploadStart { file_id: id });
    Ok(UploadTarget { file_id: id, max_size })
}

/// Checks the body that was received: `copied` is its size, or `None` when
/// it could not be read. On success, the size.
pub fn check_body(copied: Option<u64>, max_size: u64) -> (r: Result<u64, Output>)
    ensures
        r == match copied {
            None => Err(Output::FileUploadError),
            Some(size) => if size > max_size {
                Err(Output::TooLarge)
            } else {
                Ok(size)
            },
        },
{
    match copied {
        None => Err(Output::FileUploadError),
        Some(size) => if size > max_size {
            Err(Output::TooLarge)
        } else {
            Ok(size)
        },
    }
}

/// Records that the file has been stored as blob `blob_id`, `size` bytes
/// long.
pub fn finish_upload(state: &mut AppRequest, file_id: Id, blob_id: Id, size: u64) -> (r: Output)
    requires
        old(state).store_view().accepts(
            DateEvent {
                date: old(state).date(),
                kind: Event::FileReady { file_id, blob_id, size },
            },
        ),
    ensures
        r == Output::Success,
        final(state).date() == old(state).date(),
        ({
            let e = DateEvent {
                date: old(state).date(),
                kind: Event::FileReady { file_id, blob_id, size },
            };
            &&& final(state).store_view() == old(state).store_view().apply(e)
            &&& final(state).log() == old(state).log().push(e)
        }),
{
    state.write(Event::FileReady { file_id, blob_id, size });
    Output::Success
}

/// At most one upload of a file is in progress: once an upload of file `id`
/// has begun (the first request passed its checks and recorded the start),
/// a second upload of the same file, sent with any content type that names
/// a file type, is answered AlreadyUploading (an error, on which
/// `start_upload` writes nothing and gives no target to store a blob for);
/// whatever file type a second upload claims, the store's check of it
/// answers AlreadyUploading.
pub proof fn law_one_upload_at_a_time(
    s: StoreView,
    date: Date,
    id: Id,
    first: Option<&str>,
    second: Option<&str>,
)
    requires
        start_outcome(s.files, id, first) is Ok,
        content_file_type(second) is Some,
    ensures
        s.accepts(DateEvent { date, kind: Event::FileUploadStart { file_id: id } }),
        start_outcome(
            s.apply(DateEvent { date, kind: Event::FileUploadStart { file_id: id } }).files,
            id,
            second,
        ) == Err::<UploadTarget, Output>(Output::AlreadyUploading),
        forall|file_type: file::Type|
            #[trigger] upload_check(
                s.apply(DateEvent { date, kind: Event::FileUploadStart { file_id: id } }).files,
                id,
                file_type,
            ) == Err::<u64, Output>(Output::AlreadyUploading),
{
}

} // verus!
