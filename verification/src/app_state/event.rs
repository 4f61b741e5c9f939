use vstd::prelude::*;

use crate::common::date::Date;
use crate::common::file;
use crate::common::id::Id;

verus! {

/// A change to the store, as recorded in the event log.
#[derive(Debug)]
pub enum Event {
    SessionLogin { session_id: Id, user_id: Id },
    SessionPing { session_id: Id },
    SessionLogout { session_id: Id },
    SessionCreate { session_id: Id },
    UserCreate { user_id: Id, name: String, handle: String, password: String },
    UserUpdate { user_id: Id, name: String, handle: String },
    UserUpdatePassword { user_id: Id, password: String },
    NewPhotoUpload { file_id: Id, file_type: file::Type, photo_id: Id },
    FileUploadStart { file_id: Id },
    FileReady { file_id: Id, blob_id: Id, size: u64 },
}

impl Clone for Event {
    fn clone(&self) -> (r: Event)
        ensures
            r == *self,
    {
        match self {
            Event::SessionLogin { session_id, user_id } => Event::SessionLogin {
                session_id: *session_id,
                user_id: *user_id,
            },
            Event::SessionPing { session_id } => Event::SessionPing { session_id: *session_id },
            Event::SessionLogout { session_id } => Event::SessionLogout { session_id: *session_id },
            Event::SessionCreate { session_id } => Event::SessionCreate { session_id: *session_id },
            Event::UserCreate { user_id, name, handle, password } => Event::UserCreate {
                user_id: *user_id,
                name: name.clone(),
                handle: handle.clone(),
                password: password.clone(),
            },
            Event::UserUpdate { user_id, name, handle } => Event::UserUpdate {
                user_id: *user_id,
                name: name.clone(),
                handle: handle.clone(),
            },
            Event::UserUpdatePassword { user_id, password } => Event::UserUpdatePassword {
                user_id: *user_id,
                password: password.clone(),
            },
            Event::NewPhotoUpload { file_id, file_type, photo_id } => Event::NewPhotoUpload {
                file_id: *file_id,
                file_type: *file_type,
                photo_id: *photo_id,
            },
            Event::FileUploadStart { file_id } => Event::FileUploadStart { file_id: *file_id },
            Event::FileReady { file_id, blob_id, size } => Event::FileReady {
                file_id: *file_id,
                blob_id: *blob_id,
                size: *size,
            },
        }
    }
}

/// An event with the time at which it happened.
#[derive(Debug)]
pub struct DateEvent {
    pub date: Date,
    pub kind: Event,
}

impl Clone for DateEvent {
    fn clone(&self) -> (r: DateEvent)
        ensures
            r == *self,
    {
        DateEvent { date: self.date, kind: self.kind.clone() }
    }
}

} // verus!
