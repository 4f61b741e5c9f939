pub mod files;
pub mod photos;
pub mod sessions;
pub mod uploads;
pub mod users;

use vstd::prelude::*;

use crate::app_state::event::{DateEvent, Event};
use crate::common::authentication::Authentication;
use crate::common::date::Date;
use crate::common::id::Id;
use files::Upload;
use photos::{Photo, PhotoUploading};
use sessions::Session;
use users::User;

verus! {

/// The size limit, in bytes, of the file of a new photo.
pub const PHOTO_MAX_SIZE: u64 = 5_000_000;

/// What the store holds, as plain maps.
pub struct StoreView {
    pub users: Map<Id, User>,
    pub handles: Map<Seq<char>, Id>,
    pub sessions: Map<Id, Session>,
    pub files: Map<Id, Upload>,
    pub photos: Map<Id, Photo>,
    pub uploading: Map<Id, PhotoUploading>,
}

impl StoreView {
    /// The empty store.
    pub open spec fn empty() -> StoreView {
        StoreView {
            users: Map::empty(),
            handles: Map::empty(),
            sessions: Map::empty(),
            files: Map::empty(),
            photos: Map::empty(),
            uploading: Map::empty(),
        }
    }

    /// Every user is stored under its own identifier, and every logged-in
    /// session is logged in as a stored user.
    pub open spec fn wf(self) -> bool {
        &&& forall|k: Id| #[trigger] self.users.contains_key(k) ==> self.users[k].id == k
        &&& forall|k: Id|
            #[trigger] self.sessions.contains_key(k) ==> (self.sessions[k].authentication matches Authentication::Authenticated { user } ==> self.users.contains_key(user))
    }

    /// Whether the store can take `e`: the events that it cannot take are
    /// those that would log in as an unknown user, touch an unknown
    /// session, user or file, or create again what exists.
    pub open spec fn accepts(self, e: DateEvent) -> bool {
        match e.kind {
            Event::SessionLogin { user_id, .. } => self.users.contains_key(user_id),
            Event::SessionPing { session_id } => self.sessions.contains_key(session_id),
            Event::SessionLogout { session_id } => self.sessions.contains_key(session_id),
            Event::SessionCreate { session_id } => !self.sessions.contains_key(session_id),
            Event::UserCreate { user_id, handle, .. } => !self.handles.contains_key(handle@)
                && !self.users.contains_key(user_id),
            Event::UserUpdate { user_id, .. } => self.users.contains_key(user_id),
            Event::UserUpdatePassword { user_id, .. } => self.users.contains_key(user_id),
            Event::NewPhotoUpload { file_id, .. } => !self.uploading.contains_key(file_id)
                && !self.files.contains_key(file_id),
            Event::FileUploadStart { file_id } => self.files.contains_key(file_id)
                && self.files[file_id] is New,
            Event::FileReady { file_id, .. } => {
                &&& self.files.contains_key(file_id)
                &&& self.files[file_id] is Uploading
                &&& self.uploading.contains_key(file_id)
                &&& !self.photos.contains_key(self.uploading[file_id].photo_id)
            },
        }
    }

    /// The store after `e`.
    pub open spec fn apply(self, e: DateEvent) -> StoreView {
        match e.kind {
            Event::SessionLogin { session_id, user_id } => if self.sessions.contains_key(
                session_id,
            ) {
                StoreView {
                    sessions: self.sessions.insert(
                        session_id,
                        Session {
                            authentication: Authentication::Authenticated { user: user_id },
                            ..self.sessions[session_id]
                        },
                    ),
                    ..self
                }
            } else {
                self
            },
            Event::SessionPing { session_id } => StoreView {
                sessions: self.sessions.insert(
                    session_id,
                    Session { last_ping: e.date, ..self.sessions[session_id] },
                ),
                ..self
            },
            Event::SessionLogout { session_id } => StoreView {
                sessions: self.sessions.insert(
                    session_id,
                    Session {
                        authentication: Authentication::NotAuthenticated,
                        ..self.sessions[session_id]
                    },
                ),
                ..self
            },
            Event::SessionCreate { session_id } => StoreView {
                sessions: self.sessions.insert(
                    session_id,
                    Session {
                        token: session_id,
                        last_ping: e.date,
                        authentication: Authentication::NotAuthenticated,
                    },
                ),
                ..self
            },
            Event::UserCreate { user_id, name, handle, password } => StoreView {
                users: self.users.insert(user_id, User { id: user_id, name, handle, password }),
                handles: self.handles.insert(handle@, user_id),
                ..self
            },
            Event::UserUpdate { user_id, name, handle } => StoreView {
                users: self.users.insert(user_id, User { name, handle, ..self.users[user_id] }),
                ..self
            },
            Event::UserUpdatePassword { user_id, password } => StoreView {
                users: self.users.insert(user_id, User { password, ..self.users[user_id] }),
                ..self
            },
            Event::NewPhotoUpload { file_id, file_type, photo_id } => StoreView {
                uploading: self.uploading.insert(file_id, PhotoUploading { photo_id, file_id }),
                files: self.files.insert(
                    file_id,
                    Upload::New { id: file_id, file_type, max_size: PHOTO_MAX_SIZE, date: e.date },
                ),
                ..self
            },
            Event::FileUploadStart { file_id } => StoreView {
                files: self.files.insert(file_id, files::started(self.files[file_id])),
                ..self
            },
            Event::FileReady { file_id, blob_id, size } => {
                let waiting = self.uploading[file_id];
                StoreView {
                    files: self.files.insert(
                        file_id,
                        files::finished(self.files[file_id], blob_id, size),
                    ),
                    uploading: self.uploading.remove(file_id),
                    photos: self.photos.insert(
                        waiting.photo_id,
                        Photo { photo_id: waiting.photo_id, file_id: waiting.file_id },
                    ),
                    ..self
                }
            },
        }
    }

    /// Whether the store takes every event of `events` in turn.
    pub open spec fn accepts_all(self, events: Seq<DateEvent>) -> bool
        decreases events.len(),
    {
        if events.len() == 0 {
            true
        } else {
            self.accepts(events[0]) && self.apply(events[0]).accepts_all(events.drop_first())
        }
    }

    /// The store after every event of `events`, in turn.
    pub open spec fn replay(self, events: Seq<DateEvent>) -> StoreView
        decreases events.len(),
    {
        if events.len() == 0 {
            self
        } else {
            self.apply(events[0]).replay(events.drop_first())
        }
    }
}

/// The users, sessions, files and photos of the server, built up from
/// events.
pub struct Store {
    pub users: users::Users,
    pub sessions: sessions::Sessions,
    pub files: files::Uploads,
    pub photos: photos::Photos,
}

impl View for Store {
    type V = StoreView;

    open spec fn view(&self) -> StoreView {
        StoreView {
            users: self.users@,
            handles: self.users.handles(),
            sessions: self.sessions@,
            files: self.files@,
            photos: self.photos.photo_map(),
            uploading: self.photos.uploading_map(),
        }
    }
}

impl Store {
    /// The empty store.
    pub fn new() -> (r: Store)
        ensures
            r@ == StoreView::empty(),
    {
        Store {
            users: users::Users::new(),
            sessions: sessions::Sessions::new(),
            files: files::Uploads::new(),
            photos: photos::Photos::new(),
        }
    }

    /// Applies an event to the store.
    pub fn on_event(&mut self, command: DateEvent)
        requires
            old(self)@.accepts(command),
        ensures
            final(self)@ == old(self)@.apply(command),
    {
        let date = command.date;
        match command.kind {
            Event::SessionLogin { session_id, user_id } => {
                self.sessions.login(&session_id, user_id);
            },
            Event::SessionPing { session_id } => {
                self.sessions.ping(&session_id, date);
            },
            Event::SessionLogout { session_id } => {
                self.sessions.logout(&session_id);
            },
            Event::SessionCreate { session_id } => {
                self.sessions.create(session_id, date);
            },
            Event::UserCreate { user_id: id, name, handle, password } => {
                let _ = self.users.insert(users::User { id, name, handle, password });
            },
            Event::UserUpdate { user_id, name, handle } => {
                let _ = self.users.update(&user_id, name, handle);
            },
            Event::UserUpdatePassword { user_id, password } => {
                let _ = self.users.update_password(user_id, password);
            },
            Event::NewPhotoUpload { file_id, photo_id, file_type } => {
                self.photos.photo_new_upload(photo_id, file_id);
                self.files.upload_new(file_id, file_type, PHOTO_MAX_SIZE, date);
            },
            Event::FileUploadStart { file_id } => {
                self.files.upload_begin(file_id);
            },
            Event::FileReady { file_id, size, blob_id } => {
                self.files.upload_finish(file_id, blob_id, size);
                self.photos.photo_upload_finish(file_id);
            },
        }
    }
}

impl Store {
    /// Whether the store can take `command` (see `StoreView::accepts`).
    pub fn can_apply(&self, command: &DateEvent) -> (r: bool)
        ensures
            r == self@.accepts(*command),
    {
        match &command.kind {
            Event::SessionLogin { user_id, .. } => self.users.get_by_id(user_id).is_some(),
            Event::SessionPing { session_id } => self.sessions.get(session_id).is_some(),
            Event::SessionLogout { session_id } => self.sessions.get(session_id).is_some(),
            Event::SessionCreate { session_id } => self.sessions.get(session_id).is_none(),
            Event::UserCreate { user_id, handle, .. } => self.users.get_by_handle(
                handle.as_str(),
            ).is_none() && self.users.get_by_id(user_id).is_none(),
            Event::UserUpdate { user_id, .. } => self.users.get_by_id(user_id).is_some(),
            Event::UserUpdatePassword { user_id, .. } => self.users.get_by_id(user_id).is_some(),
            Event::NewPhotoUpload { file_id, .. } => self.photos.waiting_for(file_id).is_none()
                && self.files.get(file_id).is_none(),
            Event::FileUploadStart { file_id } => match self.files.get(file_id) {
                Some(Upload::New { .. }) => true,
                _ => false,
            },
            Event::FileReady { file_id, .. } => {
                let uploading = match self.files.get(file_id) {
                    Some(Upload::Uploading { .. }) => true,
                    _ => false,
                };
                uploading && match self.photos.waiting_for(file_id) {
                    Some(waiting) => !self.photos.has_photo(&waiting.photo_id),
                    None => false,
                }
            },
        }
    }
}

/// Applying an event that the store takes keeps every user under its own
/// identifier, and every logged-in session logged in as a stored user.
pub proof fn lemma_apply_keeps_wf(s: StoreView, e: DateEvent)
    requires
        s.wf(),
        s.accepts(e),
    ensures
        s.apply(e).wf(),
{
    let t = s.apply(e);
    assert forall|k: Id| #[trigger] t.users.contains_key(k) implies t.users[k].id == k by {
        if s.users.contains_key(k) {
            assert(s.users[k].id == k);
        }
    }
    assert forall|k: Id| #[trigger] t.sessions.contains_key(k) implies (t.sessions[k].authentication matches Authentication::Authenticated { user } ==> t.users.contains_key(user)) by {
        if s.sessions.contains_key(k) {
            assert(s.users.dom().subset_of(t.users.dom()));
        }
    }
}

/// Replaying a log and then one more event is replaying the log with that
/// event appended; the store takes the longer log exactly when it takes
/// the shorter one and then the event.
pub proof fn law_replay_append(start: StoreView, events: Seq<DateEvent>, e: DateEvent)
    ensures
        start.replay(events.push(e)) == start.replay(events).apply(e),
        start.accepts_all(events.push(e)) == (start.accepts_all(events) && start.replay(
            events,
        ).accepts(e)),
    decreases events.len(),
{
    let longer = events.push(e);
    assert(longer[0] == if events.len() == 0 { e } else { events[0] });
    if events.len() == 0 {
        assert(longer.drop_first() =~= Seq::<DateEvent>::empty());
        assert(start.apply(e).replay(longer.drop_first()) == start.apply(e));
        assert(start.apply(e).accepts_all(longer.drop_first()));
    } else {
        assert(longer.drop_first() =~= events.drop_first().push(e));
        law_replay_append(start.apply(events[0]), events.drop_first(), e);
    }
}

/// After a login that the store takes, the session (if it exists) is
/// logged in as the user, who is stored.
pub proof fn law_login_authenticates(s: StoreView, date: Date, session_id: Id, user_id: Id)
    requires
        s.accepts(DateEvent { date, kind: Event::SessionLogin { session_id, user_id } }),
        s.sessions.contains_key(session_id),
    ensures
        ({
            let t = s.apply(DateEvent { date, kind: Event::SessionLogin { session_id, user_id } });
            &&& t.sessions[session_id].authentication == Authentication::Authenticated {
                user: user_id,
            }
            &&& t.users.contains_key(user_id)
            &&& t.users == s.users
        }),
{
}

/// After a logout, the session is not logged in, and nothing else about it
/// changes.
pub proof fn law_logout_unauthenticates(s: StoreView, date: Date, session_id: Id)
    requires
        s.accepts(DateEvent { date, kind: Event::SessionLogout { session_id } }),
    ensures
        ({
            let t = s.apply(DateEvent { date, kind: Event::SessionLogout { session_id } });
            &&& t.sessions[session_id].authentication == Authentication::NotAuthenticated
            &&& t.sessions[session_id].token == s.sessions[session_id].token
            &&& t.sessions[session_id].last_ping == s.sessions[session_id].last_ping
            &&& t.sessions.dom() == s.sessions.dom()
        }),
{
}

/// No event removes a user, a handle, a session or a photo, and a handle
/// keeps naming the user it was created for.
pub proof fn law_nothing_is_removed(s: StoreView, e: DateEvent)
    requires
        s.accepts(e),
    ensures
        s.users.dom().subset_of(s.apply(e).users.dom()),
        s.sessions.dom().subset_of(s.apply(e).sessions.dom()),
        s.photos.dom().subset_of(s.apply(e).photos.dom()),
        forall|h: Seq<char>| #[trigger]
            s.handles.contains_key(h) ==> s.apply(e).handles.contains_key(h) && s.apply(
                e,
            ).handles[h] == s.handles[h],
{
}

/// Uploads only move forward: an announced file stays announced or starts
/// uploading, an uploading file stays uploading or becomes ready, and a
/// ready file never changes again.
pub proof fn law_uploads_move_forward(s: StoreView, e: DateEvent, file_id: Id)
    requires
        s.accepts(e),
        s.files.contains_key(file_id),
    ensures
        s.apply(e).files.contains_key(file_id),
        s.files[file_id] is Ready ==> s.apply(e).files[file_id] == s.files[file_id],
        s.files[file_id] is Uploading ==> (s.apply(e).files[file_id] is Uploading || s.apply(
            e,
        ).files[file_id] is Ready),
        s.files[file_id] is New ==> (s.apply(e).files[file_id] is New || s.apply(
            e,
        ).files[file_id] is Uploading),
{
}

impl Default for Store {
    fn default() -> (r: Store)
        ensures
            r@ == StoreView::empty(),
    {
        Store::new()
    }
}

} // verus!
