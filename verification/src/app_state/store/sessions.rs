use vstd::prelude::*;

use crate::common::authentication::Authentication;
use crate::common::date::Date;
use crate::common::id::Id;
use crate::common::id_map::IdMap;

verus! {

/// A client session: its token, when it was last seen, and whether it is
/// logged in.
#[derive(Clone, Copy, Debug)]
pub struct Session {
    pub token: Id,
    pub last_ping: Date,
    pub authentication: Authentication,
}

/// The sessions, found by their token.
pub struct Sessions {
    inner: IdMap<Session>,
}

impl View for Sessions {
    type V = Map<Id, Session>;

    closed spec fn view(&self) -> Map<Id, Session> {
        self.inner@
    }
}

impl Sessions {
    #[verifier::type_invariant]
    spec fn stored_under_token(self) -> bool {
        forall|k: Id| #[trigger] self.inner@.contains_key(k) ==> self.inner@[k].token == k
    }

    pub fn new() -> (r: Sessions)
        ensures
            r@ == Map::<Id, Session>::empty(),
    {
        Sessions { inner: IdMap::new() }
    }

    /// Opens a session that is not logged in, last seen at `date`.
    pub fn create(&mut self, token: Id, date: Date)
        requires
            !old(self)@.contains_key(token),
        ensures
            final(self)@ == old(self)@.insert(
                token,
                Session {
                    token,
                    last_ping: date,
                    authentication: Authentication::NotAuthenticated,
                },
            ),
    {
        proof {
            use_type_invariant(&*self);
        }
        let session = Session {
            authentication: Authentication::NotAuthenticated,
            last_ping: date,
            token,
        };
        let mut taken = Sessions::new();
        std::mem::swap(self, &mut taken);
        proof {
            use_type_invariant(&taken);
        }
        let Sessions { inner: mut inner } = taken;
        inner.insert(token, session);
        *self = Sessions { inner };
    }

    /// The session with token `session_id`, if any.
    pub fn get(&self, session_id: &Id) -> (r: Option<&Session>)
        ensures
            r == if self@.contains_key(*session_id) {
                Some(&self@[*session_id])
            } else {
                None
            },
            r matches Some(s) ==> s.token == *session_id,
    {
        proof {
            use_type_invariant(self);
        }
        self.inner.get(session_id)
    }

    /// The tokens of all sessions.
    pub fn tokens(&self) -> (r: Vec<Id>)
        ensures
            r@.to_set() == self@.dom(),
    {
        self.inner.keys()
    }

    /// All sessions, each once.
    pub fn list(&self) -> (r: Vec<Session>)
        ensures
            r@.len() == self@.len(),
            r@.map_values(|s: Session| s.token).no_duplicates(),
            r@.map_values(|s: Session| s.token).to_set() == self@.dom(),
            forall|i: int| 0 <= i < r@.len() ==> #[trigger] r@[i] == self@[r@[i].token],
    {
        proof {
            use_type_invariant(self);
        }
        let keys = self.inner.keys();
        let mut r: Vec<Session> = Vec::new();
        let mut i: usize = 0;
        while i < keys.len()
            invariant
                0 <= i <= keys@.len(),
                keys@.to_set() == self@.dom(),
                r@.len() == i,
                forall|j: int| 0 <= j < i ==> #[trigger] r@[j] == self@[keys@[j]] && r@[j].token
                    == keys@[j],
            decreases keys@.len() - i,
        {
            assert(keys@.to_set().contains(keys@[i as int]));
            let session = match self.get(&keys[i]) {
                Some(s) => *s,
                None => {
                    assert(false);
                    return r;
                },
            };
            r.push(session);
            i = i + 1;
        }
        assert(r@.map_values(|s: Session| s.token) =~= keys@);
        r
    }

    /// Logs the session in as `user`; returns the session as it then is,
    /// or `None` (changing nothing) when there is no such session.
    pub fn login(&mut self, session_id: &Id, user: Id) -> (r: Option<Session>)
        ensures
            r == if old(self)@.contains_key(*session_id) {
                Some(
                    Session {
                        authentication: Authentication::Authenticated { user },
                        ..old(self)@[*session_id]
                    },
                )
            } else {
                None
            },
            final(self)@ == match r {
                Some(s) => old(self)@.insert(*session_id, s),
                None => old(self)@,
            },
    {
        proof {
            use_type_invariant(&*self);
        }
        let current = match self.inner.get(session_id) {
            Some(s) => *s,
            None => {
                return None;
            },
        };
        let session = Session { authentication: Authentication::Authenticated { user }, ..current };
        let mut taken = Sessions::new();
        std::mem::swap(self, &mut taken);
        proof {
            use_type_invariant(&taken);
        }
        let Sessions { inner: mut inner } = taken;
        inner.insert(*session_id, session);
        *self = Sessions { inner };
        Some(session)
    }

    /// Records that the session was seen at `date`.
    pub fn ping(&mut self, session_id: &Id, date: Date)
        requires
            old(self)@.contains_key(*session_id),
        ensures
            final(self)@ == old(self)@.insert(
                *session_id,
                Session { last_ping: date, ..old(self)@[*session_id] },
            ),
    {
        proof {
            use_type_invariant(&*self);
        }
        let current = match self.inner.get(session_id) {
            Some(s) => *s,
            None => {
                assert(false);
                return ;
            },
        };
        let mut taken = Sessions::new();
        std::mem::swap(self, &mut taken);
        proof {
            use_type_invariant(&taken);
        }
        let Sessions { inner: mut inner } = taken;
        inner.insert(*session_id, Session { last_ping: date, ..current });
        *self = Sessions { inner };
    }

    /// Logs the session out.
    pub fn logout(&mut self, session_id: &Id)
        requires
            old(self)@.contains_key(*session_id),
        ensures
            final(self)@ == old(self)@.insert(
                *session_id,
                Session {
                    authentication: Authentication::NotAuthenticated,
                    ..old(self)@[*session_id]
                },
            ),
    {
        proof {
            use_type_invariant(&*self);
        }
        let current = match self.inner.get(session_id) {
            Some(s) => *s,
            None => {
                assert(false);
                return ;
            },
        };
        let mut taken = Sessions::new();
        std::mem::swap(self, &mut taken);
        proof {
            use_type_invariant(&taken);
        }
        let Sessions { inner: mut inner } = taken;
        inner.insert(
            *session_id,
            Session { authentication: Authentication::NotAuthenticated, ..current },
        );
        *self = Sessions { inner };
    }
}

} // verus!
