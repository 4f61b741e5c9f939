use vstd::prelude::*;

use crate::common::id::Id;
use crate::common::id_map::IdMap;

verus! {

/// A user account.
#[derive(Debug)]
pub struct User {
    pub id: Id,
    pub name: String,
    pub handle: String,
    pub password: String,
}

impl Clone for User {
    fn clone(&self) -> (r: User)
        ensures
            r == *self,
    {
        User {
            id: self.id,
            name: self.name.clone(),
            handle: self.handle.clone(),
            password: self.password.clone(),
        }
    }
}

impl PartialEq for User {
    /// Users are the same user when they have the same identifier.
    fn eq(&self, other: &User) -> (r: bool) {
        self.id.same(&other.id)
    }
}

impl vstd::std_specs::cmp::PartialEqSpecImpl for User {
    open spec fn obeys_eq_spec() -> bool {
        true
    }

    open spec fn eq_spec(&self, other: &User) -> bool {
        self.id == other.id
    }
}

/// Why a user could not be added.
#[derive(Debug, Clone, Copy, PartialEq, Eq, Structural)]
pub enum InsertionError {
    IdExists,
    HandleExists,
}

/// Why a user could not be changed.
#[derive(Debug, Clone, Copy, PartialEq, Eq, Structural)]
pub enum UpdateError {
    IdNotFound,
}

/// The handles that users were created with, each naming one user.
struct HandleIndex {
    entries: Vec<(String, Id)>,
    contents: Ghost<Map<Seq<char>, Id>>,
}

spec fn handles_represent(entries: Seq<(String, Id)>, contents: Map<Seq<char>, Id>) -> bool {
    &&& forall|i: int, j: int|
        #![trigger entries[i], entries[j]]
        0 <= i < j < entries.len() ==> entries[i].0@ != entries[j].0@
    &&& forall|i: int|
        #![trigger entries[i]]
        0 <= i < entries.len() ==> {
            &&& contents.contains_key(entries[i].0@)
            &&& contents[entries[i].0@] == entries[i].1
        }
    &&& forall|h: Seq<char>|
        contents.contains_key(h) ==> exists|i: int|
            #![trigger entries[i]]
            0 <= i < entries.len() && entries[i].0@ == h
}

impl HandleIndex {
    #[verifier::type_invariant]
    spec fn entries_match(self) -> bool {
        handles_represent(self.entries@, self.contents@)
    }

    spec fn view(&self) -> Map<Seq<char>, Id> {
        self.contents@
    }

    fn new() -> (r: HandleIndex)
        ensures
            r.view() == Map::<Seq<char>, Id>::empty(),
    {
        HandleIndex { entries: Vec::new(), contents: Ghost(Map::empty()) }
    }

    fn get(&self, handle: &str) -> (r: Option<Id>)
        ensures
            match r {
                Some(id) => self.view().contains_key(handle@) && self.view()[handle@] == id,
                None => !self.view().contains_key(handle@),
            },
    {
        proof {
            use_type_invariant(self);
        }
        let wanted = String::from_str(handle);
        let mut i: usize = 0;
        while i < self.entries.len()
            invariant
                0 <= i <= self.entries@.len(),
                wanted@ == handle@,
                handles_represent(self.entries@, self.contents@),
                forall|j: int| 0 <= j < i ==> self.entries@[j].0@ != handle@,
            decreases self.entries@.len() - i,
        {
            if self.entries[i].0 == wanted {
                assert(self.contents@.contains_key(self.entries@[i as int].0@));
                return Some(self.entries[i].1);
            }
            i = i + 1;
        }
        None
    }

    fn insert(&mut self, handle: String, id: Id)
        requires
            !old(self).view().contains_key(handle@),
        ensures
            final(self).view() == old(self).view().insert(handle@, id),
    {
        proof {
            use_type_invariant(&*self);
        }
        let mut other = HandleIndex::new();
        std::mem::swap(self, &mut other);
        proof {
            use_type_invariant(&other);
        }
        let HandleIndex { entries: mut entries, contents: Ghost(contents) } = other;
        let ghost old_entries = entries@;
        let ghost key = handle@;
        entries.push((handle, id));
        let ghost new_contents = contents.insert(key, id);
        proof {
            assert forall|a: int, b: int| 0 <= a < b < entries@.len() implies entries@[a].0@
                != entries@[b].0@ by {
                if b == old_entries.len() {
                    assert(contents.contains_key(old_entries[a].0@));
                } else {
                    assert(old_entries[a] == entries@[a] && old_entries[b] == entries@[b]);
                }
            }
            assert forall|j: int| 0 <= j < entries@.len() implies {
                &&& new_contents.contains_key(#[trigger] entries@[j].0@)
                &&& new_contents[entries@[j].0@] == entries@[j].1
            } by {
                if j < old_entries.len() {
                    assert(old_entries[j] == entries@[j]);
                    assert(contents.contains_key(old_entries[j].0@));
                }
            }
            assert forall|h: Seq<char>| new_contents.contains_key(h) implies exists|j: int|
                #![trigger entries@[j]]
                0 <= j < entries@.len() && entries@[j].0@ == h by {
                if h == key {
                    assert(entries@[old_entries.len() as int].0@ == h);
                } else {
                    let j = choose|j: int| 0 <= j < old_entries.len() && old_entries[j].0@ == h;
                    assert(old_entries[j] == entries@[j]);
                }
            }
            assert(handles_represent(entries@, new_contents));
        }
        *self = HandleIndex { entries, contents: Ghost(new_contents) };
    }
}

/// The user accounts, found by identifier or by the handle they were
/// created with.
pub struct Users {
    by_id: IdMap<User>,
    by_handle: HandleIndex,
}

impl View for Users {
    type V = Map<Id, User>;

    closed spec fn view(&self) -> Map<Id, User> {
        self.by_id@
    }
}

impl Users {
    #[verifier::type_invariant]
    spec fn indexes_agree(self) -> bool {
        &&& forall|h: Seq<char>|
            #[trigger] self.by_handle.view().contains_key(h) ==> self.by_id@.contains_key(
                self.by_handle.view()[h],
            )
        &&& forall|k: Id| #[trigger] self.by_id@.contains_key(k) ==> self.by_id@[k].id == k
    }

    /// The handle each user was created with, and the user it names. A
    /// later change of a user's handle does not change this index.
    pub closed spec fn handles(&self) -> Map<Seq<char>, Id> {
        self.by_handle.view()
    }

    pub fn new() -> (r: Users)
        ensures
            r@ == Map::<Id, User>::empty(),
            r.handles() == Map::<Seq<char>, Id>::empty(),
    {
        Users { by_id: IdMap::new(), by_handle: HandleIndex::new() }
    }

    /// Adds a user, unless a user was created with its handle or has its
    /// identifier (the handle is checked first). On success, the user as
    /// stored.
    pub fn insert(&mut self, user: User) -> (r: Result<User, InsertionError>)
        ensures
            r == insertion_outcome(*old(self), user),
            r is Ok ==> final(self)@ == old(self)@.insert(user.id, user) && final(self).handles()
                == old(self).handles().insert(user.handle@, user.id),
            r is Err ==> final(self)@ == old(self)@ && final(self).handles() == old(
                self,
            ).handles(),
    {
        proof {
            use_type_invariant(&*self);
        }
        if self.by_handle.get(user.handle.as_str()).is_some() {
            return Err(InsertionError::HandleExists);
        }
        if self.by_id.contains_key(&user.id) {
            return Err(InsertionError::IdExists);
        }
        let stored = user.clone();
        let id = user.id;
        let handle = user.handle.clone();
        let mut taken = Users::new();
        std::mem::swap(self, &mut taken);
        proof {
            use_type_invariant(&taken);
        }
        let Users { by_id: mut by_id, by_handle: mut by_handle } = taken;
        by_id.insert(id, user);
        by_handle.insert(handle, id);
        *self = Users { by_id, by_handle };
        Ok(stored)
    }

    /// The user created with `handle`, if any.
    pub fn get_by_handle(&self, handle: &str) -> (r: Option<&User>)
        ensures
            r == if self.handles().contains_key(handle@) {
                Some(&self@[self.handles()[handle@]])
            } else {
                None
            },
            r matches Some(u) ==> u.id == self.handles()[handle@] && self@.contains_key(u.id),
    {
        proof {
            use_type_invariant(self);
        }
        match self.by_handle.get(handle) {
            Some(id) => self.by_id.get(&id),
            None => None,
        }
    }

    /// The identifiers of all users.
    pub fn ids(&self) -> (r: Vec<Id>)
        ensures
            r@.to_set() == self@.dom(),
    {
        self.by_id.keys()
    }

    /// The user with identifier `user_id`, if any.
    pub fn get_by_id(&self, user_id: &Id) -> (r: Option<&User>)
        ensures
            r == if self@.contains_key(*user_id) {
                Some(&self@[*user_id])
            } else {
                None
            },
            r matches Some(u) ==> u.id == *user_id,
    {
        proof {
            use_type_invariant(self);
        }
        self.by_id.get(user_id)
    }

    /// Gives the user a new name and handle.
    pub fn update(&mut self, user_id: &Id, name: String, handle: String) -> (r: Result<
        (),
        UpdateError,
    >)
        ensures
            r is Ok <==> old(self)@.contains_key(*user_id),
            final(self)@ == if old(self)@.contains_key(*user_id) {
                old(self)@.insert(*user_id, User { name, handle, ..old(self)@[*user_id] })
            } else {
                old(self)@
            },
            final(self).handles() == old(self).handles(),
    {
        proof {
            use_type_invariant(&*self);
        }
        let current = match self.by_id.get(user_id) {
            Some(user) => user.clone(),
            None => {
                return Err(UpdateError::IdNotFound);
            },
        };
        let updated = User { name, handle, ..current };
        let mut taken = Users::new();
        std::mem::swap(self, &mut taken);
        proof {
            use_type_invariant(&taken);
        }
        let Users { by_id: mut by_id, by_handle: mut by_handle } = taken;
        by_id.insert(*user_id, updated);
        *self = Users { by_id, by_handle };
        Ok(())
    }

    /// Gives the user a new password.
    pub fn update_password(&mut self, user_id: Id, password: String) -> (r: Result<
        (),
        UpdateError,
    >)
        ensures
            r is Ok <==> old(self)@.contains_key(user_id),
            final(self)@ == if old(self)@.contains_key(user_id) {
                old(self)@.insert(user_id, User { password, ..old(self)@[user_id] })
            } else {
                old(self)@
            },
            final(self).handles() == old(self).handles(),
    {
        proof {
            use_type_invariant(&*self);
        }
        let current = match self.by_id.get(&user_id) {
            Some(user) => user.clone(),
            None => {
                return Err(UpdateError::IdNotFound);
            },
        };
        let updated = User { password, ..current };
        let mut taken = Users::new();
        std::mem::swap(self, &mut taken);
        proof {
            use_type_invariant(&taken);
        }
        let Users { by_id: mut by_id, by_handle: mut by_handle } = taken;
        by_id.insert(user_id, updated);
        *self = Users { by_id, by_handle };
        Ok(())
    }
}

/// What adding `user` to `users` gives: the handle is checked before the
/// identifier.
pub open spec fn insertion_outcome(users: Users, user: User) -> Result<User, InsertionError> {
    if users.handles().contains_key(user.handle@) {
        Err(InsertionError::HandleExists)
    } else if users@.contains_key(user.id) {
        Err(InsertionError::IdExists)
    } else {
        Ok(user)
    }
}

} // verus!
