use vstd::prelude::*;

use crate::ids::{is_uuid_v4_text, new_random_id};
use crate::user::{opt_view, with_id, User, UserView};

verus! {

/// Why a store operation did not take place.
pub enum StoreError {
    /// No record carries this identifier.
    NotFound(String),
    /// A record already carries this identifier.
    Conflict(String),
    /// The wildcard delete found the store already empty.
    NothingToDelete,
}

/// What a successful delete removed.
pub enum Deleted {
    /// The one record that carried this identifier.
    One(String),
    /// Every record.
    All,
}

/// Whether some record of `s` carries the identifier `id`.
pub open spec fn has_id(s: Seq<UserView>, id: Seq<char>) -> bool {
    exists|i: int| 0 <= i < s.len() && s[i].id == Some(id)
}

/// Every record carries an identifier.
pub open spec fn all_have_ids(s: Seq<UserView>) -> bool {
    forall|i: int| 0 <= i < s.len() ==> (#[trigger] s[i].id) is Some
}

/// `i` is the first index of `s` whose record carries `id`.
pub open spec fn is_first_with(s: Seq<UserView>, id: Seq<char>, i: int) -> bool {
    &&& 0 <= i < s.len()
    &&& s[i].id == Some(id)
    &&& forall|j: int| 0 <= j < i ==> (#[trigger] s[j].id) != Some(id)
}

/// The first index of `s` whose record carries `id`; meaningful where
/// `has_id(s, id)` holds.
pub open spec fn index_of(s: Seq<UserView>, id: Seq<char>) -> int {
    choose|i: int| is_first_with(s, id, i)
}

/// The first record of `s` that carries `id`, if there is one.
pub open spec fn lookup(s: Seq<UserView>, id: Seq<char>) -> Option<UserView> {
    if has_id(s, id) {
        Some(s[index_of(s, id)])
    } else {
        None
    }
}

/// The identifier of the wildcard delete.
pub open spec fn wildcard() -> Seq<char> {
    seq!['*']
}

/// The first record that carries `id` is the one that `lookup` finds.
pub proof fn lemma_lookup_at(s: Seq<UserView>, i: int, id: Seq<char>)
    requires
        is_first_with(s, id, i),
    ensures
        has_id(s, id),
        index_of(s, id) == i,
        lookup(s, id) == Some(s[i]),
{
    assert(has_id(s, id));
    let j = index_of(s, id);
    assert(is_first_with(s, id, j));
    if j < i {
        assert(s[j].id != Some(id));
    } else if i < j {
        assert(s[i].id != Some(id));
    }
}

/// Appending a record whose identifier is new keeps every identifier present,
/// and a lookup of that identifier right afterwards finds exactly the
/// appended record.
pub proof fn lemma_find_after_insert(s: Seq<UserView>, u: UserView)
    requires
        all_have_ids(s),
        u.id is Some,
        !has_id(s, u.id->Some_0),
    ensures
        all_have_ids(s.push(u)),
        lookup(s.push(u), u.id->Some_0) == Some(u),
{
    let t = s.push(u);
    let k = u.id->Some_0;
    assert forall|i: int| 0 <= i < t.len() implies (#[trigger] t[i].id) is Some by {
        if i < s.len() {
            assert(t[i] == s[i]);
        }
    }
    assert forall|j: int| 0 <= j < s.len() implies (#[trigger] t[j].id) != Some(k) by {
        assert(t[j] == s[j]);
    }
    lemma_lookup_at(t, s.len() as int, k);
}

/// Round trip: after a record with a new identifier is appended, a lookup of
/// that identifier finds the record, deleting it succeeds and gives back the
/// store as it was before, and a lookup then finds nothing.
pub proof fn lemma_insert_find_delete_find(s: Seq<UserView>, u: UserView)
    requires
        all_have_ids(s),
        u.id is Some,
        !has_id(s, u.id->Some_0),
    ensures
        ({
            let k = u.id->Some_0;
            let t = s.push(u);
            &&& lookup(t, k) == Some(u)
            &&& has_id(t, k)
            &&& t.remove(index_of(t, k)) == s
            &&& lookup(t.remove(index_of(t, k)), k) is None
        }),
{
    let k = u.id->Some_0;
    let t = s.push(u);
    lemma_find_after_insert(s, u);
    assert forall|j: int| 0 <= j < s.len() implies (#[trigger] t[j].id) != Some(k) by {
        assert(t[j] == s[j]);
    }
    lemma_lookup_at(t, s.len() as int, k);
    assert(t.remove(s.len() as int) =~= s);
}

/// The in-memory collection of user records, in insertion order.
pub struct Store {
    users: Vec<User>,
}

impl View for Store {
    type V = Seq<UserView>;

    closed spec fn view(&self) -> Seq<UserView> {
        self.users@.map_values(|u: User| u@)
    }
}

impl Store {
    /// The store's invariant: every record carries an identifier.
    pub open spec fn wf(&self) -> bool {
        all_have_ids(self@)
    }

    /// An empty store.
    pub fn new() -> (r: Store)
        ensures
            r.wf(),
            r@ == Seq::<UserView>::empty(),
    {
        let r = Store { users: Vec::new() };
        assert(r@ =~= Seq::<UserView>::empty());
        r
    }

    /// The number of records.
    pub fn len(&self) -> (r: usize)
        ensures
            r == self@.len(),
    {
        self.users.len()
    }

    /// Copies of all records, in insertion order.
    pub fn list(&self) -> (r: Vec<User>)
        ensures
            r@.map_values(|u: User| u@) == self@,
    {
        let mut out: Vec<User> = Vec::new();
        let mut k: usize = 0;
        while k < self.users.len()
            invariant
                k <= self.users@.len(),
                out@.len() == k,
                out@.map_values(|u: User| u@) =~= self@.subrange(0, k as int),
            decreases self.users@.len() - k,
        {
            let ghost before = out@;
            let c = self.users[k].duplicate();
            out.push(c);
            proof {
                assert(out@ == before.push(c));
                assert(self@[k as int] == self.users@[k as int]@);
            }
            k += 1;
            assert(out@.map_values(|u: User| u@) =~= self@.subrange(0, k as int));
        }
        assert(self@.subrange(0, k as int) =~= self@);
        out
    }

    /// The index of the first record that carries `id`, if any.
    pub fn position(&self, id: &String) -> (r: Option<usize>)
        ensures
            match r {
                Some(i) => is_first_with(self@, id@, i as int),
                None => !has_id(self@, id@),
            },
    {
        let mut k: usize = 0;
        while k < self.users.len()
            invariant
                k <= self.users@.len(),
                forall|j: int| 0 <= j < k ==> self@[j].id != Some(id@),
            decreases self.users@.len() - k,
        {
            if self.users[k].has_id(id) {
                return Some(k);
            }
            k += 1;
        }
        None
    }

    /// A copy of the first record that carries `id`, if any.
    pub fn find(&self, id: &String) -> (r: Option<User>)
        requires
            self.wf(),
        ensures
            opt_user_view(r) == lookup(self@, id@),
    {
        match self.position(id) {
            Some(i) => {
                proof {
                    lemma_lookup_at(self@, i as int, id@);
                }
                Some(self.users[i].duplicate())
            },
            None => None,
        }
    }

    /// Appends `user`; where it carries no identifier, `generated` is given
    /// to it. Fails with `Conflict` where a record already carries the
    /// identifier, and then leaves the store as it was.
    pub fn insert_with(&mut self, user: User, generated: String) -> (r: Result<User, StoreError>)
        requires
            old(self).wf(),
        ensures
            final(self).wf(),
            ({
                let id = match user.id {
                    Some(s) => s@,
                    None => generated@,
                };
                let stored = with_id(user@, id);
                match r {
                    Ok(u) => {
                        &&& !has_id(old(self)@, id)
                        &&& u@ == stored
                        &&& final(self)@ == old(self)@.push(stored)
                    },
                    Err(e) => {
                        &&& has_id(old(self)@, id)
                        &&& e is Conflict
                        &&& e->Conflict_0@ == id
                        &&& final(self)@ == old(self)@
                    },
                }
            }),
    {
        let User { id, name, email } = user;
        let id = match id {
            Some(s) => s,
            None => generated,
        };
        if let Some(_) = self.position(&id) {
            return Err(StoreError::Conflict(id));
        }
        let stored = User { id: Some(id), name, email };
        let out = stored.duplicate();
        self.users.push(stored);
        proof {
            assert(self@ =~= old(self)@.push(out@));
            lemma_find_after_insert(old(self)@, out@);
        }
        Ok(out)
    }

    /// Appends `user`; where it carries no identifier, a fresh random one is
    /// drawn for it. Fails with `Conflict` where a record already carries
    /// the identifier, and then leaves the store as it was.
    pub fn insert(&mut self, user: User) -> (r: Result<User, StoreError>)
        requires
            old(self).wf(),
        ensures
            final(self).wf(),
            match r {
                Ok(u) => {
                    &&& u@.id is Some
                    &&& !has_id(old(self)@, u@.id->Some_0)
                    &&& u@.name == user@.name
                    &&& u@.email == user@.email
                    &&& final(self)@ == old(self)@.push(u@)
                    &&& user@.id is Some ==> u@.id == user@.id
                    &&& user@.id is None ==> is_uuid_v4_text(u@.id->Some_0)
                },
                Err(e) => {
                    &&& e is Conflict
                    &&& has_id(old(self)@, e->Conflict_0@)
                    &&& user@.id is Some ==> user@.id == Some(e->Conflict_0@)
                    &&& user@.id is None ==> is_uuid_v4_text(e->Conflict_0@)
                    &&& final(self)@ == old(self)@
                },
            },
    {
        let generated = if user.id.is_some() {
            String::new()
        } else {
            new_random_id()
        };
        self.insert_with(user, generated)
    }

    /// Overwrites the first record that carries `id` with `user`, which is
    /// given `id` where it carries no identifier of its own; an identifier of
    /// its own is stored as it is, even where it differs from `id`. Fails
    /// with `NotFound`, leaving the store as it was, where no record carries
    /// `id`.
    pub fn replace(&mut self, id: &String, user: User) -> (r: Result<User, StoreError>)
        requires
            old(self).wf(),
        ensures
            final(self).wf(),
            ({
                let new_id = match user.id {
                    Some(s) => s@,
                    None => id@,
                };
                let stored = with_id(user@, new_id);
                let o = old(self)@;
                if has_id(o, id@) {
                    &&& is_first_with(o, id@, index_of(o, id@))
                    &&& r is Ok
                    &&& r->Ok_0@ == stored
                    &&& final(self)@ == o.update(index_of(o, id@), stored)
                } else {
                    &&& r is Err
                    &&& r->Err_0 is NotFound
                    &&& r->Err_0->NotFound_0@ == id@
                    &&& final(self)@ == o
                }
            }),
    {
        let i = match self.position(id) {
            Some(i) => i,
            None => {
                return Err(StoreError::NotFound(id.clone()));
            },
        };
        proof {
            lemma_lookup_at(self@, i as int, id@);
        }
        let User { id: body_id, name, email } = user;
        let new_id = match body_id {
            Some(s) => s,
            None => id.clone(),
        };
        let stored = User { id: Some(new_id), name, email };
        let out = stored.duplicate();
        let ghost o = self@;
        self.users.set(i, stored);
        proof {
            let s = self@;
            assert(s =~= o.update(i as int, out@));
            assert forall|a: int| 0 <= a < s.len() implies (#[trigger] s[a].id) is Some by {
                if a != i {
                    assert(s[a] == o[a]);
                }
            }
        }
        Ok(out)
    }

    /// Removes the first record that carries `id`. Where none does and `id` is the
    /// wildcard `*`, removes every record, and fails with `NothingToDelete`
    /// where there were none. Otherwise fails with `NotFound`. On failure the
    /// store is left as it was.
    pub fn delete(&mut self, id: &String) -> (r: Result<Deleted, StoreError>)
        requires
            old(self).wf(),
        ensures
            final(self).wf(),
            ({
                let o = old(self)@;
                if has_id(o, id@) {
                    &&& is_first_with(o, id@, index_of(o, id@))
                    &&& r is Ok
                    &&& r->Ok_0 is One
                    &&& r->Ok_0->One_0@ == id@
                    &&& final(self)@ == o.remove(index_of(o, id@))
                } else if id@ == wildcard() && o.len() > 0 {
                    &&& r is Ok
                    &&& r->Ok_0 is All
                    &&& final(self)@ == Seq::<UserView>::empty()
                } else if id@ == wildcard() {
                    &&& r is Err
                    &&& r->Err_0 is NothingToDelete
                    &&& final(self)@ == o
                } else {
                    &&& r is Err
                    &&& r->Err_0 is NotFound
                    &&& r->Err_0->NotFound_0@ == id@
                    &&& final(self)@ == o
                }
            }),
    {
        let ghost o = self@;
        if let Some(i) = self.position(id) {
            proof {
                lemma_lookup_at(o, i as int, id@);
            }
            self.users.remove(i);
            proof {
                let s = self@;
                assert(s =~= o.remove(i as int));
                assert forall|a: int| 0 <= a < s.len() implies (#[trigger] s[a].id) is Some by {
                    let a2 = if a < i { a } else { a + 1 };
                    assert(s[a] == o[a2]);
                }
            }
            return Ok(Deleted::One(id.clone()));
        }
        let star = String::from_str("*");
        proof {
            reveal_strlit("*");
            assert(star@ =~= wildcard());
        }
        if *id == star {
            if self.users.len() > 0 {
                self.users.clear();
                assert(self@ =~= Seq::<UserView>::empty());
                Ok(Deleted::All)
            } else {
                Err(StoreError::NothingToDelete)
            }
        } else {
            Err(StoreError::NotFound(id.clone()))
        }
    }
}

/// The view of an optional record.
pub open spec fn opt_user_view(o: Option<User>) -> Option<UserView> {
    match o {
        Some(u) => Some(u@),
        None => None,
    }
}

} // verus!
