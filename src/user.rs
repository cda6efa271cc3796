use vstd::prelude::*;

verus! {

/// A user record: an optional identifier, a name and an e-mail address.
pub struct User {
    pub id: Option<String>,
    pub name: String,
    pub email: String,
}

/// The mathematical value of a `User`: its three fields as character sequences.
pub struct UserView {
    pub id: Option<Seq<char>>,
    pub name: Seq<char>,
    pub email: Seq<char>,
}

/// The view of an optional string.
pub open spec fn opt_view(o: Option<String>) -> Option<Seq<char>> {
    match o {
        Some(s) => Some(s@),
        None => None,
    }
}

impl View for User {
    type V = UserView;

    open spec fn view(&self) -> UserView {
        UserView { id: opt_view(self.id), name: self.name@, email: self.email@ }
    }
}

/// `v` with its identifier set to `id`, the other fields kept.
pub open spec fn with_id(v: UserView, id: Seq<char>) -> UserView {
    UserView { id: Some(id), name: v.name, email: v.email }
}

impl User {
    /// A record from its three fields.
    pub fn new(id: Option<String>, name: String, email: String) -> (r: User)
        ensures
            r.id == id,
            r.name == name,
            r.email == email,
    {
        User { id, name, email }
    }

    /// A copy of the record.
    pub fn duplicate(&self) -> (r: User)
        ensures
            r@ == self@,
    {
        let id = match &self.id {
            Some(s) => Some(s.clone()),
            None => None,
        };
        User { id, name: self.name.clone(), email: self.email.clone() }
    }

    /// Whether the record carries the identifier `id`.
    pub fn has_id(&self, id: &String) -> (r: bool)
        ensures
            r == (self@.id == Some(id@)),
    {
        match &self.id {
            Some(s) => *s == *id,
            None => false,
        }
    }
}

impl PartialEq for User {
    fn eq(&self, o: &User) -> (r: bool) {
        let same_id = match (&self.id, &o.id) {
            (Some(a), Some(b)) => *a == *b,
            (None, None) => true,
            _ => false,
        };
        same_id && self.name == o.name && self.email == o.email
    }
}

impl vstd::std_specs::cmp::PartialEqSpecImpl for User {
    open spec fn obeys_eq_spec() -> bool {
        true
    }

    open spec fn eq_spec(&self, o: &User) -> bool {
        self@ == o@
    }
}

} // verus!
