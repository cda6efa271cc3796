use vstd::prelude::*;

use crate::ids::is_uuid_v4_text;
use crate::store::{has_id, lookup, Deleted, Store, StoreError};
use crate::user::{with_id, User, UserView};

verus! {

/// The project page that the greeting links to.
pub const REPO: &'static str = "https://github.com/nunogois/rust-actix";

/// The body of a reply.
pub enum Body {
    /// An HTML page.
    Html(String),
    /// One record, to be sent as JSON.
    Json(User),
    /// A list of records, to be sent as a JSON array.
    JsonList(Vec<User>),
    /// A plain-text message.
    Text(String),
}

/// A reply to a request: an HTTP status code and a body.
pub struct Reply {
    pub status: u16,
    pub body: Body,
}

/// The message for an identifier that no record carries.
pub open spec fn not_found_text(id: Seq<char>) -> Seq<char> {
    "ID not found: "@ + id
}

/// The message for an identifier that a record already carries.
pub open spec fn conflict_text(id: Seq<char>) -> Seq<char> {
    "ID already exists: "@ + id
}

/// The message for a deleted record.
pub open spec fn deleted_text(id: Seq<char>) -> Seq<char> {
    "ID deleted: "@ + id
}

/// The message for a wildcard delete that removed every record.
pub open spec fn all_deleted_text() -> Seq<char> {
    "All users deleted"@
}

/// The message for a wildcard delete on an empty store.
pub open spec fn nothing_to_delete_text() -> Seq<char> {
    "No users to delete"@
}

/// The greeting page, which links to the project page twice.
pub open spec fn home_text() -> Seq<char> {
    "Hello world! Check the repo here: <a href=\""@ + REPO@ + "\" target=\"_blank\">"@ + REPO@
        + "</a>"@
}

/// `r` carries `status` and the plain text `text`.
pub open spec fn is_text_reply(r: Reply, status: u16, text: Seq<char>) -> bool {
    r.status == status && r.body is Text && r.body->Text_0@ == text
}

/// `r` is a success carrying the record `u` as JSON.
pub open spec fn is_user_reply(r: Reply, u: UserView) -> bool {
    r.status == 200 && r.body is Json && r.body->Json_0@ == u
}

/// The status code of a failed store operation.
pub open spec fn error_status(e: StoreError) -> u16 {
    match e {
        StoreError::NotFound(_) => 404,
        StoreError::Conflict(_) => 409,
        StoreError::NothingToDelete => 404,
    }
}

/// The message of a failed store operation.
pub open spec fn error_text(e: StoreError) -> Seq<char> {
    match e {
        StoreError::NotFound(id) => not_found_text(id@),
        StoreError::Conflict(id) => conflict_text(id@),
        StoreError::NothingToDelete => nothing_to_delete_text(),
    }
}

/// `prefix` followed by `s`.
fn prefixed(prefix: &str, s: &String) -> (r: String)
    ensures
        r@ == prefix@ + s@,
{
    let r = String::from_str(prefix);
    r.concat(s.as_str())
}

impl StoreError {
    /// The plain-text message of the error.
    pub fn message(&self) -> (r: String)
        ensures
            r@ == error_text(*self),
    {
        match self {
            StoreError::NotFound(id) => prefixed("ID not found: ", id),
            StoreError::Conflict(id) => prefixed("ID already exists: ", id),
            StoreError::NothingToDelete => String::from_str("No users to delete"),
        }
    }

    /// The reply that reports the error.
    pub fn to_reply(&self) -> (r: Reply)
        ensures
            is_text_reply(r, error_status(*self), error_text(*self)),
    {
        let status: u16 = match self {
            StoreError::NotFound(_) => 404,
            StoreError::Conflict(_) => 409,
            StoreError::NothingToDelete => 404,
        };
        Reply { status, body: Body::Text(self.message()) }
    }
}

/// The greeting page.
pub fn home() -> (r: Reply)
    ensures
        r.status == 200,
        r.body is Html,
        r.body->Html_0@ == home_text(),
{
    let mut page = String::from_str("Hello world! Check the repo here: <a href=\"");
    page.append(REPO);
    page.append("\" target=\"_blank\">");
    page.append(REPO);
    page.append("</a>");
    Reply { status: 200, body: Body::Html(page) }
}

/// Every record, in insertion order.
pub fn get_users(store: &Store) -> (r: Reply)
    ensures
        r.status == 200,
        r.body is JsonList,
        r.body->JsonList_0@.map_values(|u: User| u@) == store@,
{
    Reply { status: 200, body: Body::JsonList(store.list()) }
}

/// The first record that carries `id`, or 404 with "ID not found: {id}".
pub fn get_user(store: &Store, id: &String) -> (r: Reply)
    requires
        store.wf(),
    ensures
        match lookup(store@, id@) {
            Some(u) => is_user_reply(r, u),
            None => is_text_reply(r, 404, not_found_text(id@)),
        },
{
    match store.find(id) {
        Some(u) => Reply { status: 200, body: Body::Json(u) },
        None => StoreError::NotFound(id.clone()).to_reply(),
    }
}

/// Creates a record: 200 with the stored record, where a missing identifier
/// is replaced by a fresh random one; or 409 with "ID already exists: {id}"
/// where a record already carries the identifier.
pub fn post_user(store: &mut Store, user: User) -> (r: Reply)
    requires
        old(store).wf(),
    ensures
        final(store).wf(),
        ({
            let o = old(store)@;
            match user@.id {
                Some(k) => if has_id(o, k) {
                    &&& is_text_reply(r, 409, conflict_text(k))
                    &&& final(store)@ == o
                } else {
                    &&& is_user_reply(r, with_id(user@, k))
                    &&& final(store)@ == o.push(with_id(user@, k))
                },
                None => {
                    ||| {
                        &&& r.status == 200
                        &&& r.body is Json
                        &&& r.body->Json_0@.id is Some
                        &&& is_uuid_v4_text(r.body->Json_0@.id->Some_0)
                        &&& !has_id(o, r.body->Json_0@.id->Some_0)
                        &&& r.body->Json_0@ == with_id(user@, r.body->Json_0@.id->Some_0)
                        &&& final(store)@ == o.push(r.body->Json_0@)
                    }
                    ||| {
                        &&& r.status == 409
                        &&& exists|k: Seq<char>|
                            has_id(o, k) && is_uuid_v4_text(k) && is_text_reply(
                                r,
                                409,
                                #[trigger] conflict_text(k),
                            )
                        &&& final(store)@ == o
                    }
                },
            }
        }),
{
    let ghost given = user@;
    match store.insert(user) {
        Ok(u) => Reply { status: 200, body: Body::Json(u) },
        Err(e) => {
            let r = e.to_reply();
            proof {
                let k = e->Conflict_0@;
                if given.id is None {
                    assert(has_id(old(store)@, k) && is_uuid_v4_text(k) && is_text_reply(
                        r,
                        409,
                        conflict_text(k),
                    ));
                }
            }
            r
        },
    }
}

/// Replaces the first record that carries `id` with `user`, which keeps an
/// identifier of its own where it carries one, even one that differs from
/// `id`, and takes `id` otherwise: 200 with the stored record; 404 with
/// "ID not found: {id}" where no record carries `id`.
pub fn put_user(store: &mut Store, id: &String, user: User) -> (r: Reply)
    requires
        old(store).wf(),
    ensures
        final(store).wf(),
        ({
            let o = old(store)@;
            let new_id = match user@.id {
                Some(k) => k,
                None => id@,
            };
            if has_id(o, id@) {
                &&& crate::store::is_first_with(o, id@, crate::store::index_of(o, id@))
                &&& is_user_reply(r, with_id(user@, new_id))
                &&& final(store)@ == o.update(crate::store::index_of(o, id@), with_id(user@, new_id))
            } else {
                &&& is_text_reply(r, 404, not_found_text(id@))
                &&& final(store)@ == o
            }
        }),
{
    match store.replace(id, user) {
        Ok(u) => Reply { status: 200, body: Body::Json(u) },
        Err(e) => e.to_reply(),
    }
}

/// Deletes the first record that carries `id` (200, "ID deleted: {id}"); where none
/// does and `id` is `*`, deletes every record (200, "All users deleted"; 404,
/// "No users to delete" where there were none); otherwise 404 with
/// "ID not found: {id}".
pub fn delete_user(store: &mut Store, id: &String) -> (r: Reply)
    requires
        old(store).wf(),
    ensures
        final(store).wf(),
        ({
            let o = old(store)@;
            if has_id(o, id@) {
                &&& crate::store::is_first_with(o, id@, crate::store::index_of(o, id@))
                &&& is_text_reply(r, 200, deleted_text(id@))
                &&& final(store)@ == o.remove(crate::store::index_of(o, id@))
            } else if id@ == crate::store::wildcard() && o.len() > 0 {
                &&& is_text_reply(r, 200, all_deleted_text())
                &&& final(store)@ == Seq::<UserView>::empty()
            } else if id@ == crate::store::wildcard() {
                &&& is_text_reply(r, 404, nothing_to_delete_text())
                &&& final(store)@ == o
            } else {
                &&& is_text_reply(r, 404, not_found_text(id@))
                &&& final(store)@ == o
            }
        }),
{
    match store.delete(id) {
        Ok(Deleted::One(d)) => Reply { status: 200, body: Body::Text(prefixed("ID deleted: ", &d)) },
        Ok(Deleted::All) => Reply { status: 200, body: Body::Text(String::from_str("All users deleted")) },
        Err(e) => e.to_reply(),
    }
}

} // verus!
