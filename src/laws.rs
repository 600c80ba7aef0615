use vstd::prelude::*;
use crate::handlers::{Event, with_id, changes_verdict, Payload, Rejection, Reply, Request};
use crate::ids::uuid_parse;
use crate::model::{PartialUser, User};
use crate::model_backend::{
    coherent, completes, email_taken, lists, patched, rows_valid, serves, CacheState, Rows,
};
use crate::validate::ChangeError;

verus! {

/// A list request on a coherent cache replies with a list of the stored users.
pub proof fn lemma_list(
    fresh_id: u128,
    db: Rows,
    cache: CacheState,
    events: Seq<Event>,
    reply: Reply,
    db_end: Rows,
    cache_end: CacheState,
)
    requires
        rows_valid(db),
        coherent(db, cache),
        serves(Request::ListUsers, fresh_id, db, cache, events, reply, db_end, cache_end),
    ensures
        reply matches Reply::Success(Payload::Many(v)) && lists(v@, db),
        db_end == db,
        coherent(db_end, cache_end),
{
    reveal_with_fuel(completes, 4);
}

/// A fetch on a coherent cache replies with the stored user, or 404 where
/// there is none; it changes nothing in the store.
pub proof fn lemma_fetch(
    path: String,
    fresh_id: u128,
    db: Rows,
    cache: CacheState,
    events: Seq<Event>,
    reply: Reply,
    db_end: Rows,
    cache_end: CacheState,
)
    requires
        rows_valid(db),
        coherent(db, cache),
        serves(Request::FetchUser { id: path }, fresh_id, db, cache, events, reply, db_end, cache_end),
    ensures
        reply == (match uuid_parse(path@) {
            Some(k) => if db.contains_key(k) {
                Reply::Success(Payload::One(db[k]))
            } else {
                Reply::Missing
            },
            None => Reply::Missing,
        }),
        db_end == db,
        coherent(db_end, cache_end),
{
    reveal_with_fuel(completes, 4);
}

/// A create request: refused for a malformed body or an email in use, and
/// otherwise stored under the new id, with the list entry of the cache
/// refreshed.
pub proof fn lemma_add(
    body: Option<User>,
    fresh_id: u128,
    db: Rows,
    cache: CacheState,
    events: Seq<Event>,
    reply: Reply,
    db_end: Rows,
    cache_end: CacheState,
)
    requires
        rows_valid(db),
        coherent(db, cache),
        !db.contains_key(fresh_id),
        serves(Request::AddUser { user: body }, fresh_id, db, cache, events, reply, db_end, cache_end),
    ensures
        rows_valid(db_end),
        coherent(db_end, cache_end),
        body.is_none() ==> reply == Reply::Invalid(Rejection::MalformedBody) && db_end == db,
        body.is_some() && email_taken(db, body.unwrap().email@) ==> reply == Reply::Invalid(
            Rejection::DuplicateEmail,
        ) && db_end == db,
        body.is_some() && !email_taken(db, body.unwrap().email@) ==> {
            &&& reply == Reply::Success(Payload::Created(with_id(body.unwrap(), fresh_id)))
            &&& db_end == db.insert(fresh_id, with_id(body.unwrap(), fresh_id))
            &&& cache_end.list.is_some()
        },
{
    reveal_with_fuel(completes, 6);
}

/// A delete request: 404 where no user has the id, and otherwise the user is
/// removed, its cache entry dropped and the list entry refreshed.
pub proof fn lemma_delete(
    path: String,
    fresh_id: u128,
    db: Rows,
    cache: CacheState,
    events: Seq<Event>,
    reply: Reply,
    db_end: Rows,
    cache_end: CacheState,
)
    requires
        rows_valid(db),
        coherent(db, cache),
        serves(Request::DeleteUser { id: path }, fresh_id, db, cache, events, reply, db_end, cache_end),
    ensures
        rows_valid(db_end),
        coherent(db_end, cache_end),
        match uuid_parse(path@) {
            Some(k) => if db.contains_key(k) {
                &&& reply == Reply::Success(Payload::Deleted(k))
                &&& db_end == db.remove(k)
                &&& cache_end.list.is_some()
            } else {
                reply == Reply::Missing && db_end == db
            },
            None => reply == Reply::Missing && db_end == db,
        },
{
    reveal_with_fuel(completes, 7);
}

/// An update request: 404 where no user has the id, 400 for a malformed body
/// or fields that fail validation, and otherwise the fields are changed, the
/// user read back, and both cache entries refreshed.
pub proof fn lemma_update(
    path: String,
    body: Option<PartialUser>,
    fresh_id: u128,
    db: Rows,
    cache: CacheState,
    events: Seq<Event>,
    reply: Reply,
    db_end: Rows,
    cache_end: CacheState,
)
    requires
        rows_valid(db),
        coherent(db, cache),
        serves(Request::UpdateUser { id: path, body }, fresh_id, db, cache, events, reply, db_end, cache_end),
    ensures
        rows_valid(db_end),
        coherent(db_end, cache_end),
        match uuid_parse(path@) {
            Some(k) => if !db.contains_key(k) {
                reply == Reply::Missing && db_end == db
            } else {
                match body {
                    None => reply == Reply::Invalid(Rejection::MalformedBody) && db_end == db,
                    Some(changes) => match changes_verdict(changes) {
                        Err(ce) => reply == Reply::Invalid(Rejection::Change(ce)) && db_end == db,
                        Ok(()) => {
                            &&& reply == Reply::Success(Payload::One(patched(db[k], changes)))
                            &&& db_end == db.insert(k, patched(db[k], changes))
                            &&& cache_end.list.is_some()
                        },
                    },
                }
            },
            None => reply == Reply::Missing && db_end == db,
        },
{
    reveal_with_fuel(completes, 8);
}

/// A user created and then fetched by its new id comes back as it was stored:
/// the body's name and email under that id.
pub proof fn added_user_is_fetched(
    user: User,
    fresh_id: u128,
    path: String,
    db: Rows,
    cache: CacheState,
    add_events: Seq<Event>,
    add_reply: Reply,
    db_added: Rows,
    cache_added: CacheState,
    other_id: u128,
    fetch_events: Seq<Event>,
    fetch_reply: Reply,
    db_end: Rows,
    cache_end: CacheState,
)
    requires
        rows_valid(db),
        coherent(db, cache),
        !db.contains_key(fresh_id),
        !email_taken(db, user.email@),
        serves(Request::AddUser { user: Some(user) }, fresh_id, db, cache, add_events, add_reply, db_added, cache_added),
        uuid_parse(path@) == Some(fresh_id),
        serves(Request::FetchUser { id: path }, other_id, db_added, cache_added, fetch_events, fetch_reply, db_end, cache_end),
    ensures
        add_reply == Reply::Success(Payload::Created(with_id(user, fresh_id))),
        fetch_reply == Reply::Success(Payload::One(with_id(user, fresh_id))),
{
    lemma_add(Some(user), fresh_id, db, cache, add_events, add_reply, db_added, cache_added);
    lemma_fetch(path, other_id, db_added, cache_added, fetch_events, fetch_reply, db_end, cache_end);
}

/// Fetching an id that no stored user has, or a text that is no id, replies
/// 404 and never 500.
pub proof fn fetch_missing_is_not_found(
    path: String,
    fresh_id: u128,
    db: Rows,
    cache: CacheState,
    events: Seq<Event>,
    reply: Reply,
    db_end: Rows,
    cache_end: CacheState,
)
    requires
        rows_valid(db),
        coherent(db, cache),
        uuid_parse(path@) matches Some(k) ==> !db.contains_key(k),
        serves(Request::FetchUser { id: path }, fresh_id, db, cache, events, reply, db_end, cache_end),
    ensures
        reply == Reply::Missing,
        reply.status_spec() == 404,
{
    lemma_fetch(path, fresh_id, db, cache, events, reply, db_end, cache_end);
}

/// Of two create requests in a row with the same email, the second is refused
/// with 400.
pub proof fn same_email_twice_is_rejected(
    first: User,
    second: User,
    first_id: u128,
    second_id: u128,
    db: Rows,
    cache: CacheState,
    events1: Seq<Event>,
    reply1: Reply,
    db1: Rows,
    cache1: CacheState,
    events2: Seq<Event>,
    reply2: Reply,
    db2: Rows,
    cache2: CacheState,
)
    requires
        rows_valid(db),
        coherent(db, cache),
        !db.contains_key(first_id),
        first_id != second_id && !db.contains_key(second_id),
        second.email@ == first.email@,
        serves(Request::AddUser { user: Some(first) }, first_id, db, cache, events1, reply1, db1, cache1),
        serves(Request::AddUser { user: Some(second) }, second_id, db1, cache1, events2, reply2, db2, cache2),
    ensures
        reply2 == Reply::Invalid(Rejection::DuplicateEmail),
        reply2.status_spec() == 400,
        db2 == db1,
{
    lemma_add(Some(first), first_id, db, cache, events1, reply1, db1, cache1);
    if email_taken(db, first.email@) {
        let k = choose|k: u128| #[trigger] db.contains_key(k) && db[k].email@ == first.email@;
        assert(db1.contains_key(k) && db1[k].email@ == second.email@);
    } else {
        assert(db1.contains_key(first_id) && db1[first_id].email@ == second.email@);
    }
    assert(email_taken(db1, second.email@));
    lemma_add(Some(second), second_id, db1, cache1, events2, reply2, db2, cache2);
}

/// Deleting an id that no stored user has replies 404 and changes nothing.
pub proof fn delete_missing_is_not_found(
    path: String,
    fresh_id: u128,
    db: Rows,
    cache: CacheState,
    events: Seq<Event>,
    reply: Reply,
    db_end: Rows,
    cache_end: CacheState,
)
    requires
        rows_valid(db),
        coherent(db, cache),
        uuid_parse(path@) matches Some(k) ==> !db.contains_key(k),
        serves(Request::DeleteUser { id: path }, fresh_id, db, cache, events, reply, db_end, cache_end),
    ensures
        reply == Reply::Missing,
        db_end == db,
{
    lemma_delete(path, fresh_id, db, cache, events, reply, db_end, cache_end);
}

/// A user deleted and then fetched by the same id is not found.
pub proof fn deleted_user_is_not_found(
    path: String,
    fresh_id: u128,
    db: Rows,
    cache: CacheState,
    delete_events: Seq<Event>,
    delete_reply: Reply,
    db_deleted: Rows,
    cache_deleted: CacheState,
    fetch_events: Seq<Event>,
    fetch_reply: Reply,
    db_end: Rows,
    cache_end: CacheState,
)
    requires
        rows_valid(db),
        coherent(db, cache),
        serves(Request::DeleteUser { id: path }, fresh_id, db, cache, delete_events, delete_reply, db_deleted, cache_deleted),
        serves(Request::FetchUser { id: path }, fresh_id, db_deleted, cache_deleted, fetch_events, fetch_reply, db_end, cache_end),
    ensures
        fetch_reply == Reply::Missing,
{
    lemma_delete(path, fresh_id, db, cache, delete_events, delete_reply, db_deleted, cache_deleted);
    lemma_fetch(path, fresh_id, db_deleted, cache_deleted, fetch_events, fetch_reply, db_end, cache_end);
}

/// An update that gives no field is refused: 400 where the user exists, 404
/// where it does not, and the store is left as it was.
pub proof fn empty_update_is_rejected(
    path: String,
    fresh_id: u128,
    db: Rows,
    cache: CacheState,
    events: Seq<Event>,
    reply: Reply,
    db_end: Rows,
    cache_end: CacheState,
)
    requires
        rows_valid(db),
        coherent(db, cache),
        serves(
            Request::UpdateUser { id: path, body: Some(PartialUser { name: None, email: None }) },
            fresh_id,
            db,
            cache,
            events,
            reply,
            db_end,
            cache_end,
        ),
    ensures
        db_end == db,
        reply == Reply::Invalid(Rejection::Change(ChangeError::NoChanges)) || reply == Reply::Missing,
        (uuid_parse(path@) matches Some(k) && db.contains_key(k)) ==> reply.status_spec() == 400,
{
    lemma_update(
        path,
        Some(PartialUser { name: None, email: None }),
        fresh_id,
        db,
        cache,
        events,
        reply,
        db_end,
        cache_end,
    );
}

/// After a create, delete or update, whatever its outcome, a list request
/// replies with exactly the users then stored: the list entry of the cache is
/// never stale.
pub proof fn list_after_change_is_current(
    change: Request,
    fresh_id: u128,
    db: Rows,
    cache: CacheState,
    events: Seq<Event>,
    reply: Reply,
    db_changed: Rows,
    cache_changed: CacheState,
    list_events: Seq<Event>,
    list_reply: Reply,
    db_end: Rows,
    cache_end: CacheState,
)
    requires
        rows_valid(db),
        coherent(db, cache),
        !db.contains_key(fresh_id),
        !(change is ListUsers) && !(change is FetchUser),
        serves(change, fresh_id, db, cache, events, reply, db_changed, cache_changed),
        serves(Request::ListUsers, fresh_id, db_changed, cache_changed, list_events, list_reply, db_end, cache_end),
    ensures
        list_reply matches Reply::Success(Payload::Many(v)) && lists(v@, db_changed),
{
    match change {
        Request::AddUser { user } => {
            lemma_add(user, fresh_id, db, cache, events, reply, db_changed, cache_changed);
        },
        Request::DeleteUser { id } => {
            lemma_delete(id, fresh_id, db, cache, events, reply, db_changed, cache_changed);
        },
        Request::UpdateUser { id, body } => {
            lemma_update(id, body, fresh_id, db, cache, events, reply, db_changed, cache_changed);
        },
        _ => {},
    }
    lemma_list(fresh_id, db_changed, cache_changed, list_events, list_reply, db_end, cache_end);
}

/// Every request, whatever its outcome, leaves the cache holding only what the
/// store holds: single entries equal to the stored users, and a list entry
/// that lists the store.
pub proof fn requests_keep_cache_coherent(
    request: Request,
    fresh_id: u128,
    db: Rows,
    cache: CacheState,
    events: Seq<Event>,
    reply: Reply,
    db_end: Rows,
    cache_end: CacheState,
)
    requires
        rows_valid(db),
        coherent(db, cache),
        !db.contains_key(fresh_id),
        serves(request, fresh_id, db, cache, events, reply, db_end, cache_end),
    ensures
        rows_valid(db_end),
        coherent(db_end, cache_end),
{
    match request {
        Request::ListUsers => {
            lemma_list(fresh_id, db, cache, events, reply, db_end, cache_end);
        },
        Request::FetchUser { id } => {
            lemma_fetch(id, fresh_id, db, cache, events, reply, db_end, cache_end);
        },
        Request::AddUser { user } => {
            lemma_add(user, fresh_id, db, cache, events, reply, db_end, cache_end);
        },
        Request::DeleteUser { id } => {
            lemma_delete(id, fresh_id, db, cache, events, reply, db_end, cache_end);
        },
        Request::UpdateUser { id, body } => {
            lemma_update(id, body, fresh_id, db, cache, events, reply, db_end, cache_end);
        },
    }
}

} // verus!
