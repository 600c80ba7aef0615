use vstd::prelude::*;
use crate::handlers::{next, opening, Action, Event, Request, Reply, Stage};
use crate::model::{PartialUser, User};

verus! {

/// The store's contents, by id.
pub type Rows = Map<u128, User>;

/// The cache's contents: single users by id, and the list entry.
pub struct CacheState {
    pub users: Map<u128, User>,
    pub list: Option<Seq<User>>,
}

/// Every stored user carries the id it is stored under.
pub open spec fn rows_valid(db: Rows) -> bool {
    forall|k: u128| #[trigger] db.contains_key(k) ==> db[k].id == Some(k)
}

/// `users` lists the store's contents: each stored user once, nothing else.
pub open spec fn lists(users: Seq<User>, db: Rows) -> bool {
    &&& forall|i: int| 0 <= i < users.len() ==> {
        &&& (#[trigger] users[i]).id.is_some()
        &&& db.contains_key(users[i].id.unwrap())
        &&& db[users[i].id.unwrap()] == users[i]
    }
    &&& forall|i: int, j: int| 0 <= i < j < users.len() ==> (#[trigger] users[i]).id != (#[trigger] users[j]).id
    &&& forall|k: u128| #[trigger] db.contains_key(k) ==> exists|i: int| 0 <= i < users.len() && (#[trigger] users[i]).id == Some(k)
}

/// The cache holds nothing that the store does not.
pub open spec fn coherent(db: Rows, cache: CacheState) -> bool {
    &&& forall|k: u128| #[trigger] cache.users.contains_key(k) ==> db.contains_key(k) && cache.users[k] == db[k]
    &&& cache.list.is_some() ==> lists(cache.list.unwrap(), db)
}

/// Some stored user has this email.
pub open spec fn email_taken(db: Rows, email: Seq<char>) -> bool {
    exists|k: u128| #[trigger] db.contains_key(k) && db[k].email@ == email
}

/// The stored user with this id, if any.
pub open spec fn row(db: Rows, id: u128) -> Option<User> {
    if db.contains_key(id) { Some(db[id]) } else { None }
}

/// A user with the given fields of an update replaced.
pub open spec fn patched(u: User, changes: PartialUser) -> User {
    User {
        id: u.id,
        name: match changes.name { Some(n) => n, None => u.name },
        email: match changes.email { Some(e) => e, None => u.email },
    }
}

/// What the store holds after an action.
pub open spec fn rows_after(db: Rows, action: Action) -> Rows {
    match action {
        Action::Insert { user } => match user.id {
            Some(k) => db.insert(k, user),
            None => db,
        },
        Action::Update { id, changes } => if db.contains_key(id) {
            db.insert(id, patched(db[id], changes))
        } else {
            db
        },
        Action::Remove { id } => db.remove(id),
        _ => db,
    }
}

/// What the cache holds after an action.
pub open spec fn cache_after(cache: CacheState, action: Action) -> CacheState {
    match action {
        Action::WriteCachedUser { user } => match user.id {
            Some(k) => CacheState { users: cache.users.insert(k, user), list: cache.list },
            None => cache,
        },
        Action::WriteCachedList { users } => CacheState { users: cache.users, list: Some(users@) },
        Action::DropCachedUser { id } => CacheState { users: cache.users.remove(id), list: cache.list },
        _ => cache,
    }
}

/// `event` is an answer that a working store and cache may give to `action`.
/// A cache read may miss although the entry is there (an entry that does not
/// deserialize counts as a miss).
pub open spec fn answers(db: Rows, cache: CacheState, action: Action, event: Event) -> bool {
    match action {
        Action::ReadCachedUser { id } => match event {
            Event::CachedUser(Some(u)) => cache.users.contains_key(id) && cache.users[id] == u,
            Event::CachedUser(None) => true,
            _ => false,
        },
        Action::ReadCachedList => match event {
            Event::CachedList(Some(v)) => cache.list == Some(v@),
            Event::CachedList(None) => true,
            _ => false,
        },
        Action::WriteCachedUser { .. } => event == Event::Cached,
        Action::WriteCachedList { .. } => event == Event::Cached,
        Action::DropCachedUser { .. } => event == Event::Cached,
        Action::ReadAll => match event {
            Event::AllUsers(Ok(v)) => lists(v@, db),
            _ => false,
        },
        Action::ReadById { id } => event == Event::Lookup(Ok(row(db, id))),
        Action::ReadByEmail { email } => match event {
            Event::Lookup(Ok(None)) => !email_taken(db, email@),
            Event::Lookup(Ok(Some(u))) => u.id.is_some() && db.contains_key(u.id.unwrap())
                && db[u.id.unwrap()] == u && u.email@ == email@,
            _ => false,
        },
        Action::Insert { .. } => event == Event::Written(Ok(())),
        Action::Update { .. } => event == Event::Written(Ok(())),
        Action::Remove { .. } => event == Event::Written(Ok(())),
        Action::Respond { .. } => false,
    }
}

/// Run from `stage` and `action` on a working store and cache, the answers
/// `events` lead to `reply`, leaving the store as `db_end` and the cache as
/// `cache_end`.
pub open spec fn completes(
    stage: Stage,
    action: Action,
    db: Rows,
    cache: CacheState,
    events: Seq<Event>,
    reply: Reply,
    db_end: Rows,
    cache_end: CacheState,
) -> bool
    decreases events.len(),
{
    if events.len() == 0 {
        action == Action::Respond { reply } && db_end == db && cache_end == cache
    } else {
        answers(db, cache, action, events[0]) && completes(
            next(stage, events[0]).0,
            next(stage, events[0]).1,
            rows_after(db, action),
            cache_after(cache, action),
            events.drop_first(),
            reply,
            db_end,
            cache_end,
        )
    }
}

/// A whole request, served on a working store and cache.
pub open spec fn serves(
    request: Request,
    fresh_id: u128,
    db: Rows,
    cache: CacheState,
    events: Seq<Event>,
    reply: Reply,
    db_end: Rows,
    cache_end: CacheState,
) -> bool {
    completes(
        opening(request, fresh_id).0,
        opening(request, fresh_id).1,
        db,
        cache,
        events,
        reply,
        db_end,
        cache_end,
    )
}

} // verus!
