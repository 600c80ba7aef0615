use user_service::handlers::{
    begin, step, Action, Event, Fault, Payload, Rejection, Reply, Request, Stage,
};
use user_service::model::{PartialUser, User};
use user_service::validate::ChangeError;

/// A store and cache kept in memory, answering the actions of a request.
struct Backend {
    rows: Vec<User>,
    cached: Vec<User>,
    list: Option<Vec<User>>,
    log: Vec<&'static str>,
}

impl Backend {
    fn new() -> Backend {
        Backend { rows: Vec::new(), cached: Vec::new(), list: None, log: Vec::new() }
    }

    fn answer(&mut self, action: Action) -> Result<Event, Reply> {
        match action {
            Action::Respond { reply } => Err(reply),
            Action::ReadCachedUser { id } => {
                self.log.push("cache-get");
                Ok(Event::CachedUser(self.cached.iter().find(|u| u.id == Some(id)).cloned()))
            }
            Action::ReadCachedList => {
                self.log.push("cache-get-list");
                Ok(Event::CachedList(self.list.clone()))
            }
            Action::WriteCachedUser { user } => {
                self.log.push("cache-set");
                self.cached.retain(|u| u.id != user.id);
                self.cached.push(user);
                Ok(Event::Cached)
            }
            Action::WriteCachedList { users } => {
                self.log.push("cache-set-list");
                self.list = Some(users);
                Ok(Event::Cached)
            }
            Action::DropCachedUser { id } => {
                self.log.push("cache-del");
                self.cached.retain(|u| u.id != Some(id));
                Ok(Event::Cached)
            }
            Action::ReadAll => {
                self.log.push("store-all");
                Ok(Event::AllUsers(Ok(self.rows.clone())))
            }
            Action::ReadById { id } => {
                self.log.push("store-get");
                Ok(Event::Lookup(Ok(self.rows.iter().find(|u| u.id == Some(id)).cloned())))
            }
            Action::ReadByEmail { email } => {
                self.log.push("store-get-email");
                Ok(Event::Lookup(Ok(self.rows.iter().find(|u| u.email == email).cloned())))
            }
            Action::Insert { user } => {
                self.log.push("store-insert");
                self.rows.push(user);
                Ok(Event::Written(Ok(())))
            }
            Action::Update { id, changes } => {
                self.log.push("store-update");
                for u in self.rows.iter_mut() {
                    if u.id == Some(id) {
                        if let Some(n) = &changes.name {
                            u.name = n.clone();
                        }
                        if let Some(e) = &changes.email {
                            u.email = e.clone();
                        }
                    }
                }
                Ok(Event::Written(Ok(())))
            }
            Action::Remove { id } => {
                self.log.push("store-delete");
                self.rows.retain(|u| u.id != Some(id));
                Ok(Event::Written(Ok(())))
            }
        }
    }

    fn serve(&mut self, request: Request, fresh_id: u128) -> Reply {
        let (mut stage, mut action) = begin(request, fresh_id);
        loop {
            match self.answer(action) {
                Err(reply) => return reply,
                Ok(event) => {
                    let (s, a) = step(stage, event);
                    stage = s;
                    action = a;
                }
            }
        }
    }
}

const ANN_ID: u128 = 0x67e5_5044_10b1_426f_9247_bb68_0e5f_e0c8;
const ANN_ID_TEXT: &str = "67e55044-10b1-426f-9247-bb680e5fe0c8";
const OTHER_ID_TEXT: &str = "a1a2a3a4-b1b2-c1c2-d1d2-d3d4d5d6d7d8";

fn user(name: &str, email: &str) -> User {
    User { id: None, name: name.to_string(), email: email.to_string() }
}

fn stored(id: u128, name: &str, email: &str) -> User {
    User { id: Some(id), name: name.to_string(), email: email.to_string() }
}

#[test]
fn ann_lifecycle() {
    let mut b = Backend::new();
    let created = b.serve(Request::AddUser { user: Some(user("Ann", "ann@x.com")) }, ANN_ID);
    assert_eq!(created, Reply::Success(Payload::Created(stored(ANN_ID, "Ann", "ann@x.com"))));
    assert_eq!(created.status(), 200);

    let fetched = b.serve(Request::FetchUser { id: ANN_ID_TEXT.to_string() }, 0);
    assert_eq!(fetched, Reply::Success(Payload::One(stored(ANN_ID, "Ann", "ann@x.com"))));

    let bad = b.serve(
        Request::UpdateUser {
            id: ANN_ID_TEXT.to_string(),
            body: Some(PartialUser { name: None, email: Some("not-an-email".to_string()) }),
        },
        0,
    );
    assert_eq!(bad, Reply::Invalid(Rejection::Change(ChangeError::BadEmail)));
    assert_eq!(bad.status(), 400);
    assert_eq!(b.rows, vec![stored(ANN_ID, "Ann", "ann@x.com")]);

    let deleted = b.serve(Request::DeleteUser { id: ANN_ID_TEXT.to_string() }, 0);
    assert_eq!(deleted, Reply::Success(Payload::Deleted(ANN_ID)));
    assert_eq!(deleted.status(), 200);

    let gone = b.serve(Request::FetchUser { id: ANN_ID_TEXT.to_string() }, 0);
    assert_eq!(gone, Reply::Missing);
    assert_eq!(gone.status(), 404);
}

#[test]
fn fetch_unknown_id_is_not_found() {
    let mut b = Backend::new();
    let r = b.serve(Request::FetchUser { id: OTHER_ID_TEXT.to_string() }, 0);
    assert_eq!(r, Reply::Missing);
    let r = b.serve(Request::FetchUser { id: "not-a-uuid".to_string() }, 0);
    assert_eq!(r, Reply::Missing);
    assert_eq!(r.status(), 404);
}

#[test]
fn duplicate_email_is_rejected() {
    let mut b = Backend::new();
    b.serve(Request::AddUser { user: Some(user("Ann", "ann@x.com")) }, 1);
    let r = b.serve(Request::AddUser { user: Some(user("Other Ann", "ann@x.com")) }, 2);
    assert_eq!(r, Reply::Invalid(Rejection::DuplicateEmail));
    assert_eq!(r.status(), 400);
    assert_eq!(b.rows.len(), 1);
}

#[test]
fn malformed_create_body_is_rejected() {
    let mut b = Backend::new();
    let r = b.serve(Request::AddUser { user: None }, 1);
    assert_eq!(r, Reply::Invalid(Rejection::MalformedBody));
    assert!(b.log.is_empty());
}

#[test]
fn delete_unknown_id_is_not_found() {
    let mut b = Backend::new();
    b.serve(Request::AddUser { user: Some(user("Ann", "ann@x.com")) }, ANN_ID);
    let r = b.serve(Request::DeleteUser { id: OTHER_ID_TEXT.to_string() }, 0);
    assert_eq!(r, Reply::Missing);
    assert_eq!(b.rows.len(), 1);
}

#[test]
fn empty_update_is_refused_and_changes_nothing() {
    let mut b = Backend::new();
    b.serve(Request::AddUser { user: Some(user("Ann", "ann@x.com")) }, ANN_ID);
    let r = b.serve(
        Request::UpdateUser {
            id: ANN_ID_TEXT.to_string(),
            body: Some(PartialUser { name: None, email: None }),
        },
        0,
    );
    assert_eq!(r, Reply::Invalid(Rejection::Change(ChangeError::NoChanges)));
    assert_eq!(b.rows, vec![stored(ANN_ID, "Ann", "ann@x.com")]);
}

#[test]
fn blank_name_update_is_refused() {
    let mut b = Backend::new();
    b.serve(Request::AddUser { user: Some(user("Ann", "ann@x.com")) }, ANN_ID);
    let r = b.serve(
        Request::UpdateUser {
            id: ANN_ID_TEXT.to_string(),
            body: Some(PartialUser { name: Some("  \t".to_string()), email: None }),
        },
        0,
    );
    assert_eq!(r, Reply::Invalid(Rejection::Change(ChangeError::BlankName)));
}

#[test]
fn update_of_unknown_id_is_not_found_before_body_checks() {
    let mut b = Backend::new();
    let r = b.serve(Request::UpdateUser { id: OTHER_ID_TEXT.to_string(), body: None }, 0);
    assert_eq!(r, Reply::Missing);
}

#[test]
fn update_changes_fields_and_refreshes_caches() {
    let mut b = Backend::new();
    b.serve(Request::AddUser { user: Some(user("Ann", "ann@x.com")) }, ANN_ID);
    let r = b.serve(
        Request::UpdateUser {
            id: ANN_ID_TEXT.to_string(),
            body: Some(PartialUser { name: Some("Anna".to_string()), email: None }),
        },
        0,
    );
    let anna = stored(ANN_ID, "Anna", "ann@x.com");
    assert_eq!(r, Reply::Success(Payload::One(anna.clone())));
    assert_eq!(b.cached, vec![anna.clone()]);
    assert_eq!(b.list, Some(vec![anna]));
}

#[test]
fn list_after_changes_is_current() {
    let mut b = Backend::new();
    b.serve(Request::AddUser { user: Some(user("Ann", "ann@x.com")) }, 1);
    b.serve(Request::AddUser { user: Some(user("Bob", "bob@x.com")) }, 2);
    let both = vec![stored(1, "Ann", "ann@x.com"), stored(2, "Bob", "bob@x.com")];
    assert_eq!(b.serve(Request::ListUsers, 0), Reply::Success(Payload::Many(both)));
    b.serve(Request::DeleteUser { id: "00000000-0000-0000-0000-000000000001".to_string() }, 0);
    let bob = vec![stored(2, "Bob", "bob@x.com")];
    b.log.clear();
    assert_eq!(b.serve(Request::ListUsers, 0), Reply::Success(Payload::Many(bob)));
    assert_eq!(b.log, vec!["cache-get-list"]);
}

#[test]
fn empty_list_cache_reads_the_store() {
    let mut b = Backend::new();
    b.list = Some(Vec::new());
    let r = b.serve(Request::ListUsers, 0);
    assert_eq!(r, Reply::Success(Payload::Many(Vec::new())));
    assert_eq!(b.log, vec!["cache-get-list", "store-all", "cache-set-list"]);
}

#[test]
fn fetch_hit_is_served_from_cache() {
    let mut b = Backend::new();
    b.cached.push(stored(ANN_ID, "Ann", "ann@x.com"));
    let r = b.serve(Request::FetchUser { id: ANN_ID_TEXT.to_string() }, 0);
    assert_eq!(r, Reply::Success(Payload::One(stored(ANN_ID, "Ann", "ann@x.com"))));
    assert_eq!(b.log, vec!["cache-get"]);
}

#[test]
fn fetch_miss_fills_the_cache() {
    let mut b = Backend::new();
    b.rows.push(stored(ANN_ID, "Ann", "ann@x.com"));
    b.serve(Request::FetchUser { id: ANN_ID_TEXT.to_string() }, 0);
    assert_eq!(b.cached, vec![stored(ANN_ID, "Ann", "ann@x.com")]);
    assert_eq!(b.log, vec!["cache-get", "store-get", "cache-set"]);
}

#[test]
fn backend_error_is_a_server_failure() {
    let (stage, _) = begin(Request::FetchUser { id: ANN_ID_TEXT.to_string() }, 0);
    let (stage, action) = step(stage, Event::CachedUser(None));
    assert_eq!(action, Action::ReadById { id: ANN_ID });
    let (stage, action) = step(stage, Event::Lookup(Err("timeout".to_string())));
    assert_eq!(stage, Stage::Finished);
    let reply = Reply::Failure(Fault::Backend("timeout".to_string()));
    assert_eq!(reply.status(), 500);
    assert_eq!(action, Action::Respond { reply });
}

#[test]
fn unexpected_event_is_a_sequence_fault() {
    let (stage, _) = begin(Request::ListUsers, 0);
    let (_, action) = step(stage, Event::Cached);
    assert_eq!(action, Action::Respond { reply: Reply::Failure(Fault::Sequence) });
}

#[test]
fn failed_reread_after_update_still_succeeds() {
    let stage = Stage::UpdateRereading { id: 7 };
    let (_, action) = step(stage, Event::Lookup(Err("gone".to_string())));
    assert_eq!(action, Action::Respond { reply: Reply::Success(Payload::Updated(7)) });
}

#[test]
fn create_assigns_the_new_id_and_checks_email() {
    let (stage, action) = begin(Request::AddUser { user: Some(stored(5, "Ann", "ann@x.com")) }, 9);
    assert_eq!(stage, Stage::AddChecking { user: stored(9, "Ann", "ann@x.com") });
    assert_eq!(action, Action::ReadByEmail { email: "ann@x.com".to_string() });
}

#[test]
fn started_create_gets_a_version_four_id() {
    let (stage, _) = user_service::handlers::start(Request::AddUser { user: Some(user("Ann", "ann@x.com")) });
    match stage {
        Stage::AddChecking { user } => {
            let id = user.id.unwrap();
            assert_eq!((id >> 76) & 0xf, 4);
            assert_eq!((id >> 62) & 0x3, 2);
        }
        other => panic!("unexpected stage {:?}", other),
    }
}
