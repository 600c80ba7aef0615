use vstd::prelude::*;
use crate::ids::{fresh_user_id, parse_user_id, uuid_parse};
use crate::model::{copy_user, copy_users, PartialUser, User};
use crate::validate::{blank, change_verdict, validate_changes, well_formed_email, ChangeError};

verus! {

/// A request, as it arrives: ids are the text of the path, and a body is
/// `None` where it did not deserialize.
#[derive(Debug, PartialEq, Eq)]
pub enum Request {
    ListUsers,
    FetchUser { id: String },
    AddUser { user: Option<User> },
    DeleteUser { id: String },
    UpdateUser { id: String, body: Option<PartialUser> },
}

/// Why a request was refused as invalid (status 400).
#[derive(Debug, PartialEq, Eq)]
pub enum Rejection {
    MalformedBody,
    DuplicateEmail,
    Change(ChangeError),
}

/// Why a request failed on the server side (status 500).
#[derive(Debug, PartialEq, Eq)]
pub enum Fault {
    /// The store or the cache reported an error.
    Backend(String),
    /// An answer came that the request was not waiting for.
    Sequence,
}

/// What a successful request sends back.
#[derive(Debug, PartialEq, Eq)]
pub enum Payload {
    One(User),
    Many(Vec<User>),
    Created(User),
    Deleted(u128),
    /// The update was applied, but the user could not be read back.
    Updated(u128),
}

/// The terminal outcome of a request.
#[derive(Debug, PartialEq, Eq)]
pub enum Reply {
    Success(Payload),
    Invalid(Rejection),
    Missing,
    Failure(Fault),
}

/// What the request asks of the store or cache next, or its reply.
#[derive(Debug, PartialEq, Eq)]
pub enum Action {
    ReadCachedUser { id: u128 },
    ReadCachedList,
    WriteCachedUser { user: User },
    WriteCachedList { users: Vec<User> },
    DropCachedUser { id: u128 },
    ReadAll,
    ReadById { id: u128 },
    ReadByEmail { email: String },
    Insert { user: User },
    Update { id: u128, changes: PartialUser },
    Remove { id: u128 },
    Respond { reply: Reply },
}

/// What the store or cache answered to the last action.
#[derive(Debug, PartialEq, Eq)]
pub enum Event {
    /// The cached entry of one user, if there was a readable one.
    CachedUser(Option<User>),
    /// The cached list, if there was a readable one.
    CachedList(Option<Vec<User>>),
    /// A cache write or removal finished.
    Cached,
    /// Every stored user.
    AllUsers(Result<Vec<User>, String>),
    /// The stored user found by id or email.
    Lookup(Result<Option<User>, String>),
    /// A store write or removal finished.
    Written(Result<(), String>),
}

/// Where a request stands, between two actions.
#[derive(Debug, PartialEq, Eq)]
pub enum Stage {
    ListFromCache,
    ListFromStore,
    ListCaching { users: Vec<User> },
    FetchFromCache { id: u128 },
    FetchFromStore { id: u128 },
    FetchCaching { user: User },
    AddChecking { user: User },
    AddInserting { user: User },
    AddReloading { user: User },
    AddCaching { user: User },
    DeleteChecking { id: u128 },
    DeleteRemoving { id: u128 },
    DeleteDropping { id: u128 },
    DeleteReloading { id: u128 },
    DeleteCaching { id: u128 },
    UpdateChecking { id: u128, body: Option<PartialUser> },
    UpdateApplying { id: u128 },
    UpdateRereading { id: u128 },
    UpdateCachingOne { id: u128, user: User },
    UpdateReloading { id: u128, user: User },
    UpdateCachingAll { id: u128, user: User },
    Finished,
}

impl Reply {
    /// The HTTP status of the reply.
    pub open spec fn status_spec(&self) -> u16 {
        match self {
            Reply::Success(_) => 200,
            Reply::Invalid(_) => 400,
            Reply::Missing => 404,
            Reply::Failure(_) => 500,
        }
    }

    /// The HTTP status of the reply.
    pub fn status(&self) -> (r: u16)
        ensures
            r == self.status_spec(),
    {
        match self {
            Reply::Success(_) => 200,
            Reply::Invalid(_) => 400,
            Reply::Missing => 404,
            Reply::Failure(_) => 500,
        }
    }
}

/// The request is over, with this reply.
pub open spec fn finish(reply: Reply) -> (Stage, Action) {
    (Stage::Finished, Action::Respond { reply })
}

/// An answer came that the stage did not wait for.
pub open spec fn out_of_order() -> (Stage, Action) {
    finish(Reply::Failure(Fault::Sequence))
}

/// A backend error ends the request with status 500.
pub open spec fn backend_failure(e: String) -> (Stage, Action) {
    finish(Reply::Failure(Fault::Backend(e)))
}

/// The user that a create request stores: the body's fields under a new id.
pub open spec fn with_id(u: User, id: u128) -> User {
    User { id: Some(id), name: u.name, email: u.email }
}

/// The verdict on the fields of an update request.
pub open spec fn changes_verdict(changes: PartialUser) -> Result<(), ChangeError> {
    change_verdict(
        changes,
        changes.name.is_some() && blank(changes.name.unwrap()@),
        changes.email.is_none() || well_formed_email(changes.email.unwrap()@),
    )
}

/// The first stage and action of a request; `fresh_id` is the id a created
/// user gets.
pub open spec fn opening(request: Request, fresh_id: u128) -> (Stage, Action) {
    match request {
        Request::ListUsers => (Stage::ListFromCache, Action::ReadCachedList),
        Request::FetchUser { id } => match uuid_parse(id@) {
            Some(k) => (Stage::FetchFromCache { id: k }, Action::ReadCachedUser { id: k }),
            None => finish(Reply::Missing),
        },
        Request::AddUser { user: body } => match body {
            Some(u) => (
                Stage::AddChecking { user: with_id(u, fresh_id) },
                Action::ReadByEmail { email: u.email },
            ),
            None => finish(Reply::Invalid(Rejection::MalformedBody)),
        },
        Request::DeleteUser { id } => match uuid_parse(id@) {
            Some(k) => (Stage::DeleteChecking { id: k }, Action::ReadById { id: k }),
            None => finish(Reply::Missing),
        },
        Request::UpdateUser { id, body } => match uuid_parse(id@) {
            Some(k) => (Stage::UpdateChecking { id: k, body }, Action::ReadById { id: k }),
            None => finish(Reply::Missing),
        },
    }
}

/// The next stage and action, from the stage and the answer to the last action.
pub open spec fn next(stage: Stage, event: Event) -> (Stage, Action) {
    match stage {
        Stage::ListFromCache => match event {
            Event::CachedList(Some(users)) => if users.len() > 0 {
                finish(Reply::Success(Payload::Many(users)))
            } else {
                (Stage::ListFromStore, Action::ReadAll)
            },
            Event::CachedList(None) => (Stage::ListFromStore, Action::ReadAll),
            _ => out_of_order(),
        },
        Stage::ListFromStore => match event {
            Event::AllUsers(Ok(users)) => (
                Stage::ListCaching { users },
                Action::WriteCachedList { users },
            ),
            Event::AllUsers(Err(e)) => backend_failure(e),
            _ => out_of_order(),
        },
        Stage::ListCaching { users } => match event {
            Event::Cached => finish(Reply::Success(Payload::Many(users))),
            _ => out_of_order(),
        },
        Stage::FetchFromCache { id } => match event {
            Event::CachedUser(Some(user)) => finish(Reply::Success(Payload::One(user))),
            Event::CachedUser(None) => (Stage::FetchFromStore { id }, Action::ReadById { id }),
            _ => out_of_order(),
        },
        Stage::FetchFromStore { id } => match event {
            Event::Lookup(Ok(Some(user))) => (
                Stage::FetchCaching { user },
                Action::WriteCachedUser { user },
            ),
            Event::Lookup(Ok(None)) => finish(Reply::Missing),
            Event::Lookup(Err(e)) => backend_failure(e),
            _ => out_of_order(),
        },
        Stage::FetchCaching { user } => match event {
            Event::Cached => finish(Reply::Success(Payload::One(user))),
            _ => out_of_order(),
        },
        Stage::AddChecking { user } => match event {
            Event::Lookup(Ok(Some(_))) => finish(Reply::Invalid(Rejection::DuplicateEmail)),
            Event::Lookup(Ok(None)) => (Stage::AddInserting { user }, Action::Insert { user }),
            Event::Lookup(Err(e)) => backend_failure(e),
            _ => out_of_order(),
        },
        Stage::AddInserting { user } => match event {
            Event::Written(Ok(())) => (Stage::AddReloading { user }, Action::ReadAll),
            Event::Written(Err(e)) => backend_failure(e),
            _ => out_of_order(),
        },
        Stage::AddReloading { user } => match event {
            Event::AllUsers(Ok(users)) => (
                Stage::AddCaching { user },
                Action::WriteCachedList { users },
            ),
            Event::AllUsers(Err(e)) => backend_failure(e),
            _ => out_of_order(),
        },
        Stage::AddCaching { user } => match event {
            Event::Cached => finish(Reply::Success(Payload::Created(user))),
            _ => out_of_order(),
        },
        Stage::DeleteChecking { id } => match event {
            Event::Lookup(Ok(Some(_))) => (Stage::DeleteRemoving { id }, Action::Remove { id }),
            Event::Lookup(Ok(None)) => finish(Reply::Missing),
            Event::Lookup(Err(e)) => backend_failure(e),
            _ => out_of_order(),
        },
        Stage::DeleteRemoving { id } => match event {
            Event::Written(Ok(())) => (
                Stage::DeleteDropping { id },
                Action::DropCachedUser { id },
            ),
            Event::Written(Err(e)) => backend_failure(e),
            _ => out_of_order(),
        },
        Stage::DeleteDropping { id } => match event {
            Event::Cached => (Stage::DeleteReloading { id }, Action::ReadAll),
            _ => out_of_order(),
        },
        Stage::DeleteReloading { id } => match event {
            Event::AllUsers(Ok(users)) => (
                Stage::DeleteCaching { id },
                Action::WriteCachedList { users },
            ),
            Event::AllUsers(Err(e)) => backend_failure(e),
            _ => out_of_order(),
        },
        Stage::DeleteCaching { id } => match event {
            Event::Cached => finish(Reply::Success(Payload::Deleted(id))),
            _ => out_of_order(),
        },
        Stage::UpdateChecking { id, body } => match event {
            Event::Lookup(Ok(Some(_))) => match body {
                Some(changes) => match changes_verdict(changes) {
                    Ok(()) => (Stage::UpdateApplying { id }, Action::Update { id, changes }),
                    Err(ce) => finish(Reply::Invalid(Rejection::Change(ce))),
                },
                None => finish(Reply::Invalid(Rejection::MalformedBody)),
            },
            Event::Lookup(Ok(None)) => finish(Reply::Missing),
            Event::Lookup(Err(e)) => backend_failure(e),
            _ => out_of_order(),
        },
        Stage::UpdateApplying { id } => match event {
            Event::Written(Ok(())) => (Stage::UpdateRereading { id }, Action::ReadById { id }),
            Event::Written(Err(e)) => backend_failure(e),
            _ => out_of_order(),
        },
        Stage::UpdateRereading { id } => match event {
            Event::Lookup(Ok(Some(user))) => (
                Stage::UpdateCachingOne { id, user },
                Action::WriteCachedUser { user },
            ),
            Event::Lookup(_) => finish(Reply::Success(Payload::Updated(id))),
            _ => out_of_order(),
        },
        Stage::UpdateCachingOne { id, user } => match event {
            Event::Cached => (Stage::UpdateReloading { id, user }, Action::ReadAll),
            _ => out_of_order(),
        },
        Stage::UpdateReloading { id, user } => match event {
            Event::AllUsers(Ok(users)) => (
                Stage::UpdateCachingAll { id, user },
                Action::WriteCachedList { users },
            ),
            Event::AllUsers(Err(_)) => finish(Reply::Success(Payload::Updated(id))),
            _ => out_of_order(),
        },
        Stage::UpdateCachingAll { id, user } => match event {
            Event::Cached => finish(Reply::Success(Payload::One(user))),
            _ => out_of_order(),
        },
        Stage::Finished => out_of_order(),
    }
}

fn end_with(reply: Reply) -> (r: (Stage, Action))
    ensures
        r == finish(reply),
{
    (Stage::Finished, Action::Respond { reply })
}

fn end_out_of_order() -> (r: (Stage, Action))
    ensures
        r == out_of_order(),
{
    end_with(Reply::Failure(Fault::Sequence))
}

fn end_failed(e: String) -> (r: (Stage, Action))
    ensures
        r == backend_failure(e),
{
    end_with(Reply::Failure(Fault::Backend(e)))
}

/// The first stage and action of a request, with `fresh_id` as the id that a
/// created user gets.
pub fn begin(request: Request, fresh_id: u128) -> (r: (Stage, Action))
    ensures
        r == opening(request, fresh_id),
{
    match request {
        Request::ListUsers => (Stage::ListFromCache, Action::ReadCachedList),
        Request::FetchUser { id } => match parse_user_id(id.as_str()) {
            Some(k) => (Stage::FetchFromCache { id: k }, Action::ReadCachedUser { id: k }),
            None => end_with(Reply::Missing),
        },
        Request::AddUser { user: body } => match body {
            Some(u) => {
                let email = u.email.clone();
                (
                    Stage::AddChecking { user: User { id: Some(fresh_id), name: u.name, email: u.email } },
                    Action::ReadByEmail { email },
                )
            },
            None => end_with(Reply::Invalid(Rejection::MalformedBody)),
        },
        Request::DeleteUser { id } => match parse_user_id(id.as_str()) {
            Some(k) => (Stage::DeleteChecking { id: k }, Action::ReadById { id: k }),
            None => end_with(Reply::Missing),
        },
        Request::UpdateUser { id, body } => match parse_user_id(id.as_str()) {
            Some(k) => (Stage::UpdateChecking { id: k, body }, Action::ReadById { id: k }),
            None => end_with(Reply::Missing),
        },
    }
}

/// The first stage and action of a request; a created user gets a new random id.
pub fn start(request: Request) -> (r: (Stage, Action))
    ensures
        exists|fresh_id: u128| r == opening(request, fresh_id),
{
    let fresh_id = fresh_user_id();
    begin(request, fresh_id)
}

/// Two stages that hold the same values; lists are compared by their contents.
pub open spec fn same_stage(a: Stage, b: Stage) -> bool {
    match (a, b) {
        (Stage::ListCaching { users: x }, Stage::ListCaching { users: y }) => x@ == y@,
        _ => a == b,
    }
}

/// Advances a request by one answer of the store or cache.
pub fn step(stage: Stage, event: Event) -> (r: (Stage, Action))
    ensures
        same_stage(r.0, next(stage, event).0),
        r.1 == next(stage, event).1,
{
    match stage {
        Stage::ListFromCache => match event {
            Event::CachedList(Some(users)) => if users.len() > 0 {
                end_with(Reply::Success(Payload::Many(users)))
            } else {
                (Stage::ListFromStore, Action::ReadAll)
            },
            Event::CachedList(None) => (Stage::ListFromStore, Action::ReadAll),
            _ => end_out_of_order(),
        },
        Stage::ListFromStore => match event {
            Event::AllUsers(Ok(users)) => {
                let copy = copy_users(&users);
                (Stage::ListCaching { users: copy }, Action::WriteCachedList { users })
            },
            Event::AllUsers(Err(e)) => end_failed(e),
            _ => end_out_of_order(),
        },
        Stage::ListCaching { users } => match event {
            Event::Cached => end_with(Reply::Success(Payload::Many(users))),
            _ => end_out_of_order(),
        },
        Stage::FetchFromCache { id } => match event {
            Event::CachedUser(Some(user)) => end_with(Reply::Success(Payload::One(user))),
            Event::CachedUser(None) => (Stage::FetchFromStore { id }, Action::ReadById { id }),
            _ => end_out_of_order(),
        },
        Stage::FetchFromStore { id } => match event {
            Event::Lookup(Ok(Some(user))) => {
                let copy = copy_user(&user);
                (Stage::FetchCaching { user: copy }, Action::WriteCachedUser { user })
            },
            Event::Lookup(Ok(None)) => end_with(Reply::Missing),
            Event::Lookup(Err(e)) => end_failed(e),
            _ => end_out_of_order(),
        },
        Stage::FetchCaching { user } => match event {
            Event::Cached => end_with(Reply::Success(Payload::One(user))),
            _ => end_out_of_order(),
        },
        Stage::AddChecking { user } => match event {
            Event::Lookup(Ok(Some(_))) => end_with(Reply::Invalid(Rejection::DuplicateEmail)),
            Event::Lookup(Ok(None)) => {
                let copy = copy_user(&user);
                (Stage::AddInserting { user: copy }, Action::Insert { user })
            },
            Event::Lookup(Err(e)) => end_failed(e),
            _ => end_out_of_order(),
        },
        Stage::AddInserting { user } => match event {
            Event::Written(Ok(())) => (Stage::AddReloading { user }, Action::ReadAll),
            Event::Written(Err(e)) => end_failed(e),
            _ => end_out_of_order(),
        },
        Stage::AddReloading { user } => match event {
            Event::AllUsers(Ok(users)) => (
                Stage::AddCaching { user },
                Action::WriteCachedList { users },
            ),
            Event::AllUsers(Err(e)) => end_failed(e),
            _ => end_out_of_order(),
        },
        Stage::AddCaching { user } => match event {
            Event::Cached => end_with(Reply::Success(Payload::Created(user))),
            _ => end_out_of_order(),
        },
        Stage::DeleteChecking { id } => match event {
            Event::Lookup(Ok(Some(_))) => (Stage::DeleteRemoving { id }, Action::Remove { id }),
            Event::Lookup(Ok(None)) => end_with(Reply::Missing),
            Event::Lookup(Err(e)) => end_failed(e),
            _ => end_out_of_order(),
        },
        Stage::DeleteRemoving { id } => match event {
            Event::Written(Ok(())) => (
                Stage::DeleteDropping { id },
                Action::DropCachedUser { id },
            ),
            Event::Written(Err(e)) => end_failed(e),
            _ => end_out_of_order(),
        },
        Stage::DeleteDropping { id } => match event {
            Event::Cached => (Stage::DeleteReloading { id }, Action::ReadAll),
            _ => end_out_of_order(),
        },
        Stage::DeleteReloading { id } => match event {
            Event::AllUsers(Ok(users)) => (
                Stage::DeleteCaching { id },
                Action::WriteCachedList { users },
            ),
            Event::AllUsers(Err(e)) => end_failed(e),
            _ => end_out_of_order(),
        },
        Stage::DeleteCaching { id } => match event {
            Event::Cached => end_with(Reply::Success(Payload::Deleted(id))),
            _ => end_out_of_order(),
        },
        Stage::UpdateChecking { id, body } => match event {
            Event::Lookup(Ok(Some(_))) => match body {
                Some(changes) => match validate_changes(&changes) {
                    Ok(()) => (Stage::UpdateApplying { id }, Action::Update { id, changes }),
                    Err(ce) => end_with(Reply::Invalid(Rejection::Change(ce))),
                },
                None => end_with(Reply::Invalid(Rejection::MalformedBody)),
            },
            Event::Lookup(Ok(None)) => end_with(Reply::Missing),
            Event::Lookup(Err(e)) => end_failed(e),
            _ => end_out_of_order(),
        },
        Stage::UpdateApplying { id } => match event {
            Event::Written(Ok(())) => (Stage::UpdateRereading { id }, Action::ReadById { id }),
            Event::Written(Err(e)) => end_failed(e),
            _ => end_out_of_order(),
        },
        Stage::UpdateRereading { id } => match event {
            Event::Lookup(Ok(Some(user))) => {
                let copy = copy_user(&user);
                (Stage::UpdateCachingOne { id, user: copy }, Action::WriteCachedUser { user })
            },
            Event::Lookup(_) => end_with(Reply::Success(Payload::Updated(id))),
            _ => end_out_of_order(),
        },
        Stage::UpdateCachingOne { id, user } => match event {
            Event::Cached => (Stage::UpdateReloading { id, user }, Action::ReadAll),
            _ => end_out_of_order(),
        },
        Stage::UpdateReloading { id, user } => match event {
            Event::AllUsers(Ok(users)) => (
                Stage::UpdateCachingAll { id, user },
                Action::WriteCachedList { users },
            ),
            Event::AllUsers(Err(_)) => end_with(Reply::Success(Payload::Updated(id))),
            _ => end_out_of_order(),
        },
        Stage::UpdateCachingAll { id, user } => match event {
            Event::Cached => end_with(Reply::Success(Payload::One(user))),
            _ => end_out_of_order(),
        },
        Stage::Finished => end_out_of_order(),
    }
}

} // verus!
