use vstd::prelude::*;

verus! {

/// A stored user. `id` is assigned by the service when the user is created.
#[derive(Clone, Debug, PartialEq, Eq)]
pub struct User {
    pub id: Option<u128>,
    pub name: String,
    pub email: String,
}

/// The fields of an update request; an absent field is left as it is.
#[derive(Clone, Debug, PartialEq, Eq)]
pub struct PartialUser {
    pub name: Option<String>,
    pub email: Option<String>,
}

/// The JSON envelope of a response.
#[derive(Debug)]
pub struct ApiResponse<T> {
    pub message: String,
    pub success: bool,
    pub data: Option<T>,
}

/// A field-for-field copy of a user.
pub fn copy_user(u: &User) -> (r: User)
    ensures
        r == *u,
{
    User { id: u.id, name: u.name.clone(), email: u.email.clone() }
}

/// A copy of a list of users, in the same order.
pub fn copy_users(users: &Vec<User>) -> (r: Vec<User>)
    ensures
        r@ == users@,
{
    let mut r: Vec<User> = Vec::new();
    let mut i: usize = 0;
    while i < users.len()
        invariant
            i <= users@.len(),
            r@ == users@.subrange(0, i as int),
        decreases users@.len() - i,
    {
        r.push(copy_user(&users[i]));
        i = i + 1;
        assert(r@ =~= users@.subrange(0, i as int));
    }
    assert(users@.subrange(0, users@.len() as int) =~= users@);
    r
}

/// The user that a row of the store describes; a missing column reads as empty.
pub fn user_from_row(id: u128, name: Option<String>, email: Option<String>) -> (r: User)
    ensures
        r.id == Some(id),
        r.name@ == (match name { Some(n) => n@, None => Seq::<char>::empty() }),
        r.email@ == (match email { Some(e) => e@, None => Seq::<char>::empty() }),
{
    let n = match name {
        Some(n) => n,
        None => String::new(),
    };
    let e = match email {
        Some(e) => e,
        None => String::new(),
    };
    User { id: Some(id), name: n, email: e }
}

/// A successful envelope around `data`.
pub fn success_response<T>(message: &str, data: Option<T>) -> (r: ApiResponse<T>)
    ensures
        r.message@ == message@,
        r.success,
        r.data == data,
{
    ApiResponse { message: message.to_owned(), success: true, data }
}

/// A failed envelope with no data, and the HTTP status it goes out with.
/// `status_code` must be one that HTTP can carry.
pub fn error_response(message: &str, status_code: u16) -> (r: (u16, ApiResponse<()>))
    requires
        100 <= status_code <= 999,
    ensures
        r.0 == status_code,
        r.1.message@ == message@,
        !r.1.success,
        r.1.data.is_none(),
{
    (status_code, ApiResponse { message: message.to_owned(), success: false, data: None })
}

} // verus!
