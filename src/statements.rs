use vstd::prelude::*;
use crate::model::PartialUser;

verus! {

/// The statement that reads every user.
pub const SELECT_ALL: &'static str = "SELECT id, name, email FROM userks.users";

/// The statement that reads the user with a given id.
pub const SELECT_BY_ID: &'static str = "SELECT id, name, email FROM userks.users WHERE id = ?";

/// The statement that reads the users with a given email; the column has no
/// index, so the store scans the table.
pub const SELECT_BY_EMAIL: &'static str =
    "SELECT id, name, email FROM userks.users WHERE email = ? ALLOW FILTERING";

/// The statement that writes a user, bound to id, name and email.
pub const INSERT: &'static str = "INSERT INTO userks.users (id, name, email) VALUES (?, ?, ?)";

/// The statement that removes the user with a given id.
pub const DELETE_BY_ID: &'static str = "DELETE FROM userks.users WHERE id = ?";

/// Sets the name, bound to the name and then the id.
pub const UPDATE_NAME: &'static str = "UPDATE userks.users SET name = ? WHERE id = ?";

/// Sets the email, bound to the email and then the id.
pub const UPDATE_EMAIL: &'static str = "UPDATE userks.users SET email = ? WHERE id = ?";

/// Sets both fields, bound to the name, the email and then the id.
pub const UPDATE_BOTH: &'static str = "UPDATE userks.users SET name = ?, email = ? WHERE id = ?";

/// Which fields an update changes.
#[derive(Clone, Copy, PartialEq, Eq, Structural)]
pub struct FieldMask {
    pub name: bool,
    pub email: bool,
}

/// The fields that an update request gives.
pub fn field_mask(changes: &PartialUser) -> (r: FieldMask)
    ensures
        r.name == changes.name.is_some(),
        r.email == changes.email.is_some(),
{
    FieldMask { name: changes.name.is_some(), email: changes.email.is_some() }
}

/// The update statement for a set of fields: the set fields in the order
/// name, email, then the id predicate. An empty mask has no statement.
pub fn update_statement(mask: FieldMask) -> (r: Option<&'static str>)
    ensures
        mask.name && mask.email ==> r == Some(UPDATE_BOTH),
        mask.name && !mask.email ==> r == Some(UPDATE_NAME),
        !mask.name && mask.email ==> r == Some(UPDATE_EMAIL),
        !mask.name && !mask.email ==> r.is_none(),
{
    if mask.name && mask.email {
        Some(UPDATE_BOTH)
    } else if mask.name {
        Some(UPDATE_NAME)
    } else if mask.email {
        Some(UPDATE_EMAIL)
    } else {
        None
    }
}

} // verus!
