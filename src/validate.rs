use vstd::prelude::*;
use crate::model::PartialUser;

verus! {

/// What `str::trim` leaves of a text.
pub uninterp spec fn trimmed(s: Seq<char>) -> Seq<char>;

/// Whether `regex::Regex::new(pattern)` compiles (`Some`) and then whether
/// `is_match(text)` holds.
pub uninterp spec fn regex_verdict(pattern: Seq<char>, text: Seq<char>) -> Option<bool>;

/// Relies on str::trim: leading and trailing whitespace removed; an empty text
/// stays empty.
#[verifier::external_body]
fn trim_text(s: &str) -> (r: &str)
    ensures
        r@ == trimmed(s@),
        s@.len() == 0 ==> r@.len() == 0,
{
    s.trim()
}

/// Relies on regex::Regex::new and regex::Regex::is_match: `None` where the
/// pattern does not compile, else whether the text matches.
#[verifier::external_body]
fn regex_match(pattern: &str, text: &str) -> (r: Option<bool>)
    ensures
        r == regex_verdict(pattern@, text@),
{
    match regex::Regex::new(pattern) {
        Ok(re) => Some(re.is_match(text)),
        Err(_) => None,
    }
}

/// The shape an email address must have: one `@`, a dot after it, and no
/// whitespace or further `@` in the three parts.
pub const EMAIL_PATTERN: &'static str = "^[^\\s@]+@[^\\s@]+\\.[^\\s@]+$";

/// A name that is empty or only whitespace.
pub open spec fn blank(name: Seq<char>) -> bool {
    trimmed(name).len() == 0
}

/// An email that matches `EMAIL_PATTERN`.
pub open spec fn well_formed_email(email: Seq<char>) -> bool {
    regex_verdict(EMAIL_PATTERN@, email) == Some(true)
}

/// Why an update request is refused before it reaches the store.
#[derive(Clone, Copy, Debug, PartialEq, Eq)]
pub enum ChangeError {
    /// Neither field is given.
    NoChanges,
    /// The new name is blank.
    BlankName,
    /// The new email is not well formed.
    BadEmail,
}

/// The verdict on an update request, given whether its name (if any) is blank
/// and whether its email (if any) is well formed.
pub open spec fn change_verdict(
    changes: PartialUser,
    name_blank: bool,
    email_ok: bool,
) -> Result<(), ChangeError> {
    if changes.name.is_none() && changes.email.is_none() {
        Err(ChangeError::NoChanges)
    } else if changes.name.is_some() && name_blank {
        Err(ChangeError::BlankName)
    } else if changes.email.is_some() && !email_ok {
        Err(ChangeError::BadEmail)
    } else {
        Ok(())
    }
}

/// Decides an update request from the two text checks.
pub fn judge_changes(changes: &PartialUser, name_blank: bool, email_ok: bool) -> (r: Result<
    (),
    ChangeError,
>)
    ensures
        r == change_verdict(*changes, name_blank, email_ok),
{
    if changes.name.is_none() && changes.email.is_none() {
        Err(ChangeError::NoChanges)
    } else if changes.name.is_some() && name_blank {
        Err(ChangeError::BlankName)
    } else if changes.email.is_some() && !email_ok {
        Err(ChangeError::BadEmail)
    } else {
        Ok(())
    }
}

/// Whether a name is blank.
pub fn is_blank_name(name: &str) -> (r: bool)
    ensures
        r == blank(name@),
{
    trim_text(name).is_empty()
}

/// Whether an email address is well formed.
pub fn is_valid_email(email: &str) -> (r: bool)
    ensures
        r == well_formed_email(email@),
{
    match regex_match(EMAIL_PATTERN, email) {
        Some(m) => m,
        None => false,
    }
}

/// Checks an update request: at least one field, a name that is not blank, a
/// well-formed email.
pub fn validate_changes(changes: &PartialUser) -> (r: Result<(), ChangeError>)
    ensures
        r == change_verdict(
            *changes,
            changes.name.is_some() && blank(changes.name.unwrap()@),
            changes.email.is_none() || well_formed_email(changes.email.unwrap()@),
        ),
{
    let name_blank = match &changes.name {
        Some(n) => is_blank_name(n.as_str()),
        None => false,
    };
    let email_ok = match &changes.email {
        Some(e) => is_valid_email(e.as_str()),
        None => true,
    };
    judge_changes(changes, name_blank, email_ok)
}

} // verus!
