//! A user record with four named fields, and the line that presents it.

use vstd::prelude::*;
use vstd::string::StringExecFns;
use crate::render::bool_chars;
use crate::render::bool_string;
use crate::render::decimal_chars;
use crate::render::u64_string;

verus! {

/// A user record: who they are, how to reach them, whether the account is
/// active, and how often they signed in.
pub struct User {
    pub username: String,
    pub email: String,
    pub active: bool,
    pub sign_in_count: u64,
}

/// Builds the record from its four parts, each parameter landing in the
/// field of the same name.
pub fn build_user(email: String, username: String, active: bool, sign_in_count: u64) -> (user:
    User)
    ensures
        user.email == email,
        user.username == username,
        user.active == active,
        user.sign_in_count == sign_in_count,
{
    User { email, username, active, sign_in_count }
}

/// The comma-and-space separator between two presented fields.
pub open spec fn separator() -> Seq<char> {
    seq![',', ' ']
}

/// The characters of the one line that presents a user: email, username,
/// activity flag and sign-in count, in that order, separated by `separator`.
pub open spec fn user_line_chars(user: User) -> Seq<char> {
    user.email@ + separator() + user.username@ + separator() + bool_chars(user.active)
        + separator() + decimal_chars(user.sign_in_count as nat)
}

/// Renders the line that presents `user`, exactly as `user_line_chars`
/// states it.
pub fn user_line(user: &User) -> (line: String)
    ensures
        line@ == user_line_chars(*user),
{
    proof {
        reveal_strlit(", ");
    }
    let mut line = user.email.clone();
    line.append(", ");
    line.append(user.username.as_str());
    line.append(", ");
    let active_text = bool_string(user.active);
    line.append(active_text.as_str());
    line.append(", ");
    let count_text = u64_string(user.sign_in_count);
    line.append(count_text.as_str());
    line
}

} // verus!
