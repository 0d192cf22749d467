use vstd::prelude::*;

verus! {

/// The name to greet a user by: the display name chosen on the profile, or
/// the user id when the profile has none.
pub fn username_from_profile(display_name: Option<String>, user_id: String) -> (name: String)
    ensures
        name@ == match display_name {
            Some(n) => n@,
            None => user_id@,
        },
{
    display_name.unwrap_or(user_id)
}

} // verus!
