use vstd::prelude::*;

verus! {

/// The commands a user can type.
#[derive(Debug, Clone, Copy, PartialEq, Eq, Structural)]
pub enum Command {
    /// List the commands.
    Help,
    /// Greet, and register where needed.
    Start,
    /// Start a search.
    Search,
    /// Leave the dialog and search again with the same filters.
    Next,
    /// Cancel the search.
    Cancel,
    /// Leave the dialog.
    Stop,
    /// Change the nickname.
    SetName,
    /// Change the age.
    SetAge,
    /// Change the gender.
    SetGender,
    /// Show the figures of the store to the administrator.
    Admin,
    /// Send a message to every user.
    Message,
    /// Show the rules.
    Rules,
    /// Ban a user.
    Ban,
    /// Lift the ban of a user.
    Unban,
    /// Remove a user from the store.
    Delete,
    /// Show a profile.
    UserInfo,
    /// Show the referral link.
    Referral,
    /// Show who referred the most users.
    Top,
    /// Show who has the best reputation.
    TopRep,
}

} // verus!
