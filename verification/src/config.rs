use vstd::prelude::*;

verus! {

/// The local configuration: the last-known username, persisted in a small
/// JSON file beside the program and rewritten on login and logout.
pub struct Config {
    pub username: String,
}

impl Config {
    /// A configuration carrying the given username.
    pub fn new(username: String) -> (r: Config)
        ensures
            r.username == username,
    {
        Config { username }
    }
}

} // verus!
