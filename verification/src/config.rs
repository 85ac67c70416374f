//! User configuration as the view layer sees it.

use vstd::prelude::*;

verus! {

/// The per-user settings the client needs: currently just the display name.
/// Loading it from disk is the shell's job; the core only carries the value.
pub struct Config {
    pub username: String,
}

impl Config {
    pub fn new(username: String) -> (c: Config)
        ensures
            c.username@ == username@,
    {
        Config { username }
    }
}

} // verus!
