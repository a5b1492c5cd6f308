//! Startup configuration: the settings the client needs to reach the chat
//! service, and the rule for choosing the configuration file path.

use vstd::prelude::*;

verus! {

/// The settings read from the configuration file: an authentication token,
/// the service base address, the room identifier and the numeric user id.
pub struct Config {
    pub token: String,
    pub origin: String,
    pub room: String,
    pub user: u64,
}

/// The configuration file path: the one passed on the command line when
/// there is one, otherwise the default file name in the working directory.
pub fn config_path(passed_in: Option<String>) -> (r: String)
    ensures
        passed_in matches Some(p) ==> r@ == p@,
        passed_in is None ==> r@ == "clutch.toml"@,
{
    match passed_in {
        Some(p) => p,
        None => "clutch.toml".to_owned(),
    }
}

} // verus!
