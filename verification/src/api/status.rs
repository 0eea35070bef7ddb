//! The status report of the server.

use crate::config::Config;
use crate::util::web::{json_ok, JsonReply};
use vstd::prelude::*;
use vstd::string::StringExecFns;

verus! {

/// What the server reports about itself.
#[derive(Debug)]
pub struct ServerStatus {
    pub name: String,
    pub version: String,
    pub welcome_title: String,
    pub welcome_content: String,
}

/// The status report: the name and version of the server, and the welcome
/// texts of its configuration, with status 200.
pub fn get_status(config: &Config, name: &str, version: &str) -> (reply: JsonReply<ServerStatus, ()>)
    ensures
        reply.status == 200,
        reply.body matches Ok(status) && status.name@ == name@ && status.version@ == version@
            && status.welcome_title@ == config.welcome_title@ && status.welcome_content@
            == config.welcome_content@,
{
    json_ok(
        ServerStatus {
            name: String::from_str(name),
            version: String::from_str(version),
            welcome_title: config.welcome_title.clone(),
            welcome_content: config.welcome_content.clone(),
        },
    )
}

} // verus!
