use vstd::prelude::*;

use crate::pipeline::Settings;
use crate::reference::Homeserver;

verus! {

/// Where the content store is reached: its public gateway, for links, and its API.
pub struct Config {
    pub ipfs_gateway: String,
    pub ipfs_api: String,
}

/// A login that can be restored.
#[derive(Clone)]
pub struct Session {
    /// The access token used for this session.
    pub access_token: String,
    /// The user the access token was issued for.
    pub user_id: String,
    /// The ID of the client device.
    pub device_id: String,
}

impl Config {
    /// The relay's settings for a given chat server, with links under this
    /// config's gateway.
    pub fn settings(&self, homeserver: Homeserver, max_payload: usize, max_attempts: u64) -> (r: Settings)
        requires
            max_attempts >= 1,
        ensures
            r.wf(),
            r.gateway@ == self.ipfs_gateway@,
            r.homeserver == homeserver,
            r.max_payload == max_payload,
            r.max_attempts == max_attempts,
    {
        Settings { homeserver, gateway: self.ipfs_gateway.clone(), max_payload, max_attempts }
    }
}

} // verus!
