use vstd::prelude::*;

use crate::timestamp::Timestamp;

verus! {

/// Answer of the service's "what is my address" endpoint.
#[derive(Clone, Debug, PartialEq, Eq)]
pub struct IpResponse {
    pub ip: String,
    pub asn: u32,
    pub as_name: String,
}

/// Body of the service's answer to a dynamic-seedbox update.
#[derive(Clone, Debug, PartialEq, Eq)]
pub struct SeedboxResponse {
    pub success: bool,
    pub msg: String,
    pub ip: String,
    pub asn: u32,
    pub as_name: String,
}

/// What came back from one dynamic-seedbox update request.
#[derive(Clone, Debug, PartialEq, Eq)]
pub struct MamResponse {
    pub at: Timestamp,
    pub http_status: u16,
    pub cookie_sent: String,
    pub cookie_received: Option<String>,
    pub body: Option<SeedboxResponse>,
}

/// Record of the last report made to the service.
#[derive(Clone, Debug, PartialEq, Eq)]
pub struct LastUpdate {
    pub at: Timestamp,
    pub mam_updated: bool,
    pub reason: UpdateReason,
}

/// Why a report to the service is due.
#[derive(Clone, Copy, Debug, PartialEq, Eq, Structural)]
pub enum UpdateReason {
    NoPreviousResponse,
    PreviousHttpError,
    IpChanged,
    AsnChanged,
    Stale,
}

/// Everything that is kept across restarts.
#[derive(Clone, Debug, PartialEq, Eq)]
pub struct PersistentState {
    pub cookie: Option<String>,
    pub last_mam_response: Option<MamResponse>,
    pub last_update: Option<LastUpdate>,
}

impl Default for PersistentState {
    fn default() -> (s: PersistentState)
        ensures
            s.cookie is None,
            s.last_mam_response is None,
            s.last_update is None,
    {
        PersistentState { cookie: None, last_mam_response: None, last_update: None }
    }
}

impl PersistentState {
    /// Replaces the session cookie, leaving everything else as it was.
    pub fn set_cookie(&mut self, cookie: String)
        ensures
            final(self).cookie == Some(cookie),
            final(self).last_mam_response == old(self).last_mam_response,
            final(self).last_update == old(self).last_update,
    {
        self.cookie = Some(cookie);
    }
}

} // verus!
