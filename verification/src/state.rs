use vstd::prelude::*;

use crate::config::Config;
use crate::models::PersistentState;

verus! {

/// The settings together with the state kept across restarts.
pub struct AppState {
    pub config: Config,
    pub persistent: PersistentState,
}

/// The cookie in effect after loading: the stored one if there is one,
/// otherwise the configured one, if any.
pub open spec fn seeded_cookie(stored: Option<String>, configured: Option<String>) -> Option<String> {
    match stored {
        Some(c) => Some(c),
        None => configured,
    }
}

/// Whether loading takes the cookie from the settings: when the settings
/// hold one and the stored state (if any) has none.
pub fn seeds_cookie(config: &Config, stored: &Option<PersistentState>) -> (b: bool)
    ensures
        b == (config.mam_id is Some && (stored is None || stored->0.cookie is None)),
{
    config.mam_id.is_some() && match stored {
        None => true,
        Some(s) => s.cookie.is_none(),
    }
}

impl AppState {
    /// Assembles the running state from the settings and what the state file
    /// held (`None` when there was no state file). A cookie from the settings
    /// is used only when the stored state has none.
    pub fn load(config: Config, stored: Option<PersistentState>) -> (s: AppState)
        ensures
            s.config == config,
            stored is None ==> s.persistent.last_mam_response is None
                && s.persistent.last_update is None && s.persistent.cookie == config.mam_id,
            stored is Some ==> s.persistent.last_mam_response == stored->0.last_mam_response
                && s.persistent.last_update == stored->0.last_update
                && s.persistent.cookie == seeded_cookie(stored->0.cookie, config.mam_id),
            stored is Some && stored->0.cookie is Some ==> s.persistent.cookie == stored->0.cookie,
            stored is Some && stored->0.cookie is None ==> s.persistent.cookie == config.mam_id,
            s.persistent.cookie is None ==> config.mam_id is None,
    {
        let mut persistent = match stored {
            Some(p) => p,
            None => PersistentState::default(),
        };
        if persistent.cookie.is_none() {
            match &config.mam_id {
                Some(mam_id) => {
                    persistent.cookie = Some(mam_id.clone());
                },
                None => {},
            }
        }
        AppState { config, persistent }
    }
}

/// A cookie in the stored state is always kept, whatever the settings say; a
/// stored state without a cookie takes the configured one, if any; and the
/// loaded state has a cookie whenever either source has one.
pub proof fn lemma_stored_cookie_wins(stored: Option<String>, configured: Option<String>)
    ensures
        stored is Some ==> seeded_cookie(stored, configured) == stored,
        stored is None ==> seeded_cookie(stored, configured) == configured,
        seeded_cookie(stored, configured) is Some <==> (stored is Some || configured is Some),
{
}

} // verus!
