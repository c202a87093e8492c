use vstd::prelude::*;
use vstd::string::*;

verus! {

/// Version of this program, as it appears in the default user agent.
pub const VERSION: &'static str = "0.1.0";

/// Settings of the reporter.
#[derive(Clone, Debug, PartialEq, Eq)]
pub struct Config {
    pub port: u16,
    pub state_file: String,
    pub mam_id: Option<String>,
    pub check_interval: u64,
    pub stale_threshold: u64,
    pub user_agent: String,
}

/// The default HTTP port.
pub fn default_port() -> (p: u16)
    ensures
        p == 7878,
{
    7878
}

/// The default path of the state file.
pub fn default_state_file() -> (s: String)
    ensures
        s@ == "/data/mouser/state.json"@,
{
    String::from_str("/data/mouser/state.json")
}

/// The default number of seconds between checks.
pub fn default_check_interval() -> (n: u64)
    ensures
        n == 300,
{
    300
}

/// The default number of seconds after which a report is repeated anyway.
pub fn default_stale_threshold() -> (n: u64)
    ensures
        n == 86400,
{
    86400
}

/// The default user agent: `mouser/` followed by the program's version.
pub fn default_user_agent() -> (s: String)
    ensures
        s@ == "mouser/"@ + VERSION@,
{
    String::from_str("mouser/").concat(VERSION)
}

impl Config {
    /// Builds the settings from the values that were given, filling in the
    /// default of each one that was not.
    pub fn from_values(
        port: Option<u16>,
        state_file: Option<String>,
        mam_id: Option<String>,
        check_interval: Option<u64>,
        stale_threshold: Option<u64>,
        user_agent: Option<String>,
    ) -> (c: Config)
        ensures
            c.port == (match port {
                Some(p) => p,
                None => 7878u16,
            }),
            state_file is Some ==> c.state_file == state_file->0,
            state_file is None ==> c.state_file@ == "/data/mouser/state.json"@,
            c.mam_id == mam_id,
            c.check_interval == (match check_interval {
                Some(n) => n,
                None => 300u64,
            }),
            c.stale_threshold == (match stale_threshold {
                Some(n) => n,
                None => 86400u64,
            }),
            user_agent is Some ==> c.user_agent == user_agent->0,
            user_agent is None ==> c.user_agent@ == "mouser/"@ + VERSION@,
    {
        Config {
            port: match port {
                Some(p) => p,
                None => default_port(),
            },
            state_file: match state_file {
                Some(s) => s,
                None => default_state_file(),
            },
            mam_id,
            check_interval: match check_interval {
                Some(n) => n,
                None => default_check_interval(),
            },
            stale_threshold: match stale_threshold {
                Some(n) => n,
                None => default_stale_threshold(),
            },
            user_agent: match user_agent {
                Some(s) => s,
                None => default_user_agent(),
            },
        }
    }
}

} // verus!
