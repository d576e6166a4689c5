//! Operating configuration: the resolved parameter set, the compiled-in
//! defaults, and the resolution rule that arbitrates between a remote
//! configuration fetch and those defaults.

use vstd::prelude::*;

verus! {

/// Default endpoint an alert is posted to when no remote configuration
/// could be obtained.
pub const DEFAULT_ALERT_URL: &'static str = "http://server_url:8080/alert";

/// Default endpoint the liveness heartbeat is posted to.
pub const DEFAULT_I_AM_ALIVE_URL: &'static str = "http://server_url:8080/IAmAlive";

/// Default number of seconds between two heartbeat attempts.
pub const DEFAULT_I_AM_ALIVE_INTERVAL_SECONDS: u64 = 30;

/// Default schedule: fire every second, every day, years 2023 through 2100.
pub const DEFAULT_CRONTAB: &'static str =
    "0-59   0-59   0-23     1-31       Jan-Dec  Mon,Tue,Wed,Thu,Fri,Sat,Sun  2023-2100";

/// Default timezone offset, in seconds east of UTC.
pub const DEFAULT_TIMEZONE_OFFSET: i32 = 0;

/// The operating parameters of the appliance, immutable once resolved:
/// where alerts and heartbeats are posted, how often the heartbeat fires,
/// and which cron expression gates the detection checks.
pub struct Configuration {
    pub alert_endpoint: String,
    pub i_am_alive_endpoint: String,
    pub i_am_alive_interval_seconds: u64,
    pub crontab: String,
    pub timezone_offset: i32,
}

impl Configuration {
    /// A configuration is well formed exactly when its heartbeat interval is
    /// positive: the heartbeat check divides elapsed seconds by it.
    pub open spec fn wf(self) -> bool {
        self.i_am_alive_interval_seconds > 0
    }
}

/// Holds exactly when `c` carries the compiled-in default values.
pub open spec fn is_default_configuration(c: Configuration) -> bool {
    &&& c.alert_endpoint@ == DEFAULT_ALERT_URL@
    &&& c.i_am_alive_endpoint@ == DEFAULT_I_AM_ALIVE_URL@
    &&& c.i_am_alive_interval_seconds == DEFAULT_I_AM_ALIVE_INTERVAL_SECONDS
    &&& c.crontab@ == DEFAULT_CRONTAB@
    &&& c.timezone_offset == DEFAULT_TIMEZONE_OFFSET
}

/// The compiled-in default configuration, substituted whenever the remote
/// fetch fails and remote configuration is not mandatory.
pub fn default_configuration() -> (c: Configuration)
    ensures
        is_default_configuration(c),
        c.wf(),
{
    Configuration {
        alert_endpoint: DEFAULT_ALERT_URL.to_owned(),
        i_am_alive_endpoint: DEFAULT_I_AM_ALIVE_URL.to_owned(),
        i_am_alive_interval_seconds: DEFAULT_I_AM_ALIVE_INTERVAL_SECONDS,
        crontab: DEFAULT_CRONTAB.to_owned(),
        timezone_offset: DEFAULT_TIMEZONE_OFFSET,
    }
}

/// Raised only when the remote configuration could not be obtained and the
/// compiled-in flag makes remote configuration mandatory. It is the sole
/// fatal condition of the appliance: the caller must terminate without ever
/// entering the polling loop.
#[derive(Clone, Copy, Debug)]
pub enum ResolveError {
    MandatoryRemoteUnavailable,
}

/// Arbitrates between a fetched remote configuration and the compiled-in
/// defaults. `fetched` is `None` when the fetch or the parse of the remote
/// response failed, or when the response was malformed; a fetched
/// configuration whose heartbeat interval is not positive counts as
/// malformed too.
pub fn resolve_configuration(fetched: Option<Configuration>, mandatory: bool) -> (r: Result<
    Configuration,
    ResolveError,
>)
    ensures
        match fetched {
            Some(c) => c.wf() ==> r == Ok::<Configuration, ResolveError>(c),
            None => true,
        },
        (match fetched {
            Some(c) => !c.wf(),
            None => true,
        }) ==> if mandatory {
            r == Err::<Configuration, ResolveError>(ResolveError::MandatoryRemoteUnavailable)
        } else {
            r matches Ok(d) && is_default_configuration(d)
        },
        r matches Ok(c) ==> c.wf(),
{
    match fetched {
        Some(c) => {
            if c.i_am_alive_interval_seconds > 0 {
                Ok(c)
            } else if mandatory {
                Err(ResolveError::MandatoryRemoteUnavailable)
            } else {
                Ok(default_configuration())
            }
        },
        None => {
            if mandatory {
                Err(ResolveError::MandatoryRemoteUnavailable)
            } else {
                Ok(default_configuration())
            }
        },
    }
}

} // verus!
