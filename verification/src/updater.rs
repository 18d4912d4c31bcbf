//! Update-check bookkeeping: what an available update looks like and the
//! release channel plus last-check time. Talking to the update server and
//! installing downloads is host work; the host records its results here.

use vstd::prelude::*;

verus! {

/// An available update, as reported by the host's update check.
#[derive(Debug, Clone)]
pub struct UpdateInfo {
    pub version: String,
    pub body: String,
    pub date: Option<String>,
    pub url: Option<String>,
}

/// Owns the release channel and the time of the last successful check.
pub struct UpdaterManager {
    pub channel: String,
    pub last_check: Option<u64>,
}

impl UpdaterManager {
    /// A manager on the given release channel, with no check recorded yet.
    pub fn new(channel: String) -> (r: Self)
        ensures
            r.channel == channel,
            r.last_check is None,
    {
        UpdaterManager { channel, last_check: None }
    }

    /// Records the time of a successful update check.
    pub fn record_check(&mut self, now: u64)
        ensures
            final(self).channel == old(self).channel,
            final(self).last_check == Some(now),
    {
        self.last_check = Some(now);
    }

    /// The time of the last successful check, if any.
    pub fn get_last_check_time(&self) -> (r: Option<u64>)
        ensures
            r == self.last_check,
    {
        self.last_check
    }

    /// Switches the release channel.
    pub fn set_channel(&mut self, channel: String)
        ensures
            final(self).channel == channel,
            final(self).last_check == old(self).last_check,
    {
        self.channel = channel;
    }

    /// The current release channel.
    pub fn get_channel(&self) -> (r: String)
        ensures
            r == self.channel,
    {
        self.channel.clone()
    }

    /// Whether a cached update is known to be available; nothing is cached
    /// yet, so never.
    pub fn is_update_available(&self) -> (r: bool)
        ensures
            r == false,
    {
        false
    }
}

} // verus!
