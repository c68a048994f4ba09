//! The website monitor's bookkeeping: what one probe changes in the record of
//! a site and when a notification is due.

use vstd::prelude::*;

verus! {

/// A monitored site and what the last probe found.
#[derive(Debug)]
pub struct Website {
    pub url: String,
    pub is_down: bool,
    pub last_checked: String,
    pub notification_cleared: bool,
}

/// The outcome of one probe of a site.
#[derive(Clone, Copy, Debug, PartialEq, Eq, Structural)]
pub enum Probe {
    /// The site answered with this status.
    Answered(u16),
    /// The request failed or timed out.
    Unreachable,
}

/// Seconds after which a probe is given up.
pub const PROBE_TIMEOUT_SECONDS: u64 = 10;

/// A site is down unless it answered with a status of the success class.
pub open spec fn is_down_after(probe: Probe) -> bool {
    match probe {
        Probe::Answered(status) => !(200 <= status <= 299),
        Probe::Unreachable => true,
    }
}

/// Records one probe. The site's state and time of check are replaced; a
/// notification is due exactly when the site went down just now and its
/// notification has not been cleared; a site that came back has its cleared
/// mark reset.
pub fn record_check(site: &mut Website, probe: Probe, checked_at: String) -> (notify: bool)
    ensures
        final(site).url@ == old(site).url@,
        final(site).is_down == is_down_after(probe),
        final(site).last_checked@ == checked_at@,
        final(site).notification_cleared == (if !is_down_after(probe) && old(site).is_down {
            false
        } else {
            old(site).notification_cleared
        }),
        notify == (is_down_after(probe) && !old(site).is_down && !old(site).notification_cleared),
{
    let was_down = site.is_down;
    let down = match probe {
        Probe::Answered(status) => status < 200 || status > 299,
        Probe::Unreachable => true,
    };
    site.is_down = down;
    site.last_checked = checked_at;
    let notify = down && !was_down && !site.notification_cleared;
    if !down && was_down {
        site.notification_cleared = false;
    }
    notify
}

/// The body of the notification for a site that went down.
pub fn down_notice(url: &str) -> (body: String)
    ensures
        body@ == url@ + " is not responding"@,
{
    String::from_str(url).concat(" is not responding")
}

/// The message that reports a finished round of probes at the given time.
pub fn check_message(finished_at: &str) -> (message: String)
    ensures
        message@ == "Websites checked successfully at "@ + finished_at@ + "!"@,
{
    String::from_str("Websites checked successfully at ").concat(finished_at).concat("!")
}

/// The greeting returned for a name.
pub fn greet(name: &str) -> (greeting: String)
    ensures
        greeting@ == "Hello, "@ + name@ + "! You've been greeted from Rust!"@,
{
    String::from_str("Hello, ").concat(name).concat("! You've been greeted from Rust!")
}

} // verus!
