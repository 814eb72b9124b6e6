use vstd::prelude::*;

use crate::fresh::{default_fresh_duration, UserFreshDuration};
use crate::scheduler::Scheduler;
use crate::text::{decimal_of, u16_text};

verus! {

/// The proxy that outbound requests may go through.
pub struct Proxy {
    pub host: Option<String>,
    pub port: Option<u16>,
}

impl Proxy {
    /// `host:port`, when both are set.
    pub fn get_uri(&self) -> (r: Option<String>)
        ensures
            match r {
                Some(u) => self.host is Some && self.port is Some && u@ == self.host->Some_0@ + ":"@
                    + decimal_of(self.port->Some_0 as int),
                None => self.host is None || self.port is None,
            },
    {
        match (&self.host, self.port) {
            (Some(host), Some(port)) => {
                let mut u = host.clone();
                u.append(":");
                let p = u16_text(port);
                u.append(p.as_str());
                Some(u)
            },
            _ => None,
        }
    }
}

impl Default for Proxy {
    fn default() -> (r: Proxy)
        ensures
            r.host is None,
            r.port is None,
    {
        Proxy { host: None, port: None }
    }
}

/// Relies on rand's `Rng::random_range` over the thread-local generator: a
/// value in `0..n`; it panics only on an empty range.
#[verifier::external_body]
fn random_index(n: usize) -> (r: usize)
    requires
        n > 0,
    ensures
        r < n,
{
    rand::Rng::random_range(&mut rand::rng(), 0..n)
}

/// Where user data is read from, and how long it stays fresh.
pub struct User {
    /// The addresses the site is served from; one is picked for each request.
    pub origins: Vec<String>,
    pub fresh_duration: UserFreshDuration,
    /// How many months of inactivity make an active user abandoned.
    pub active_month: u32,
}

impl User {
    pub fn default_origins() -> (r: Vec<String>)
        ensures
            r@.len() == 3,
            r@[0]@ == "https://bgm.tv"@,
            r@[1]@ == "https://chii.in"@,
            r@[2]@ == "https://bangumi.tv"@,
    {
        let mut v: Vec<String> = Vec::new();
        v.push(String::from_str("https://bgm.tv"));
        v.push(String::from_str("https://chii.in"));
        v.push(String::from_str("https://bangumi.tv"));
        v
    }

    pub fn default_active_month() -> (r: u32)
        ensures
            r == 6,
    {
        6
    }

    /// One of the origins, picked at random.
    pub fn random_origin(&self) -> (r: &String)
        requires
            self.origins@.len() > 0,
        ensures
            exists|i: int| 0 <= i < self.origins@.len() && *r == self.origins@[i],
    {
        let i = random_index(self.origins.len());
        &self.origins[i]
    }
}

impl Default for User {
    fn default() -> (r: User)
        ensures
            r.origins@.len() == 3,
            r.origins@[0]@ == "https://bgm.tv"@,
            r.origins@[1]@ == "https://chii.in"@,
            r.origins@[2]@ == "https://bangumi.tv"@,
            r.fresh_duration == default_fresh_duration(),
            r.active_month == 6,
    {
        User {
            origins: User::default_origins(),
            fresh_duration: UserFreshDuration::default(),
            active_month: User::default_active_month(),
        }
    }
}

/// Where the on-air catalog is mirrored from.
pub struct OnAir {
    pub mirror: String,
}

impl OnAir {
    pub fn default_mirror() -> (r: String)
        ensures
            r@ == "https://github.com/bangumi-data/bangumi-data/raw/refs/heads/master/dist/data.json"@,
    {
        String::from_str("https://github.com/bangumi-data/bangumi-data/raw/refs/heads/master/dist/data.json")
    }
}

/// The schedules of the recurring jobs.
pub struct SchedulerConfig {
    pub onair: Scheduler,
    pub user: Scheduler,
}

} // verus!
