//! The settings of a run. They are fixed once and only read afterwards.

use vstd::prelude::*;

verus! {

/// Everything a run is parameterised by.
#[derive(Debug)]
pub struct Config {
    /// Base URL expected to accept the probe.
    pub valid_url: String,
    /// Base URL expected to reject or blackhole the probe.
    pub invalid_url: String,
    /// Characters the request identifier is drawn from.
    pub alphabet: String,
    /// Per-request timeout, in seconds.
    pub timeout: usize,
}

impl Config {
    /// The timeout as the number of whole seconds handed to the transport.
    pub fn timeout_secs(&self) -> (secs: u64)
        ensures
            secs == self.timeout,
    {
        self.timeout as u64
    }
}

impl Default for Config {
    /// The public validation service, a hexadecimal alphabet and three
    /// seconds per request.
    fn default() -> (config: Config)
        ensures
            config.valid_url@ == "https://valid.rpki.isbgpsafeyet.com"@,
            config.invalid_url@ == "https://invalid.rpki.isbgpsafeyet.com"@,
            config.alphabet@ == "1234567890abcdef"@,
            config.timeout == 3,
    {
        Config {
            valid_url: "https://valid.rpki.isbgpsafeyet.com".to_owned(),
            invalid_url: "https://invalid.rpki.isbgpsafeyet.com".to_owned(),
            alphabet: "1234567890abcdef".to_owned(),
            timeout: 3,
        }
    }
}

} // verus!
