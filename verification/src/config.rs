//! Configuration consumed by the control core: a target host override that
//! skips discovery, the discovery timeout, an advisory reconnect delay, and
//! presentation knobs. Reading and writing the configuration file is the
//! surrounding glue's business.

use vstd::prelude::*;

verus! {

/// Default discovery timeout, in seconds.
pub fn default_discovery_timeout() -> (r: u64)
    ensures
        r == 5,
{
    5
}

/// Default reconnect delay, in seconds; advisory only, the core never
/// reconnects on its own.
pub fn default_reconnect_delay() -> (r: u64)
    ensures
        r == 3,
{
    3
}

/// Default volume step for the step-wise volume verbs.
pub fn default_volume_step() -> (r: u8)
    ensures
        r == 5,
{
    5
}

/// Default refresh rate of the surrounding event loop, in milliseconds.
pub fn default_refresh_rate() -> (r: u64)
    ensures
        r == 250,
{
    250
}

/// Connection settings.
#[derive(Debug, PartialEq)]
pub struct ConnectionConfig {
    pub host: Option<String>,
    pub discovery_timeout: u64,
    pub reconnect_delay: u64,
}

impl Default for ConnectionConfig {
    fn default() -> (r: Self)
        ensures
            r.host is None,
            r.discovery_timeout == 5,
            r.reconnect_delay == 3,
    {
        ConnectionConfig {
            host: None,
            discovery_timeout: default_discovery_timeout(),
            reconnect_delay: default_reconnect_delay(),
        }
    }
}

impl Clone for ConnectionConfig {
    fn clone(&self) -> (r: Self)
        ensures
            r == *self,
    {
        let host = match &self.host {
            Some(h) => Some(h.clone()),
            None => None,
        };
        ConnectionConfig {
            host,
            discovery_timeout: self.discovery_timeout,
            reconnect_delay: self.reconnect_delay,
        }
    }
}

/// Presentation settings the core hands through.
#[derive(Debug, PartialEq)]
pub struct UiConfig {
    pub volume_step: u8,
    pub refresh_rate: u64,
}

impl Default for UiConfig {
    fn default() -> (r: Self)
        ensures
            r.volume_step == 5,
            r.refresh_rate == 250,
    {
        UiConfig { volume_step: default_volume_step(), refresh_rate: default_refresh_rate() }
    }
}

impl Clone for UiConfig {
    fn clone(&self) -> (r: Self)
        ensures
            r == *self,
    {
        UiConfig { volume_step: self.volume_step, refresh_rate: self.refresh_rate }
    }
}

/// The whole configuration.
#[derive(Debug, PartialEq)]
pub struct Config {
    pub connection: ConnectionConfig,
    pub ui: UiConfig,
}

impl Default for Config {
    fn default() -> (r: Self)
        ensures
            r.connection.host is None,
            r.connection.discovery_timeout == 5,
            r.connection.reconnect_delay == 3,
            r.ui.volume_step == 5,
            r.ui.refresh_rate == 250,
    {
        Config { connection: ConnectionConfig::default(), ui: UiConfig::default() }
    }
}

impl Clone for Config {
    fn clone(&self) -> (r: Self)
        ensures
            r == *self,
    {
        Config { connection: self.connection.clone(), ui: self.ui.clone() }
    }
}

} // verus!
