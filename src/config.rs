//! Configuration of the watcher: the targets, the heartbeat interval and the
//! notification channels, with their defaults.

use vstd::prelude::*;

pub use crate::duration::format_duration;
use crate::duration::Duration;

verus! {

/// Relies on lettre::transport::smtp::SMTP_PORT, the standard SMTP port.
#[verifier::external_body]
fn smtp_port() -> (p: u16)
    ensures
        p == 25,
{
    lettre::transport::smtp::SMTP_PORT
}

/// The SMTP port used when none is configured.
pub fn default_smtp_port() -> (p: u16)
    ensures
        p == 25,
{
    smtp_port()
}

/// The protocol of a target when none is configured.
pub fn default_protocol() -> (s: String)
    ensures
        s@ == "http"@,
{
    String::from_str("http")
}

/// Whether a protocol goes without saying: empty, or the default one.
pub fn skip_protocol(value: &String) -> (r: bool)
    ensures
        r == (value@.len() == 0 || value@ == "http"@),
{
    value.unicode_len() == 0 || *value == default_protocol()
}

/// The HTTP method of a target when none is configured.
pub fn default_method() -> (s: String)
    ensures
        s@ == "GET"@,
{
    String::from_str("GET")
}

/// Whether a method goes without saying: the default one.
pub fn skip_method(value: &String) -> (r: bool)
    ensures
        r == (value@ == "GET"@),
{
    *value == default_method()
}

/// The jitter of a target when none is configured, in millionths of its interval.
pub fn default_variation() -> (v: u32)
    ensures
        v == 0,
{
    0
}

/// Whether a jitter goes without saying: the default one.
pub fn skip_variation(value: &u32) -> (r: bool)
    ensures
        r == (*value == 0),
{
    *value == default_variation()
}

/// The bound of the initial random delay when none is configured: none at all.
pub fn default_stagger() -> (d: Duration)
    ensures
        d.secs == 0,
        d.nanos == 0,
{
    Duration::from_secs(0)
}

/// Whether a stagger bound goes without saying: zero.
pub fn skip_stagger(value: &Duration) -> (r: bool)
    ensures
        r == (value.secs == 0 && value.nanos == 0),
{
    let d = default_stagger();
    value.secs == d.secs && value.nanos == d.nanos
}

/// The whole configuration.
#[derive(Debug)]
pub struct Config {
    /// Notification methods (informational).
    pub notify: Vec<String>,
    /// Interval between heartbeats.
    pub heartbeat: Duration,
    pub log: LogConfig,
    pub http: HttpConfig,
    pub discord: DiscordConfig,
    pub email: MailConfig,
    pub watch: Vec<WatchEntry>,
}

#[derive(Debug)]
pub struct LogConfig {
    pub enabled: bool,
    pub level: String,
    pub file: Option<String>,
}

#[derive(Debug)]
pub struct HttpConfig {
    pub user_agent: Option<String>,
}

#[derive(Debug)]
pub struct DiscordConfig {
    pub enabled: bool,
    pub token: String,
    pub purge: bool,
    /// Id of the oldest message that purging may delete after.
    pub purge_after: u64,
}

#[derive(Debug)]
pub struct MailConfig {
    pub enabled: bool,
    pub smtp_host: String,
    pub smtp_port: u16,
    pub smtp_use_tls: bool,
    pub smtp_username: String,
    pub smtp_password: String,
    pub from_address: String,
    pub to_address: String,
}

/// One watched target.
#[derive(Debug)]
pub struct WatchEntry {
    pub protocol: String,
    pub url: String,
    /// HTTP method name, such as `GET`.
    pub method: String,
    /// Request headers, each written `name=value`.
    pub headers: Vec<String>,
    /// Base delay between two fetches.
    pub interval: Duration,
    /// Upper bound of the random delay added to `interval`, in millionths of it.
    pub variation_ppm: u32,
    /// Upper bound of the random delay before the first fetch.
    pub stagger: Duration,
    /// Regular expressions whose matches are ignored when comparing content.
    pub ignore: Vec<String>,
}

impl HttpConfig {
    /// The user agent to send: the configured one, or `fallback` when it is absent or empty.
    pub fn user_agent_or(&self, fallback: &str) -> (r: String)
        ensures
            r@ == match self.user_agent {
                Some(ua) if ua@.len() > 0 => ua@,
                _ => fallback@,
            },
    {
        match &self.user_agent {
            Some(ua) if ua.unicode_len() > 0 => ua.clone(),
            _ => fallback.to_owned(),
        }
    }
}

impl Default for LogConfig {
    fn default() -> (r: LogConfig)
        ensures
            !r.enabled,
            r.level@.len() == 0,
            r.file is None,
    {
        LogConfig { enabled: false, level: String::new(), file: None }
    }
}

impl Default for HttpConfig {
    fn default() -> (r: HttpConfig)
        ensures
            r.user_agent is None,
    {
        HttpConfig { user_agent: None }
    }
}

impl Default for DiscordConfig {
    fn default() -> (r: DiscordConfig)
        ensures
            !r.enabled,
            r.token@.len() == 0,
            !r.purge,
            r.purge_after == 0,
    {
        DiscordConfig { enabled: false, token: String::new(), purge: false, purge_after: 0 }
    }
}

impl Default for MailConfig {
    fn default() -> (r: MailConfig)
        ensures
            !r.enabled,
            r.smtp_host@ == "127.0.0.1"@,
            r.smtp_port == 25,
            r.smtp_use_tls,
            r.smtp_username@.len() == 0,
            r.smtp_password@.len() == 0,
            r.from_address@ == "Dominion <dominion@example.com>"@,
            r.to_address@.len() == 0,
    {
        MailConfig {
            enabled: false,
            smtp_host: String::from_str("127.0.0.1"),
            smtp_port: default_smtp_port(),
            smtp_use_tls: true,
            smtp_username: String::new(),
            smtp_password: String::new(),
            from_address: String::from_str("Dominion <dominion@example.com>"),
            to_address: String::new(),
        }
    }
}

impl Default for WatchEntry {
    fn default() -> (r: WatchEntry)
        ensures
            r.protocol@.len() == 0,
            r.url@.len() == 0,
            r.method@ == "GET"@,
            r.headers@.len() == 0,
            r.interval == Duration::from_secs_spec(0),
            r.variation_ppm == 0,
            r.stagger == Duration::from_secs_spec(0),
            r.ignore@.len() == 0,
    {
        WatchEntry {
            protocol: String::new(),
            url: String::new(),
            method: default_method(),
            headers: Vec::new(),
            interval: Duration::from_secs(0),
            variation_ppm: 0,
            stagger: Duration::from_secs(0),
            ignore: Vec::new(),
        }
    }
}

impl WatchEntry {
    /// A target fetched with GET every `interval_secs` seconds plus up to
    /// `variation_ppm` millionths of that at random, first after up to `stagger_secs`.
    fn example(url: &str, interval_secs: u64, variation_ppm: u32, stagger_secs: u64) -> (r: WatchEntry)
        ensures
            r.protocol@ == "http"@,
            r.url@ == url@,
            r.method@ == "GET"@,
            r.headers@.len() == 0,
            r.interval == Duration::from_secs_spec(interval_secs),
            r.variation_ppm == variation_ppm,
            r.stagger == Duration::from_secs_spec(stagger_secs),
            r.ignore@.len() == 0,
    {
        WatchEntry {
            protocol: default_protocol(),
            url: url.to_owned(),
            method: default_method(),
            headers: Vec::new(),
            interval: Duration::from_secs(interval_secs),
            variation_ppm,
            stagger: Duration::from_secs(stagger_secs),
            ignore: Vec::new(),
        }
    }
}

impl Default for Config {
    /// Two example targets, a heartbeat every ten minutes, both channels disabled.
    fn default() -> (r: Config)
        ensures
            r.notify@.len() == 2,
            r.notify[0]@ == "email"@,
            r.notify[1]@ == "discord"@,
            r.heartbeat == Duration::from_secs_spec(600),
            r.log.enabled,
            r.log.level@ == "warn,dominion=info"@,
            r.log.file is None,
            r.http.user_agent is None,
            !r.discord.enabled,
            !r.email.enabled,
            r.watch@.len() == 2,
            forall|i: int| 0 <= i < 2 ==> {
                &&& (#[trigger] r.watch[i]).protocol@ == "http"@
                &&& r.watch[i].method@ == "GET"@
                &&& r.watch[i].headers@.len() == 0
                &&& r.watch[i].ignore@.len() == 0
            },
            r.watch[0].url@ == "https://example.com"@,
            r.watch[0].interval == Duration::from_secs_spec(30),
            r.watch[0].variation_ppm == 250000,
            r.watch[0].stagger == Duration::from_secs_spec(5),
            r.watch[1].url@ == "https://example2.com"@,
            r.watch[1].interval == Duration::from_secs_spec(600),
            r.watch[1].variation_ppm == 0,
            r.watch[1].stagger == Duration::from_secs_spec(0),
    {
        let mut notify = Vec::new();
        notify.push(String::from_str("email"));
        notify.push(String::from_str("discord"));
        let mut watch = Vec::new();
        // 25%: requests every hour land between 1h and 1h15m apart
        watch.push(WatchEntry::example("https://example.com", 30, 250000, 5));
        watch.push(WatchEntry::example("https://example2.com", 600, default_variation(), 0));
        Config {
            notify,
            heartbeat: Duration::from_secs(600),
            log: LogConfig {
                enabled: true,
                level: String::from_str("warn,dominion=info"),
                file: None,
            },
            http: HttpConfig::default(),
            discord: DiscordConfig::default(),
            email: MailConfig::default(),
            watch,
        }
    }
}

} // verus!
