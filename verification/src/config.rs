//! Configuration: the settings of the media layer with their defaults, and
//! reading the application's settings from their textual values.
use crate::text::{chars_of, dec, owned, parse_u64, parse_u64_chars, push_str, str_is, string_of, u64_digits};
use vstd::prelude::*;

verus! {

/// Settings of the S3-compatible object storage.
#[derive(Debug, Clone)]
pub struct StorageConfig {
    pub endpoint: String,
    pub access_key: String,
    pub secret_key: String,
    pub bucket: String,
    pub region: String,
    pub path_style: bool,
}

impl Default for StorageConfig {
    /// A local RustFS server on port 9002 with its stock credentials, bucket `pavilion`.
    fn default() -> (c: Self)
        ensures
            c.endpoint@ == "http://localhost:9002"@,
            c.access_key@ == "rustfsadmin"@,
            c.secret_key@ == "rustfsadmin"@,
            c.bucket@ == "pavilion"@,
            c.region@ == "us-east-1"@,
            c.path_style,
    {
        StorageConfig {
            endpoint: owned("http://localhost:9002"),
            access_key: owned("rustfsadmin"),
            secret_key: owned("rustfsadmin"),
            bucket: owned("pavilion"),
            region: owned("us-east-1"),
            path_style: true,
        }
    }
}

/// Settings of the transcoding pipeline.
#[derive(Debug, Clone)]
pub struct TranscodeConfig {
    pub ffmpeg_path: String,
    pub work_dir: String,
    pub max_concurrent: usize,
}

impl Default for TranscodeConfig {
    /// `ffmpeg` from the path, working under `/tmp/pavilion-media`, two jobs at a time.
    fn default() -> (c: Self)
        ensures
            c.ffmpeg_path@ == "ffmpeg"@,
            c.work_dir@ == "/tmp/pavilion-media"@,
            c.max_concurrent == 2,
    {
        TranscodeConfig {
            ffmpeg_path: owned("ffmpeg"),
            work_dir: owned("/tmp/pavilion-media"),
            max_concurrent: 2,
        }
    }
}

/// Settings of segment token signing.
#[derive(Debug, Clone)]
pub struct TokenConfig {
    pub secret: String,
    pub ttl_secs: u64,
    pub segment_url_prefix: String,
}

impl Default for TokenConfig {
    /// A placeholder secret, five-minute tokens, segments under `/segments/`.
    fn default() -> (c: Self)
        ensures
            c.secret@ == "change-me-in-production"@,
            c.ttl_secs == 300,
            c.segment_url_prefix@ == "/segments/"@,
    {
        TokenConfig {
            secret: owned("change-me-in-production"),
            ttl_secs: 300,
            segment_url_prefix: owned("/segments/"),
        }
    }
}

/// What `str::parse::<u16>` gives.
pub open spec fn parse_u16(s: Seq<char>) -> Option<u16> {
    match parse_u64(s) {
        Some(v) => if v <= 65535 {
            Some(v as u16)
        } else {
            None
        },
        None => None,
    }
}

/// Reads the listening port; a value that is not a port number is an error.
pub fn parse_port(text: &str) -> (r: Result<u16, String>)
    ensures
        match parse_u16(text@) {
            Some(p) => r == Ok::<u16, String>(p),
            None => r matches Err(m) && m@ == "PORT must be a valid number"@,
        },
{
    match parse_u64_chars(chars_of(text).as_slice()) {
        Some(v) => if v <= 65535 {
            Ok(v as u16)
        } else {
            Err(owned("PORT must be a valid number"))
        },
        None => Err(owned("PORT must be a valid number")),
    }
}

/// Reads an on/off setting as `bool::from_str` does, with `default` where
/// the text is neither `true` nor `false`.
pub fn parse_flag(text: &str, default: bool) -> (b: bool)
    ensures
        b == (if text@ == "true"@ {
            true
        } else if text@ == "false"@ {
            false
        } else {
            default
        }),
{
    if str_is(text, "true") {
        true
    } else if str_is(text, "false") {
        false
    } else {
        default
    }
}

/// An optional setting: unset and empty both count as absent.
pub fn optional_setting(value: Option<String>) -> (r: Option<String>)
    ensures
        r is Some <==> (value matches Some(v) && v@.len() > 0),
        r matches Some(v) ==> value == Some(v),
{
    match value {
        Some(v) => if chars_of(v.as_str()).len() > 0 {
            Some(v)
        } else {
            None
        },
        None => None,
    }
}

/// The address the server listens on, `host:port`.
pub fn bind_addr(host: &str, port: u16) -> (r: String)
    ensures
        r@ == host@ + ":"@ + dec(port as nat),
{
    let mut v = chars_of(host);
    push_str(&mut v, ":");
    crate::text::append(&mut v, u64_digits(port as u64).as_slice());
    string_of(v.as_slice())
}

/// Payments are on where the provider's secret key is configured.
pub fn payments_enabled(stripe_secret_key: &Option<String>) -> (b: bool)
    ensures
        b == stripe_secret_key is Some,
{
    stripe_secret_key.is_some()
}

} // verus!
