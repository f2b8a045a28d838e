//! The monitor-pair configuration: which monitor is primary, which is
//! secondary, and how far apart the paired workspace ranges sit.
use vstd::prelude::*;

use crate::hyprctl::{
    json_opt_string_field, json_u32_field, parse_json_value,
};

verus! {

pub const DEFAULT_PAIRED_OFFSET: u32 = 10;

pub const DEFAULT_WORKSPACE_COUNT: u32 = DEFAULT_PAIRED_OFFSET;

/// The pairing configuration, loaded once at start and immutable after.
#[derive(Debug)]
pub struct Config {
    pub primary_monitor: String,
    pub secondary_monitor: String,
    pub paired_offset: u32,
    pub workspace_count: u32,
    pub wrap_cycling: bool,
}

impl Config {
    /// The invariant every loaded configuration satisfies: the offset is
    /// at least one, and small enough that `2 * offset` fits a `u32`.
    pub open spec fn wf(&self) -> bool {
        1 <= self.paired_offset <= 0x7fff_ffff
    }
}

/// A failure while loading the configuration: unparseable or ill-shaped
/// JSON, an unreadable file, or a missing required field.
#[derive(Debug)]
pub enum ConfigError {
    InvalidJson,
    Io(std::io::Error),
    MissingField(&'static str),
}

/// Reads an optional unsigned 32-bit field: absent or null is
/// `Some(None)`, an in-range integer is `Some(Some(..))`, anything else a
/// failure.
fn json_opt_u32_field(v: &serde_json::Value, key: &str) -> Option<Option<u32>> {
    match v.get(key) {
        Some(field) => if field.is_null() {
            Some(None)
        } else {
            match field.as_u64() {
                Some(n) => if n <= u32::MAX as u64 {
                    Some(Some(n as u32))
                } else {
                    None
                },
                None => None,
            }
        },
        None => Some(None),
    }
}

/// Reads an optional boolean field in the same shape.
fn json_opt_bool_field(v: &serde_json::Value, key: &str) -> Option<Option<bool>> {
    match v.get(key) {
        Some(field) => if field.is_null() {
            Some(None)
        } else {
            match field.as_bool() {
                Some(b) => Some(Some(b)),
                None => None,
            }
        },
        None => Some(None),
    }
}

impl Config {
    /// Parses a configuration document.  The workspace count falls back to
    /// the paired offset, which itself defaults to ten; whichever count
    /// wins is used for both fields.  A present but ill-typed field is
    /// invalid JSON; an absent or empty monitor name is a missing field.
    pub fn from_json(input: &str) -> (r: Result<Config, ConfigError>)
        ensures
            match r {
                Ok(config) => config.paired_offset == config.workspace_count
                    && config.primary_monitor@.len() > 0 && config.secondary_monitor@.len() > 0,
                Err(_) => true,
            },
    {
        let parsed = match parse_json_value(input) {
            Ok(v) => v,
            Err(_) => { return Err(ConfigError::InvalidJson); },
        };
        if !parsed.is_object() {
            return Err(ConfigError::InvalidJson);
        }
        let primary = match json_opt_string_field(&parsed, "primary_monitor") {
            Some(primary) => primary,
            None => { return Err(ConfigError::InvalidJson); },
        };
        let secondary = match json_opt_string_field(&parsed, "secondary_monitor") {
            Some(secondary) => secondary,
            None => { return Err(ConfigError::InvalidJson); },
        };
        let paired_offset = match json_opt_u32_field(&parsed, "paired_offset") {
            Some(Some(offset)) => offset,
            Some(None) => DEFAULT_PAIRED_OFFSET,
            None => { return Err(ConfigError::InvalidJson); },
        };
        let workspace_count_field = match json_opt_u32_field(&parsed, "workspace_count") {
            Some(count) => count,
            None => { return Err(ConfigError::InvalidJson); },
        };
        let wrap_cycling = match json_opt_bool_field(&parsed, "wrap_cycling") {
            Some(Some(wrap)) => wrap,
            Some(None) => true,
            None => { return Err(ConfigError::InvalidJson); },
        };

        let primary_monitor = match primary {
            Some(name) => if name.as_str().is_empty() {
                return Err(ConfigError::MissingField("primary_monitor"));
            } else {
                name
            },
            None => { return Err(ConfigError::MissingField("primary_monitor")); },
        };
        let secondary_monitor = match secondary {
            Some(name) => if name.as_str().is_empty() {
                return Err(ConfigError::MissingField("secondary_monitor"));
            } else {
                name
            },
            None => { return Err(ConfigError::MissingField("secondary_monitor")); },
        };
        let workspace_count = match workspace_count_field {
            Some(count) => count,
            None => paired_offset,
        };

        Ok(
            Config {
                primary_monitor,
                secondary_monitor,
                paired_offset: workspace_count,
                workspace_count,
                wrap_cycling,
            },
        )
    }
}

impl core::str::FromStr for Config {
    type Err = ConfigError;

    fn from_str(input: &str) -> Result<Config, ConfigError> {
        Config::from_json(input)
    }
}

} // verus!
