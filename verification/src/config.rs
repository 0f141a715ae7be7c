use vstd::prelude::*;
use vstd::string::StringExecFns;

verus! {

/// Startup configuration: device identity, broker connection parameters,
/// and the two strip dimensions. Resolved once before the orchestrator is
/// built, immutable afterwards; absent length values fall back to the
/// documented defaults.
pub struct Config {
    pub device_name: String,
    pub mqtt_host: String,
    pub mqtt_port: u16,
    pub mqtt_channel: String,
    pub wheel_length: Option<i32>,
    pub strip_length: Option<i32>,
}

impl Config {
    /// The wheel length, or its documented default of 78 when absent.
    pub open spec fn spec_wheel_length(self) -> i32 {
        match self.wheel_length {
            Some(wl) => wl,
            None => 78,
        }
    }

    /// The strip length, or its documented default of 96 when absent.
    pub open spec fn spec_strip_length(self) -> i32 {
        match self.strip_length {
            Some(sl) => sl,
            None => 96,
        }
    }

    /// The configured wheel length, with its default for an absent value.
    pub fn get_wheel_length(&self) -> (r: i32)
        ensures
            r == self.spec_wheel_length(),
    {
        match self.wheel_length {
            Some(wl) => wl,
            None => 78,
        }
    }

    /// The configured strip length, with its default for an absent value.
    pub fn get_strip_length(&self) -> (r: i32)
        ensures
            r == self.spec_strip_length(),
    {
        match self.strip_length {
            Some(sl) => sl,
            None => 96,
        }
    }
}

impl Default for Config {
    /// The documented default configuration.
    fn default() -> (c: Config)
        ensures
            c.device_name@ == "DDD_leds"@,
            c.mqtt_host@ == "localhost"@,
            c.mqtt_port == 1883,
            c.mqtt_channel@ == "home/leds"@,
            c.wheel_length == Some(78i32),
            c.strip_length == Some(96i32),
    {
        Config {
            device_name: String::from_str("DDD_leds"),
            mqtt_host: String::from_str("localhost"),
            mqtt_port: 1883,
            mqtt_channel: String::from_str("home/leds"),
            wheel_length: Some(78),
            strip_length: Some(96),
        }
    }
}

} // verus!
