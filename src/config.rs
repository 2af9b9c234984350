//! Settings of the event layer, resolved once at startup.
use vstd::prelude::*;

use crate::interval::{duration_of, short_numerals, Interval};
use crate::keys::{interrupt_key, Key};

verus! {

/// Why the settings could not be resolved.
#[derive(PartialEq, Eq, Structural, Clone, Copy, Debug)]
pub enum ConfigError {
    /// The tick interval text is not a duration expression.
    InvalidInterval,
}

/// The exit key and the time between two ticks.
#[derive(PartialEq, Eq, Structural, Clone, Copy, Debug)]
pub struct EventConfig {
    pub exit_key: Key,
    pub tick_rate: Interval,
}

/// The settings for a given tick interval: the interrupt key exits.
pub open spec fn config_with(tick_rate: Interval) -> EventConfig {
    EventConfig { exit_key: interrupt_key(), tick_rate }
}

/// The default settings: one tick a second.
pub open spec fn default_config() -> EventConfig {
    config_with(Interval { secs: 1, nanos: 0 })
}

/// The settings that an optional interval text resolves to: the default
/// without a text, the text's duration where it reads as one and holds few
/// enough digits, else nothing.
pub open spec fn resolved(text: Option<Seq<char>>) -> Option<EventConfig> {
    match text {
        None => Some(default_config()),
        Some(t) => if !short_numerals(t) {
            None
        } else {
            match duration_of(t) {
                Some(v) => Some(config_with(Interval { secs: v.0, nanos: v.1 })),
                None => None,
            }
        },
    }
}

impl EventConfig {
    /// The interval is a well-formed span.
    pub open spec fn wf(&self) -> bool {
        self.tick_rate.wf()
    }

    /// Settings that tick every `tick_rate`; the interrupt key exits.
    pub fn new(tick_rate: Interval) -> (r: EventConfig)
        ensures
            r == config_with(tick_rate),
    {
        EventConfig { exit_key: Key::Ctrl('c'), tick_rate }
    }

    /// Resolves the settings from an optional human-friendly interval text;
    /// without one, the default applies.
    pub fn resolve(tick_rate: &Option<String>) -> (r: Result<EventConfig, ConfigError>)
        ensures
            r is Ok <==> resolved(option_view(tick_rate)) is Some,
            r matches Ok(c) ==> c.wf() && resolved(option_view(tick_rate)) == Some(c),
            r matches Err(e) ==> e == ConfigError::InvalidInterval,
    {
        match tick_rate {
            Some(text) => {
                let rate = Interval::parse(text.as_str())?;
                Ok(EventConfig::new(rate))
            },
            None => Ok(EventConfig::default()),
        }
    }
}

/// The characters of an optional text.
pub open spec fn option_view(text: &Option<String>) -> Option<Seq<char>> {
    match text {
        Some(t) => Some(t@),
        None => None,
    }
}

impl Default for EventConfig {
    fn default() -> (r: EventConfig)
        ensures
            r == default_config(),
    {
        EventConfig { exit_key: Key::Ctrl('c'), tick_rate: Interval::from_secs(1) }
    }
}

} // verus!
