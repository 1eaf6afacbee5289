//! Configuration file structures: every setting is optional, and what the
//! file leaves out keeps its default.

pub mod backends;
pub mod strings;

pub use backends::{BatsignConfig, CommandConfig, PrintlnConfig, SlackConfig};
pub use strings::MessageStrings;

use vstd::prelude::*;

use crate::settings::Settings;
use crate::source::ChoiceOfInputSource;
use crate::time::HumanDuration;

verus! {

/// Configuration of the monitor loop.
pub struct MonitorConfig {
    /// The input source to monitor.
    pub source: ChoiceOfInputSource,
    /// The interval at which to check the input source.
    pub loop_interval: Option<HumanDuration>,
    /// How long a startup has to last before it counts as successful.
    pub startup_window: Option<HumanDuration>,
}

/// Configuration of the GPIO input source.
pub struct GpioConfig {
    /// The GPIO pin to which the burner is connected.
    pub pin: Option<u8>,
}

/// Configuration of the dummy input source.
pub struct DummyInputSourceConfig {
    /// Cycle length of the readings.
    pub modulus: Option<u32>,
    /// Point in the cycle where readings turn from LOW to HIGH.
    pub threshold: Option<u32>,
}

/// The configuration file.
pub struct Config {
    /// Configuration of the monitor loop.
    pub monitor: MonitorConfig,
    /// Configuration of the GPIO input source.
    pub gpio: GpioConfig,
    /// Configuration of the dummy input source.
    pub dummy_input: DummyInputSourceConfig,
    /// Configuration of the Slack backend.
    pub slack: SlackConfig,
    /// Configuration of the Batsign backend.
    pub batsign: BatsignConfig,
    /// Configuration of the external command backend.
    pub command: CommandConfig,
    /// Configuration of the println backend.
    pub println: PrintlnConfig,
}

impl Default for MonitorConfig {
    fn default() -> (r: Self)
        ensures
            r.source == ChoiceOfInputSource::Gpio,
            r.loop_interval is None,
            r.startup_window is None,
    {
        MonitorConfig { source: ChoiceOfInputSource::Gpio, loop_interval: None, startup_window: None }
    }
}

impl Default for GpioConfig {
    fn default() -> (r: Self)
        ensures
            r.pin is None,
    {
        GpioConfig { pin: None }
    }
}

impl Default for DummyInputSourceConfig {
    fn default() -> (r: Self)
        ensures
            r.modulus is None,
            r.threshold is None,
    {
        DummyInputSourceConfig { modulus: None, threshold: None }
    }
}

impl Default for Config {
    fn default() -> (r: Self)
        ensures
            r.monitor.source == ChoiceOfInputSource::Gpio,
            r.monitor.loop_interval is None,
            r.monitor.startup_window is None,
            r.gpio.pin is None,
            r.dummy_input.modulus is None,
            r.dummy_input.threshold is None,
            r.slack.strings is None && r.slack.enabled is None && r.slack.urls is None
                && r.slack.show_response is None,
            r.batsign.strings is None && r.batsign.enabled is None && r.batsign.urls is None
                && r.batsign.show_response is None,
            r.command.strings is None && r.command.enabled is None && r.command.commands is None
                && r.command.show_response is None,
            r.println.strings is None && r.println.enabled is None,
    {
        Config {
            monitor: MonitorConfig::default(),
            gpio: GpioConfig::default(),
            dummy_input: DummyInputSourceConfig::default(),
            slack: SlackConfig::default(),
            batsign: BatsignConfig::default(),
            command: CommandConfig::default(),
            println: PrintlnConfig::default(),
        }
    }
}

/// A copy of a list of strings.
fn copy_strings(v: &Vec<String>) -> (r: Vec<String>)
    ensures
        r.deep_view() == v.deep_view(),
{
    let mut r: Vec<String> = Vec::new();
    let mut i: usize = 0;
    while i < v.len()
        invariant
            i <= v.len(),
            r.deep_view() == v.deep_view().take(i as int),
        decreases v.len() - i,
    {
        let ghost before = r.deep_view();
        let c = v[i].clone();
        assert(c@ == v.deep_view()[i as int]);
        r.push(c);
        assert(r.deep_view() =~= before.push(c@));
        i = i + 1;
        assert(r.deep_view() =~= v.deep_view().take(i as int));
    }
    assert(v.deep_view().take(v.len() as int) =~= v.deep_view());
    r
}

/// Whether `c` records every setting of `s`.
pub open spec fn records(c: Config, s: Settings) -> bool {
    &&& c.monitor.source == s.monitor.source
    &&& c.monitor.loop_interval == Some(s.monitor.loop_interval)
    &&& c.monitor.startup_window == Some(s.monitor.startup_window)
    &&& c.gpio.pin == Some(s.gpio.pin)
    &&& c.dummy_input.modulus == Some(s.dummy_source.modulus)
    &&& c.dummy_input.threshold == Some(s.dummy_source.threshold)
    &&& c.slack.strings matches Some(m) && m.sets_all(s.slack.strings@)
    &&& c.slack.enabled == Some(s.slack.enabled)
    &&& c.slack.urls matches Some(u) && u.deep_view() == s.slack.urls.deep_view()
    &&& c.slack.show_response == Some(s.slack.show_response)
    &&& c.batsign.strings matches Some(m) && m.sets_all(s.batsign.strings@)
    &&& c.batsign.enabled == Some(s.batsign.enabled)
    &&& c.batsign.urls matches Some(u) && u.deep_view() == s.batsign.urls.deep_view()
    &&& c.batsign.show_response == Some(s.batsign.show_response)
    &&& c.command.strings matches Some(m) && m.sets_all(s.command.strings@)
    &&& c.command.enabled == Some(s.command.enabled)
    &&& c.command.commands matches Some(u) && u.deep_view() == s.command.commands.deep_view()
    &&& c.command.show_response == Some(s.command.show_response)
    &&& c.println.strings matches Some(m) && m.sets_all(s.println.strings@)
    &&& c.println.enabled == Some(s.println.enabled)
}

impl Config {
    /// The configuration that records the in-memory settings, done before
    /// writing them to disk.
    pub fn from_settings(settings: &Settings) -> (c: Config)
        ensures
            records(c, *settings),
    {
        Config {
            monitor: MonitorConfig {
                source: settings.monitor.source,
                loop_interval: Some(settings.monitor.loop_interval),
                startup_window: Some(settings.monitor.startup_window),
            },
            gpio: GpioConfig { pin: Some(settings.gpio.pin) },
            dummy_input: DummyInputSourceConfig {
                modulus: Some(settings.dummy_source.modulus),
                threshold: Some(settings.dummy_source.threshold),
            },
            slack: SlackConfig {
                strings: Some(MessageStrings::from_settings(settings.slack.strings.clone())),
                enabled: Some(settings.slack.enabled),
                urls: Some(copy_strings(&settings.slack.urls)),
                show_response: Some(settings.slack.show_response),
            },
            batsign: BatsignConfig {
                strings: Some(MessageStrings::from_settings(settings.batsign.strings.clone())),
                enabled: Some(settings.batsign.enabled),
                urls: Some(copy_strings(&settings.batsign.urls)),
                show_response: Some(settings.batsign.show_response),
            },
            command: CommandConfig {
                strings: Some(MessageStrings::from_settings(settings.command.strings.clone())),
                enabled: Some(settings.command.enabled),
                commands: Some(copy_strings(&settings.command.commands)),
                show_response: Some(settings.command.show_response),
            },
            println: PrintlnConfig {
                strings: Some(MessageStrings::from_settings(settings.println.strings.clone())),
                enabled: Some(settings.println.enabled),
            },
        }
    }
}

} // verus!
