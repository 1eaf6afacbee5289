//! Settings management: the runtime settings, their defaults, and how the
//! configuration file and the command line override them.

pub mod backends;
pub mod strings;

pub use backends::{BatsignSettings, CommandSettings, PrintlnSettings, SlackSettings};
pub use strings::{MessageStrings, MessageTexts};

use vstd::prelude::*;

use crate::cli::Cli;
use crate::config;
use crate::defaults;
use crate::source::ChoiceOfInputSource;
use crate::text::{self, trimmed};
use crate::time::HumanDuration;
use backends::{
    batsign_applied, command_applied, missing_commands_message, missing_urls_message,
    println_applied, slack_applied,
};

verus! {

/// The entries of `v`, each trimmed, without those that end up empty.
pub open spec fn trimmed_entries(v: Seq<Seq<char>>) -> Seq<Seq<char>>
    decreases v.len(),
{
    if v.len() == 0 {
        Seq::<Seq<char>>::empty()
    } else {
        let rest = trimmed_entries(v.drop_last());
        let t = trimmed(v.last());
        if t.len() == 0 {
            rest
        } else {
            rest.push(t)
        }
    }
}

/// Every entry that survives trimming is non-empty and neither starts nor
/// ends with whitespace.
pub proof fn law_trimmed_entries_are_clean(v: Seq<Seq<char>>)
    ensures
        forall|i: int|
            0 <= i < trimmed_entries(v).len() ==> {
                let e = #[trigger] trimmed_entries(v)[i];
                &&& e.len() > 0
                &&& !text::is_white_space(e[0])
                &&& !text::is_white_space(e.last())
            },
    decreases v.len(),
{
    if v.len() > 0 {
        let rest = trimmed_entries(v.drop_last());
        law_trimmed_entries_are_clean(v.drop_last());
        text::law_trimmed(v.last());
        assert forall|i: int| 0 <= i < trimmed_entries(v).len() implies {
            let e = #[trigger] trimmed_entries(v)[i];
            &&& e.len() > 0
            &&& !text::is_white_space(e[0])
            &&& !text::is_white_space(e.last())
        } by {
            if i < rest.len() {
                assert(trimmed_entries(v)[i] == rest[i]);
            }
        }
    }
}

/// Trims every string of `vec` and drops those that end up empty.
pub fn trim_vec_of_strings(vec: &Vec<String>) -> (out: Vec<String>)
    ensures
        out.deep_view() == trimmed_entries(vec.deep_view()),
{
    let mut out: Vec<String> = Vec::new();
    let mut i: usize = 0;
    while i < vec.len()
        invariant
            i <= vec.len(),
            out.deep_view() == trimmed_entries(vec.deep_view().take(i as int)),
        decreases vec.len() - i,
    {
        let t = text::trim_str(vec[i].as_str());
        let ghost prefix = vec.deep_view().take(i + 1);
        assert(prefix.drop_last() =~= vec.deep_view().take(i as int));
        assert(prefix.last() == vec@[i as int]@);
        if t.unicode_len() > 0 {
            let ghost before = out.deep_view();
            out.push(t);
            assert(out.deep_view() =~= before.push(t@));
        }
        i = i + 1;
    }
    assert(vec.deep_view().take(vec.len() as int) =~= vec.deep_view());
    out
}

/// Settings of the monitor loop.
pub struct MonitorSettings {
    /// The input source to monitor.
    pub source: ChoiceOfInputSource,
    /// The interval at which to check the input source.
    pub loop_interval: HumanDuration,
    /// How long a startup has to last before it counts as successful;
    /// notifications about it are only pushed after this time.
    pub startup_window: HumanDuration,
}

impl Default for MonitorSettings {
    fn default() -> (r: Self)
        ensures
            r.source == ChoiceOfInputSource::Gpio,
            r.loop_interval.0 == defaults::LOOP_INTERVAL_NANOS,
            r.startup_window.0 == defaults::STARTUP_WINDOW_NANOS,
    {
        MonitorSettings {
            source: ChoiceOfInputSource::Gpio,
            loop_interval: HumanDuration(defaults::LOOP_INTERVAL_NANOS),
            startup_window: HumanDuration(defaults::STARTUP_WINDOW_NANOS),
        }
    }
}

/// `base`, unless `over` sets a duration.
pub open spec fn duration_with_config(base: u64, over: Option<HumanDuration>) -> u64 {
    match over {
        Some(d) => d.0,
        None => base,
    }
}

/// `base`, unless `over` sets a value.
pub open spec fn value_with_config<T>(base: T, over: Option<T>) -> T {
    match over {
        Some(v) => v,
        None => base,
    }
}

/// Whether `after` is `before` with monitor configuration `c` applied.
pub open spec fn monitor_applied(
    before: MonitorSettings,
    after: MonitorSettings,
    c: config::MonitorConfig,
) -> bool {
    &&& after.loop_interval.0 == duration_with_config(before.loop_interval.0, c.loop_interval)
    &&& after.startup_window.0 == duration_with_config(before.startup_window.0, c.startup_window)
    &&& after.source == c.source
}

impl MonitorSettings {
    /// Applies configuration as read from disk: the durations it sets, and
    /// its choice of input source.
    pub fn apply_config(&mut self, config: &config::MonitorConfig)
        ensures
            monitor_applied(*old(self), *final(self), *config),
    {
        if let Some(loop_interval) = config.loop_interval {
            self.loop_interval = loop_interval;
        }
        if let Some(startup_window) = config.startup_window {
            self.startup_window = startup_window;
        }
        self.source = config.source;
    }
}

/// Settings of the GPIO input source.
pub struct GpioSettings {
    /// The GPIO pin to which the burner is connected.
    pub pin: u8,
}

impl Default for GpioSettings {
    fn default() -> (r: Self)
        ensures
            r.pin == defaults::GPIO_PIN,
    {
        GpioSettings { pin: defaults::GPIO_PIN }
    }
}

impl GpioSettings {
    /// Applies configuration as read from disk.
    pub fn apply_config(&mut self, config: &config::GpioConfig)
        ensures
            final(self).pin == value_with_config(old(self).pin, config.pin),
    {
        if let Some(pin) = config.pin {
            self.pin = pin;
        }
    }
}

/// Settings of the dummy input source.
pub struct DummyInputSourceSettings {
    /// Cycle length of the readings.
    pub modulus: u32,
    /// Point in the cycle where readings turn from LOW to HIGH.
    pub threshold: u32,
}

impl Default for DummyInputSourceSettings {
    fn default() -> (r: Self)
        ensures
            r.modulus == defaults::DUMMY_MODULUS,
            r.threshold == defaults::DUMMY_THRESHOLD,
    {
        DummyInputSourceSettings {
            modulus: defaults::DUMMY_MODULUS,
            threshold: defaults::DUMMY_THRESHOLD,
        }
    }
}

impl DummyInputSourceSettings {
    /// Applies configuration as read from disk.
    pub fn apply_config(&mut self, config: &config::DummyInputSourceConfig)
        ensures
            final(self).modulus == value_with_config(old(self).modulus, config.modulus),
            final(self).threshold == value_with_config(old(self).threshold, config.threshold),
    {
        if let Some(modulus) = config.modulus {
            self.modulus = modulus;
        }
        if let Some(threshold) = config.threshold {
            self.threshold = threshold;
        }
    }
}

/// Program-wide runtime settings.
pub struct Settings {
    /// Settings of the monitor loop.
    pub monitor: MonitorSettings,
    /// Settings of the GPIO input source.
    pub gpio: GpioSettings,
    /// Settings of the dummy input source.
    pub dummy_source: DummyInputSourceSettings,
    /// Settings of the println backend.
    pub println: PrintlnSettings,
    /// Settings of the Slack backend.
    pub slack: SlackSettings,
    /// Settings of the Batsign backend.
    pub batsign: BatsignSettings,
    /// Settings of the external command backend.
    pub command: CommandSettings,
    /// Whether to disable timestamps in terminal output.
    pub disable_timestamps: bool,
    /// Whether to print some additional information.
    pub verbose: bool,
    /// Whether to print much more additional information.
    pub debug: bool,
    /// Whether to perform a dry run, echoing what would be done.
    pub dry_run: bool,
}

impl Default for Settings {
    fn default() -> (r: Self)
        ensures
            r.monitor.source == ChoiceOfInputSource::Gpio,
            r.monitor.loop_interval.0 == defaults::LOOP_INTERVAL_NANOS,
            r.monitor.startup_window.0 == defaults::STARTUP_WINDOW_NANOS,
            r.gpio.pin == defaults::GPIO_PIN,
            r.dummy_source.modulus == defaults::DUMMY_MODULUS,
            r.dummy_source.threshold == defaults::DUMMY_THRESHOLD,
            r.println.enabled,
            r.println.strings@ == strings::default_texts(),
            !r.slack.enabled && r.slack.urls@.len() == 0 && !r.slack.show_response,
            r.slack.strings@ == strings::default_texts(),
            !r.batsign.enabled && r.batsign.urls@.len() == 0 && !r.batsign.show_response,
            r.batsign.strings@ == strings::default_texts(),
            !r.command.enabled && r.command.commands@.len() == 0 && !r.command.show_response,
            r.command.strings@ == strings::default_texts(),
            !r.disable_timestamps,
            !r.verbose,
            !r.debug,
            !r.dry_run,
    {
        Settings {
            monitor: MonitorSettings::default(),
            gpio: GpioSettings::default(),
            dummy_source: DummyInputSourceSettings::default(),
            println: PrintlnSettings::default(),
            slack: SlackSettings::default(),
            batsign: BatsignSettings::default(),
            command: CommandSettings::default(),
            disable_timestamps: false,
            verbose: false,
            debug: false,
            dry_run: false,
        }
    }
}

/// Whether `after` is `before` with configuration `c` applied.
pub open spec fn config_applied(before: Settings, after: Settings, c: config::Config) -> bool {
    &&& monitor_applied(before.monitor, after.monitor, c.monitor)
    &&& after.gpio.pin == value_with_config(before.gpio.pin, c.gpio.pin)
    &&& after.dummy_source.modulus == value_with_config(before.dummy_source.modulus, c.dummy_input.modulus)
    &&& after.dummy_source.threshold == value_with_config(
        before.dummy_source.threshold,
        c.dummy_input.threshold,
    )
    &&& println_applied(before.println, after.println, c.println)
    &&& slack_applied(before.slack, after.slack, c.slack)
    &&& batsign_applied(before.batsign, after.batsign, c.batsign)
    &&& command_applied(before.command, after.command, c.command)
    &&& after.disable_timestamps == before.disable_timestamps
    &&& after.verbose == before.verbose
    &&& after.debug == before.debug
    &&& after.dry_run == before.dry_run
}

/// Whether any backend's settings fail their sanity check.
pub open spec fn sanity_errors(s: Settings) -> Seq<Seq<char>> {
    (if s.slack.enabled && s.slack.urls@.len() == 0 {
        seq!["Slack backend: "@ + missing_urls_message()]
    } else {
        Seq::<Seq<char>>::empty()
    }) + (if s.batsign.enabled && s.batsign.urls@.len() == 0 {
        seq!["Batsign backend: "@ + missing_urls_message()]
    } else {
        Seq::<Seq<char>>::empty()
    }) + (if s.command.enabled && s.command.commands@.len() == 0 {
        seq!["Command backend: "@ + missing_commands_message()]
    } else {
        Seq::<Seq<char>>::empty()
    })
}

fn push_error(errors: &mut Vec<String>, prefix: &str, e: String)
    ensures
        final(errors).deep_view() == old(errors).deep_view().push(prefix@ + e@),
{
    let ghost before = errors.deep_view();
    errors.push(text::concat2(prefix, e.as_str()));
    assert(errors.deep_view() =~= before.push(prefix@ + e@));
}

/// Monitor configuration wins where it sets a value: a configured loop
/// interval or startup window becomes the setting, whatever it was before,
/// and one left unset keeps the value before; the input source is always
/// the configured one.
pub proof fn law_monitor_config_wins(before: MonitorSettings, after: MonitorSettings, c: config::MonitorConfig)
    requires
        monitor_applied(before, after, c),
    ensures
        c.loop_interval matches Some(d) ==> after.loop_interval.0 == d.0,
        c.loop_interval is None ==> after.loop_interval.0 == before.loop_interval.0,
        c.startup_window matches Some(d) ==> after.startup_window.0 == d.0,
        c.startup_window is None ==> after.startup_window.0 == before.startup_window.0,
        after.source == c.source,
{
}

/// A configuration file wins where it sets a value: each monitor duration,
/// the GPIO pin and the dummy source's numbers become the configured
/// value, whatever they were before; each backend's switch and response
/// flag become the configured ones, and its URLs or commands the configured
/// list with its entries trimmed and blank ones dropped. A value left unset
/// keeps the one before, message texts left unset included. The input
/// source is the configured one, and the command-line flags are untouched.
pub proof fn law_configured_values_win(before: Settings, after: Settings, c: config::Config)
    requires
        config_applied(before, after, c),
    ensures
        c.monitor.loop_interval matches Some(d) ==> after.monitor.loop_interval.0 == d.0,
        c.monitor.loop_interval is None ==> after.monitor.loop_interval.0
            == before.monitor.loop_interval.0,
        c.monitor.startup_window matches Some(d) ==> after.monitor.startup_window.0 == d.0,
        c.monitor.startup_window is None ==> after.monitor.startup_window.0
            == before.monitor.startup_window.0,
        after.monitor.source == c.monitor.source,
        c.gpio.pin matches Some(v) ==> after.gpio.pin == v,
        c.gpio.pin is None ==> after.gpio.pin == before.gpio.pin,
        c.dummy_input.modulus matches Some(v) ==> after.dummy_source.modulus == v,
        c.dummy_input.modulus is None ==> after.dummy_source.modulus == before.dummy_source.modulus,
        c.dummy_input.threshold matches Some(v) ==> after.dummy_source.threshold == v,
        c.dummy_input.threshold is None ==> after.dummy_source.threshold
            == before.dummy_source.threshold,
        c.slack.enabled matches Some(b) ==> after.slack.enabled == b,
        c.slack.enabled is None ==> after.slack.enabled == before.slack.enabled,
        c.slack.show_response matches Some(b) ==> after.slack.show_response == b,
        c.slack.show_response is None ==> after.slack.show_response == before.slack.show_response,
        c.slack.urls matches Some(v) ==> after.slack.urls.deep_view() == trimmed_entries(
            v.deep_view(),
        ),
        c.slack.urls is None ==> after.slack.urls.deep_view() == before.slack.urls.deep_view(),
        c.slack.strings is None ==> after.slack.strings@ == before.slack.strings@,
        c.batsign.enabled matches Some(b) ==> after.batsign.enabled == b,
        c.batsign.enabled is None ==> after.batsign.enabled == before.batsign.enabled,
        c.batsign.show_response matches Some(b) ==> after.batsign.show_response == b,
        c.batsign.show_response is None ==> after.batsign.show_response
            == before.batsign.show_response,
        c.batsign.urls matches Some(v) ==> after.batsign.urls.deep_view() == trimmed_entries(
            v.deep_view(),
        ),
        c.batsign.urls is None ==> after.batsign.urls.deep_view() == before.batsign.urls.deep_view(),
        c.batsign.strings is None ==> after.batsign.strings@ == before.batsign.strings@,
        c.command.enabled matches Some(b) ==> after.command.enabled == b,
        c.command.enabled is None ==> after.command.enabled == before.command.enabled,
        c.command.show_response matches Some(b) ==> after.command.show_response == b,
        c.command.show_response is None ==> after.command.show_response
            == before.command.show_response,
        c.command.commands matches Some(v) ==> after.command.commands.deep_view()
            == trimmed_entries(v.deep_view()),
        c.command.commands is None ==> after.command.commands.deep_view()
            == before.command.commands.deep_view(),
        c.command.strings is None ==> after.command.strings@ == before.command.strings@,
        c.println.enabled matches Some(b) ==> after.println.enabled == b,
        c.println.enabled is None ==> after.println.enabled == before.println.enabled,
        c.println.strings is None ==> after.println.strings@ == before.println.strings@,
        after.disable_timestamps == before.disable_timestamps,
        after.verbose == before.verbose,
        after.debug == before.debug,
        after.dry_run == before.dry_run,
{
}

/// The settings pass their check exactly when every enabled Slack or
/// Batsign backend has a URL and an enabled command backend has a command;
/// each backend that fails adds one problem, in the order Slack, Batsign,
/// command.
pub proof fn law_sanity_check_wants_destinations(s: Settings)
    ensures
        sanity_errors(s).len() == 0 <==> ((!s.slack.enabled || s.slack.urls@.len() > 0) && (
        !s.batsign.enabled || s.batsign.urls@.len() > 0) && (!s.command.enabled
            || s.command.commands@.len() > 0)),
        sanity_errors(s).len() == (if s.slack.enabled && s.slack.urls@.len() == 0 {
            1int
        } else {
            0
        }) + (if s.batsign.enabled && s.batsign.urls@.len() == 0 {
            1int
        } else {
            0
        }) + (if s.command.enabled && s.command.commands@.len() == 0 {
            1int
        } else {
            0
        }),
{
}

impl Settings {
    /// Applies configuration as read from disk, if there is any.
    pub fn apply_config(&mut self, config: Option<&config::Config>)
        ensures
            match config {
                Some(c) => config_applied(*old(self), *final(self), *c),
                None => *final(self) == *old(self),
            },
    {
        let config = match config {
            Some(c) => c,
            None => {
                return ;
            },
        };
        self.monitor.apply_config(&config.monitor);
        self.gpio.apply_config(&config.gpio);
        self.dummy_source.apply_config(&config.dummy_input);
        self.println.apply_config(&config.println);
        self.slack.apply_config(&config.slack);
        self.batsign.apply_config(&config.batsign);
        self.command.apply_config(&config.command);
    }

    /// Applies command-line arguments: the output and dry-run flags are
    /// taken from them (debug implying verbose), and so is the input source
    /// when they name one.
    pub fn apply_cli(&mut self, cli: &Cli)
        ensures
            final(self).disable_timestamps == cli.disable_timestamps,
            final(self).verbose == (cli.verbose || cli.debug),
            final(self).debug == cli.debug,
            final(self).dry_run == cli.dry_run,
            final(self).monitor.source == value_with_config(old(self).monitor.source, cli.source),
            final(self).monitor.loop_interval == old(self).monitor.loop_interval,
            final(self).monitor.startup_window == old(self).monitor.startup_window,
            final(self).gpio == old(self).gpio,
            final(self).dummy_source == old(self).dummy_source,
            final(self).println == old(self).println,
            final(self).slack == old(self).slack,
            final(self).batsign == old(self).batsign,
            final(self).command == old(self).command,
    {
        self.disable_timestamps = cli.disable_timestamps;
        self.verbose = cli.verbose;
        self.debug = cli.debug;
        self.dry_run = cli.dry_run;
        if self.debug {
            self.verbose = true;
        }
        if let Some(source) = &cli.source {
            self.monitor.source = *source;
        }
    }

    /// Checks the settings of every backend; `Err` lists the problems, each
    /// prefixed with the backend it concerns.
    pub fn sanity_check(&self) -> (r: Result<(), Vec<String>>)
        ensures
            r is Ok <==> sanity_errors(*self).len() == 0,
            r matches Err(errors) ==> errors.deep_view() == sanity_errors(*self),
    {
        let mut errors: Vec<String> = Vec::new();
        if let Err(e) = self.slack.sanity_check() {
            push_error(&mut errors, "Slack backend: ", e);
        }
        if let Err(e) = self.batsign.sanity_check() {
            push_error(&mut errors, "Batsign backend: ", e);
        }
        if let Err(e) = self.command.sanity_check() {
            push_error(&mut errors, "Command backend: ", e);
        }
        if let Err(e) = self.println.sanity_check() {
            push_error(&mut errors, "Println backend: ", e);
        }
        assert(errors.deep_view() =~= sanity_errors(*self));
        if errors.len() == 0 {
            Ok(())
        } else {
            Err(errors)
        }
    }
}

} // verus!
