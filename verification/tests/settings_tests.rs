use pellxd::cli::Cli;
use pellxd::config::{self, Config};
use pellxd::settings::{trim_vec_of_strings, MessageStrings, Settings};
use pellxd::source::ChoiceOfInputSource;
use pellxd::time::HumanDuration;

fn cli() -> Cli {
    Cli {
        source: None,
        config: None,
        save: false,
        disable_timestamps: false,
        verbose: false,
        debug: false,
        dry_run: false,
        version: false,
    }
}

#[test]
fn defaults() {
    let s = Settings::default();
    assert_eq!(s.monitor.source, ChoiceOfInputSource::Gpio);
    assert_eq!(s.monitor.loop_interval.as_nanos(), 1_000_000_000);
    assert_eq!(s.monitor.startup_window.to_human_string(), "8m");
    assert_eq!(s.gpio.pin, 24);
    assert_eq!((s.dummy_source.modulus, s.dummy_source.threshold), (30, 15));
    assert!(s.println.enabled);
    assert!(!s.slack.enabled && !s.batsign.enabled && !s.command.enabled);
    assert_eq!(s.println.strings.alert_header, "PellX burner failure\\n");
    assert_eq!(s.slack.strings.startup_success_body, "It successfully started up at {fuzzy_low}.");
    assert_eq!(s.command.strings.footer, "");
    assert!(s.sanity_check().is_ok());
}

#[test]
fn lists_are_trimmed_and_empty_entries_dropped() {
    let v = vec![" a ".to_string(), "   ".to_string(), "".to_string(), "b\t".to_string()];
    assert_eq!(trim_vec_of_strings(&v), vec!["a".to_string(), "b".to_string()]);
    assert!(trim_vec_of_strings(&Vec::new()).is_empty());
}

#[test]
fn configuration_overrides_what_it_sets() {
    let mut s = Settings::default();
    s.apply_config(None);
    assert_eq!(s.gpio.pin, 24);

    let mut c = Config::default();
    c.monitor.source = ChoiceOfInputSource::Dummy;
    c.monitor.loop_interval = Some(HumanDuration(5));
    c.gpio.pin = Some(17);
    c.dummy_input.threshold = Some(3);
    c.slack.enabled = Some(true);
    c.slack.urls = Some(vec![" https://a ".to_string(), " ".to_string()]);
    let mut strings = config::MessageStrings::default();
    strings.alert_header = Some("Custom".to_string());
    c.slack.strings = Some(strings);
    c.println.enabled = Some(false);
    c.command.commands = Some(vec!["/bin/true".to_string()]);
    s.apply_config(Some(&c));

    assert_eq!(s.monitor.source, ChoiceOfInputSource::Dummy);
    assert_eq!(s.monitor.loop_interval.as_nanos(), 5);
    assert_eq!(s.monitor.startup_window.as_nanos(), 480_000_000_000);
    assert_eq!(s.gpio.pin, 17);
    assert_eq!((s.dummy_source.modulus, s.dummy_source.threshold), (30, 3));
    assert!(s.slack.enabled);
    assert_eq!(s.slack.urls, vec!["https://a".to_string()]);
    assert_eq!(s.slack.strings.alert_header, "Custom");
    assert_eq!(s.slack.strings.alert_body, "It went into an error state at {fuzzy_high}.");
    assert!(!s.println.enabled);
    assert!(!s.command.enabled);
    assert_eq!(s.command.commands, vec!["/bin/true".to_string()]);
}

#[test]
fn the_command_line_sets_flags_and_source() {
    let mut s = Settings::default();
    let mut c = cli();
    c.debug = true;
    c.dry_run = true;
    c.source = Some(ChoiceOfInputSource::Dummy);
    s.apply_cli(&c);
    assert!(s.debug && s.verbose && s.dry_run && !s.disable_timestamps);
    assert_eq!(s.monitor.source, ChoiceOfInputSource::Dummy);
    let mut c = cli();
    c.disable_timestamps = true;
    s.apply_cli(&c);
    assert!(!s.debug && !s.verbose && !s.dry_run && s.disable_timestamps);
    assert_eq!(s.monitor.source, ChoiceOfInputSource::Dummy);
}

#[test]
fn sanity_check_lists_each_backend_problem() {
    let mut s = Settings::default();
    s.slack.enabled = true;
    s.batsign.enabled = true;
    s.command.enabled = true;
    assert_eq!(
        s.sanity_check(),
        Err(vec![
            "Slack backend: URL must not be empty".to_string(),
            "Batsign backend: URL must not be empty".to_string(),
            "Command backend: Commands must not be empty".to_string(),
        ])
    );
    s.batsign.urls.push("u".to_string());
    assert_eq!(s.sanity_check(), Err(vec![
        "Slack backend: URL must not be empty".to_string(),
        "Command backend: Commands must not be empty".to_string(),
    ]));
    assert_eq!(s.slack.sanity_check(), Err("URL must not be empty".to_string()));
    assert_eq!(s.command.sanity_check(), Err("Commands must not be empty".to_string()));
    assert_eq!(s.println.sanity_check(), Ok(()));
}

#[test]
fn settings_are_recorded_as_configuration() {
    let mut s = Settings::default();
    s.batsign.urls = vec!["x".to_string()];
    s.gpio.pin = 5;
    let c = Config::from_settings(&s);
    assert_eq!(c.gpio.pin, Some(5));
    assert_eq!(c.monitor.loop_interval.unwrap().as_nanos(), 1_000_000_000);
    assert_eq!(c.batsign.urls, Some(vec!["x".to_string()]));
    assert_eq!(c.batsign.enabled, Some(false));
    assert_eq!(c.println.enabled, Some(true));
    let strings = c.println.strings.unwrap();
    assert_eq!(strings.reminder_header.as_deref(), Some("PellX burner still in failure\\n"));
    assert_eq!(strings.footer.as_deref(), Some(""));

    // Applying the recorded configuration to defaults gives the same settings back.
    let mut again = Settings::default();
    again.apply_config(Some(&Config::from_settings(&s)));
    assert_eq!(again.batsign.urls, s.batsign.urls);
    assert_eq!(again.gpio.pin, 5);
}

#[test]
fn message_strings_take_configured_texts() {
    let mut m = MessageStrings::default();
    let mut c = config::MessageStrings::default();
    c.footer = Some("-- {name}".to_string());
    c.reminder_body = Some(String::new());
    m.apply_config(&c);
    assert_eq!(m.footer, "-- {name}");
    assert_eq!(m.reminder_body, "");
    assert_eq!(m.alert_header, "PellX burner failure\\n");
    let copy = m.clone();
    assert_eq!(copy.footer, m.footer);
}
