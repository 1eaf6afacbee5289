use pellxd::backend::{AnyBackend, Backend};
use pellxd::config::Config;
use pellxd::notify::NotificationSender;
use pellxd::settings::Settings;
use pellxd::setup::{build_notifiers, resolve_config};

#[test]
fn configuration_resolution_messages() {
    assert_eq!(
        resolve_config("my.toml", true, None).err(),
        Some("Config file my.toml does not exist".to_string())
    );
    assert_eq!(
        resolve_config("pellxd.toml", false, None).err(),
        Some("No config file found at pellxd.toml".to_string())
    );
    let mut c = Config::default();
    c.gpio.pin = Some(3);
    assert_eq!(resolve_config("p", false, Some(Ok(c))).unwrap().gpio.pin, Some(3));
    assert_eq!(
        resolve_config("p", false, Some(Err(vec!["bad toml".to_string(), "line 3".to_string(), "eof".to_string()]))).err(),
        Some("Failed to load configuration: bad toml\n  caused by: line 3\n  caused by: eof".to_string())
    );
    assert_eq!(
        resolve_config("p", true, Some(Err(vec!["io".to_string()]))).err(),
        Some("Failed to load configuration: io".to_string())
    );
}

#[test]
fn notifiers_follow_the_settings() {
    let s = Settings::default();
    let ns = build_notifiers(&s);
    assert_eq!(ns.len(), 1);
    assert_eq!(ns[0].name(), "println-0");

    let mut s = Settings::default();
    s.dry_run = true;
    s.slack.enabled = true;
    s.slack.urls = vec!["https://a".to_string(), "https://b".to_string()];
    s.batsign.urls = vec!["ignored".to_string()];
    s.command.enabled = true;
    s.command.commands = vec!["/bin/notify".to_string()];
    s.println.enabled = false;
    let ns = build_notifiers(&s);
    let names: Vec<&str> = ns.iter().map(|n| n.name()).collect();
    assert_eq!(names, vec!["slack-0", "slack-1", "command-0"]);
    assert!(ns.iter().all(|n| n.dry_run));
    match &ns[1].backend {
        AnyBackend::Slack(b) => assert_eq!(b.url, "https://b"),
        _ => panic!("expected slack"),
    }
    match &ns[2].backend {
        AnyBackend::Command(b) => {
            assert_eq!(b.command, "/bin/notify");
            assert_eq!(b.id(), 0);
        }
        _ => panic!("expected command"),
    }
}
