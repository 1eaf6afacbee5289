//! Start-up decisions: resolving the configuration file, and building the
//! notifiers that the settings ask for.

use vstd::prelude::*;

use crate::backend::{
    backend_name, AnyBackend, BatsignBackend, CommandBackend, PrintlnBackend, SlackBackend,
};
use crate::config::Config;
use crate::notify::Notifier;
use crate::settings::Settings;
use crate::text;

verus! {

/// The error chain of a failed load, each cause on a line of its own.
pub open spec fn causes_text(causes: Seq<Seq<char>>) -> Seq<char>
    decreases causes.len(),
{
    if causes.len() == 0 {
        Seq::<char>::empty()
    } else {
        causes_text(causes.drop_last()) + "\n  caused by: "@ + causes.last()
    }
}

/// The message reported when loading the configuration failed with the
/// error chain `chain` (the error first, then what caused it, in turn).
pub open spec fn load_failure_message(chain: Seq<Seq<char>>) -> Seq<char> {
    if chain.len() == 0 {
        "Failed to load configuration: "@
    } else {
        "Failed to load configuration: "@ + chain[0] + causes_text(chain.skip(1))
    }
}

/// The message reported when an explicitly given configuration file does
/// not exist.
pub open spec fn missing_given_file_message(path: Seq<char>) -> Seq<char> {
    "Config file "@ + path + " does not exist"@
}

/// The message reported when no configuration file was found.
pub open spec fn no_file_message(path: Seq<char>) -> Seq<char> {
    "No config file found at "@ + path
}

/// Resolves the configuration from what became of loading the file at
/// `path` (`explicit` when it was given on the command line): `None` when
/// the file does not exist, otherwise the loaded configuration or the error
/// chain of the failed load.
pub fn resolve_config(
    path: &str,
    explicit: bool,
    load: Option<Result<Config, Vec<String>>>,
) -> (r: Result<Config, String>)
    ensures
        load is None && explicit ==> (r matches Err(m) && m@ == missing_given_file_message(path@)),
        load is None && !explicit ==> (r matches Err(m) && m@ == no_file_message(path@)),
        load matches Some(Ok(c)) ==> r == Ok::<Config, String>(c),
        load matches Some(Err(chain)) ==> (r matches Err(m) && m@ == load_failure_message(
            chain.deep_view(),
        )),
{
    match load {
        None => {
            if explicit {
                let mut m = text::concat2("Config file ", path);
                text::append_str(&mut m, " does not exist");
                Err(m)
            } else {
                Err(text::concat2("No config file found at ", path))
            }
        },
        Some(Ok(c)) => Ok(c),
        Some(Err(chain)) => {
            let mut m = String::from_str("Failed to load configuration: ");
            if chain.len() > 0 {
                m.append(chain[0].as_str());
                let mut i: usize = 1;
                assert(chain.deep_view().skip(1).take(0) =~= Seq::<Seq<char>>::empty());
                while i < chain.len()
                    invariant
                        1 <= i <= chain.len(),
                        m@ == "Failed to load configuration: "@ + chain.deep_view()[0]
                            + causes_text(chain.deep_view().skip(1).take(i - 1)),
                    decreases chain.len() - i,
                {
                    let ghost before = m@;
                    m.append("\n  caused by: ");
                    m.append(chain[i].as_str());
                    let ghost rest = chain.deep_view().skip(1);
                    assert(rest.take(i as int).drop_last() =~= rest.take(i - 1));
                    assert(rest.take(i as int).last() == chain.deep_view()[i as int]);
                    i = i + 1;
                }
                assert(chain.deep_view().skip(1).take(chain.len() - 1) =~= chain.deep_view().skip(1));
            }
            Err(m)
        },
    }
}

/// How many notifiers of each backend the settings ask for.
pub open spec fn slack_count(s: Settings) -> int {
    if s.slack.enabled { s.slack.urls@.len() as int } else { 0 }
}

pub open spec fn batsign_count(s: Settings) -> int {
    if s.batsign.enabled { s.batsign.urls@.len() as int } else { 0 }
}

pub open spec fn command_count(s: Settings) -> int {
    if s.command.enabled { s.command.commands@.len() as int } else { 0 }
}

pub open spec fn println_count(s: Settings) -> int {
    if s.println.enabled { 1 } else { 0 }
}

/// Whether `n` is the fresh notifier for the `i`-th Slack URL of `s`.
pub open spec fn is_slack_notifier(n: Notifier<AnyBackend>, s: Settings, i: int) -> bool {
    &&& n.state.is_initial()
    &&& n.dry_run == s.dry_run
    &&& n.backend matches AnyBackend::Slack(b) && b.id == i && b.name@ == backend_name("slack"@, b.id)
        && b.url@ == s.slack.urls@[i]@ && b.show_response == s.slack.show_response
        && b.strings@ == s.slack.strings@
}

/// Whether `n` is the fresh notifier for the `i`-th Batsign URL of `s`.
pub open spec fn is_batsign_notifier(n: Notifier<AnyBackend>, s: Settings, i: int) -> bool {
    &&& n.state.is_initial()
    &&& n.dry_run == s.dry_run
    &&& n.backend matches AnyBackend::Batsign(b) && b.id == i && b.name@ == backend_name(
        "batsign"@,
        b.id,
    ) && b.url@ == s.batsign.urls@[i]@ && b.show_response == s.batsign.show_response
        && b.strings@ == s.batsign.strings@
}

/// Whether `n` is the fresh notifier for the `i`-th command of `s`.
pub open spec fn is_command_notifier(n: Notifier<AnyBackend>, s: Settings, i: int) -> bool {
    &&& n.state.is_initial()
    &&& n.dry_run == s.dry_run
    &&& n.backend matches AnyBackend::Command(b) && b.id == i && b.name@ == backend_name(
        "command"@,
        b.id,
    ) && b.command@ == s.command.commands@[i]@ && b.show_response == s.command.show_response
        && b.strings@ == s.command.strings@
}

/// Whether `n` is the fresh println notifier of `s`.
pub open spec fn is_println_notifier(n: Notifier<AnyBackend>, s: Settings) -> bool {
    &&& n.state.is_initial()
    &&& n.dry_run == s.dry_run
    &&& n.backend matches AnyBackend::Println(b) && b.id == 0 && b.name@ == backend_name(
        "println"@,
        0,
    ) && b.strings@ == s.println.strings@
}

/// Whether `v` holds exactly the notifiers the settings ask for: one per
/// Slack URL, one per Batsign URL and one per command of the enabled
/// backends, in that order and numbered from zero within each backend, and
/// the println notifier last when it is enabled.
pub open spec fn built_for(v: Seq<Notifier<AnyBackend>>, s: Settings) -> bool {
    let ns = slack_count(s);
    let nb = batsign_count(s);
    let nc = command_count(s);
    &&& v.len() == ns + nb + nc + println_count(s)
    &&& forall|i: int| 0 <= i < ns ==> is_slack_notifier(#[trigger] v[i], s, i)
    &&& forall|i: int| 0 <= i < nb ==> is_batsign_notifier(#[trigger] v[ns + i], s, i)
    &&& forall|i: int| 0 <= i < nc ==> is_command_notifier(#[trigger] v[ns + nb + i], s, i)
    &&& s.println.enabled ==> is_println_notifier(v[ns + nb + nc], s)
}

/// Every notifier built for the settings, whatever its backend, starts
/// fresh (nothing sent, nothing scheduled) and carries the settings'
/// dry-run flag: in a dry run none of them sends anything.
pub proof fn law_built_notifiers_follow_dry_run(v: Seq<Notifier<AnyBackend>>, s: Settings)
    requires
        built_for(v, s),
    ensures
        forall|i: int| 0 <= i < v.len() ==> (#[trigger] v[i]).dry_run == s.dry_run && v[i].state.is_initial(),
{
    let ns = slack_count(s);
    let nb = batsign_count(s);
    let nc = command_count(s);
    assert forall|i: int| 0 <= i < v.len() implies (#[trigger] v[i]).dry_run == s.dry_run
        && v[i].state.is_initial() by {
        if i < ns {
            assert(is_slack_notifier(v[i], s, i));
        } else if i < ns + nb {
            assert(is_batsign_notifier(v[ns + (i - ns)], s, i - ns));
        } else if i < ns + nb + nc {
            assert(is_command_notifier(v[ns + nb + (i - ns - nb)], s, i - ns - nb));
        } else {
            assert(is_println_notifier(v[ns + nb + nc], s));
        }
    }
}

/// There is one notifier for each URL of an enabled Slack or Batsign
/// backend and for each command of an enabled command backend, plus one
/// when the println backend is enabled; the Slack notifiers, one per URL,
/// come first.
pub proof fn law_one_notifier_per_destination(v: Seq<Notifier<AnyBackend>>, s: Settings)
    requires
        built_for(v, s),
    ensures
        v.len() == (if s.slack.enabled {
            s.slack.urls@.len() as int
        } else {
            0
        }) + (if s.batsign.enabled {
            s.batsign.urls@.len() as int
        } else {
            0
        }) + (if s.command.enabled {
            s.command.commands@.len() as int
        } else {
            0
        }) + (if s.println.enabled {
            1int
        } else {
            0
        }),
        forall|i: int|
            0 <= i < v.len() ==> ((#[trigger] v[i]).backend is Slack <==> s.slack.enabled && i
                < s.slack.urls@.len()),
{
    let ns = slack_count(s);
    let nb = batsign_count(s);
    let nc = command_count(s);
    assert forall|i: int| 0 <= i < v.len() implies ((#[trigger] v[i]).backend is Slack
        <==> s.slack.enabled && i < s.slack.urls@.len()) by {
        if i < ns {
            assert(is_slack_notifier(v[i], s, i));
        } else if i < ns + nb {
            assert(is_batsign_notifier(v[ns + (i - ns)], s, i - ns));
        } else if i < ns + nb + nc {
            assert(is_command_notifier(v[ns + nb + (i - ns - nb)], s, i - ns - nb));
        } else {
            assert(is_println_notifier(v[ns + nb + nc], s));
        }
    }
}

/// Builds the notifiers the settings ask for (see `built_for`); each one
/// starts fresh and carries the settings' dry-run flag.
pub fn build_notifiers(settings: &Settings) -> (v: Vec<Notifier<AnyBackend>>)
    ensures
        built_for(v@, *settings),
        forall|i: int| 0 <= i < v.len() ==> (#[trigger] v@[i]).dry_run == settings.dry_run
            && v@[i].state.is_initial(),
{
    let mut notifiers: Vec<Notifier<AnyBackend>> = Vec::new();
    let ghost s = *settings;
    if settings.slack.enabled {
        let mut i: usize = 0;
        while i < settings.slack.urls.len()
            invariant
                s == *settings,
                s.slack.enabled,
                i <= s.slack.urls@.len(),
                notifiers@.len() == i,
                forall|j: int| 0 <= j < i ==> is_slack_notifier(#[trigger] notifiers@[j], s, j),
            decreases settings.slack.urls.len() - i,
        {
            let backend = SlackBackend::new(
                i,
                settings.slack.urls[i].as_str(),
                settings.slack.show_response,
                settings.slack.strings.clone(),
            );
            notifiers.push(Notifier::new(AnyBackend::Slack(backend), settings.dry_run));
            i = i + 1;
        }
    }
    let ghost ns = notifiers@.len() as int;
    assert(ns == slack_count(s));
    if settings.batsign.enabled {
        let mut i: usize = 0;
        while i < settings.batsign.urls.len()
            invariant
                s == *settings,
                s.batsign.enabled,
                ns == slack_count(s),
                i <= s.batsign.urls@.len(),
                notifiers@.len() == ns + i,
                forall|j: int| 0 <= j < ns ==> is_slack_notifier(#[trigger] notifiers@[j], s, j),
                forall|j: int| 0 <= j < i ==> is_batsign_notifier(#[trigger] notifiers@[ns + j], s, j),
            decreases settings.batsign.urls.len() - i,
        {
            let backend = BatsignBackend::new(
                i,
                settings.batsign.urls[i].as_str(),
                settings.batsign.show_response,
                settings.batsign.strings.clone(),
            );
            notifiers.push(Notifier::new(AnyBackend::Batsign(backend), settings.dry_run));
            i = i + 1;
        }
    }
    let ghost nb = notifiers@.len() - ns;
    assert(nb == batsign_count(s));
    if settings.command.enabled {
        let mut i: usize = 0;
        while i < settings.command.commands.len()
            invariant
                s == *settings,
                s.command.enabled,
                ns == slack_count(s),
                nb == batsign_count(s),
                i <= s.command.commands@.len(),
                notifiers@.len() == ns + nb + i,
                forall|j: int| 0 <= j < ns ==> is_slack_notifier(#[trigger] notifiers@[j], s, j),
                forall|j: int| 0 <= j < nb ==> is_batsign_notifier(#[trigger] notifiers@[ns + j], s, j),
                forall|j: int|
                    0 <= j < i ==> is_command_notifier(#[trigger] notifiers@[ns + nb + j], s, j),
            decreases settings.command.commands.len() - i,
        {
            let backend = CommandBackend::new(
                i,
                settings.command.commands[i].as_str(),
                settings.command.show_response,
                settings.command.strings.clone(),
            );
            notifiers.push(Notifier::new(AnyBackend::Command(backend), settings.dry_run));
            i = i + 1;
        }
    }
    assert(notifiers@.len() == ns + nb + command_count(s));
    if settings.println.enabled {
        let backend = PrintlnBackend::new(0, settings.println.strings.clone());
        notifiers.push(Notifier::new(AnyBackend::Println(backend), settings.dry_run));
    }
    proof {
        law_built_notifiers_follow_dry_run(notifiers@, s);
    }
    notifiers
}

} // verus!
