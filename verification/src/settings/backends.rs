//! Settings of the backends that send notifications.

use vstd::prelude::*;

use super::strings::{default_texts, texts_with_config, MessageStrings};
use super::{trim_vec_of_strings, trimmed_entries};
use crate::config;

verus! {

/// `base` with the text lists `over` sets, trimmed and without empty entries.
pub open spec fn list_with_config(base: Seq<Seq<char>>, over: Option<Vec<String>>) -> Seq<Seq<char>> {
    match over {
        Some(v) => trimmed_entries(v.deep_view()),
        None => base,
    }
}

/// `base`, unless `over` sets a value.
pub open spec fn flag_with_config(base: bool, over: Option<bool>) -> bool {
    match over {
        Some(b) => b,
        None => base,
    }
}

/// The message texts `base` with those a backend configuration's strings set.
pub open spec fn strings_with_config(
    base: super::MessageTexts,
    over: Option<config::MessageStrings>,
) -> super::MessageTexts {
    match over {
        Some(c) => texts_with_config(base, c),
        None => base,
    }
}

fn apply_strings(strings: &mut MessageStrings, over: &Option<config::MessageStrings>)
    ensures
        final(strings)@ == strings_with_config(old(strings)@, *over),
{
    if let Some(s) = over {
        strings.apply_config(s);
    }
}

fn apply_list(list: &mut Vec<String>, over: &Option<Vec<String>>)
    ensures
        final(list).deep_view() == list_with_config(old(list).deep_view(), *over),
{
    if let Some(v) = over {
        *list = trim_vec_of_strings(v);
    }
}

fn apply_flag(flag: &mut bool, over: &Option<bool>)
    ensures
        *final(flag) == flag_with_config(*old(flag), *over),
{
    if let Some(b) = over {
        *flag = *b;
    }
}

/// Settings of the Slack backend.
pub struct SlackSettings {
    /// Custom message strings.
    pub strings: MessageStrings,
    /// Whether the backend is enabled.
    pub enabled: bool,
    /// Webhook URLs to which notifications are sent.
    pub urls: Vec<String>,
    /// Whether to show the HTTP response in terminal output.
    pub show_response: bool,
}

impl Default for SlackSettings {
    fn default() -> (r: Self)
        ensures
            r.strings@ == default_texts(),
            !r.enabled,
            r.urls@.len() == 0,
            !r.show_response,
    {
        SlackSettings {
            strings: MessageStrings::default(),
            enabled: false,
            urls: Vec::new(),
            show_response: false,
        }
    }
}

/// The error reported for an enabled backend without URLs.
pub open spec fn missing_urls_message() -> Seq<char> {
    "URL must not be empty"@
}

/// The error reported for an enabled command backend without commands.
pub open spec fn missing_commands_message() -> Seq<char> {
    "Commands must not be empty"@
}

impl SlackSettings {
    /// Applies configuration as read from disk; what it sets replaces the
    /// current values, URLs trimmed and without empty ones.
    pub fn apply_config(&mut self, config: &config::SlackConfig)
        ensures
            slack_applied(*old(self), *final(self), *config),
    {
        apply_strings(&mut self.strings, &config.strings);
        apply_flag(&mut self.enabled, &config.enabled);
        apply_list(&mut self.urls, &config.urls);
        apply_flag(&mut self.show_response, &config.show_response);
    }

    /// An enabled Slack backend needs at least one URL.
    pub fn sanity_check(&self) -> (r: Result<(), String>)
        ensures
            r is Ok <==> (!self.enabled || self.urls@.len() > 0),
            r matches Err(e) ==> e@ == missing_urls_message(),
    {
        if !self.enabled {
            return Ok(());
        }
        if self.urls.len() == 0 {
            Err(String::from_str("URL must not be empty"))
        } else {
            Ok(())
        }
    }
}

/// Settings of the Batsign backend.
pub struct BatsignSettings {
    /// Custom message strings.
    pub strings: MessageStrings,
    /// Whether the backend is enabled.
    pub enabled: bool,
    /// URLs to which notifications are sent.
    pub urls: Vec<String>,
    /// Whether to show the HTTP response in terminal output.
    pub show_response: bool,
}

impl Default for BatsignSettings {
    fn default() -> (r: Self)
        ensures
            r.strings@ == default_texts(),
            !r.enabled,
            r.urls@.len() == 0,
            !r.show_response,
    {
        BatsignSettings {
            strings: MessageStrings::default(),
            enabled: false,
            urls: Vec::new(),
            show_response: false,
        }
    }
}

impl BatsignSettings {
    /// Applies configuration as read from disk; what it sets replaces the
    /// current values, URLs trimmed and without empty ones.
    pub fn apply_config(&mut self, config: &config::BatsignConfig)
        ensures
            batsign_applied(*old(self), *final(self), *config),
    {
        apply_strings(&mut self.strings, &config.strings);
        apply_flag(&mut self.enabled, &config.enabled);
        apply_list(&mut self.urls, &config.urls);
        apply_flag(&mut self.show_response, &config.show_response);
    }

    /// An enabled Batsign backend needs at least one URL.
    pub fn sanity_check(&self) -> (r: Result<(), String>)
        ensures
            r is Ok <==> (!self.enabled || self.urls@.len() > 0),
            r matches Err(e) ==> e@ == missing_urls_message(),
    {
        if !self.enabled {
            return Ok(());
        }
        if self.urls.len() == 0 {
            Err(String::from_str("URL must not be empty"))
        } else {
            Ok(())
        }
    }
}

/// Settings of the external command backend.
pub struct CommandSettings {
    /// Custom message strings.
    pub strings: MessageStrings,
    /// Whether the backend is enabled.
    pub enabled: bool,
    /// Commands to run when sending notifications.
    pub commands: Vec<String>,
    /// Whether to show what the commands print in terminal output.
    pub show_response: bool,
}

impl Default for CommandSettings {
    fn default() -> (r: Self)
        ensures
            r.strings@ == default_texts(),
            !r.enabled,
            r.commands@.len() == 0,
            !r.show_response,
    {
        CommandSettings {
            strings: MessageStrings::default(),
            enabled: false,
            commands: Vec::new(),
            show_response: false,
        }
    }
}

impl CommandSettings {
    /// Applies configuration as read from disk; what it sets replaces the
    /// current values, commands trimmed and without empty ones.
    pub fn apply_config(&mut self, config: &config::CommandConfig)
        ensures
            command_applied(*old(self), *final(self), *config),
    {
        apply_strings(&mut self.strings, &config.strings);
        apply_flag(&mut self.enabled, &config.enabled);
        apply_list(&mut self.commands, &config.commands);
        apply_flag(&mut self.show_response, &config.show_response);
    }

    /// An enabled command backend needs at least one command.
    pub fn sanity_check(&self) -> (r: Result<(), String>)
        ensures
            r is Ok <==> (!self.enabled || self.commands@.len() > 0),
            r matches Err(e) ==> e@ == missing_commands_message(),
    {
        if !self.enabled {
            return Ok(());
        }
        if self.commands.len() == 0 {
            Err(String::from_str("Commands must not be empty"))
        } else {
            Ok(())
        }
    }
}

/// Settings of the println backend.
pub struct PrintlnSettings {
    /// Custom message strings.
    pub strings: MessageStrings,
    /// Whether the backend is enabled.
    pub enabled: bool,
}

impl Default for PrintlnSettings {
    /// The println backend is enabled by default.
    fn default() -> (r: Self)
        ensures
            r.strings@ == default_texts(),
            r.enabled,
    {
        PrintlnSettings { strings: MessageStrings::default(), enabled: true }
    }
}

impl PrintlnSettings {
    /// Applies configuration as read from disk.
    pub fn apply_config(&mut self, config: &config::PrintlnConfig)
        ensures
            println_applied(*old(self), *final(self), *config),
    {
        apply_strings(&mut self.strings, &config.strings);
        apply_flag(&mut self.enabled, &config.enabled);
    }

    /// The println backend has nothing that could be wrong.
    pub fn sanity_check(&self) -> (r: Result<(), String>)
        ensures
            r is Ok,
    {
        Ok(())
    }
}

/// Whether `after` is `before` with Slack configuration `c` applied.
pub open spec fn slack_applied(before: SlackSettings, after: SlackSettings, c: config::SlackConfig) -> bool {
    &&& after.strings@ == strings_with_config(before.strings@, c.strings)
    &&& after.enabled == flag_with_config(before.enabled, c.enabled)
    &&& after.urls.deep_view() == list_with_config(before.urls.deep_view(), c.urls)
    &&& after.show_response == flag_with_config(before.show_response, c.show_response)
}

/// Whether `after` is `before` with Batsign configuration `c` applied.
pub open spec fn batsign_applied(before: BatsignSettings, after: BatsignSettings, c: config::BatsignConfig) -> bool {
    &&& after.strings@ == strings_with_config(before.strings@, c.strings)
    &&& after.enabled == flag_with_config(before.enabled, c.enabled)
    &&& after.urls.deep_view() == list_with_config(before.urls.deep_view(), c.urls)
    &&& after.show_response == flag_with_config(before.show_response, c.show_response)
}

/// Whether `after` is `before` with command configuration `c` applied.
pub open spec fn command_applied(before: CommandSettings, after: CommandSettings, c: config::CommandConfig) -> bool {
    &&& after.strings@ == strings_with_config(before.strings@, c.strings)
    &&& after.enabled == flag_with_config(before.enabled, c.enabled)
    &&& after.commands.deep_view() == list_with_config(before.commands.deep_view(), c.commands)
    &&& after.show_response == flag_with_config(before.show_response, c.show_response)
}

/// Whether `after` is `before` with println configuration `c` applied.
pub open spec fn println_applied(before: PrintlnSettings, after: PrintlnSettings, c: config::PrintlnConfig) -> bool {
    &&& after.strings@ == strings_with_config(before.strings@, c.strings)
    &&& after.enabled == flag_with_config(before.enabled, c.enabled)
}

} // verus!
