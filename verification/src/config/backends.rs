//! Configuration-file form of the backend settings.

use vstd::prelude::*;

use super::MessageStrings;

verus! {

/// Configuration of the println backend.
pub struct PrintlnConfig {
    /// Custom message strings.
    pub strings: Option<MessageStrings>,
    /// Whether the backend is enabled.
    pub enabled: Option<bool>,
}

/// Configuration of the Slack backend.
pub struct SlackConfig {
    /// Custom message strings.
    pub strings: Option<MessageStrings>,
    /// Whether the backend is enabled.
    pub enabled: Option<bool>,
    /// Webhook URLs to send notifications to.
    pub urls: Option<Vec<String>>,
    /// Whether to show the HTTP response in terminal output.
    pub show_response: Option<bool>,
}

/// Configuration of the Batsign backend.
pub struct BatsignConfig {
    /// Custom message strings.
    pub strings: Option<MessageStrings>,
    /// Whether the backend is enabled.
    pub enabled: Option<bool>,
    /// URLs to send notifications to.
    pub urls: Option<Vec<String>>,
    /// Whether to show the HTTP response in terminal output.
    pub show_response: Option<bool>,
}

/// Configuration of the external command backend.
pub struct CommandConfig {
    /// Custom message strings.
    pub strings: Option<MessageStrings>,
    /// Whether the backend is enabled.
    pub enabled: Option<bool>,
    /// Commands to run for each notification.
    pub commands: Option<Vec<String>>,
    /// Whether to show what the commands print in terminal output.
    pub show_response: Option<bool>,
}

impl Default for PrintlnConfig {
    fn default() -> (r: Self)
        ensures
            r.strings is None,
            r.enabled is None,
    {
        PrintlnConfig { strings: None, enabled: None }
    }
}

impl Default for SlackConfig {
    fn default() -> (r: Self)
        ensures
            r.strings is None,
            r.enabled is None,
            r.urls is None,
            r.show_response is None,
    {
        SlackConfig { strings: None, enabled: None, urls: None, show_response: None }
    }
}

impl Default for BatsignConfig {
    fn default() -> (r: Self)
        ensures
            r.strings is None,
            r.enabled is None,
            r.urls is None,
            r.show_response is None,
    {
        BatsignConfig { strings: None, enabled: None, urls: None, show_response: None }
    }
}

impl Default for CommandConfig {
    fn default() -> (r: Self)
        ensures
            r.strings is None,
            r.enabled is None,
            r.commands is None,
            r.show_response is None,
    {
        CommandConfig { strings: None, enabled: None, commands: None, show_response: None }
    }
}

} // verus!
