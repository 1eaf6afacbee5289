//! Configuration-file form of the message strings.

use vstd::prelude::*;

use crate::settings;

verus! {

/// Custom message strings as read from the configuration file; every string
/// is optional. The layout mirrors that of `settings::MessageStrings`.
pub struct MessageStrings {
    /// Header of alert notifications.
    pub alert_header: Option<String>,
    /// Body of alert notifications.
    pub alert_body: Option<String>,
    /// Header of reminder notifications.
    pub reminder_header: Option<String>,
    /// Body of reminder notifications.
    pub reminder_body: Option<String>,
    /// Header of startup failure notifications.
    pub startup_failed_header: Option<String>,
    /// Body of startup failure notifications.
    pub startup_failed_body: Option<String>,
    /// Header of startup success notifications.
    pub startup_success_header: Option<String>,
    /// Body of startup success notifications.
    pub startup_success_body: Option<String>,
    /// Footer of all notifications.
    pub footer: Option<String>,
}

impl MessageStrings {
    /// Whether no string is set.
    pub open spec fn is_empty(&self) -> bool {
        &&& self.alert_header is None
        &&& self.alert_body is None
        &&& self.reminder_header is None
        &&& self.reminder_body is None
        &&& self.startup_failed_header is None
        &&& self.startup_failed_body is None
        &&& self.startup_success_header is None
        &&& self.startup_success_body is None
        &&& self.footer is None
    }

    /// Whether every string is set, to the texts `t`.
    pub open spec fn sets_all(&self, t: settings::MessageTexts) -> bool {
        &&& self.alert_header matches Some(s) && s@ == t.alert_header
        &&& self.alert_body matches Some(s) && s@ == t.alert_body
        &&& self.reminder_header matches Some(s) && s@ == t.reminder_header
        &&& self.reminder_body matches Some(s) && s@ == t.reminder_body
        &&& self.startup_failed_header matches Some(s) && s@ == t.startup_failed_header
        &&& self.startup_failed_body matches Some(s) && s@ == t.startup_failed_body
        &&& self.startup_success_header matches Some(s) && s@ == t.startup_success_header
        &&& self.startup_success_body matches Some(s) && s@ == t.startup_success_body
        &&& self.footer matches Some(s) && s@ == t.footer
    }

    /// The configuration form of in-memory message strings, every string set;
    /// done before writing the configuration to disk.
    pub fn from_settings(strings: settings::MessageStrings) -> (r: Self)
        ensures
            r.sets_all(strings@),
    {
        MessageStrings {
            alert_header: Some(strings.alert_header),
            alert_body: Some(strings.alert_body),
            reminder_header: Some(strings.reminder_header),
            reminder_body: Some(strings.reminder_body),
            startup_failed_header: Some(strings.startup_failed_header),
            startup_failed_body: Some(strings.startup_failed_body),
            startup_success_header: Some(strings.startup_success_header),
            startup_success_body: Some(strings.startup_success_body),
            footer: Some(strings.footer),
        }
    }
}

impl Default for MessageStrings {
    fn default() -> (r: Self)
        ensures
            r.is_empty(),
    {
        MessageStrings {
            alert_header: None,
            alert_body: None,
            reminder_header: None,
            reminder_body: None,
            startup_failed_header: None,
            startup_failed_body: None,
            startup_success_header: None,
            startup_success_body: None,
            footer: None,
        }
    }
}

} // verus!
