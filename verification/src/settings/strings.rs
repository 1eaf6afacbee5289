//! User-configurable strings used in composing notifications.

use vstd::prelude::*;

use crate::config;

verus! {

/// The texts of a `MessageStrings`.
#[verifier::ext_equal]
pub struct MessageTexts {
    pub alert_header: Seq<char>,
    pub alert_body: Seq<char>,
    pub reminder_header: Seq<char>,
    pub reminder_body: Seq<char>,
    pub startup_failed_header: Seq<char>,
    pub startup_failed_body: Seq<char>,
    pub startup_success_header: Seq<char>,
    pub startup_success_body: Seq<char>,
    pub footer: Seq<char>,
}

/// Configurable strings used in composing notifications.
///
/// A message has a header and a body, with an optional trailing footer.
/// They have default values that the configuration file can override.
pub struct MessageStrings {
    /// Header of alert notifications.
    pub alert_header: String,
    /// Body of alert notifications.
    pub alert_body: String,
    /// Header of reminder notifications.
    pub reminder_header: String,
    /// Body of reminder notifications.
    pub reminder_body: String,
    /// Header of startup failure notifications.
    pub startup_failed_header: String,
    /// Body of startup failure notifications.
    pub startup_failed_body: String,
    /// Header of startup success notifications.
    pub startup_success_header: String,
    /// Body of startup success notifications.
    pub startup_success_body: String,
    /// Footer of all notifications, placed at the end of messages.
    pub footer: String,
}

impl View for MessageStrings {
    type V = MessageTexts;

    open spec fn view(&self) -> MessageTexts {
        MessageTexts {
            alert_header: self.alert_header@,
            alert_body: self.alert_body@,
            reminder_header: self.reminder_header@,
            reminder_body: self.reminder_body@,
            startup_failed_header: self.startup_failed_header@,
            startup_failed_body: self.startup_failed_body@,
            startup_success_header: self.startup_success_header@,
            startup_success_body: self.startup_success_body@,
            footer: self.footer@,
        }
    }
}

/// The default message texts.
pub open spec fn default_texts() -> MessageTexts {
    MessageTexts {
        alert_header: "PellX burner failure\\n"@,
        alert_body: "It went into an error state at {fuzzy_high}."@,
        reminder_header: "PellX burner still in failure\\n"@,
        reminder_body: "It has been in an error state since {fuzzy_high}."@,
        startup_failed_header: "PellX burner startup failed"@,
        startup_failed_body: "It tried to start up but failed at {fuzzy_high}."@,
        startup_success_header: "PellX burner startup succeeded"@,
        startup_success_body: "It successfully started up at {fuzzy_low}."@,
        footer: Seq::<char>::empty(),
    }
}

impl Default for MessageStrings {
    fn default() -> (r: Self)
        ensures
            r@ == default_texts(),
    {
        MessageStrings {
            alert_header: String::from_str("PellX burner failure\\n"),
            alert_body: String::from_str("It went into an error state at {fuzzy_high}."),
            reminder_header: String::from_str("PellX burner still in failure\\n"),
            reminder_body: String::from_str("It has been in an error state since {fuzzy_high}."),
            startup_failed_header: String::from_str("PellX burner startup failed"),
            startup_failed_body: String::from_str(
                "It tried to start up but failed at {fuzzy_high}.",
            ),
            startup_success_header: String::from_str("PellX burner startup succeeded"),
            startup_success_body: String::from_str("It successfully started up at {fuzzy_low}."),
            footer: String::new(),
        }
    }
}

impl Clone for MessageStrings {
    fn clone(&self) -> (r: Self)
        ensures
            r@ == self@,
    {
        MessageStrings {
            alert_header: self.alert_header.clone(),
            alert_body: self.alert_body.clone(),
            reminder_header: self.reminder_header.clone(),
            reminder_body: self.reminder_body.clone(),
            startup_failed_header: self.startup_failed_header.clone(),
            startup_failed_body: self.startup_failed_body.clone(),
            startup_success_header: self.startup_success_header.clone(),
            startup_success_body: self.startup_success_body.clone(),
            footer: self.footer.clone(),
        }
    }
}

/// `base`, unless `over` holds a text that replaces it.
pub open spec fn overridden(base: Seq<char>, over: Option<String>) -> Seq<char> {
    match over {
        Some(s) => s@,
        None => base,
    }
}

/// The texts `base` with those that `config` sets replacing theirs.
pub open spec fn texts_with_config(base: MessageTexts, config: config::MessageStrings) -> MessageTexts {
    MessageTexts {
        alert_header: overridden(base.alert_header, config.alert_header),
        alert_body: overridden(base.alert_body, config.alert_body),
        reminder_header: overridden(base.reminder_header, config.reminder_header),
        reminder_body: overridden(base.reminder_body, config.reminder_body),
        startup_failed_header: overridden(base.startup_failed_header, config.startup_failed_header),
        startup_failed_body: overridden(base.startup_failed_body, config.startup_failed_body),
        startup_success_header: overridden(
            base.startup_success_header,
            config.startup_success_header,
        ),
        startup_success_body: overridden(base.startup_success_body, config.startup_success_body),
        footer: overridden(base.footer, config.footer),
    }
}

fn override_text(target: &mut String, over: &Option<String>)
    ensures
        final(target)@ == overridden(old(target)@, *over),
{
    if let Some(s) = over {
        *target = s.clone();
    }
}

/// Each message text that a configuration sets becomes exactly that text,
/// whatever it was before; each one it leaves unset is kept.
pub proof fn law_configured_texts_win(base: MessageTexts, c: config::MessageStrings)
    ensures
        c.alert_header matches Some(t) ==> texts_with_config(base, c).alert_header == t@,
        c.alert_header is None ==> texts_with_config(base, c).alert_header == base.alert_header,
        c.alert_body matches Some(t) ==> texts_with_config(base, c).alert_body == t@,
        c.alert_body is None ==> texts_with_config(base, c).alert_body == base.alert_body,
        c.reminder_header matches Some(t) ==> texts_with_config(base, c).reminder_header == t@,
        c.reminder_header is None ==> texts_with_config(base, c).reminder_header == base.reminder_header,
        c.reminder_body matches Some(t) ==> texts_with_config(base, c).reminder_body == t@,
        c.reminder_body is None ==> texts_with_config(base, c).reminder_body == base.reminder_body,
        c.startup_failed_header matches Some(t) ==> texts_with_config(base, c).startup_failed_header == t@,
        c.startup_failed_header is None ==> texts_with_config(base, c).startup_failed_header == base.startup_failed_header,
        c.startup_failed_body matches Some(t) ==> texts_with_config(base, c).startup_failed_body == t@,
        c.startup_failed_body is None ==> texts_with_config(base, c).startup_failed_body == base.startup_failed_body,
        c.startup_success_header matches Some(t) ==> texts_with_config(base, c).startup_success_header == t@,
        c.startup_success_header is None ==> texts_with_config(base, c).startup_success_header == base.startup_success_header,
        c.startup_success_body matches Some(t) ==> texts_with_config(base, c).startup_success_body == t@,
        c.startup_success_body is None ==> texts_with_config(base, c).startup_success_body == base.startup_success_body,
        c.footer matches Some(t) ==> texts_with_config(base, c).footer == t@,
        c.footer is None ==> texts_with_config(base, c).footer == base.footer,
{
}

impl MessageStrings {
    /// Applies configuration as read from disk: every string the
    /// configuration sets replaces the current one.
    pub fn apply_config(&mut self, config: &config::MessageStrings)
        ensures
            final(self)@ == texts_with_config(old(self)@, *config),
    {
        override_text(&mut self.alert_header, &config.alert_header);
        override_text(&mut self.alert_body, &config.alert_body);
        override_text(&mut self.reminder_header, &config.reminder_header);
        override_text(&mut self.reminder_body, &config.reminder_body);
        override_text(&mut self.startup_failed_header, &config.startup_failed_header);
        override_text(&mut self.startup_failed_body, &config.startup_failed_body);
        override_text(&mut self.startup_success_header, &config.startup_success_header);
        override_text(&mut self.startup_success_body, &config.startup_success_body);
        override_text(&mut self.footer, &config.footer);
    }
}

} // verus!
