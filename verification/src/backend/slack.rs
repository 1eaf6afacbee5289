//! Slack backend: notifications are posted to Slack webhooks as JSON.

use vstd::prelude::*;

use super::{backend_name, name_for, Backend};
use crate::context::Context;
use crate::message::{compose_at, composed_of_type};
use crate::notify::MessageType;
use crate::settings::{MessageStrings, MessageTexts};
use crate::time::WallTime;

verus! {

/// Delay kept between Slack sends, in nanoseconds (300 milliseconds).
pub const SLACK_STAGGER_NANOS: u64 = 300_000_000;

/// The lowercase hexadecimal digit of `d`, for `d` below sixteen.
pub open spec fn hex_digit(d: u32) -> char {
    "0123456789abcdef"@[d as int]
}

/// How serde_json writes the character `c` inside a JSON string: a double
/// quote and a backslash behind a backslash; backspace, tab, line feed,
/// form feed and carriage return as `\b`, `\t`, `\n`, `\f`, `\r`; any
/// other character below U+0020 as `\u00` and two lowercase hex digits;
/// everything else as it is.
pub open spec fn json_escaped_char(c: char) -> Seq<char> {
    if c == '"' {
        seq!['\\', '"']
    } else if c == '\\' {
        seq!['\\', '\\']
    } else if c == '\x08' {
        seq!['\\', 'b']
    } else if c == '\t' {
        seq!['\\', 't']
    } else if c == '\n' {
        seq!['\\', 'n']
    } else if c == '\x0c' {
        seq!['\\', 'f']
    } else if c == '\r' {
        seq!['\\', 'r']
    } else if (c as u32) < 32 {
        seq!['\\', 'u', '0', '0', hex_digit((c as u32) / 16), hex_digit((c as u32) % 16)]
    } else {
        seq![c]
    }
}

/// The contents of a JSON string holding `s`: each character escaped as
/// `json_escaped_char` says.
pub open spec fn json_escaped(s: Seq<char>) -> Seq<char>
    decreases s.len(),
{
    if s.len() == 0 {
        s
    } else {
        json_escaped_char(s[0]) + json_escaped(s.skip(1))
    }
}

/// Whether `c` is written into a JSON string as it is.
pub open spec fn json_plain_char(c: char) -> bool {
    c != '"' && c != '\\' && (c as u32) >= 32
}

/// Text without double quotes, backslashes or control characters below
/// U+0020 goes into a JSON string unchanged.
pub proof fn law_plain_text_is_not_escaped(s: Seq<char>)
    requires
        forall|i: int| 0 <= i < s.len() ==> json_plain_char(#[trigger] s[i]),
    ensures
        json_escaped(s) == s,
    decreases s.len(),
{
    if s.len() > 0 {
        assert(json_plain_char(s[0]));
        assert forall|i: int| 0 <= i < s.skip(1).len() implies json_plain_char(#[trigger] s.skip(1)[i]) by {
            assert(s.skip(1)[i] == s[i + 1]);
        }
        law_plain_text_is_not_escaped(s.skip(1));
        assert(s =~= seq![s[0]] + s.skip(1));
    }
}

/// The compact JSON text of an object with the single string entry
/// `key`: `value`, as serde_json renders it: `{"key":"value"}`, both
/// strings escaped.
pub open spec fn json_single_entry(key: Seq<char>, value: Seq<char>) -> Seq<char> {
    seq!['{', '"'] + json_escaped(key) + seq!['"', ':', '"'] + json_escaped(value) + seq!['"', '}']
}

/// The pretty-printed JSON text of that object, as serde_json renders it:
/// the entry on a line of its own, indented by two spaces, with a space
/// after the colon.
pub open spec fn json_single_entry_pretty(key: Seq<char>, value: Seq<char>) -> Seq<char> {
    seq!['{', '\n', ' ', ' ', '"'] + json_escaped(key) + seq!['"', ':', ' ', '"'] + json_escaped(
        value,
    ) + seq!['"', '\n', '}']
}

/// Renders a JSON object with one string entry, compactly.
///
/// Builds a `serde_json::Value::Object` holding `key` mapped to
/// `Value::String(value)` and renders it with `to_string`, which is what
/// `json!({key: value}).to_string()` does. The contract spells out the text
/// that serde_json's compact formatter writes for such an object, with its
/// table of string escapes.
#[verifier::external_body]
fn json_object_text(key: &str, value: &str) -> (s: String)
    ensures
        s@ == json_single_entry(key@, value@),
{
    let mut map = serde_json::Map::new();
    map.insert(key.to_string(), serde_json::Value::String(value.to_string()));
    serde_json::Value::Object(map).to_string()
}

/// Renders a JSON object with one string entry, pretty-printed.
///
/// Builds the same `serde_json::Value` as `json_object_text` and renders it
/// with `serde_json::to_string_pretty`. That call reports an error only
/// where a `Serialize` impl fails or a map key is not a string; a
/// `Value::Object` of strings written into a `Vec` does neither, so the
/// contract states that the call succeeds and the text that the pretty
/// formatter writes; an error would still be kept apart as `None`.
#[verifier::external_body]
fn json_object_text_pretty(key: &str, value: &str) -> (r: Option<String>)
    ensures
        r is Some,
        r matches Some(s) ==> s@ == json_single_entry_pretty(key@, value@),
{
    let mut map = serde_json::Map::new();
    map.insert(key.to_string(), serde_json::Value::String(value.to_string()));
    match serde_json::to_string_pretty(&serde_json::Value::Object(map)) {
        Ok(s) => Some(s),
        Err(_) => None,
    }
}

/// The Slack payload carrying `text`: `{"text": text}` as compact JSON.
pub open spec fn slack_payload(text: Seq<char>) -> Seq<char> {
    json_single_entry("text"@, text)
}

/// The pretty form of the Slack payload.
pub open spec fn slack_payload_display(text: Seq<char>) -> Seq<char> {
    json_single_entry_pretty("text"@, text)
}

/// Backend that sends notifications to Slack webhooks.
pub struct SlackBackend {
    /// Numeric identifier of this backend instance.
    pub id: usize,
    /// Name of the backend, for display.
    pub name: String,
    /// URL of the Slack webhook.
    pub url: String,
    /// Whether to show the HTTP response in terminal output.
    pub show_response: bool,
    /// Custom message strings, used to compose notifications.
    pub strings: MessageStrings,
}

impl SlackBackend {
    /// A Slack backend named `slack-<id>`.
    pub fn new(id: usize, url: &str, show_response: bool, strings: MessageStrings) -> (b: Self)
        ensures
            b.id == id,
            b.name@ == backend_name("slack"@, id),
            b.url@ == url@,
            b.show_response == show_response,
            b.strings@ == strings@,
    {
        let name = name_for("slack", id);
        SlackBackend { id, name, url: String::from_str(url), show_response, strings }
    }
}

impl Backend for SlackBackend {
    open spec fn spec_id(&self) -> usize {
        self.id
    }

    open spec fn spec_name(&self) -> Seq<char> {
        self.name@
    }

    open spec fn spec_texts(&self) -> MessageTexts {
        self.strings@
    }

    open spec fn spec_stagger(&self) -> u64 {
        SLACK_STAGGER_NANOS
    }

    open spec fn spec_body(&self, ctx: Context, t: MessageType, now: WallTime) -> Seq<char> {
        slack_payload(composed_of_type(ctx, self.strings@, t, now))
    }

    open spec fn spec_display(&self, ctx: Context, t: MessageType, now: WallTime) -> Seq<char> {
        slack_payload_display(composed_of_type(ctx, self.strings@, t, now))
    }

    open spec fn echoes(&self) -> bool {
        false
    }

    fn id(&self) -> (r: usize) {
        self.id
    }

    fn name(&self) -> (r: &str) {
        self.name.as_str()
    }

    fn strings(&self) -> (r: &MessageStrings) {
        &self.strings
    }

    /// Composes the message and wraps it in a JSON object as its `text`.
    fn compose_at(&self, ctx: &Context, t: MessageType, now: &WallTime) -> (r: String) {
        let body = compose_at(ctx, &self.strings, t, now);
        proof {
            reveal_strlit("text");
        }
        json_object_text("text", body.as_str())
    }

    /// Composes the message as pretty-printed JSON.
    fn compose_display_at(&self, ctx: &Context, t: MessageType, now: &WallTime) -> (r: String) {
        let body = compose_at(ctx, &self.strings, t, now);
        match json_object_text_pretty("text", body.as_str()) {
            Some(pretty) => pretty,
            None => json_object_text("text", body.as_str()),
        }
    }

    fn stagger_delay(&self) -> (r: u64) {
        SLACK_STAGGER_NANOS
    }

    fn emit_in_process(&self, body: &str) -> (r: Option<Result<Option<String>, String>>) {
        None
    }
}

} // verus!
