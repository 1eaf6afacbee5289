//! Batsign backend: notifications are posted to a Batsign URL.

use vstd::prelude::*;

use super::{backend_name, name_for, Backend};
use crate::context::Context;
use crate::message::{compose_at, composed_of_type};
use crate::notify::MessageType;
use crate::settings::{MessageStrings, MessageTexts};
use crate::text;
use crate::time::WallTime;

verus! {

/// Delay kept between Batsign sends, in nanoseconds (300 milliseconds).
pub const BATSIGN_STAGGER_NANOS: u64 = 300_000_000;

/// Backend that sends notifications to Batsign.
pub struct BatsignBackend {
    /// Numeric identifier of this backend instance.
    pub id: usize,
    /// Name of the backend, for display.
    pub name: String,
    /// Batsign URL to send notifications to.
    pub url: String,
    /// Whether to show the HTTP response in terminal output.
    pub show_response: bool,
    /// Custom message strings, used to compose notifications.
    pub strings: MessageStrings,
}

impl BatsignBackend {
    /// A Batsign backend named `batsign-<id>`.
    pub fn new(id: usize, url: &str, show_response: bool, strings: MessageStrings) -> (b: Self)
        ensures
            b.id == id,
            b.name@ == backend_name("batsign"@, id),
            b.url@ == url@,
            b.show_response == show_response,
            b.strings@ == strings@,
    {
        let name = name_for("batsign", id);
        BatsignBackend { id, name, url: String::from_str(url), show_response, strings }
    }

    /// The body of the HTTP request: `Subject: ` followed by the message.
    pub fn request_body(&self, body: &str) -> (r: String)
        ensures
            r@ == "Subject: "@ + body@,
    {
        text::concat2("Subject: ", body)
    }
}

impl Backend for BatsignBackend {
    open spec fn spec_id(&self) -> usize {
        self.id
    }

    open spec fn spec_name(&self) -> Seq<char> {
        self.name@
    }

    open spec fn spec_texts(&self) -> MessageTexts {
        self.strings@
    }

    open spec fn spec_stagger(&self) -> u64 {
        BATSIGN_STAGGER_NANOS
    }

    open spec fn spec_body(&self, ctx: Context, t: MessageType, now: WallTime) -> Seq<char> {
        composed_of_type(ctx, self.strings@, t, now)
    }

    open spec fn spec_display(&self, ctx: Context, t: MessageType, now: WallTime) -> Seq<char> {
        composed_of_type(ctx, self.strings@, t, now)
    }

    open spec fn echoes(&self) -> bool {
        false
    }

    fn id(&self) -> (r: usize) {
        self.id
    }

    fn name(&self) -> (r: &str) {
        self.name.as_str()
    }

    fn strings(&self) -> (r: &MessageStrings) {
        &self.strings
    }

    fn compose_at(&self, ctx: &Context, t: MessageType, now: &WallTime) -> (r: String) {
        compose_at(ctx, &self.strings, t, now)
    }

    fn compose_display_at(&self, ctx: &Context, t: MessageType, now: &WallTime) -> (r: String) {
        compose_at(ctx, &self.strings, t, now)
    }

    fn stagger_delay(&self) -> (r: u64) {
        BATSIGN_STAGGER_NANOS
    }

    fn emit_in_process(&self, body: &str) -> (r: Option<Result<Option<String>, String>>) {
        None
    }
}

} // verus!
