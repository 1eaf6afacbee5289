//! Println backend: notifications are printed to the terminal.

use vstd::prelude::*;

use super::{backend_name, name_for, Backend};
use crate::context::Context;
use crate::message::{compose_at, composed_of_type};
use crate::notify::MessageType;
use crate::settings::{MessageStrings, MessageTexts};
use crate::time::WallTime;

verus! {

/// Backend that prints notifications to the terminal.
pub struct PrintlnBackend {
    /// Numeric identifier of this backend instance.
    pub id: usize,
    /// Name of the backend, for display.
    pub name: String,
    /// Custom message strings, used to compose notifications.
    pub strings: MessageStrings,
}

impl PrintlnBackend {
    /// A println backend named `println-<id>`.
    pub fn new(id: usize, strings: MessageStrings) -> (b: Self)
        ensures
            b.id == id,
            b.name@ == backend_name("println"@, id),
            b.strings@ == strings@,
    {
        let name = name_for("println", id);
        PrintlnBackend { id, name, strings }
    }
}

impl Backend for PrintlnBackend {
    open spec fn spec_id(&self) -> usize {
        self.id
    }

    open spec fn spec_name(&self) -> Seq<char> {
        self.name@
    }

    open spec fn spec_texts(&self) -> MessageTexts {
        self.strings@
    }

    open spec fn spec_stagger(&self) -> u64 {
        0
    }

    open spec fn spec_body(&self, ctx: Context, t: MessageType, now: WallTime) -> Seq<char> {
        composed_of_type(ctx, self.strings@, t, now)
    }

    open spec fn spec_display(&self, ctx: Context, t: MessageType, now: WallTime) -> Seq<char> {
        composed_of_type(ctx, self.strings@, t, now)
    }

    open spec fn echoes(&self) -> bool {
        true
    }

    fn id(&self) -> (r: usize) {
        self.id
    }

    fn name(&self) -> (r: &str) {
        self.name.as_str()
    }

    fn strings(&self) -> (r: &MessageStrings) {
        &self.strings
    }

    fn compose_at(&self, ctx: &Context, t: MessageType, now: &WallTime) -> (r: String) {
        compose_at(ctx, &self.strings, t, now)
    }

    fn compose_display_at(&self, ctx: &Context, t: MessageType, now: &WallTime) -> (r: String) {
        compose_at(ctx, &self.strings, t, now)
    }

    fn stagger_delay(&self) -> (r: u64) {
        0
    }

    /// Answers with the body as-is, as a successful push whose response is
    /// shown.
    fn emit_in_process(&self, body: &str) -> (r: Option<Result<Option<String>, String>>) {
        Some(Ok(Some(String::from_str(body))))
    }
}

} // verus!
