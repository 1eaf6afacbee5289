//! Notification backends: what each backend is called, how it composes its
//! messages, and the parts of emitting them that are computation.

pub mod batsign;
pub mod command;
pub mod println;
pub mod slack;

pub use batsign::BatsignBackend;
pub use command::CommandBackend;
pub use println::PrintlnBackend;
pub use slack::SlackBackend;

use vstd::prelude::*;

use crate::context::Context;
use crate::notify::MessageType;
use crate::settings::{MessageStrings, MessageTexts};
use crate::text;
use crate::time::WallTime;

verus! {

/// A notification backend.
pub trait Backend {
    /// The backend's numeric identifier.
    spec fn spec_id(&self) -> usize;

    /// The backend's name.
    spec fn spec_name(&self) -> Seq<char>;

    /// The backend's message texts.
    spec fn spec_texts(&self) -> MessageTexts;

    /// The delay to keep before sending through this backend, in nanoseconds.
    spec fn spec_stagger(&self) -> u64;

    /// The body this backend sends for a message of type `t` in `ctx` at `now`.
    spec fn spec_body(&self, ctx: Context, t: MessageType, now: WallTime) -> Seq<char>;

    /// The rendering of that body for display in terminal output.
    spec fn spec_display(&self, ctx: Context, t: MessageType, now: WallTime) -> Seq<char>;

    /// Whether emitting through this backend means echoing the body back,
    /// with no outside work.
    spec fn echoes(&self) -> bool;

    /// Returns the numeric identifier of the backend.
    fn id(&self) -> (r: usize)
        ensures
            r == self.spec_id(),
    ;

    /// Returns the name of the backend.
    fn name(&self) -> (r: &str)
        ensures
            r@ == self.spec_name(),
    ;

    /// Returns the message strings of the backend.
    fn strings(&self) -> (r: &MessageStrings)
        ensures
            r@ == self.spec_texts(),
    ;

    /// Composes the body of a message of type `t` in `ctx`, the current time
    /// being `now`.
    fn compose_at(&self, ctx: &Context, t: MessageType, now: &WallTime) -> (r: String)
        ensures
            r@ == self.spec_body(*ctx, t, *now),
    ;

    /// Composes a message for display in terminal output.
    fn compose_display_at(&self, ctx: &Context, t: MessageType, now: &WallTime) -> (r: String)
        ensures
            r@ == self.spec_display(*ctx, t, *now),
    ;

    /// Returns the delay to keep before sending, in nanoseconds.
    fn stagger_delay(&self) -> (r: u64)
        ensures
            r == self.spec_stagger(),
    ;

    /// Emits `body` when that needs no outside work: an echoing backend
    /// answers with the body as its output; other backends answer `None`.
    fn emit_in_process(&self, body: &str) -> (r: Option<Result<Option<String>, String>>)
        ensures
            self.echoes() ==> (r matches Some(Ok(Some(s))) && s@ == body@),
            !self.echoes() ==> r is None,
    ;
}

/// `prefix`, a hyphen and the decimal identifier: the name of a backend.
pub open spec fn backend_name(prefix: Seq<char>, id: usize) -> Seq<char> {
    prefix + seq!['-'] + text::decimal(id as nat)
}

/// Builds the name of a backend from its kind and identifier.
pub fn name_for(prefix: &str, id: usize) -> (s: String)
    ensures
        s@ == backend_name(prefix@, id),
{
    let mut v = text::chars_of(prefix);
    v.push('-');
    text::push_decimal(&mut v, id as u64);
    assert(v@ =~= backend_name(prefix@, id));
    text::string_of(&v)
}

/// The outcome of an HTTP request whose response body was read (or not):
/// the body is shown only when responses are to be shown; a read error is
/// a failure.
pub fn response_outcome(show_response: bool, read: Result<String, String>) -> (r: Result<
    Option<String>,
    String,
>)
    ensures
        read matches Ok(out) ==> (if show_response {
            r == Ok::<Option<String>, String>(Some(out))
        } else {
            r == Ok::<Option<String>, String>(None)
        }),
        read matches Err(e) ==> r == Err::<Option<String>, String>(e),
{
    match read {
        Ok(output) => {
            if show_response {
                Ok(Some(output))
            } else {
                Ok(None)
            }
        },
        Err(e) => Err(e),
    }
}

/// Any of the backends this program knows.
pub enum AnyBackend {
    Slack(SlackBackend),
    Batsign(BatsignBackend),
    Command(CommandBackend),
    Println(PrintlnBackend),
}

impl Backend for AnyBackend {
    open spec fn spec_id(&self) -> usize {
        match self {
            AnyBackend::Slack(b) => b.spec_id(),
            AnyBackend::Batsign(b) => b.spec_id(),
            AnyBackend::Command(b) => b.spec_id(),
            AnyBackend::Println(b) => b.spec_id(),
        }
    }

    open spec fn spec_name(&self) -> Seq<char> {
        match self {
            AnyBackend::Slack(b) => b.spec_name(),
            AnyBackend::Batsign(b) => b.spec_name(),
            AnyBackend::Command(b) => b.spec_name(),
            AnyBackend::Println(b) => b.spec_name(),
        }
    }

    open spec fn spec_texts(&self) -> MessageTexts {
        match self {
            AnyBackend::Slack(b) => b.spec_texts(),
            AnyBackend::Batsign(b) => b.spec_texts(),
            AnyBackend::Command(b) => b.spec_texts(),
            AnyBackend::Println(b) => b.spec_texts(),
        }
    }

    open spec fn spec_stagger(&self) -> u64 {
        match self {
            AnyBackend::Slack(b) => b.spec_stagger(),
            AnyBackend::Batsign(b) => b.spec_stagger(),
            AnyBackend::Command(b) => b.spec_stagger(),
            AnyBackend::Println(b) => b.spec_stagger(),
        }
    }

    open spec fn spec_body(&self, ctx: Context, t: MessageType, now: WallTime) -> Seq<char> {
        match self {
            AnyBackend::Slack(b) => b.spec_body(ctx, t, now),
            AnyBackend::Batsign(b) => b.spec_body(ctx, t, now),
            AnyBackend::Command(b) => b.spec_body(ctx, t, now),
            AnyBackend::Println(b) => b.spec_body(ctx, t, now),
        }
    }

    open spec fn spec_display(&self, ctx: Context, t: MessageType, now: WallTime) -> Seq<char> {
        match self {
            AnyBackend::Slack(b) => b.spec_display(ctx, t, now),
            AnyBackend::Batsign(b) => b.spec_display(ctx, t, now),
            AnyBackend::Command(b) => b.spec_display(ctx, t, now),
            AnyBackend::Println(b) => b.spec_display(ctx, t, now),
        }
    }

    open spec fn echoes(&self) -> bool {
        match self {
            AnyBackend::Slack(b) => b.echoes(),
            AnyBackend::Batsign(b) => b.echoes(),
            AnyBackend::Command(b) => b.echoes(),
            AnyBackend::Println(b) => b.echoes(),
        }
    }

    fn id(&self) -> (r: usize) {
        match self {
            AnyBackend::Slack(b) => b.id(),
            AnyBackend::Batsign(b) => b.id(),
            AnyBackend::Command(b) => b.id(),
            AnyBackend::Println(b) => b.id(),
        }
    }

    fn name(&self) -> (r: &str) {
        match self {
            AnyBackend::Slack(b) => b.name(),
            AnyBackend::Batsign(b) => b.name(),
            AnyBackend::Command(b) => b.name(),
            AnyBackend::Println(b) => b.name(),
        }
    }

    fn strings(&self) -> (r: &MessageStrings) {
        match self {
            AnyBackend::Slack(b) => b.strings(),
            AnyBackend::Batsign(b) => b.strings(),
            AnyBackend::Command(b) => b.strings(),
            AnyBackend::Println(b) => b.strings(),
        }
    }

    fn compose_at(&self, ctx: &Context, t: MessageType, now: &WallTime) -> (r: String) {
        match self {
            AnyBackend::Slack(b) => b.compose_at(ctx, t, now),
            AnyBackend::Batsign(b) => b.compose_at(ctx, t, now),
            AnyBackend::Command(b) => b.compose_at(ctx, t, now),
            AnyBackend::Println(b) => b.compose_at(ctx, t, now),
        }
    }

    fn compose_display_at(&self, ctx: &Context, t: MessageType, now: &WallTime) -> (r: String) {
        match self {
            AnyBackend::Slack(b) => b.compose_display_at(ctx, t, now),
            AnyBackend::Batsign(b) => b.compose_display_at(ctx, t, now),
            AnyBackend::Command(b) => b.compose_display_at(ctx, t, now),
            AnyBackend::Println(b) => b.compose_display_at(ctx, t, now),
        }
    }

    fn stagger_delay(&self) -> (r: u64) {
        match self {
            AnyBackend::Slack(b) => b.stagger_delay(),
            AnyBackend::Batsign(b) => b.stagger_delay(),
            AnyBackend::Command(b) => b.stagger_delay(),
            AnyBackend::Println(b) => b.stagger_delay(),
        }
    }

    fn emit_in_process(&self, body: &str) -> (r: Option<Result<Option<String>, String>>) {
        match self {
            AnyBackend::Slack(b) => b.emit_in_process(body),
            AnyBackend::Batsign(b) => b.emit_in_process(body),
            AnyBackend::Command(b) => b.emit_in_process(body),
            AnyBackend::Println(b) => b.emit_in_process(body),
        }
    }
}

} // verus!
