//! External command backend: notifications are passed to a command.

use vstd::prelude::*;

use super::{backend_name, name_for, Backend};
use crate::context::Context;
use crate::message::{compose_at, composed_of_type};
use crate::notify::{message_type_variant, MessageType};
use crate::settings::{MessageStrings, MessageTexts};
use crate::text::{self, decimal, signed_decimal, trimmed};
use crate::time::{Timestamp, WallTime};

verus! {

/// The UNIX timestamp of a time, zero when there is none.
pub open spec fn unix_timestamp_of(when: Option<Timestamp>) -> int {
    match when {
        Some(t) => t.wall.unix_secs() as int,
        None => 0,
    }
}

/// Expresses a time as a UNIX timestamp; `None` gives zero.
pub fn get_unix_timestamp(when: Option<&Timestamp>) -> (r: i64)
    ensures
        r == unix_timestamp_of(
            match when {
                Some(t) => Some(*t),
                None => None,
            },
        ),
{
    match when {
        Some(t) => t.wall.timestamp(),
        None => 0,
    }
}

/// The arguments the command is run with for a message: the body, the
/// message type's variant name, the loop iteration, and the UNIX timestamps
/// of going low, going high, the last state change and the last startup.
pub open spec fn command_arguments(ctx: Context, body: Seq<char>, t: MessageType) -> Seq<Seq<char>> {
    seq![
        body,
        message_type_variant(t),
        decimal(ctx.loop_iteration as nat),
        signed_decimal(unix_timestamp_of(ctx.went_low_at)),
        signed_decimal(unix_timestamp_of(ctx.went_high_at)),
        signed_decimal(unix_timestamp_of(ctx.time_of_state_change)),
        signed_decimal(unix_timestamp_of(ctx.time_of_startup)),
    ]
}

/// What a command printed, as shown in terminal output: its standard output
/// and standard error, each trimmed and under its own heading, separated by
/// a `---` line when both are there, the whole trimmed.
pub open spec fn command_output_text(stdout: Seq<char>, stderr: Seq<char>) -> Seq<char> {
    let out = trimmed(stdout);
    let err = trimmed(stderr);
    let a = if out.len() > 0 {
        "STDOUT:\n"@ + out + "\n"@
    } else {
        Seq::<char>::empty()
    };
    let b = if err.len() > 0 {
        (if a.len() > 0 {
            "---\n"@
        } else {
            Seq::<char>::empty()
        }) + "STDERR:\n"@ + err + "\n"@
    } else {
        Seq::<char>::empty()
    };
    trimmed(a + b)
}

/// Backend that runs an external command for each notification.
pub struct CommandBackend {
    /// Numeric identifier of this backend instance.
    pub id: usize,
    /// Name of the backend, for display.
    pub name: String,
    /// Path of the command to run.
    pub command: String,
    /// Whether to show what the command prints in terminal output.
    pub show_response: bool,
    /// Custom message strings, used to compose notifications.
    pub strings: MessageStrings,
}

impl CommandBackend {
    /// A command backend named `command-<id>`.
    pub fn new(id: usize, command: &str, show_response: bool, strings: MessageStrings) -> (b: Self)
        ensures
            b.id == id,
            b.name@ == backend_name("command"@, id),
            b.command@ == command@,
            b.show_response == show_response,
            b.strings@ == strings@,
    {
        let name = name_for("command", id);
        CommandBackend { id, name, command: String::from_str(command), show_response, strings }
    }

    /// The arguments to run the command with for a message of type `t`.
    pub fn arguments(&self, ctx: &Context, body: &str, t: MessageType) -> (args: Vec<String>)
        ensures
            args.deep_view() == command_arguments(*ctx, body@, t),
    {
        let mut args: Vec<String> = Vec::new();
        args.push(String::from_str(body));
        args.push(String::from_str(t.variant_name()));
        args.push(text::u64_to_string(ctx.loop_iteration));
        args.push(text::i64_to_string(get_unix_timestamp(ctx.went_low_at.as_ref())));
        args.push(text::i64_to_string(get_unix_timestamp(ctx.went_high_at.as_ref())));
        args.push(text::i64_to_string(get_unix_timestamp(ctx.time_of_state_change.as_ref())));
        args.push(text::i64_to_string(get_unix_timestamp(ctx.time_of_startup.as_ref())));
        assert(args.deep_view() =~= command_arguments(*ctx, body@, t));
        args
    }

    /// What to report after the command ran with the given output: nothing
    /// unless responses are shown and there is something to show.
    pub fn response_text(&self, stdout: &str, stderr: &str) -> (r: Option<String>)
        ensures
            !self.show_response ==> r is None,
            self.show_response ==> (if command_output_text(stdout@, stderr@).len() == 0 {
                r is None
            } else {
                r matches Some(s) && s@ == command_output_text(stdout@, stderr@)
            }),
    {
        if !self.show_response {
            return None;
        }
        let out = text::chars_of(text::trim_str(stdout).as_str());
        let err = text::chars_of(text::trim_str(stderr).as_str());
        let mut output: Vec<char> = Vec::new();
        if out.len() > 0 {
            text::extend_chars(&mut output, &text::chars_of("STDOUT:\n"));
            text::extend_chars(&mut output, &out);
            output.push('\n');
        }
        let ghost a = output@;
        if err.len() > 0 {
            if output.len() > 0 {
                text::extend_chars(&mut output, &text::chars_of("---\n"));
            }
            text::extend_chars(&mut output, &text::chars_of("STDERR:\n"));
            text::extend_chars(&mut output, &err);
            output.push('\n');
        }
        proof {
            reveal_strlit("STDOUT:\n");
            reveal_strlit("STDERR:\n");
            reveal_strlit("---\n");
            reveal_strlit("\n");
            let sa = if trimmed(stdout@).len() > 0 {
                "STDOUT:\n"@ + trimmed(stdout@) + "\n"@
            } else {
                Seq::<char>::empty()
            };
            assert(a =~= sa);
            let sb = if trimmed(stderr@).len() > 0 {
                (if sa.len() > 0 {
                    "---\n"@
                } else {
                    Seq::<char>::empty()
                }) + "STDERR:\n"@ + trimmed(stderr@) + "\n"@
            } else {
                Seq::<char>::empty()
            };
            assert(output@ =~= sa + sb);
        }
        let joined = text::string_of(&output);
        let t = text::trim_str(joined.as_str());
        if t.unicode_len() == 0 {
            None
        } else {
            Some(t)
        }
    }
}

impl Backend for CommandBackend {
    open spec fn spec_id(&self) -> usize {
        self.id
    }

    open spec fn spec_name(&self) -> Seq<char> {
        self.name@
    }

    open spec fn spec_texts(&self) -> MessageTexts {
        self.strings@
    }

    open spec fn spec_stagger(&self) -> u64 {
        0
    }

    open spec fn spec_body(&self, ctx: Context, t: MessageType, now: WallTime) -> Seq<char> {
        composed_of_type(ctx, self.strings@, t, now)
    }

    open spec fn spec_display(&self, ctx: Context, t: MessageType, now: WallTime) -> Seq<char> {
        composed_of_type(ctx, self.strings@, t, now)
    }

    open spec fn echoes(&self) -> bool {
        false
    }

    fn id(&self) -> (r: usize) {
        self.id
    }

    fn name(&self) -> (r: &str) {
        self.name.as_str()
    }

    fn strings(&self) -> (r: &MessageStrings) {
        &self.strings
    }

    fn compose_at(&self, ctx: &Context, t: MessageType, now: &WallTime) -> (r: String) {
        compose_at(ctx, &self.strings, t, now)
    }

    fn compose_display_at(&self, ctx: &Context, t: MessageType, now: &WallTime) -> (r: String) {
        compose_at(ctx, &self.strings, t, now)
    }

    fn stagger_delay(&self) -> (r: u64) {
        0
    }

    fn emit_in_process(&self, body: &str) -> (r: Option<Result<Option<String>, String>>) {
        None
    }
}

} // verus!
