//! Message composition: assembling a notification from its header, body and
//! footer, unescaping it, and filling in its placeholders.

use vstd::prelude::*;

use crate::context::Context;
use crate::defaults::{PROGRAM_NAME, PROGRAM_VERSION};
use crate::notify::MessageType;
use crate::settings::{MessageStrings, MessageTexts};
use crate::text::{self, replaced, trimmed_end};
use crate::time::{
    formatted, fuzzy_datestamp_at, fuzzy_text, WallTime, DATE_PATTERN, HOUR_MINUTE_PATTERN,
};

verus! {

/// Header, a line break and body, then a line break and the footer when
/// there is one.
pub open spec fn raw_message(header: Seq<char>, body: Seq<char>, footer: Seq<char>) -> Seq<char> {
    header + seq!['\n'] + body + (if footer.len() == 0 {
        Seq::<char>::empty()
    } else {
        seq!['\n'] + footer
    })
}

/// The character that the escape made of a backslash and `c` stands for:
/// `\\` a backslash, `\"` a double quote, `\n` a newline, `\r` a
/// carriage return, `\t` a tab, `\{` and `\}` curly braces. `None` when a
/// backslash and `c` make no escape.
pub open spec fn escape_meaning(c: char) -> Option<char> {
    if c == '\\' {
        Some('\\')
    } else if c == '"' {
        Some('"')
    } else if c == 'n' {
        Some('\n')
    } else if c == 'r' {
        Some('\r')
    } else if c == 't' {
        Some('\t')
    } else if c == '{' {
        Some('{')
    } else if c == '}' {
        Some('}')
    } else {
        None
    }
}

/// `s` read once from left to right, each escape (a backslash and a
/// character that `escape_meaning` knows) replaced, where it starts, by the
/// character it stands for. A character that an escape produced is never
/// read again, and a backslash that starts no escape is kept.
pub open spec fn unescaped(s: Seq<char>) -> Seq<char>
    decreases s.len(),
{
    if s.len() == 0 {
        s
    } else if s.len() >= 2 && s[0] == '\\' && escape_meaning(s[1]) is Some {
        seq![escape_meaning(s[1])->Some_0] + unescaped(s.skip(2))
    } else {
        seq![s[0]] + unescaped(s.skip(1))
    }
}

/// An escape stands for its one character, and the text after it is
/// unescaped on its own: a doubled backslash is one literal backslash,
/// whatever follows it.
pub proof fn law_escape_is_read_once(c: char, rest: Seq<char>)
    requires
        escape_meaning(c) is Some,
    ensures
        unescaped(seq!['\\', c] + rest) == seq![escape_meaning(c)->Some_0] + unescaped(rest),
{
    assert((seq!['\\', c] + rest).skip(2) =~= rest);
}

/// Text without a backslash has no escapes: unescaping keeps it as it is.
pub proof fn lemma_unescaped_without_backslash(s: Seq<char>)
    requires
        !s.contains('\\'),
    ensures
        unescaped(s) == s,
    decreases s.len(),
{
    if s.len() > 0 {
        assert(s.contains(s[0]));
        assert(!s.skip(1).contains('\\')) by {
            if s.skip(1).contains('\\') {
                let k = choose|k: int| 0 <= k < s.skip(1).len() && s.skip(1)[k] == '\\';
                assert(s[k + 1] == '\\');
                assert(s.contains(s[k + 1]));
            }
        }
        lemma_unescaped_without_backslash(s.skip(1));
        assert(s =~= seq![s[0]] + s.skip(1));
    }
}

/// `s` with `pat` replaced by the fuzzy rendering of `when` (seen from
/// `now`) if there is such a time, unchanged otherwise.
pub open spec fn with_time(s: Seq<char>, pat: Seq<char>, when: Option<crate::time::Timestamp>, now: WallTime) -> Seq<char> {
    match when {
        Some(t) => replaced(s, pat, fuzzy_text(t.wall, now)),
        None => s,
    }
}

/// `s` with its placeholders filled in from `ctx`, the current time being `now`.
///
/// In order: `{fuzzy_low}`, `{fuzzy_high}`, `{fuzzy_state_change}` and
/// `{fuzzy_startup}` when the context holds that time; `{fuzzy_now}`,
/// `{time_now}`, `{date_now}` from `now`; `{fuzzy_then}`, `{time_then}`,
/// `{date_then}` from the context's `now`; `{name}` and `{version}`.
pub open spec fn with_placeholders(s: Seq<char>, ctx: Context, now: WallTime) -> Seq<char> {
    let s1 = with_time(s, "{fuzzy_low}"@, ctx.went_low_at, now);
    let s2 = with_time(s1, "{fuzzy_high}"@, ctx.went_high_at, now);
    let s3 = with_time(s2, "{fuzzy_state_change}"@, ctx.time_of_state_change, now);
    let s4 = with_time(s3, "{fuzzy_startup}"@, ctx.time_of_startup, now);
    let s5 = replaced(s4, "{fuzzy_now}"@, fuzzy_text(now, now));
    let s6 = replaced(s5, "{time_now}"@, formatted(now, HOUR_MINUTE_PATTERN@));
    let s7 = replaced(s6, "{date_now}"@, formatted(now, DATE_PATTERN@));
    let s8 = replaced(s7, "{fuzzy_then}"@, fuzzy_text(ctx.now.wall, now));
    let s9 = replaced(s8, "{time_then}"@, formatted(ctx.now.wall, HOUR_MINUTE_PATTERN@));
    let s10 = replaced(s9, "{date_then}"@, formatted(ctx.now.wall, DATE_PATTERN@));
    let s11 = replaced(s10, "{name}"@, PROGRAM_NAME@);
    replaced(s11, "{version}"@, PROGRAM_VERSION@)
}

/// The message composed from `header`, `body` and `footer` in `ctx` at time
/// `now`: empty when the header is empty; otherwise the raw message,
/// unescaped, with placeholders filled in and trailing whitespace removed.
pub open spec fn composed(
    ctx: Context,
    header: Seq<char>,
    body: Seq<char>,
    footer: Seq<char>,
    now: WallTime,
) -> Seq<char> {
    if header.len() == 0 {
        Seq::<char>::empty()
    } else {
        trimmed_end(with_placeholders(unescaped(raw_message(header, body, footer)), ctx, now))
    }
}

/// The header of messages of type `t`.
pub open spec fn header_of(texts: MessageTexts, t: MessageType) -> Seq<char> {
    match t {
        MessageType::Alert => texts.alert_header,
        MessageType::Reminder => texts.reminder_header,
        MessageType::StartupFailed => texts.startup_failed_header,
        MessageType::StartupSuccess => texts.startup_success_header,
    }
}

/// The body of messages of type `t`.
pub open spec fn body_of(texts: MessageTexts, t: MessageType) -> Seq<char> {
    match t {
        MessageType::Alert => texts.alert_body,
        MessageType::Reminder => texts.reminder_body,
        MessageType::StartupFailed => texts.startup_failed_body,
        MessageType::StartupSuccess => texts.startup_success_body,
    }
}

/// The message of type `t` composed from `texts` in `ctx` at time `now`.
pub open spec fn composed_of_type(ctx: Context, texts: MessageTexts, t: MessageType, now: WallTime) -> Seq<char> {
    composed(ctx, header_of(texts, t), body_of(texts, t), texts.footer, now)
}

/// The character that a backslash and `c` stand for (see `escape_meaning`).
fn escape_of(c: char) -> (r: Option<char>)
    ensures
        r == escape_meaning(c),
{
    if c == '\\' {
        Some('\\')
    } else if c == '"' {
        Some('"')
    } else if c == 'n' {
        Some('\n')
    } else if c == 'r' {
        Some('\r')
    } else if c == 't' {
        Some('\t')
    } else if c == '{' {
        Some('{')
    } else if c == '}' {
        Some('}')
    } else {
        None
    }
}

/// Unescapes a message: `\\`, `\"`, `\n`, `\r`, `\t`, `\{` and `\}` become
/// the characters they stand for, in one pass from left to right.
pub fn unescape(input: &Vec<char>) -> (out: Vec<char>)
    ensures
        out@ == unescaped(input@),
{
    let mut out: Vec<char> = Vec::new();
    let mut i: usize = 0;
    assert(input@.skip(0) =~= input@);
    assert(out@ + unescaped(input@) =~= unescaped(input@));
    while i < input.len()
        invariant
            i <= input.len(),
            out@ + unescaped(input@.skip(i as int)) == unescaped(input@),
        decreases input.len() - i,
    {
        let c = input[i];
        let mut meaning: Option<char> = None;
        if c == '\\' && i + 1 < input.len() {
            meaning = escape_of(input[i + 1]);
        }
        let ghost rest = input@.skip(i as int);
        let ghost before = out@;
        match meaning {
            Some(e) => {
                assert(rest.skip(2) =~= input@.skip(i + 2));
                out.push(e);
                i = i + 2;
                assert(out@ + unescaped(input@.skip(i as int)) =~= before + unescaped(rest));
            },
            None => {
                assert(rest.skip(1) =~= input@.skip(i + 1));
                out.push(c);
                i = i + 1;
                assert(out@ + unescaped(input@.skip(i as int)) =~= before + unescaped(rest));
            },
        }
    }
    assert(input@.skip(i as int) =~= Seq::<char>::empty());
    assert(out@ + unescaped(input@.skip(i as int)) =~= out@);
    out
}

fn replace_time(
    s: &Vec<char>,
    pat: &str,
    when: &Option<crate::time::Timestamp>,
    now: &WallTime,
) -> (out: Vec<char>)
    requires
        pat@.len() > 0,
    ensures
        out@ == with_time(s@, pat@, *when, *now),
{
    match when {
        Some(t) => {
            let rendered = fuzzy_datestamp_at(&t.wall, now);
            text::replace_str(s, pat, rendered.as_str())
        },
        None => {
            let mut out: Vec<char> = Vec::new();
            text::extend_chars(&mut out, s);
            assert(out@ =~= s@);
            out
        },
    }
}

/// Fills in the placeholders of `body` from `ctx`, the current time being
/// `now` (see `with_placeholders`).
pub fn replace_placeholders_at(body: &Vec<char>, ctx: &Context, now: &WallTime) -> (out: Vec<char>)
    ensures
        out@ == with_placeholders(body@, *ctx, *now),
{
    proof {
        reveal_strlit("{fuzzy_low}");
        reveal_strlit("{fuzzy_high}");
        reveal_strlit("{fuzzy_state_change}");
        reveal_strlit("{fuzzy_startup}");
        reveal_strlit("{fuzzy_now}");
        reveal_strlit("{time_now}");
        reveal_strlit("{date_now}");
        reveal_strlit("{fuzzy_then}");
        reveal_strlit("{time_then}");
        reveal_strlit("{date_then}");
        reveal_strlit("{name}");
        reveal_strlit("{version}");
        reveal_strlit("%Y-%m-%d");
        reveal_strlit("%H:%M");
    }
    let s1 = replace_time(body, "{fuzzy_low}", &ctx.went_low_at, now);
    let s2 = replace_time(&s1, "{fuzzy_high}", &ctx.went_high_at, now);
    let s3 = replace_time(&s2, "{fuzzy_state_change}", &ctx.time_of_state_change, now);
    let s4 = replace_time(&s3, "{fuzzy_startup}", &ctx.time_of_startup, now);
    let fuzzy_now = fuzzy_datestamp_at(now, now);
    let s5 = text::replace_str(&s4, "{fuzzy_now}", fuzzy_now.as_str());
    let time_now = now.format(HOUR_MINUTE_PATTERN);
    let s6 = text::replace_str(&s5, "{time_now}", time_now.as_str());
    let date_now = now.format(DATE_PATTERN);
    let s7 = text::replace_str(&s6, "{date_now}", date_now.as_str());
    let fuzzy_then = fuzzy_datestamp_at(&ctx.now.wall, now);
    let s8 = text::replace_str(&s7, "{fuzzy_then}", fuzzy_then.as_str());
    let time_then = ctx.now.wall.format(HOUR_MINUTE_PATTERN);
    let s9 = text::replace_str(&s8, "{time_then}", time_then.as_str());
    let date_then = ctx.now.wall.format(DATE_PATTERN);
    let s10 = text::replace_str(&s9, "{date_then}", date_then.as_str());
    let s11 = text::replace_str(&s10, "{name}", PROGRAM_NAME);
    text::replace_str(&s11, "{version}", PROGRAM_VERSION)
}

/// Composes a message from `header`, `body` and `footer` in `ctx`, the
/// current time being `now` (see `composed`).
pub fn compose_common_at(
    ctx: &Context,
    header: &str,
    body: &str,
    footer: &str,
    now: &WallTime,
) -> (msg: String)
    ensures
        msg@ == composed(*ctx, header@, body@, footer@, *now),
{
    if header.unicode_len() == 0 {
        return String::new();
    }
    let mut raw = text::chars_of(header);
    raw.push('\n');
    let b = text::chars_of(body);
    text::extend_chars(&mut raw, &b);
    let ghost without_footer = raw@;
    if footer.unicode_len() != 0 {
        raw.push('\n');
        let f = text::chars_of(footer);
        text::extend_chars(&mut raw, &f);
    }
    assert(raw@ =~= raw_message(header@, body@, footer@));
    let u = unescape(&raw);
    let p = replace_placeholders_at(&u, ctx, now);
    let t = text::trim_end_chars(&p);
    text::string_of(&t)
}

/// Composes the message of type `message_type` from `strings` in `ctx`,
/// the current time being `now`.
pub fn compose_at(
    ctx: &Context,
    strings: &MessageStrings,
    message_type: MessageType,
    now: &WallTime,
) -> (msg: String)
    ensures
        msg@ == composed_of_type(*ctx, strings@, message_type, *now),
{
    match message_type {
        MessageType::Alert => compose_common_at(
            ctx,
            strings.alert_header.as_str(),
            strings.alert_body.as_str(),
            strings.footer.as_str(),
            now,
        ),
        MessageType::Reminder => compose_common_at(
            ctx,
            strings.reminder_header.as_str(),
            strings.reminder_body.as_str(),
            strings.footer.as_str(),
            now,
        ),
        MessageType::StartupFailed => compose_common_at(
            ctx,
            strings.startup_failed_header.as_str(),
            strings.startup_failed_body.as_str(),
            strings.footer.as_str(),
            now,
        ),
        MessageType::StartupSuccess => compose_common_at(
            ctx,
            strings.startup_success_header.as_str(),
            strings.startup_success_body.as_str(),
            strings.footer.as_str(),
            now,
        ),
    }
}

/// Composes a message of type `message_type` at the current time; `None`
/// when the current time cannot be read (see `WallTime::now`).
fn compose_now(ctx: &Context, strings: &MessageStrings, message_type: MessageType, offset: i32) -> (msg: Option<String>)
    ensures
        msg matches Some(m) ==> exists|now: WallTime| now.utc_offset() == offset && m@ == composed_of_type(*ctx, strings@, message_type, now),
{
    match WallTime::now(offset) {
        Some(now) => Some(compose_at(ctx, strings, message_type, &now)),
        None => None,
    }
}

/// Composes an alert message from `ctx` and the backend's message strings at
/// the current time, seen at UTC offset `offset` (the local time zone's,
/// which the caller reads); `None` when that time cannot be read (see
/// `WallTime::now`).
pub fn compose_alert_message(ctx: &Context, strings: &MessageStrings, offset: i32) -> (msg: Option<String>)
    ensures
        msg matches Some(m) ==> exists|now: WallTime| now.utc_offset() == offset && m@ == composed_of_type(*ctx, strings@, MessageType::Alert, now),
{
    compose_now(ctx, strings, MessageType::Alert, offset)
}

/// Composes a reminder message at the current time, seen at UTC offset
/// `offset` (the local time zone's, which the caller reads); `None` when that
/// time cannot be read (see `WallTime::now`).
pub fn compose_reminder_message(ctx: &Context, strings: &MessageStrings, offset: i32) -> (msg: Option<String>)
    ensures
        msg matches Some(m) ==> exists|now: WallTime| now.utc_offset() == offset && m@ == composed_of_type(*ctx, strings@, MessageType::Reminder, now),
{
    compose_now(ctx, strings, MessageType::Reminder, offset)
}

/// Composes a message about a failed startup at the current time, seen at UTC
/// offset `offset` (the local time zone's, which the caller reads); `None`
/// when that time cannot be read (see `WallTime::now`).
pub fn compose_startup_failed_message(ctx: &Context, strings: &MessageStrings, offset: i32) -> (msg: Option<String>)
    ensures
        msg matches Some(m) ==> exists|now: WallTime|
            now.utc_offset() == offset && m@ == composed_of_type(*ctx, strings@, MessageType::StartupFailed, now),
{
    compose_now(ctx, strings, MessageType::StartupFailed, offset)
}

/// Composes a message about a successful startup at the current time, seen at
/// UTC offset `offset` (the local time zone's, which the caller reads);
/// `None` when that time cannot be read (see `WallTime::now`).
pub fn compose_startup_success_message(ctx: &Context, strings: &MessageStrings, offset: i32) -> (msg: Option<String>)
    ensures
        msg matches Some(m) ==> exists|now: WallTime|
            now.utc_offset() == offset && m@ == composed_of_type(*ctx, strings@, MessageType::StartupSuccess, now),
{
    compose_now(ctx, strings, MessageType::StartupSuccess, offset)
}

/// Whether every opening curly brace of `s` starts an occurrence of `p`: the
/// text holds no placeholder but `p`, and no other curly brace.
pub open spec fn braces_start(s: Seq<char>, p: Seq<char>) -> bool {
    forall|i: int|
        0 <= i < s.len() && #[trigger] s[i] == '{' ==> i + p.len() <= s.len() && s.subrange(
            i,
            i + p.len(),
        ) == p
}

/// A placeholder `q` that differs from `p` (at index `j`) occurs nowhere in
/// a text whose curly braces all start `p`, so filling it in changes nothing.
proof fn lemma_other_placeholder_kept(s: Seq<char>, p: Seq<char>, q: Seq<char>, r: Seq<char>, j: int)
    requires
        braces_start(s, p),
        q.len() > 0,
        q[0] == '{',
        0 <= j < p.len(),
        j < q.len(),
        p[j] != q[j],
    ensures
        replaced(s, q, r) == s,
{
    assert forall|i: int| 0 <= i && i + q.len() <= s.len() implies #[trigger] s.subrange(
        i,
        i + q.len(),
    ) != q by {
        if s.subrange(i, i + q.len()) == q {
            assert(s.subrange(i, i + q.len())[0] == s[i]);
            assert(s[i] == '{');
            assert(s.subrange(i, i + p.len()) == p);
            assert(s.subrange(i, i + q.len())[j] == s[i + j]);
            assert(s.subrange(i, i + p.len())[j] == s[i + j]);
        }
    }
    text::lemma_replaced_absent(s, q, r);
}

/// The tail of a text whose curly braces all start `p` has the same form.
proof fn lemma_braces_start_skip(s: Seq<char>, p: Seq<char>, n: int)
    requires
        braces_start(s, p),
        0 <= n <= s.len(),
    ensures
        braces_start(s.skip(n), p),
{
    let t = s.skip(n);
    assert forall|i: int| 0 <= i < t.len() && #[trigger] t[i] == '{' implies i + p.len() <= t.len()
        && t.subrange(i, i + p.len()) == p by {
        assert(s[i + n] == t[i]);
        assert(t.subrange(i, i + p.len()) =~= s.subrange(i + n, i + n + p.len()));
    }
}

/// Filling in `p` with text free of curly braces, in a text whose curly
/// braces all start `p`, leaves no curly brace.
proof fn lemma_filled_without_braces(s: Seq<char>, p: Seq<char>, fill: Seq<char>)
    requires
        braces_start(s, p),
        p.len() > 0,
        !fill.contains('{'),
    ensures
        !replaced(s, p, fill).contains('{'),
    decreases s.len(),
{
    if s.len() < p.len() {
        if s.contains('{') {
            let i = choose|i: int| 0 <= i < s.len() && s[i] == '{';
            assert(s[i] == '{');
        }
    } else if s.take(p.len() as int) == p {
        lemma_braces_start_skip(s, p, p.len() as int);
        lemma_filled_without_braces(s.skip(p.len() as int), p, fill);
        text::lemma_concat_without(fill, replaced(s.skip(p.len() as int), p, fill), '{');
    } else {
        if s[0] == '{' {
            assert(s.subrange(0, p.len() as int) == p);
            assert(s.take(p.len() as int) =~= s.subrange(0, p.len() as int));
        }
        lemma_braces_start_skip(s, p, 1);
        lemma_filled_without_braces(s.skip(1), p, fill);
        assert(!seq![s[0]].contains('{')) by {
            if seq![s[0]].contains('{') {
                let k = choose|k: int| 0 <= k < 1 && seq![s[0]][k] == '{';
                assert(seq![s[0]][k] == s[0]);
            }
        }
        text::lemma_concat_without(seq![s[0]], replaced(s.skip(1), p, fill), '{');
    }
}

/// Each placeholder is filled in from its own source. Take a message whose
/// text (header, body and footer) holds no escape, and no curly brace but
/// those that start the placeholder `p`; let `fill`, free of curly braces,
/// be what `p` stands for. Then the message is that text with every `p`
/// replaced by `fill`, trailing whitespace removed. `{fuzzy_low}`,
/// `{fuzzy_high}`, `{fuzzy_state_change}` and `{fuzzy_startup}` stand for
/// the fuzzy rendering of the time the burner last went low, last went high,
/// last changed state and last started up (where the context holds no such
/// time, the placeholder is kept as written); `{fuzzy_now}`, `{time_now}`
/// and `{date_now}` for the current time as fuzzy text, as hours and
/// minutes and as a date; `{fuzzy_then}`, `{time_then}` and `{date_then}`
/// for the same of the context's current time; `{name}` and `{version}` for
/// the program's name and version.
#[verifier::rlimit(60)]
pub proof fn law_placeholders_are_filled_from_their_source(
    ctx: Context,
    header: Seq<char>,
    body: Seq<char>,
    footer: Seq<char>,
    now: WallTime,
    p: Seq<char>,
    fill: Seq<char>,
)
    requires
        header.len() > 0,
        !raw_message(header, body, footer).contains('\\'),
        braces_start(raw_message(header, body, footer), p),
        !fill.contains('{'),
    ensures
        ({
            let raw = raw_message(header, body, footer);
            let m = composed(ctx, header, body, footer, now);
            let filled = trimmed_end(replaced(raw, p, fill));
            let kept = trimmed_end(raw);
            &&& (p == "{fuzzy_low}"@ ==> match ctx.went_low_at {
                Some(t) => fill == fuzzy_text(t.wall, now) ==> m == filled,
                None => m == kept,
            })
            &&& (p == "{fuzzy_high}"@ ==> match ctx.went_high_at {
                Some(t) => fill == fuzzy_text(t.wall, now) ==> m == filled,
                None => m == kept,
            })
            &&& (p == "{fuzzy_state_change}"@ ==> match ctx.time_of_state_change {
                Some(t) => fill == fuzzy_text(t.wall, now) ==> m == filled,
                None => m == kept,
            })
            &&& (p == "{fuzzy_startup}"@ ==> match ctx.time_of_startup {
                Some(t) => fill == fuzzy_text(t.wall, now) ==> m == filled,
                None => m == kept,
            })
            &&& (p == "{fuzzy_now}"@ && fill == fuzzy_text(now, now) ==> m == filled)
            &&& (p == "{time_now}"@ && fill == formatted(now, HOUR_MINUTE_PATTERN@) ==> m == filled)
            &&& (p == "{date_now}"@ && fill == formatted(now, DATE_PATTERN@) ==> m == filled)
            &&& (p == "{fuzzy_then}"@ && fill == fuzzy_text(ctx.now.wall, now) ==> m == filled)
            &&& (p == "{time_then}"@ && fill == formatted(ctx.now.wall, HOUR_MINUTE_PATTERN@) ==> m == filled)
            &&& (p == "{date_then}"@ && fill == formatted(ctx.now.wall, DATE_PATTERN@) ==> m == filled)
            &&& (p == "{name}"@ && fill == PROGRAM_NAME@ ==> m == filled)
            &&& (p == "{version}"@ && fill == PROGRAM_VERSION@ ==> m == filled)
        }),
{
    let raw = raw_message(header, body, footer);
    lemma_unescaped_without_backslash(raw);
    reveal_strlit("{fuzzy_low}");
    reveal_strlit("{fuzzy_high}");
    reveal_strlit("{fuzzy_state_change}");
    reveal_strlit("{fuzzy_startup}");
    reveal_strlit("{fuzzy_now}");
    reveal_strlit("{time_now}");
    reveal_strlit("{date_now}");
    reveal_strlit("{fuzzy_then}");
    reveal_strlit("{time_then}");
    reveal_strlit("{date_then}");
    reveal_strlit("{name}");
    reveal_strlit("{version}");
    if p == "{fuzzy_low}"@ {
        match ctx.went_low_at {
            Some(t) => {
                if fill == fuzzy_text(t.wall, now) {
                    lemma_filled_without_braces(raw, p, fill);
                    if let Some(u) = ctx.went_high_at { text::lemma_replaced_without_pattern(replaced(raw, p, fill), "{fuzzy_high}"@, fuzzy_text(u.wall, now)); }
                    if let Some(u) = ctx.time_of_state_change { text::lemma_replaced_without_pattern(replaced(raw, p, fill), "{fuzzy_state_change}"@, fuzzy_text(u.wall, now)); }
                    if let Some(u) = ctx.time_of_startup { text::lemma_replaced_without_pattern(replaced(raw, p, fill), "{fuzzy_startup}"@, fuzzy_text(u.wall, now)); }
                    text::lemma_replaced_without_pattern(replaced(raw, p, fill), "{fuzzy_now}"@, fuzzy_text(now, now));
                    text::lemma_replaced_without_pattern(replaced(raw, p, fill), "{time_now}"@, formatted(now, HOUR_MINUTE_PATTERN@));
                    text::lemma_replaced_without_pattern(replaced(raw, p, fill), "{date_now}"@, formatted(now, DATE_PATTERN@));
                    text::lemma_replaced_without_pattern(replaced(raw, p, fill), "{fuzzy_then}"@, fuzzy_text(ctx.now.wall, now));
                    text::lemma_replaced_without_pattern(replaced(raw, p, fill), "{time_then}"@, formatted(ctx.now.wall, HOUR_MINUTE_PATTERN@));
                    text::lemma_replaced_without_pattern(replaced(raw, p, fill), "{date_then}"@, formatted(ctx.now.wall, DATE_PATTERN@));
                    text::lemma_replaced_without_pattern(replaced(raw, p, fill), "{name}"@, PROGRAM_NAME@);
                    text::lemma_replaced_without_pattern(replaced(raw, p, fill), "{version}"@, PROGRAM_VERSION@);
                }
            },
            None => {
                if let Some(u) = ctx.went_high_at { lemma_other_placeholder_kept(raw, p, "{fuzzy_high}"@, fuzzy_text(u.wall, now), 7); }
                if let Some(u) = ctx.time_of_state_change { lemma_other_placeholder_kept(raw, p, "{fuzzy_state_change}"@, fuzzy_text(u.wall, now), 7); }
                if let Some(u) = ctx.time_of_startup { lemma_other_placeholder_kept(raw, p, "{fuzzy_startup}"@, fuzzy_text(u.wall, now), 7); }
                lemma_other_placeholder_kept(raw, p, "{fuzzy_now}"@, fuzzy_text(now, now), 7);
                lemma_other_placeholder_kept(raw, p, "{time_now}"@, formatted(now, HOUR_MINUTE_PATTERN@), 1);
                lemma_other_placeholder_kept(raw, p, "{date_now}"@, formatted(now, DATE_PATTERN@), 1);
                lemma_other_placeholder_kept(raw, p, "{fuzzy_then}"@, fuzzy_text(ctx.now.wall, now), 7);
                lemma_other_placeholder_kept(raw, p, "{time_then}"@, formatted(ctx.now.wall, HOUR_MINUTE_PATTERN@), 1);
                lemma_other_placeholder_kept(raw, p, "{date_then}"@, formatted(ctx.now.wall, DATE_PATTERN@), 1);
                lemma_other_placeholder_kept(raw, p, "{name}"@, PROGRAM_NAME@, 1);
                lemma_other_placeholder_kept(raw, p, "{version}"@, PROGRAM_VERSION@, 1);
            },
        }
    }
    if p == "{fuzzy_high}"@ {
        match ctx.went_high_at {
            Some(t) => {
                if fill == fuzzy_text(t.wall, now) {
                    lemma_filled_without_braces(raw, p, fill);
                    if let Some(u) = ctx.went_low_at { lemma_other_placeholder_kept(raw, p, "{fuzzy_low}"@, fuzzy_text(u.wall, now), 7); }
                    if let Some(u) = ctx.time_of_state_change { text::lemma_replaced_without_pattern(replaced(raw, p, fill), "{fuzzy_state_change}"@, fuzzy_text(u.wall, now)); }
                    if let Some(u) = ctx.time_of_startup { text::lemma_replaced_without_pattern(replaced(raw, p, fill), "{fuzzy_startup}"@, fuzzy_text(u.wall, now)); }
                    text::lemma_replaced_without_pattern(replaced(raw, p, fill), "{fuzzy_now}"@, fuzzy_text(now, now));
                    text::lemma_replaced_without_pattern(replaced(raw, p, fill), "{time_now}"@, formatted(now, HOUR_MINUTE_PATTERN@));
                    text::lemma_replaced_without_pattern(replaced(raw, p, fill), "{date_now}"@, formatted(now, DATE_PATTERN@));
                    text::lemma_replaced_without_pattern(replaced(raw, p, fill), "{fuzzy_then}"@, fuzzy_text(ctx.now.wall, now));
                    text::lemma_replaced_without_pattern(replaced(raw, p, fill), "{time_then}"@, formatted(ctx.now.wall, HOUR_MINUTE_PATTERN@));
                    text::lemma_replaced_without_pattern(replaced(raw, p, fill), "{date_then}"@, formatted(ctx.now.wall, DATE_PATTERN@));
                    text::lemma_replaced_without_pattern(replaced(raw, p, fill), "{name}"@, PROGRAM_NAME@);
                    text::lemma_replaced_without_pattern(replaced(raw, p, fill), "{version}"@, PROGRAM_VERSION@);
                }
            },
            None => {
                if let Some(u) = ctx.went_low_at { lemma_other_placeholder_kept(raw, p, "{fuzzy_low}"@, fuzzy_text(u.wall, now), 7); }
                if let Some(u) = ctx.time_of_state_change { lemma_other_placeholder_kept(raw, p, "{fuzzy_state_change}"@, fuzzy_text(u.wall, now), 7); }
                if let Some(u) = ctx.time_of_startup { lemma_other_placeholder_kept(raw, p, "{fuzzy_startup}"@, fuzzy_text(u.wall, now), 7); }
                lemma_other_placeholder_kept(raw, p, "{fuzzy_now}"@, fuzzy_text(now, now), 7);
                lemma_other_placeholder_kept(raw, p, "{time_now}"@, formatted(now, HOUR_MINUTE_PATTERN@), 1);
                lemma_other_placeholder_kept(raw, p, "{date_now}"@, formatted(now, DATE_PATTERN@), 1);
                lemma_other_placeholder_kept(raw, p, "{fuzzy_then}"@, fuzzy_text(ctx.now.wall, now), 7);
                lemma_other_placeholder_kept(raw, p, "{time_then}"@, formatted(ctx.now.wall, HOUR_MINUTE_PATTERN@), 1);
                lemma_other_placeholder_kept(raw, p, "{date_then}"@, formatted(ctx.now.wall, DATE_PATTERN@), 1);
                lemma_other_placeholder_kept(raw, p, "{name}"@, PROGRAM_NAME@, 1);
                lemma_other_placeholder_kept(raw, p, "{version}"@, PROGRAM_VERSION@, 1);
            },
        }
    }
    if p == "{fuzzy_state_change}"@ {
        match ctx.time_of_state_change {
            Some(t) => {
                if fill == fuzzy_text(t.wall, now) {
                    lemma_filled_without_braces(raw, p, fill);
                    if let Some(u) = ctx.went_low_at { lemma_other_placeholder_kept(raw, p, "{fuzzy_low}"@, fuzzy_text(u.wall, now), 7); }
                    if let Some(u) = ctx.went_high_at { lemma_other_placeholder_kept(raw, p, "{fuzzy_high}"@, fuzzy_text(u.wall, now), 7); }
                    if let Some(u) = ctx.time_of_startup { text::lemma_replaced_without_pattern(replaced(raw, p, fill), "{fuzzy_startup}"@, fuzzy_text(u.wall, now)); }
                    text::lemma_replaced_without_pattern(replaced(raw, p, fill), "{fuzzy_now}"@, fuzzy_text(now, now));
                    text::lemma_replaced_without_pattern(replaced(raw, p, fill), "{time_now}"@, formatted(now, HOUR_MINUTE_PATTERN@));
                    text::lemma_replaced_without_pattern(replaced(raw, p, fill), "{date_now}"@, formatted(now, DATE_PATTERN@));
                    text::lemma_replaced_without_pattern(replaced(raw, p, fill), "{fuzzy_then}"@, fuzzy_text(ctx.now.wall, now));
                    text::lemma_replaced_without_pattern(replaced(raw, p, fill), "{time_then}"@, formatted(ctx.now.wall, HOUR_MINUTE_PATTERN@));
                    text::lemma_replaced_without_pattern(replaced(raw, p, fill), "{date_then}"@, formatted(ctx.now.wall, DATE_PATTERN@));
                    text::lemma_replaced_without_pattern(replaced(raw, p, fill), "{name}"@, PROGRAM_NAME@);
                    text::lemma_replaced_without_pattern(replaced(raw, p, fill), "{version}"@, PROGRAM_VERSION@);
                }
            },
            None => {
                if let Some(u) = ctx.went_low_at { lemma_other_placeholder_kept(raw, p, "{fuzzy_low}"@, fuzzy_text(u.wall, now), 7); }
                if let Some(u) = ctx.went_high_at { lemma_other_placeholder_kept(raw, p, "{fuzzy_high}"@, fuzzy_text(u.wall, now), 7); }
                if let Some(u) = ctx.time_of_startup { lemma_other_placeholder_kept(raw, p, "{fuzzy_startup}"@, fuzzy_text(u.wall, now), 10); }
                lemma_other_placeholder_kept(raw, p, "{fuzzy_now}"@, fuzzy_text(now, now), 7);
                lemma_other_placeholder_kept(raw, p, "{time_now}"@, formatted(now, HOUR_MINUTE_PATTERN@), 1);
                lemma_other_placeholder_kept(raw, p, "{date_now}"@, formatted(now, DATE_PATTERN@), 1);
                lemma_other_placeholder_kept(raw, p, "{fuzzy_then}"@, fuzzy_text(ctx.now.wall, now), 7);
                lemma_other_placeholder_kept(raw, p, "{time_then}"@, formatted(ctx.now.wall, HOUR_MINUTE_PATTERN@), 1);
                lemma_other_placeholder_kept(raw, p, "{date_then}"@, formatted(ctx.now.wall, DATE_PATTERN@), 1);
                lemma_other_placeholder_kept(raw, p, "{name}"@, PROGRAM_NAME@, 1);
                lemma_other_placeholder_kept(raw, p, "{version}"@, PROGRAM_VERSION@, 1);
            },
        }
    }
    if p == "{fuzzy_startup}"@ {
        match ctx.time_of_startup {
            Some(t) => {
                if fill == fuzzy_text(t.wall, now) {
                    lemma_filled_without_braces(raw, p, fill);
                    if let Some(u) = ctx.went_low_at { lemma_other_placeholder_kept(raw, p, "{fuzzy_low}"@, fuzzy_text(u.wall, now), 7); }
                    if let Some(u) = ctx.went_high_at { lemma_other_placeholder_kept(raw, p, "{fuzzy_high}"@, fuzzy_text(u.wall, now), 7); }
                    if let Some(u) = ctx.time_of_state_change { lemma_other_placeholder_kept(raw, p, "{fuzzy_state_change}"@, fuzzy_text(u.wall, now), 10); }
                    text::lemma_replaced_without_pattern(replaced(raw, p, fill), "{fuzzy_now}"@, fuzzy_text(now, now));
                    text::lemma_replaced_without_pattern(replaced(raw, p, fill), "{time_now}"@, formatted(now, HOUR_MINUTE_PATTERN@));
                    text::lemma_replaced_without_pattern(replaced(raw, p, fill), "{date_now}"@, formatted(now, DATE_PATTERN@));
                    text::lemma_replaced_without_pattern(replaced(raw, p, fill), "{fuzzy_then}"@, fuzzy_text(ctx.now.wall, now));
                    text::lemma_replaced_without_pattern(replaced(raw, p, fill), "{time_then}"@, formatted(ctx.now.wall, HOUR_MINUTE_PATTERN@));
                    text::lemma_replaced_without_pattern(replaced(raw, p, fill), "{date_then}"@, formatted(ctx.now.wall, DATE_PATTERN@));
                    text::lemma_replaced_without_pattern(replaced(raw, p, fill), "{name}"@, PROGRAM_NAME@);
                    text::lemma_replaced_without_pattern(replaced(raw, p, fill), "{version}"@, PROGRAM_VERSION@);
                }
            },
            None => {
                if let Some(u) = ctx.went_low_at { lemma_other_placeholder_kept(raw, p, "{fuzzy_low}"@, fuzzy_text(u.wall, now), 7); }
                if let Some(u) = ctx.went_high_at { lemma_other_placeholder_kept(raw, p, "{fuzzy_high}"@, fuzzy_text(u.wall, now), 7); }
                if let Some(u) = ctx.time_of_state_change { lemma_other_placeholder_kept(raw, p, "{fuzzy_state_change}"@, fuzzy_text(u.wall, now), 10); }
                lemma_other_placeholder_kept(raw, p, "{fuzzy_now}"@, fuzzy_text(now, now), 7);
                lemma_other_placeholder_kept(raw, p, "{time_now}"@, formatted(now, HOUR_MINUTE_PATTERN@), 1);
                lemma_other_placeholder_kept(raw, p, "{date_now}"@, formatted(now, DATE_PATTERN@), 1);
                lemma_other_placeholder_kept(raw, p, "{fuzzy_then}"@, fuzzy_text(ctx.now.wall, now), 7);
                lemma_other_placeholder_kept(raw, p, "{time_then}"@, formatted(ctx.now.wall, HOUR_MINUTE_PATTERN@), 1);
                lemma_other_placeholder_kept(raw, p, "{date_then}"@, formatted(ctx.now.wall, DATE_PATTERN@), 1);
                lemma_other_placeholder_kept(raw, p, "{name}"@, PROGRAM_NAME@, 1);
                lemma_other_placeholder_kept(raw, p, "{version}"@, PROGRAM_VERSION@, 1);
            },
        }
    }
    if p == "{fuzzy_now}"@ && fill == fuzzy_text(now, now) {
        lemma_filled_without_braces(raw, p, fill);
        if let Some(u) = ctx.went_low_at { lemma_other_placeholder_kept(raw, p, "{fuzzy_low}"@, fuzzy_text(u.wall, now), 7); }
        if let Some(u) = ctx.went_high_at { lemma_other_placeholder_kept(raw, p, "{fuzzy_high}"@, fuzzy_text(u.wall, now), 7); }
        if let Some(u) = ctx.time_of_state_change { lemma_other_placeholder_kept(raw, p, "{fuzzy_state_change}"@, fuzzy_text(u.wall, now), 7); }
        if let Some(u) = ctx.time_of_startup { lemma_other_placeholder_kept(raw, p, "{fuzzy_startup}"@, fuzzy_text(u.wall, now), 7); }
        text::lemma_replaced_without_pattern(replaced(raw, p, fill), "{time_now}"@, formatted(now, HOUR_MINUTE_PATTERN@));
        text::lemma_replaced_without_pattern(replaced(raw, p, fill), "{date_now}"@, formatted(now, DATE_PATTERN@));
        text::lemma_replaced_without_pattern(replaced(raw, p, fill), "{fuzzy_then}"@, fuzzy_text(ctx.now.wall, now));
        text::lemma_replaced_without_pattern(replaced(raw, p, fill), "{time_then}"@, formatted(ctx.now.wall, HOUR_MINUTE_PATTERN@));
        text::lemma_replaced_without_pattern(replaced(raw, p, fill), "{date_then}"@, formatted(ctx.now.wall, DATE_PATTERN@));
        text::lemma_replaced_without_pattern(replaced(raw, p, fill), "{name}"@, PROGRAM_NAME@);
        text::lemma_replaced_without_pattern(replaced(raw, p, fill), "{version}"@, PROGRAM_VERSION@);
    }
    if p == "{time_now}"@ && fill == formatted(now, HOUR_MINUTE_PATTERN@) {
        lemma_filled_without_braces(raw, p, fill);
        if let Some(u) = ctx.went_low_at { lemma_other_placeholder_kept(raw, p, "{fuzzy_low}"@, fuzzy_text(u.wall, now), 1); }
        if let Some(u) = ctx.went_high_at { lemma_other_placeholder_kept(raw, p, "{fuzzy_high}"@, fuzzy_text(u.wall, now), 1); }
        if let Some(u) = ctx.time_of_state_change { lemma_other_placeholder_kept(raw, p, "{fuzzy_state_change}"@, fuzzy_text(u.wall, now), 1); }
        if let Some(u) = ctx.time_of_startup { lemma_other_placeholder_kept(raw, p, "{fuzzy_startup}"@, fuzzy_text(u.wall, now), 1); }
        lemma_other_placeholder_kept(raw, p, "{fuzzy_now}"@, fuzzy_text(now, now), 1);
        text::lemma_replaced_without_pattern(replaced(raw, p, fill), "{date_now}"@, formatted(now, DATE_PATTERN@));
        text::lemma_replaced_without_pattern(replaced(raw, p, fill), "{fuzzy_then}"@, fuzzy_text(ctx.now.wall, now));
        text::lemma_replaced_without_pattern(replaced(raw, p, fill), "{time_then}"@, formatted(ctx.now.wall, HOUR_MINUTE_PATTERN@));
        text::lemma_replaced_without_pattern(replaced(raw, p, fill), "{date_then}"@, formatted(ctx.now.wall, DATE_PATTERN@));
        text::lemma_replaced_without_pattern(replaced(raw, p, fill), "{name}"@, PROGRAM_NAME@);
        text::lemma_replaced_without_pattern(replaced(raw, p, fill), "{version}"@, PROGRAM_VERSION@);
    }
    if p == "{date_now}"@ && fill == formatted(now, DATE_PATTERN@) {
        lemma_filled_without_braces(raw, p, fill);
        if let Some(u) = ctx.went_low_at { lemma_other_placeholder_kept(raw, p, "{fuzzy_low}"@, fuzzy_text(u.wall, now), 1); }
        if let Some(u) = ctx.went_high_at { lemma_other_placeholder_kept(raw, p, "{fuzzy_high}"@, fuzzy_text(u.wall, now), 1); }
        if let Some(u) = ctx.time_of_state_change { lemma_other_placeholder_kept(raw, p, "{fuzzy_state_change}"@, fuzzy_text(u.wall, now), 1); }
        if let Some(u) = ctx.time_of_startup { lemma_other_placeholder_kept(raw, p, "{fuzzy_startup}"@, fuzzy_text(u.wall, now), 1); }
        lemma_other_placeholder_kept(raw, p, "{fuzzy_now}"@, fuzzy_text(now, now), 1);
        lemma_other_placeholder_kept(raw, p, "{time_now}"@, formatted(now, HOUR_MINUTE_PATTERN@), 1);
        text::lemma_replaced_without_pattern(replaced(raw, p, fill), "{fuzzy_then}"@, fuzzy_text(ctx.now.wall, now));
        text::lemma_replaced_without_pattern(replaced(raw, p, fill), "{time_then}"@, formatted(ctx.now.wall, HOUR_MINUTE_PATTERN@));
        text::lemma_replaced_without_pattern(replaced(raw, p, fill), "{date_then}"@, formatted(ctx.now.wall, DATE_PATTERN@));
        text::lemma_replaced_without_pattern(replaced(raw, p, fill), "{name}"@, PROGRAM_NAME@);
        text::lemma_replaced_without_pattern(replaced(raw, p, fill), "{version}"@, PROGRAM_VERSION@);
    }
    if p == "{fuzzy_then}"@ && fill == fuzzy_text(ctx.now.wall, now) {
        lemma_filled_without_braces(raw, p, fill);
        if let Some(u) = ctx.went_low_at { lemma_other_placeholder_kept(raw, p, "{fuzzy_low}"@, fuzzy_text(u.wall, now), 7); }
        if let Some(u) = ctx.went_high_at { lemma_other_placeholder_kept(raw, p, "{fuzzy_high}"@, fuzzy_text(u.wall, now), 7); }
        if let Some(u) = ctx.time_of_state_change { lemma_other_placeholder_kept(raw, p, "{fuzzy_state_change}"@, fuzzy_text(u.wall, now), 7); }
        if let Some(u) = ctx.time_of_startup { lemma_other_placeholder_kept(raw, p, "{fuzzy_startup}"@, fuzzy_text(u.wall, now), 7); }
        lemma_other_placeholder_kept(raw, p, "{fuzzy_now}"@, fuzzy_text(now, now), 7);
        lemma_other_placeholder_kept(raw, p, "{time_now}"@, formatted(now, HOUR_MINUTE_PATTERN@), 1);
        lemma_other_placeholder_kept(raw, p, "{date_now}"@, formatted(now, DATE_PATTERN@), 1);
        text::lemma_replaced_without_pattern(replaced(raw, p, fill), "{time_then}"@, formatted(ctx.now.wall, HOUR_MINUTE_PATTERN@));
        text::lemma_replaced_without_pattern(replaced(raw, p, fill), "{date_then}"@, formatted(ctx.now.wall, DATE_PATTERN@));
        text::lemma_replaced_without_pattern(replaced(raw, p, fill), "{name}"@, PROGRAM_NAME@);
        text::lemma_replaced_without_pattern(replaced(raw, p, fill), "{version}"@, PROGRAM_VERSION@);
    }
    if p == "{time_then}"@ && fill == formatted(ctx.now.wall, HOUR_MINUTE_PATTERN@) {
        lemma_filled_without_braces(raw, p, fill);
        if let Some(u) = ctx.went_low_at { lemma_other_placeholder_kept(raw, p, "{fuzzy_low}"@, fuzzy_text(u.wall, now), 1); }
        if let Some(u) = ctx.went_high_at { lemma_other_placeholder_kept(raw, p, "{fuzzy_high}"@, fuzzy_text(u.wall, now), 1); }
        if let Some(u) = ctx.time_of_state_change { lemma_other_placeholder_kept(raw, p, "{fuzzy_state_change}"@, fuzzy_text(u.wall, now), 1); }
        if let Some(u) = ctx.time_of_startup { lemma_other_placeholder_kept(raw, p, "{fuzzy_startup}"@, fuzzy_text(u.wall, now), 1); }
        lemma_other_placeholder_kept(raw, p, "{fuzzy_now}"@, fuzzy_text(now, now), 1);
        lemma_other_placeholder_kept(raw, p, "{time_now}"@, formatted(now, HOUR_MINUTE_PATTERN@), 6);
        lemma_other_placeholder_kept(raw, p, "{date_now}"@, formatted(now, DATE_PATTERN@), 1);
        lemma_other_placeholder_kept(raw, p, "{fuzzy_then}"@, fuzzy_text(ctx.now.wall, now), 1);
        text::lemma_replaced_without_pattern(replaced(raw, p, fill), "{date_then}"@, formatted(ctx.now.wall, DATE_PATTERN@));
        text::lemma_replaced_without_pattern(replaced(raw, p, fill), "{name}"@, PROGRAM_NAME@);
        text::lemma_replaced_without_pattern(replaced(raw, p, fill), "{version}"@, PROGRAM_VERSION@);
    }
    if p == "{date_then}"@ && fill == formatted(ctx.now.wall, DATE_PATTERN@) {
        lemma_filled_without_braces(raw, p, fill);
        if let Some(u) = ctx.went_low_at { lemma_other_placeholder_kept(raw, p, "{fuzzy_low}"@, fuzzy_text(u.wall, now), 1); }
        if let Some(u) = ctx.went_high_at { lemma_other_placeholder_kept(raw, p, "{fuzzy_high}"@, fuzzy_text(u.wall, now), 1); }
        if let Some(u) = ctx.time_of_state_change { lemma_other_placeholder_kept(raw, p, "{fuzzy_state_change}"@, fuzzy_text(u.wall, now), 1); }
        if let Some(u) = ctx.time_of_startup { lemma_other_placeholder_kept(raw, p, "{fuzzy_startup}"@, fuzzy_text(u.wall, now), 1); }
        lemma_other_placeholder_kept(raw, p, "{fuzzy_now}"@, fuzzy_text(now, now), 1);
        lemma_other_placeholder_kept(raw, p, "{time_now}"@, formatted(now, HOUR_MINUTE_PATTERN@), 1);
        lemma_other_placeholder_kept(raw, p, "{date_now}"@, formatted(now, DATE_PATTERN@), 6);
        lemma_other_placeholder_kept(raw, p, "{fuzzy_then}"@, fuzzy_text(ctx.now.wall, now), 1);
        lemma_other_placeholder_kept(raw, p, "{time_then}"@, formatted(ctx.now.wall, HOUR_MINUTE_PATTERN@), 1);
        text::lemma_replaced_without_pattern(replaced(raw, p, fill), "{name}"@, PROGRAM_NAME@);
        text::lemma_replaced_without_pattern(replaced(raw, p, fill), "{version}"@, PROGRAM_VERSION@);
    }
    if p == "{name}"@ && fill == PROGRAM_NAME@ {
        lemma_filled_without_braces(raw, p, fill);
        if let Some(u) = ctx.went_low_at { lemma_other_placeholder_kept(raw, p, "{fuzzy_low}"@, fuzzy_text(u.wall, now), 1); }
        if let Some(u) = ctx.went_high_at { lemma_other_placeholder_kept(raw, p, "{fuzzy_high}"@, fuzzy_text(u.wall, now), 1); }
        if let Some(u) = ctx.time_of_state_change { lemma_other_placeholder_kept(raw, p, "{fuzzy_state_change}"@, fuzzy_text(u.wall, now), 1); }
        if let Some(u) = ctx.time_of_startup { lemma_other_placeholder_kept(raw, p, "{fuzzy_startup}"@, fuzzy_text(u.wall, now), 1); }
        lemma_other_placeholder_kept(raw, p, "{fuzzy_now}"@, fuzzy_text(now, now), 1);
        lemma_other_placeholder_kept(raw, p, "{time_now}"@, formatted(now, HOUR_MINUTE_PATTERN@), 1);
        lemma_other_placeholder_kept(raw, p, "{date_now}"@, formatted(now, DATE_PATTERN@), 1);
        lemma_other_placeholder_kept(raw, p, "{fuzzy_then}"@, fuzzy_text(ctx.now.wall, now), 1);
        lemma_other_placeholder_kept(raw, p, "{time_then}"@, formatted(ctx.now.wall, HOUR_MINUTE_PATTERN@), 1);
        lemma_other_placeholder_kept(raw, p, "{date_then}"@, formatted(ctx.now.wall, DATE_PATTERN@), 1);
        text::lemma_replaced_without_pattern(replaced(raw, p, fill), "{version}"@, PROGRAM_VERSION@);
    }
    if p == "{version}"@ && fill == PROGRAM_VERSION@ {
        lemma_filled_without_braces(raw, p, fill);
        if let Some(u) = ctx.went_low_at { lemma_other_placeholder_kept(raw, p, "{fuzzy_low}"@, fuzzy_text(u.wall, now), 1); }
        if let Some(u) = ctx.went_high_at { lemma_other_placeholder_kept(raw, p, "{fuzzy_high}"@, fuzzy_text(u.wall, now), 1); }
        if let Some(u) = ctx.time_of_state_change { lemma_other_placeholder_kept(raw, p, "{fuzzy_state_change}"@, fuzzy_text(u.wall, now), 1); }
        if let Some(u) = ctx.time_of_startup { lemma_other_placeholder_kept(raw, p, "{fuzzy_startup}"@, fuzzy_text(u.wall, now), 1); }
        lemma_other_placeholder_kept(raw, p, "{fuzzy_now}"@, fuzzy_text(now, now), 1);
        lemma_other_placeholder_kept(raw, p, "{time_now}"@, formatted(now, HOUR_MINUTE_PATTERN@), 1);
        lemma_other_placeholder_kept(raw, p, "{date_now}"@, formatted(now, DATE_PATTERN@), 1);
        lemma_other_placeholder_kept(raw, p, "{fuzzy_then}"@, fuzzy_text(ctx.now.wall, now), 1);
        lemma_other_placeholder_kept(raw, p, "{time_then}"@, formatted(ctx.now.wall, HOUR_MINUTE_PATTERN@), 1);
        lemma_other_placeholder_kept(raw, p, "{date_then}"@, formatted(ctx.now.wall, DATE_PATTERN@), 1);
        lemma_other_placeholder_kept(raw, p, "{name}"@, PROGRAM_NAME@, 1);
    }
}

/// A message with an empty header is empty, whatever the body, footer,
/// context and time.
pub proof fn law_empty_header_gives_empty_message(
    ctx: Context,
    body: Seq<char>,
    footer: Seq<char>,
    now: WallTime,
)
    ensures
        composed(ctx, Seq::<char>::empty(), body, footer, now).len() == 0,
{
}

/// A composed message never ends in whitespace.
pub proof fn law_message_has_no_trailing_whitespace(
    ctx: Context,
    header: Seq<char>,
    body: Seq<char>,
    footer: Seq<char>,
    now: WallTime,
)
    ensures
        ({
            let m = composed(ctx, header, body, footer, now);
            m.len() == 0 || !text::is_white_space(m.last())
        }),
{
    text::law_trimmed_end(with_placeholders(unescaped(raw_message(header, body, footer)), ctx, now));
}

/// Text without escapes or placeholders (no backslash and no opening curly
/// brace) is sent as written: the message is the header, body and footer
/// joined by line breaks, without trailing whitespace.
pub proof fn law_plain_text_is_kept(
    ctx: Context,
    header: Seq<char>,
    body: Seq<char>,
    footer: Seq<char>,
    now: WallTime,
)
    requires
        header.len() > 0,
        !raw_message(header, body, footer).contains('\\'),
        !raw_message(header, body, footer).contains('{'),
    ensures
        composed(ctx, header, body, footer, now) == trimmed_end(raw_message(header, body, footer)),
        footer.len() == 0 ==> composed(ctx, header, body, footer, now) == trimmed_end(
            header + seq!['\n'] + body,
        ),
        footer.len() > 0 ==> composed(ctx, header, body, footer, now) == trimmed_end(
            header + seq!['\n'] + body + seq!['\n'] + footer,
        ),
{
    let raw = raw_message(header, body, footer);
    lemma_unescaped_without_backslash(raw);
    assert(unescaped(raw) == raw);
    reveal_strlit("{fuzzy_low}");
    reveal_strlit("{fuzzy_high}");
    reveal_strlit("{fuzzy_state_change}");
    reveal_strlit("{fuzzy_startup}");
    reveal_strlit("{fuzzy_now}");
    reveal_strlit("{time_now}");
    reveal_strlit("{date_now}");
    reveal_strlit("{fuzzy_then}");
    reveal_strlit("{time_then}");
    reveal_strlit("{date_then}");
    reveal_strlit("{name}");
    reveal_strlit("{version}");
    if let Some(t) = ctx.went_low_at {
        text::lemma_replaced_without_pattern(raw, "{fuzzy_low}"@, fuzzy_text(t.wall, now));
    }
    if let Some(t) = ctx.went_high_at {
        text::lemma_replaced_without_pattern(raw, "{fuzzy_high}"@, fuzzy_text(t.wall, now));
    }
    if let Some(t) = ctx.time_of_state_change {
        text::lemma_replaced_without_pattern(raw, "{fuzzy_state_change}"@, fuzzy_text(t.wall, now));
    }
    if let Some(t) = ctx.time_of_startup {
        text::lemma_replaced_without_pattern(raw, "{fuzzy_startup}"@, fuzzy_text(t.wall, now));
    }
    text::lemma_replaced_without_pattern(raw, "{fuzzy_now}"@, fuzzy_text(now, now));
    text::lemma_replaced_without_pattern(raw, "{time_now}"@, formatted(now, HOUR_MINUTE_PATTERN@));
    text::lemma_replaced_without_pattern(raw, "{date_now}"@, formatted(now, DATE_PATTERN@));
    text::lemma_replaced_without_pattern(raw, "{fuzzy_then}"@, fuzzy_text(ctx.now.wall, now));
    text::lemma_replaced_without_pattern(
        raw,
        "{time_then}"@,
        formatted(ctx.now.wall, HOUR_MINUTE_PATTERN@),
    );
    text::lemma_replaced_without_pattern(raw, "{date_then}"@, formatted(ctx.now.wall, DATE_PATTERN@));
    text::lemma_replaced_without_pattern(raw, "{name}"@, PROGRAM_NAME@);
    text::lemma_replaced_without_pattern(raw, "{version}"@, PROGRAM_VERSION@);
    assert(with_placeholders(raw, ctx, now) == raw);
    if footer.len() == 0 {
        assert(raw =~= header + seq!['\n'] + body);
    } else {
        assert(raw =~= header + seq!['\n'] + body + seq!['\n'] + footer);
    }
}

} // verus!
