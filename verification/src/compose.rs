//! Plain message composition: the raw message with the placeholders named
//! after the context's fields (`{went_high_at}`, `{went_low_at}`,
//! `{time_of_state_change}`, `{time_of_startup_from_low}`) and the
//! current-time placeholders filled in, without unescaping or trimming.

use vstd::prelude::*;

use crate::context::Context;
use crate::defaults::{PROGRAM_NAME, PROGRAM_VERSION};
use crate::message::{raw_message, with_time};
use crate::settings::MessageStrings;
use crate::text::{self, replaced};
use crate::time::{
    formatted, fuzzy_datestamp_at, fuzzy_text, WallTime, DATE_PATTERN, HOUR_MINUTE_PATTERN,
};

pub use crate::time::fuzzy_datestamp_of;

verus! {

/// `s` with the plain placeholders filled in from `ctx`, the current
/// time being `now`.
pub open spec fn with_time_placeholders(s: Seq<char>, ctx: Context, now: WallTime) -> Seq<char> {
    let s1 = with_time(s, "{went_high_at}"@, ctx.went_high_at, now);
    let s2 = with_time(s1, "{went_low_at}"@, ctx.went_low_at, now);
    let s3 = with_time(s2, "{time_of_state_change}"@, ctx.time_of_state_change, now);
    let s4 = with_time(s3, "{time_of_startup_from_low}"@, ctx.time_of_startup_from_low, now);
    let s5 = replaced(s4, "{fuzzy_now}"@, fuzzy_text(now, now));
    let s6 = replaced(s5, "{time_now}"@, formatted(now, HOUR_MINUTE_PATTERN@));
    let s7 = replaced(s6, "{date_now}"@, formatted(now, DATE_PATTERN@));
    let s8 = replaced(s7, "{fuzzy_then}"@, fuzzy_text(ctx.now.wall, now));
    let s9 = replaced(s8, "{time_then}"@, formatted(ctx.now.wall, HOUR_MINUTE_PATTERN@));
    let s10 = replaced(s9, "{date_then}"@, formatted(ctx.now.wall, DATE_PATTERN@));
    let s11 = replaced(s10, "{name}"@, PROGRAM_NAME@);
    replaced(s11, "{version}"@, PROGRAM_VERSION@)
}

/// The plain message composed from `header`, `body` and `footer`:
/// empty when the header is empty, otherwise the raw message with its
/// placeholders filled in.
pub open spec fn composed_plain(
    ctx: Context,
    header: Seq<char>,
    body: Seq<char>,
    footer: Seq<char>,
    now: WallTime,
) -> Seq<char> {
    if header.len() == 0 {
        Seq::<char>::empty()
    } else {
        with_time_placeholders(raw_message(header, body, footer), ctx, now)
    }
}

fn replace_time(
    s: &Vec<char>,
    pat: &str,
    when: &Option<crate::time::Timestamp>,
    now: &WallTime,
) -> (out: Vec<char>)
    requires
        pat@.len() > 0,
    ensures
        out@ == with_time(s@, pat@, *when, *now),
{
    match when {
        Some(t) => {
            let rendered = fuzzy_datestamp_at(&t.wall, now);
            text::replace_str(s, pat, rendered.as_str())
        },
        None => {
            let mut out: Vec<char> = Vec::new();
            text::extend_chars(&mut out, s);
            assert(out@ =~= s@);
            out
        },
    }
}

/// Fills in the plain placeholders (see `with_time_placeholders`).
pub fn replace_placeholders_at(message: &Vec<char>, ctx: &Context, now: &WallTime) -> (out: Vec<char>)
    ensures
        out@ == with_time_placeholders(message@, *ctx, *now),
{
    proof {
        reveal_strlit("{went_high_at}");
        reveal_strlit("{went_low_at}");
        reveal_strlit("{time_of_state_change}");
        reveal_strlit("{time_of_startup_from_low}");
        reveal_strlit("{fuzzy_now}");
        reveal_strlit("{time_now}");
        reveal_strlit("{date_now}");
        reveal_strlit("{fuzzy_then}");
        reveal_strlit("{time_then}");
        reveal_strlit("{date_then}");
        reveal_strlit("{name}");
        reveal_strlit("{version}");
        reveal_strlit("%Y-%m-%d");
        reveal_strlit("%H:%M");
    }
    let s1 = replace_time(message, "{went_high_at}", &ctx.went_high_at, now);
    let s2 = replace_time(&s1, "{went_low_at}", &ctx.went_low_at, now);
    let s3 = replace_time(&s2, "{time_of_state_change}", &ctx.time_of_state_change, now);
    let s4 = replace_time(&s3, "{time_of_startup_from_low}", &ctx.time_of_startup_from_low, now);
    let fuzzy_now = fuzzy_datestamp_at(now, now);
    let s5 = text::replace_str(&s4, "{fuzzy_now}", fuzzy_now.as_str());
    let time_now = now.format(HOUR_MINUTE_PATTERN);
    let s6 = text::replace_str(&s5, "{time_now}", time_now.as_str());
    let date_now = now.format(DATE_PATTERN);
    let s7 = text::replace_str(&s6, "{date_now}", date_now.as_str());
    let fuzzy_then = fuzzy_datestamp_at(&ctx.now.wall, now);
    let s8 = text::replace_str(&s7, "{fuzzy_then}", fuzzy_then.as_str());
    let time_then = ctx.now.wall.format(HOUR_MINUTE_PATTERN);
    let s9 = text::replace_str(&s8, "{time_then}", time_then.as_str());
    let date_then = ctx.now.wall.format(DATE_PATTERN);
    let s10 = text::replace_str(&s9, "{date_then}", date_then.as_str());
    let s11 = text::replace_str(&s10, "{name}", PROGRAM_NAME);
    text::replace_str(&s11, "{version}", PROGRAM_VERSION)
}

/// Composes a plain message (see `composed_plain`), the current time
/// being `now`.
pub fn compose_common_at(
    ctx: &Context,
    header: &str,
    body: &str,
    footer: &str,
    now: &WallTime,
) -> (msg: String)
    ensures
        msg@ == composed_plain(*ctx, header@, body@, footer@, *now),
{
    if header.unicode_len() == 0 {
        return String::new();
    }
    let mut raw = text::chars_of(header);
    raw.push('\n');
    text::extend_chars(&mut raw, &text::chars_of(body));
    if footer.unicode_len() != 0 {
        raw.push('\n');
        text::extend_chars(&mut raw, &text::chars_of(footer));
    }
    assert(raw@ =~= raw_message(header@, body@, footer@));
    let out = replace_placeholders_at(&raw, ctx, now);
    text::string_of(&out)
}

/// Composes the alert plain message at the current time, seen at UTC offset
/// `offset` (the local time zone's, which the caller reads); `None` when that
/// time cannot be read (see `WallTime::now`).
pub fn compose_alert_message(ctx: &Context, strings: &MessageStrings, offset: i32) -> (msg: Option<String>)
    ensures
        msg matches Some(m) ==> exists|now: WallTime|
            now.utc_offset() == offset && m@ == composed_plain(*ctx, strings@.alert_header, strings@.alert_body, strings@.footer, now),
{
    match WallTime::now(offset) {
        Some(now) => {
            let m = compose_common_at(
                ctx,
                strings.alert_header.as_str(),
                strings.alert_body.as_str(),
                strings.footer.as_str(),
                &now,
            );
            assert(m@ == composed_plain(*ctx, strings@.alert_header, strings@.alert_body, strings@.footer, now));
            Some(m)
        },
        None => None,
    }
}

/// Composes the reminder plain message at the current time, seen at UTC
/// offset `offset` (the local time zone's, which the caller reads); `None`
/// when that time cannot be read (see `WallTime::now`).
pub fn compose_reminder_message(ctx: &Context, strings: &MessageStrings, offset: i32) -> (msg: Option<String>)
    ensures
        msg matches Some(m) ==> exists|now: WallTime|
            now.utc_offset() == offset && m@ == composed_plain(*ctx, strings@.reminder_header, strings@.reminder_body, strings@.footer, now),
{
    match WallTime::now(offset) {
        Some(now) => {
            let m = compose_common_at(
                ctx,
                strings.reminder_header.as_str(),
                strings.reminder_body.as_str(),
                strings.footer.as_str(),
                &now,
            );
            assert(m@ == composed_plain(*ctx, strings@.reminder_header, strings@.reminder_body, strings@.footer, now));
            Some(m)
        },
        None => None,
    }
}

/// Composes the startup failure plain message at the current time, seen at
/// UTC offset `offset` (the local time zone's, which the caller reads);
/// `None` when that time cannot be read (see `WallTime::now`).
pub fn compose_startup_failed_message(ctx: &Context, strings: &MessageStrings, offset: i32) -> (msg: Option<String>)
    ensures
        msg matches Some(m) ==> exists|now: WallTime|
            now.utc_offset() == offset && m@ == composed_plain(*ctx, strings@.startup_failed_header, strings@.startup_failed_body, strings@.footer, now),
{
    match WallTime::now(offset) {
        Some(now) => {
            let m = compose_common_at(
                ctx,
                strings.startup_failed_header.as_str(),
                strings.startup_failed_body.as_str(),
                strings.footer.as_str(),
                &now,
            );
            assert(m@ == composed_plain(*ctx, strings@.startup_failed_header, strings@.startup_failed_body, strings@.footer, now));
            Some(m)
        },
        None => None,
    }
}

/// Composes the startup success plain message at the current time, seen at
/// UTC offset `offset` (the local time zone's, which the caller reads);
/// `None` when that time cannot be read (see `WallTime::now`).
pub fn compose_startup_success_message(ctx: &Context, strings: &MessageStrings, offset: i32) -> (msg: Option<String>)
    ensures
        msg matches Some(m) ==> exists|now: WallTime|
            now.utc_offset() == offset && m@ == composed_plain(*ctx, strings@.startup_success_header, strings@.startup_success_body, strings@.footer, now),
{
    match WallTime::now(offset) {
        Some(now) => {
            let m = compose_common_at(
                ctx,
                strings.startup_success_header.as_str(),
                strings.startup_success_body.as_str(),
                strings.footer.as_str(),
                &now,
            );
            assert(m@ == composed_plain(*ctx, strings@.startup_success_header, strings@.startup_success_body, strings@.footer, now));
            Some(m)
        },
        None => None,
    }
}

} // verus!
