//! Which log records reach the chat channels, and the text they carry.
use vstd::prelude::*;
use vstd::string::StringSliceAdditionalSpecFns;
use vstd::utf8::{decode_utf8, encode_utf8, is_char_boundary, valid_utf8};

verus! {

/// The longest record text forwarded, in UTF-8 bytes.
pub const MESSAGE_LIMIT: usize = 2048;

/// Log severities, most severe first.
#[derive(Clone, Copy, Debug, PartialEq, Eq, Structural)]
pub enum LogLevel {
    Error,
    Warn,
    Info,
    Debug,
    Trace,
}

pub open spec fn level_rank(l: LogLevel) -> int {
    match l {
        LogLevel::Error => 1,
        LogLevel::Warn => 2,
        LogLevel::Info => 3,
        LogLevel::Debug => 4,
        LogLevel::Trace => 5,
    }
}

/// The log target that marks a status notification.
pub const NOTIFICATION_TARGET: &'static str = "NOTIFICATION";

/// Warnings and errors always go out; information only when it is a status
/// notification; nothing while the channel is disabled.
pub fn is_forwarded(enabled: bool, level: LogLevel, target: &str) -> (r: bool)
    ensures
        r == (enabled && (level_rank(level) <= 2 || (level_rank(level) <= 3
            && target@ == NOTIFICATION_TARGET@))),
{
    let severe = match level {
        LogLevel::Error | LogLevel::Warn => true,
        _ => false,
    };
    let info = match level {
        LogLevel::Info => true,
        _ => false,
    };
    enabled && (severe || (info && crate::consts::same_text(target, NOTIFICATION_TARGET)))
}

/// Warnings and errors are also raised on the alert channel.
pub fn is_alert(level: LogLevel) -> (r: bool)
    ensures
        r == (level_rank(level) <= 2),
{
    match level {
        LogLevel::Error | LogLevel::Warn => true,
        _ => false,
    }
}

/// The last character boundary of `bytes` at or before byte `k`.
pub open spec fn boundary_at_or_before(bytes: Seq<u8>, k: int) -> int
    decreases k,
{
    if k <= 0 {
        0
    } else if is_char_boundary(bytes, k) {
        k
    } else {
        boundary_at_or_before(bytes, k - 1)
    }
}

/// A text longer than the limit in UTF-8 bytes keeps its first `limit - 1`
/// bytes, cut back to a character boundary, and gets a `" ..."` mark.
pub open spec fn limit_spec(s: Seq<char>) -> Seq<char> {
    let bytes = encode_utf8(s);
    if bytes.len() > MESSAGE_LIMIT {
        decode_utf8(bytes.subrange(0, boundary_at_or_before(bytes, MESSAGE_LIMIT - 1))) + " ..."@
    } else {
        s
    }
}

/// Cuts an over-long text, marking the cut.
pub fn limit_str(s: &String) -> (r: String)
    ensures
        r@ == limit_spec(s@),
{
    broadcast use vstd::utf8::group_utf8_lib;

    let t = s.as_str();
    if t.as_bytes().len() > MESSAGE_LIMIT {
        let mut cut: usize = MESSAGE_LIMIT - 1;
        while cut > 0 && !t.is_char_boundary(cut)
            invariant
                t@ == s@,
                cut <= MESSAGE_LIMIT - 1,
                boundary_at_or_before(t.spec_bytes(), cut as int) == boundary_at_or_before(
                    t.spec_bytes(),
                    MESSAGE_LIMIT - 1,
                ),
            decreases cut,
        {
            cut = cut - 1;
        }
        proof {
            assert(valid_utf8(t.spec_bytes()));
            assert(is_char_boundary(t.spec_bytes(), cut as int));
        }
        let (head, _) = t.split_at(cut);
        proof {
            assert(boundary_at_or_before(t.spec_bytes(), cut as int) == cut);
            assert(head@ == decode_utf8(head.spec_bytes()));
        }
        let mut r = String::from_str(head);
        r.append(" ...");
        r
    } else {
        s.clone()
    }
}

pub open spec fn escape_char(c: char) -> Seq<char> {
    if c == '&' {
        "&amp;"@
    } else if c == '<' {
        "&lt;"@
    } else if c == '>' {
        "&gt;"@
    } else {
        seq![c]
    }
}

/// Text with `&`, `<` and `>` replaced by their HTML entities.
pub open spec fn html_text(s: Seq<char>) -> Seq<char>
    decreases s.len(),
{
    if s.len() == 0 {
        Seq::empty()
    } else {
        html_text(s.drop_last()) + escape_char(s.last())
    }
}

/// Relies on html_escape::encode_text, which replaces each `&`, `<` and `>`
/// by `&amp;`, `&lt;` and `&gt;` and keeps every other character.
#[verifier::external_body]
fn encode_text(s: &str) -> (r: String)
    ensures
        r@ == html_text(s@),
{
    html_escape::encode_text(s).into_owned()
}

pub open spec fn log_body_spec(level: LogLevel, raw: Seq<char>) -> Seq<char> {
    let msg = html_text(limit_spec(raw));
    match level {
        LogLevel::Warn => "<b>Warning: "@ + msg + "</b>"@,
        LogLevel::Error => "<b>ERROR: "@ + msg + "</b>"@,
        _ => msg,
    }
}

pub open spec fn alert_body_spec(level: LogLevel, raw: Seq<char>) -> Seq<char> {
    let msg = html_text(limit_spec(raw));
    match level {
        LogLevel::Error => "<b>ERROR: "@ + msg + "</b>"@,
        _ => msg,
    }
}

/// The log channel's message for a record: the cut, escaped text, marked by
/// severity, then the time in italics.
pub fn log_message(level: LogLevel, raw: &String, time: &str) -> (r: String)
    ensures
        r@ == log_body_spec(level, raw@) + "\n\n<i>"@ + time@ + "</i>"@,
{
    let msg = encode_text(limit_str(raw).as_str());
    let mut r = match level {
        LogLevel::Warn => String::from_str("<b>Warning: "),
        LogLevel::Error => String::from_str("<b>ERROR: "),
        _ => String::new(),
    };
    r.append(msg.as_str());
    match level {
        LogLevel::Warn | LogLevel::Error => r.append("</b>"),
        _ => {},
    }
    r.append("\n\n<i>");
    r.append(time);
    r.append("</i>");
    proof {
        assert(r@ =~= log_body_spec(level, raw@) + "\n\n<i>"@ + time@ + "</i>"@);
    }
    r
}

/// The alert channel's message: as for the log channel, with the source place.
pub fn alert_message(level: LogLevel, raw: &String, place: &str, time: &str) -> (r: String)
    ensures
        r@ == alert_body_spec(level, raw@) + "\n\n<code>"@ + place@ + "</code>\n<i>"@ + time@
            + "</i>"@,
{
    let msg = encode_text(limit_str(raw).as_str());
    let mut r = match level {
        LogLevel::Error => String::from_str("<b>ERROR: "),
        _ => String::new(),
    };
    r.append(msg.as_str());
    match level {
        LogLevel::Error => r.append("</b>"),
        _ => {},
    }
    r.append("\n\n<code>");
    r.append(place);
    r.append("</code>\n<i>");
    r.append(time);
    r.append("</i>");
    proof {
        assert(r@ =~= alert_body_spec(level, raw@) + "\n\n<code>"@ + place@ + "</code>\n<i>"@
            + time@ + "</i>"@);
    }
    r
}

} // verus!
