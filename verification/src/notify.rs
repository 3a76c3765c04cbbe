//! The produced notification interfaces: the JSON state update pushed on
//! every recording start and stop, the structured status events written to
//! standard output in one operating mode, and the backend fallback order.
//!
//! The transports — an HTTP push, a file write, standard output — belong to
//! the surrounding application; the exact bytes sent, and the order in which
//! backends are tried, are decided here.

use vstd::prelude::*;
use vstd::string::StringExecFns;
use crate::chars::chars_to_string;

verus! {

/// The decimal digits of `n`, most significant first.
pub open spec fn spec_dec_digits(n: u64) -> Seq<char>
    decreases n,
{
    if n < 10 {
        seq![spec_digit_char(n as int)]
    } else {
        spec_dec_digits(n / 10).push(spec_digit_char((n % 10) as int))
    }
}

/// The character for one decimal digit.
pub open spec fn spec_digit_char(d: int) -> char {
    if d == 0 {
        '0'
    } else if d == 1 {
        '1'
    } else if d == 2 {
        '2'
    } else if d == 3 {
        '3'
    } else if d == 4 {
        '4'
    } else if d == 5 {
        '5'
    } else if d == 6 {
        '6'
    } else if d == 7 {
        '7'
    } else if d == 8 {
        '8'
    } else {
        '9'
    }
}

fn digit_char(d: u64) -> (c: char)
    requires
        d < 10,
    ensures
        c == spec_digit_char(d as int),
{
    match d {
        0 => '0',
        1 => '1',
        2 => '2',
        3 => '3',
        4 => '4',
        5 => '5',
        6 => '6',
        7 => '7',
        8 => '8',
        _ => '9',
    }
}

/// Append the decimal rendering of `n`.
fn push_dec(n: u64, out: &mut Vec<char>)
    ensures
        final(out)@ == old(out)@ + spec_dec_digits(n),
    decreases n,
{
    if n >= 10 {
        push_dec(n / 10, out);
    }
    out.push(digit_char(n % 10));
    proof {
        assert(out@ =~= old(out)@ + spec_dec_digits(n));
    }
}

/// Render `n` in decimal.
pub fn u64_to_dec(n: u64) -> (s: String)
    ensures
        s@ == spec_dec_digits(n),
{
    let mut out: Vec<char> = Vec::new();
    push_dec(n, &mut out);
    proof {
        assert(Seq::<char>::empty() + spec_dec_digits(n) =~= spec_dec_digits(n));
    }
    chars_to_string(&out)
}

/// The state-update payload emitted on every recording start and stop:
/// whether recording is now on, and the emission time in seconds.
pub open spec fn spec_state_json(recording: bool, timestamp: u64) -> Seq<char> {
    "{\"recording\":"@ + (if recording {
        "true"@
    } else {
        "false"@
    }) + ",\"timestamp\":"@ + spec_dec_digits(timestamp) + "}"@
}

/// Build the state-update JSON document.
pub fn state_notification_json(recording: bool, timestamp: u64) -> (s: String)
    ensures
        s@ == spec_state_json(recording, timestamp),
{
    let head = String::from_str("{\"recording\":");
    let flag = if recording {
        String::from_str("true")
    } else {
        String::from_str("false")
    };
    let ts = u64_to_dec(timestamp);
    let r = head.concat(flag.as_str()).concat(",\"timestamp\":").concat(ts.as_str()).concat("}");
    proof {
        assert(r@ =~= spec_state_json(recording, timestamp));
    }
    r
}

/// The transports a state notification may use, in priority order: the HTTP
/// push first, the file write only as fallback.
#[derive(Debug, Clone, Copy, PartialEq, Eq, Structural)]
pub enum NotifyBackend {
    HttpPush,
    FileWrite,
}

/// What to do after the HTTP push was attempted: nothing more on success,
/// the file fallback on failure. Success of any one backend suffices.
pub fn notify_fallback(http_ok: bool) -> (r: Option<NotifyBackend>)
    ensures
        r == (if http_ok {
            Option::<NotifyBackend>::None
        } else {
            Some(NotifyBackend::FileWrite)
        }),
{
    if http_ok {
        None
    } else {
        Some(NotifyBackend::FileWrite)
    }
}

/// The kinds of structured status events written to standard output.
#[derive(Debug, Clone, Copy, PartialEq, Eq, Structural)]
pub enum StatusEventKind {
    RecordingStarted,
    RecordingStopped,
    Transcribing,
    TranscriptionComplete,
    TranscriptionError,
}

impl StatusEventKind {
    /// The event name as it appears in the emitted JSON.
    pub open spec fn spec_name(self) -> Seq<char> {
        match self {
            StatusEventKind::RecordingStarted => "recording_started"@,
            StatusEventKind::RecordingStopped => "recording_stopped"@,
            StatusEventKind::Transcribing => "transcribing"@,
            StatusEventKind::TranscriptionComplete => "transcription_complete"@,
            StatusEventKind::TranscriptionError => "transcription_error"@,
        }
    }

    /// The event name.
    pub fn name(&self) -> (s: String)
        ensures
            s@ == self.spec_name(),
    {
        match self {
            StatusEventKind::RecordingStarted => String::from_str("recording_started"),
            StatusEventKind::RecordingStopped => String::from_str("recording_stopped"),
            StatusEventKind::Transcribing => String::from_str("transcribing"),
            StatusEventKind::TranscriptionComplete => String::from_str("transcription_complete"),
            StatusEventKind::TranscriptionError => String::from_str("transcription_error"),
        }
    }
}

/// How one character appears inside a JSON string: quote and backslash get
/// a backslash escape, the named control characters their short forms, any
/// other control character the four-digit hexadecimal form, and everything
/// else stands as itself.
pub open spec fn spec_escape_char(c: char) -> Seq<char> {
    if c == '"' {
        seq!['\\', '"']
    } else if c == '\\' {
        seq!['\\', '\\']
    } else if c == '\n' {
        seq!['\\', 'n']
    } else if c == '\r' {
        seq!['\\', 'r']
    } else if c == '\t' {
        seq!['\\', 't']
    } else if c == '\u{8}' {
        seq!['\\', 'b']
    } else if c == '\u{c}' {
        seq!['\\', 'f']
    } else if (c as u32) < 32 {
        seq!['\\', 'u', '0', '0', spec_hex_char((c as u32) as int / 16), spec_hex_char(
            (c as u32) as int % 16,
        )]
    } else {
        seq![c]
    }
}

/// The character for one lower-case hexadecimal digit.
pub open spec fn spec_hex_char(d: int) -> char {
    if d < 10 {
        spec_digit_char(d)
    } else if d == 10 {
        'a'
    } else if d == 11 {
        'b'
    } else if d == 12 {
        'c'
    } else if d == 13 {
        'd'
    } else if d == 14 {
        'e'
    } else {
        'f'
    }
}

fn hex_char(d: u32) -> (c: char)
    requires
        d < 16,
    ensures
        c == spec_hex_char(d as int),
{
    match d {
        0 => '0',
        1 => '1',
        2 => '2',
        3 => '3',
        4 => '4',
        5 => '5',
        6 => '6',
        7 => '7',
        8 => '8',
        9 => '9',
        10 => 'a',
        11 => 'b',
        12 => 'c',
        13 => 'd',
        14 => 'e',
        _ => 'f',
    }
}

/// A whole string escaped for inclusion in a JSON document.
pub open spec fn spec_json_escape(s: Seq<char>) -> Seq<char>
    decreases s.len(),
{
    if s.len() == 0 {
        Seq::<char>::empty()
    } else {
        spec_escape_char(s[0]) + spec_json_escape(s.skip(1))
    }
}

/// Escape the characters of `v` for a JSON string.
fn push_json_escaped(v: &Vec<char>, out: &mut Vec<char>)
    ensures
        final(out)@ == old(out)@ + spec_json_escape(v@),
{
    let n = v.len();
    let mut i: usize = 0;
    proof {
        assert(v@.skip(0) =~= v@);
        assert(old(out)@ + Seq::<char>::empty() =~= old(out)@);
    }
    while i < n
        invariant
            i <= n == v@.len(),
            old(out)@ + spec_json_escape(v@) == out@ + spec_json_escape(v@.skip(i as int)),
        decreases n - i,
    {
        proof {
            assert(v@.skip(i as int)[0] == v@[i as int]);
            assert(v@.skip(i as int).skip(1) =~= v@.skip(i + 1 as int));
        }
        let ghost before = out@;
        let c = v[i];
        let u = c as u32;
        if c == '"' {
            out.push('\\');
            out.push('"');
        } else if c == '\\' {
            out.push('\\');
            out.push('\\');
        } else if c == '\n' {
            out.push('\\');
            out.push('n');
        } else if c == '\r' {
            out.push('\\');
            out.push('r');
        } else if c == '\t' {
            out.push('\\');
            out.push('t');
        } else if c == '\u{8}' {
            out.push('\\');
            out.push('b');
        } else if c == '\u{c}' {
            out.push('\\');
            out.push('f');
        } else if u < 32 {
            out.push('\\');
            out.push('u');
            out.push('0');
            out.push('0');
            out.push(hex_char(u / 16));
            out.push(hex_char(u % 16));
        } else {
            out.push(c);
        }
        proof {
            assert(out@ =~= before + spec_escape_char(v@[i as int]));
            assert(before + spec_escape_char(v@[i as int]) + spec_json_escape(
                v@.skip(i + 1 as int),
            ) =~= before + (spec_escape_char(v@[i as int]) + spec_json_escape(
                v@.skip(i + 1 as int),
            )));
        }
        i = i + 1;
    }
    proof {
        assert(v@.skip(n as int) =~= Seq::<char>::empty());
        assert(out@ + Seq::<char>::empty() =~= out@);
    }
}

/// One structured status event: kind, human-readable message, and the
/// emission time in seconds, as a JSON document.
pub open spec fn spec_status_json(kind: StatusEventKind, message: Seq<char>, timestamp: u64) -> Seq<
    char,
> {
    "{\"event\":\""@ + kind.spec_name() + "\",\"message\":\""@ + spec_json_escape(message)
        + "\",\"timestamp\":"@ + spec_dec_digits(timestamp) + "}"@
}

/// Build one status-event JSON document.
pub fn status_event_json(kind: StatusEventKind, message: &str, timestamp: u64) -> (s: String)
    ensures
        s@ == spec_status_json(kind, message@, timestamp),
{
    let msg_chars = crate::chars::str_to_chars(message);
    let mut esc: Vec<char> = Vec::new();
    push_json_escaped(&msg_chars, &mut esc);
    let escaped = chars_to_string(&esc);
    let ts = u64_to_dec(timestamp);
    let r = String::from_str("{\"event\":\"").concat(kind.name().as_str()).concat(
        "\",\"message\":\"",
    ).concat(escaped.as_str()).concat("\",\"timestamp\":").concat(ts.as_str()).concat("}");
    proof {
        assert(Seq::<char>::empty() + spec_json_escape(message@) =~= spec_json_escape(message@));
        assert(r@ =~= spec_status_json(kind, message@, timestamp));
    }
    r
}

} // verus!
