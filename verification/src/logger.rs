//! Log relaying to the scripting side: the structured entry and its wire
//! form, the frontend level filter with its text parser, and the field
//! formatter that assembles an event's message text.
//!
//! File logging, rotation and the tracing plumbing live in the
//! surrounding program; everything that decides what text is produced or
//! whether an event passes the filter is verified here.

use vstd::prelude::*;

use vstd::string::StrSliceExecFns;
use vstd::string::StringExecFns;

use crate::error::CefResult;
use crate::json::{json_string, write_json_string};
use crate::registry::{dispatch_posted, CallbackRegistry};
use crate::runtime::Runtime;
use crate::string::char_from_code;

verus! {

/// One structured log event bound for the scripting side.
pub struct LogEntry {
    pub level: String,
    pub message: String,
    pub target: String,
}

/// The JSON text a log entry is serialized to.
pub open spec fn log_entry_json_spec(
    level: Seq<char>,
    message: Seq<char>,
    target: Seq<char>,
) -> Seq<char> {
    "{\"level\":"@ + json_string(level) + ",\"message\":"@ + json_string(message)
        + ",\"target\":"@ + json_string(target) + "}"@
}

impl LogEntry {
    /// Serialize this entry, exactly [`log_entry_json_spec`].
    pub fn to_json(&self) -> (r: String)
        ensures
            r@ == log_entry_json_spec(self.level@, self.message@, self.target@),
    {
        let mut r = String::from_str("{\"level\":");
        write_json_string(&mut r, self.level.as_str());
        r.append(",\"message\":");
        write_json_string(&mut r, self.message.as_str());
        r.append(",\"target\":");
        write_json_string(&mut r, self.target.as_str());
        r.append("}");
        proof {
            assert(r@ =~= log_entry_json_spec(self.level@, self.message@, self.target@));
        }
        r
    }
}

/// Whether two texts hold the same characters.
pub fn str_eq(a: &str, b: &str) -> (r: bool)
    ensures
        r == (a@ == b@),
{
    let na = a.unicode_len();
    let nb = b.unicode_len();
    if na != nb {
        return false;
    }
    let mut i: usize = 0;
    while i < na
        invariant
            na == a@.len(),
            na == b@.len(),
            i <= na,
            forall|j: int| 0 <= j < i ==> a@[j] == b@[j],
        decreases na - i,
    {
        if a.get_char(i) != b.get_char(i) {
            return false;
        }
        i = i + 1;
    }
    proof {
        assert(a@ =~= b@);
    }
    true
}

/// ASCII lowercasing of one character.
pub open spec fn lower_char(c: char) -> char {
    if 'A' <= c && c <= 'Z' {
        ((c as u32 + 0x20) as u32) as char
    } else {
        c
    }
}

/// ASCII lowercasing of a text.
pub open spec fn lower_text(s: Seq<char>) -> Seq<char> {
    s.map_values(|c: char| lower_char(c))
}

/// A copy of `s` with ASCII letters lowercased.
fn to_lower_ascii(s: &str) -> (r: String)
    ensures
        r@ == lower_text(s@),
{
    let n = s.unicode_len();
    let mut r = String::new();
    let mut i: usize = 0;
    while i < n
        invariant
            n == s@.len(),
            i <= n,
            r@ == lower_text(s@.take(i as int)),
        decreases n - i,
    {
        let c = s.get_char(i);
        let low = if 'A' <= c && c <= 'Z' {
            proof {
                vstd::utf8::char_is_scalar(c);
            }
            char_from_code(c as u32 + 0x20)
        } else {
            c
        };
        r.push(low);
        proof {
            vstd::utf8::char_u32_cast(low, low as u32);
            assert(low == lower_char(s@[i as int]));
            assert(r@ =~= lower_text(s@.take(i + 1)));
        }
        i = i + 1;
    }
    proof {
        assert(s@.take(n as int) =~= s@);
    }
    r
}

/// The frontend log levels, in increasing verbosity.
#[derive(PartialEq, Eq, Structural, Clone, Copy, Debug)]
pub enum LogLevel {
    Off,
    Error,
    Warn,
    Info,
    Debug,
    Trace,
}

/// A level's position on the verbosity scale.
pub open spec fn level_rank(l: LogLevel) -> int {
    match l {
        LogLevel::Off => 0,
        LogLevel::Error => 1,
        LogLevel::Warn => 2,
        LogLevel::Info => 3,
        LogLevel::Debug => 4,
        LogLevel::Trace => 5,
    }
}

/// The level a filter directive names: a case-insensitive level name or
/// its numeric verbosity.
pub open spec fn level_of_text(s: Seq<char>) -> Option<LogLevel> {
    let low = lower_text(s);
    if low == "off"@ || low == "0"@ {
        Some(LogLevel::Off)
    } else if low == "error"@ || low == "1"@ {
        Some(LogLevel::Error)
    } else if low == "warn"@ || low == "2"@ {
        Some(LogLevel::Warn)
    } else if low == "info"@ || low == "3"@ {
        Some(LogLevel::Info)
    } else if low == "debug"@ || low == "4"@ {
        Some(LogLevel::Debug)
    } else if low == "trace"@ || low == "5"@ {
        Some(LogLevel::Trace)
    } else {
        None
    }
}

/// Parse a filter directive, exactly [`level_of_text`].
pub fn parse_level(s: &str) -> (r: Option<LogLevel>)
    ensures
        r == level_of_text(s@),
{
    let low = to_lower_ascii(s);
    let t = low.as_str();
    if str_eq(t, "off") || str_eq(t, "0") {
        Some(LogLevel::Off)
    } else if str_eq(t, "error") || str_eq(t, "1") {
        Some(LogLevel::Error)
    } else if str_eq(t, "warn") || str_eq(t, "2") {
        Some(LogLevel::Warn)
    } else if str_eq(t, "info") || str_eq(t, "3") {
        Some(LogLevel::Info)
    } else if str_eq(t, "debug") || str_eq(t, "4") {
        Some(LogLevel::Debug)
    } else if str_eq(t, "trace") || str_eq(t, "5") {
        Some(LogLevel::Trace)
    } else {
        None
    }
}

/// Set the frontend filter level from a directive; on an unknown
/// directive the filter is left alone and the error names the input.
pub fn set_frontend_log_level(filter: &mut LogLevel, level_str: &str) -> (r: Result<
    (),
    String,
>)
    ensures
        match level_of_text(level_str@) {
            Some(l) => r is Ok && *final(filter) == l,
            None => {
                &&& *final(filter) == *old(filter)
                &&& r matches Err(m) && m@ == "invalid log level: "@ + level_str@
            },
        },
{
    match parse_level(level_str) {
        Some(l) => {
            *filter = l;
            Ok(())
        },
        None => {
            let mut m = String::from_str("invalid log level: ");
            m.append(level_str);
            Err(m)
        },
    }
}

/// Whether an event of level `event` passes a filter set to `filter`:
/// exactly when the event is no more verbose than the filter allows.
pub fn level_enabled(filter: LogLevel, event: LogLevel) -> (r: bool)
    ensures
        r == (level_rank(event) <= level_rank(filter)),
{
    let fr: u32 = match filter {
        LogLevel::Off => 0,
        LogLevel::Error => 1,
        LogLevel::Warn => 2,
        LogLevel::Info => 3,
        LogLevel::Debug => 4,
        LogLevel::Trace => 5,
    };
    let er: u32 = match event {
        LogLevel::Off => 0,
        LogLevel::Error => 1,
        LogLevel::Warn => 2,
        LogLevel::Info => 3,
        LogLevel::Debug => 4,
        LogLevel::Trace => 5,
    };
    er <= fr
}

/// Fold one event field into the accumulated message text: the `message`
/// field replaces the text, any other field is appended as `name=value`,
/// separated by a space from what is already there.
pub fn record_field(message: &mut String, name: &str, value: &str)
    ensures
        name@ == "message"@ ==> final(message)@ == value@,
        name@ != "message"@ ==> final(message)@ == (if old(message)@.len() == 0 {
            Seq::<char>::empty()
        } else {
            old(message)@ + " "@
        }) + name@ + "="@ + value@,
{
    if str_eq(name, "message") {
        *message = String::from_str(value);
    } else {
        if !message.as_str().is_empty() {
            message.append(" ");
        }
        message.append(name);
        message.append("=");
        message.append(value);
        proof {
            if old(message)@.len() == 0 {
                assert(message@ =~= Seq::<char>::empty() + name@ + "="@ + value@);
            }
        }
    }
}

/// The layer that relays filtered events to the registered scripting
/// callback; the surrounding program feeds it each event's level, target
/// and assembled message.
pub struct FrontendTracingLayer;

impl FrontendTracingLayer {
    /// Serialize the entry and post the relay task when a callback is
    /// registered; without one the event is dropped silently.
    pub fn on_event(reg: &CallbackRegistry, rt: &mut Runtime, entry: &LogEntry) -> (r: CefResult<
        bool,
    >)
        requires
            old(rt).wf(),
            match reg.slot {
                Some(cb) => old(rt).can_add_ref(cb.v8_context.id as int) && old(rt).obj(
                    cb.v8_context.id as int,
                ).release_calls < u64::MAX,
                None => true,
            },
        ensures
            final(rt).wf(),
            reg.slot is None ==> r == Ok::<bool, crate::error::CefError>(false) && *final(rt)
                == *old(rt),
            match reg.slot {
                Some(cb) => {
                    &&& old(rt).runner_available && old(rt).post_accepts ==> (r == Ok::<
                        bool,
                        crate::error::CefError,
                    >(true) && dispatch_posted(
                        *old(rt),
                        *final(rt),
                        cb,
                        log_entry_json_spec(entry.level@, entry.message@, entry.target@),
                    ))
                    &&& !(old(rt).runner_available && old(rt).post_accepts) ==> (r matches Err(e)
                        && e is TaskPostFailed)
                },
                None => true,
            },
    {
        reg.dispatch_json(rt, entry.to_json())
    }
}

/// Relay one already-assembled log entry, exactly as the layer does.
pub fn dispatch_log(reg: &CallbackRegistry, rt: &mut Runtime, entry: &LogEntry) -> (r: CefResult<
    bool,
>)
    requires
        old(rt).wf(),
        match reg.slot {
            Some(cb) => old(rt).can_add_ref(cb.v8_context.id as int) && old(rt).obj(
                cb.v8_context.id as int,
            ).release_calls < u64::MAX,
            None => true,
        },
    ensures
        final(rt).wf(),
        reg.slot is None ==> r == Ok::<bool, crate::error::CefError>(false) && *final(rt) == *old(
            rt,
        ),
        match reg.slot {
            Some(cb) => old(rt).runner_available && old(rt).post_accepts ==> (r == Ok::<
                bool,
                crate::error::CefError,
            >(true) && dispatch_posted(
                *old(rt),
                *final(rt),
                cb,
                log_entry_json_spec(entry.level@, entry.message@, entry.target@),
            )),
            None => true,
        },
{
    FrontendTracingLayer::on_event(reg, rt, entry)
}

} // verus!
