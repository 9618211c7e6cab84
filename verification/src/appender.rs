//! The bridge from a program's log records to the telemetry session.
//!
//! A record can go two ways: to the console, as one line of text, and to
//! the collector, as a trace event. Records that the telemetry code itself
//! writes carry one of two reserved targets and never go to the collector,
//! so that logging cannot feed itself.

use crate::c_string::{contains_nul, has_nul};
use crate::clock::{clock_text, utc_clock_text, utc_date, utc_date_text};
use crate::gateway::{asked, log_request, ContextModel, Request};
use crate::types::item_properties;
use crate::{trace_item, LogManager};
use vstd::prelude::*;
use vstd::string::StringExecFns;
use vstd::utf8::encode_utf8;

verus! {

/// How severe a record is. `Error` is the most severe level, `Trace` the
/// least.
#[derive(Clone, Copy, Debug, PartialEq, Eq, Structural)]
pub enum Level {
    Error,
    Warn,
    Info,
    Debug,
    Trace,
}

impl Level {
    /// The place of the level in the order of severity, 1 for `Error`.
    pub open spec fn rank(self) -> int {
        match self {
            Level::Error => 1,
            Level::Warn => 2,
            Level::Info => 3,
            Level::Debug => 4,
            Level::Trace => 5,
        }
    }

    /// The name of the level as it is printed.
    pub open spec fn name(self) -> Seq<char> {
        match self {
            Level::Error => "ERROR"@,
            Level::Warn => "WARN"@,
            Level::Info => "INFO"@,
            Level::Debug => "DEBUG"@,
            Level::Trace => "TRACE"@,
        }
    }

    /// The name of the level as it is printed.
    pub fn as_str(&self) -> (name: &'static str)
        ensures
            name@ == self.name(),
    {
        match self {
            Level::Error => "ERROR",
            Level::Warn => "WARN",
            Level::Info => "INFO",
            Level::Debug => "DEBUG",
            Level::Trace => "TRACE",
        }
    }
}

/// One log record, as plain values.
#[derive(Debug)]
pub struct Record {
    pub level: Level,
    /// The tag of the record's source.
    pub target: String,
    /// The module that wrote the record, where the record names it.
    pub module: Option<String>,
    pub message: String,
}

/// Whether `target` is one of the two tags under which the telemetry code
/// itself logs.
pub open spec fn is_internal_target(target: Seq<char>) -> bool {
    target == "oneds_telemetry"@ || target == "oneds_telemetry_internal"@
}

/// Whether the instant `now`, in seconds since the Unix epoch, has a
/// calendar text.
pub open spec fn has_calendar_text(now: i64) -> bool {
    utc_date(now) is Some
}

/// The date that a console line shows for the instant `now`: empty where
/// the instant has no calendar text.
pub open spec fn date_part(now: i64) -> Seq<char> {
    if has_calendar_text(now) {
        utc_date(now)->Some_0
    } else {
        Seq::empty()
    }
}

/// The time of day that a console line shows for the instant `now`: empty
/// where the instant has no calendar text.
pub open spec fn clock_part(now: i64) -> Seq<char> {
    if has_calendar_text(now) {
        clock_text(now)
    } else {
        Seq::empty()
    }
}

/// The module that a console line shows for `record`: empty where the
/// record names none.
pub open spec fn module_text(record: Record) -> Seq<char> {
    match record.module {
        Some(module) => module@,
        None => Seq::empty(),
    }
}

/// The line that the console shows for a record.
pub open spec fn console_text(
    date: Seq<char>,
    clock: Seq<char>,
    target: Seq<char>,
    module: Seq<char>,
    level: Seq<char>,
    message: Seq<char>,
) -> Seq<char> {
    "["@ + date + " "@ + clock + "] "@ + target + " <"@ + module + "> - "@ + level + ": "@
        + message
}

/// Builds the line that the console shows for a record.
pub fn console_line(
    date: &str,
    clock: &str,
    target: &str,
    module: &str,
    level: Level,
    message: &str,
) -> (line: String)
    ensures
        line@ == console_text(date@, clock@, target@, module@, level.name(), message@),
{
    let mut line = String::from_str("[");
    line.append(date);
    line.append(" ");
    line.append(clock);
    line.append("] ");
    line.append(target);
    line.append(" <");
    line.append(module);
    line.append("> - ");
    line.append(level.as_str());
    line.append(": ");
    line.append(message);
    line
}

/// Whether `target` is one of the two tags under which the telemetry code
/// itself logs.
pub fn is_internal(target: &String) -> (internal: bool)
    ensures
        internal == is_internal_target(target@),
{
    let own = String::from_str("oneds_telemetry");
    let own_internal = String::from_str("oneds_telemetry_internal");
    *target == own || *target == own_internal
}

/// Sends log records to the console and to the collector. Either way can be
/// switched off.
#[derive(Clone, Copy, Debug)]
pub struct TelemetryCollectorLogBridge {
    pub console_enabled: bool,
    pub collector_enabled: bool,
}

impl TelemetryCollectorLogBridge {
    /// A bridge with both ways open.
    pub fn new() -> (bridge: Self)
        ensures
            bridge.console_enabled,
            bridge.collector_enabled,
    {
        TelemetryCollectorLogBridge { console_enabled: true, collector_enabled: true }
    }

    /// Whether records of the level `level` are severe enough to be shown.
    pub open spec fn shows(self, level: Level) -> bool {
        level.rank() <= Level::Debug.rank()
    }

    /// Whether `record` goes to the console.
    pub open spec fn prints(self, record: Record) -> bool {
        self.console_enabled && self.shows(record.level)
    }

    /// Whether `record` goes to the collector: the collector is on, the
    /// record is not one of the telemetry code's own, and its message can be
    /// encoded, which a message with a zero byte cannot.
    pub open spec fn forwards(self, record: Record) -> bool {
        &&& self.collector_enabled
        &&& !is_internal_target(record.target@)
        &&& !has_nul(encode_utf8(record.message@))
    }

    /// The line that the console is to show for `record` at the instant
    /// `now`, in seconds since the Unix epoch: none where the record does
    /// not go to the console. A record that does is shown whatever it
    /// holds: nothing stands between the angle brackets where it names no
    /// module, and the date and the time of day are left empty where the
    /// instant has no calendar text.
    pub open spec fn console_output(self, record: Record, now: i64) -> Option<Seq<char>> {
        if self.prints(record) {
            Some(
                console_text(
                    date_part(now),
                    clock_part(now),
                    record.target@,
                    module_text(record),
                    record.level.name(),
                    record.message@,
                ),
            )
        } else {
            None
        }
    }

    /// What the collector is asked for `record` by a session in the state
    /// `session`: to log the message as a trace event, where the record
    /// goes to the collector and the session is started.
    pub open spec fn collector_requests(self, record: Record, session: crate::Session) -> Seq<
        ContextModel,
    > {
        if self.forwards(record) {
            session.log_requests(item_properties(trace_item(encode_utf8(record.message@))))
        } else {
            seq![]
        }
    }

    /// Whether `log` passes `record` on whole: a record that goes to the
    /// console names its module, and a message that the collector is to
    /// have holds no zero byte.
    pub open spec fn accepts(self, record: Record) -> bool {
        &&& self.prints(record) ==> record.module is Some
        &&& self.collector_enabled && !is_internal_target(record.target@) ==> !has_nul(
            encode_utf8(record.message@),
        )
    }

    /// Whether `log` passes `record` on whole. It handles every record:
    /// one for which this is false is shown without a module, or is kept
    /// from the collector.
    pub fn can_log(&self, record: &Record) -> (accepted: bool)
        ensures
            accepted == self.accepts(*record),
    {
        if self.console_enabled && self.enabled(record.level) && record.module.is_none() {
            return false;
        }
        if self.collector_enabled && !is_internal(&record.target) && contains_nul(
            record.message.as_str().as_bytes(),
        ) {
            return false;
        }
        true
    }

    /// Whether records of the level `level` are severe enough to be shown:
    /// all but those of the level `Trace`.
    pub fn enabled(&self, level: Level) -> (shown: bool)
        ensures
            shown == self.shows(level),
    {
        match level {
            Level::Error => true,
            Level::Warn => true,
            Level::Info => true,
            Level::Debug => true,
            Level::Trace => false,
        }
    }

    /// Handles one record at the instant `now`, in seconds since the Unix
    /// epoch, whatever the record holds and whatever state the session is
    /// in. Returns the line to print where the record goes to the console,
    /// and the call that logs the message as a trace event where it goes to
    /// the collector and the session is started.
    pub fn log(&self, record: &Record, now: i64, log_manager: &LogManager) -> (handled: (
        Option<String>,
        Option<Request>,
    ))
        ensures
            handled.0 is Some <==> self.console_output(*record, now) is Some,
            handled.0 is Some ==> handled.0->Some_0@ == self.console_output(*record, now)->Some_0,
            handled.1 is Some <==> self.forwards(*record) && log_manager@.started
                && log_manager@.handle is Some,
            handled.1 is Some ==> handled.1->Some_0@ == log_request(
                log_manager@.handle->Some_0,
                item_properties(trace_item(encode_utf8(record.message@))),
            ),
            asked(handled.1) == self.collector_requests(*record, log_manager@),
    {
        let mut console: Option<String> = None;
        if self.console_enabled && self.enabled(record.level) {
            let date = utc_date_text(now);
            let clock = utc_clock_text(now, "%H:%M:%S");
            proof {
                reveal_strlit("");
            }
            let module: &str = match &record.module {
                Some(module) => module.as_str(),
                None => "",
            };
            let line = match (&date, &clock) {
                (Some(date), Some(clock)) => console_line(
                    date.as_str(),
                    clock.as_str(),
                    record.target.as_str(),
                    module,
                    record.level,
                    record.message.as_str(),
                ),
                _ => console_line(
                    "",
                    "",
                    record.target.as_str(),
                    module,
                    record.level,
                    record.message.as_str(),
                ),
            };
            console = Some(line);
        }

        let mut request: Option<Request> = None;
        if self.collector_enabled && !is_internal(&record.target) && !contains_nul(
            record.message.as_str().as_bytes(),
        ) {
            request = log_manager.trace(record.message.as_str());
        }
        (console, request)
    }

    /// Returns the calls that flush and upload what the session holds,
    /// where records go to the collector; none where they do not.
    pub fn flush(&self, log_manager: &LogManager) -> (requests: Vec<Request>)
        ensures
            requests.deep_view() == if self.collector_enabled {
                log_manager@.flush_requests(true)
            } else {
                Seq::<ContextModel>::empty()
            },
    {
        if self.collector_enabled {
            log_manager.flush(true)
        } else {
            let requests: Vec<Request> = Vec::new();
            assert(requests.deep_view() =~= Seq::<ContextModel>::empty());
            requests
        }
    }
}

} // verus!
