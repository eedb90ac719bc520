//! The log router: the output format, the rendering of a record in either
//! format, and the logger that filters records before rendering them.

use vstd::prelude::*;
use crate::filter::{filter_passes, LogTargets, RejectedPattern};
use crate::level::{is_actionable, label_of, severity_of, CloudSeverity, Level};

verus! {

/// The shape of an output line: human-readable text, or a structured entry
/// for the cloud logging service.
#[derive(Clone, Copy, Debug, PartialEq, Eq, Structural)]
pub enum LogFormat {
    Text,
    Json,
}

/// A log record as it arrives at the logger.
pub struct LogRecord {
    pub level: Level,
    /// The origin of the record, a path such as `service::net`.
    pub target: String,
    pub message: String,
    pub file: Option<String>,
    pub line: Option<u32>,
    pub function: Option<String>,
}

/// The structured entry of a record, as the cloud logging service reads it.
pub struct CloudLogEntry {
    pub severity: CloudSeverity,
    pub message: String,
    /// Set for errors only: it marks the entry as a reportable error event.
    pub report_type: Option<String>,
    pub operation_id: String,
    pub operation_producer: String,
    pub source_file: Option<String>,
    pub source_line: Option<u32>,
    pub source_function: Option<String>,
}

/// What the logger makes of a record that passes its filter.
pub enum Output {
    /// A text line, without its final newline.
    Text(String),
    /// A structured entry, to be stamped with the time and written as one line.
    Structured(CloudLogEntry),
}

/// The marker that tells the error reporting service that an entry is an error event.
pub open spec fn error_report_type_spec() -> Seq<char> {
    "type.googleapis.com/google.devtools.clouderrorreporting.v1beta1.ReportedErrorEvent"@
}

/// The label of a level, padded with spaces to five characters.
pub open spec fn padded_label_of(l: Level) -> Seq<char> {
    label_of(l) + Seq::new((5 - label_of(l).len()) as nat, |_i: int| ' ')
}

/// The message of a record, followed by a newline and the stack trace for
/// actionable levels.
pub open spec fn with_stack(l: Level, message: Seq<char>, stack: Seq<char>) -> Seq<char> {
    if is_actionable(l) {
        message + "\n"@ + stack
    } else {
        message
    }
}

/// The text line of a record: `LEVEL:origin - message`, and for actionable
/// levels a newline and the stack trace.
pub open spec fn text_line(l: Level, origin: Seq<char>, message: Seq<char>, stack: Seq<char>) -> Seq<char> {
    padded_label_of(l) + ":"@ + origin + " - "@ + with_stack(l, message, stack)
}

/// Whether there is a `::` at position `i` of `s`.
pub open spec fn is_separator_at(s: Seq<char>, i: int) -> bool {
    0 <= i && i + 1 < s.len() && s[i] == ':' && s[i + 1] == ':'
}

/// The first segment of an origin path: what comes before its first `::`.
pub open spec fn crate_root(s: Seq<char>) -> Seq<char>
    decreases s.len(),
{
    if s.len() < 2 {
        s
    } else if s[0] == ':' && s[1] == ':' {
        Seq::empty()
    } else {
        seq![s[0]] + crate_root(s.drop_first())
    }
}

/// Whether `e` is the structured entry of `record` with the stack trace `stack`.
pub open spec fn is_entry_of(e: CloudLogEntry, record: LogRecord, stack: Seq<char>) -> bool {
    &&& e.severity == severity_of(record.level)
    &&& e.message@ == with_stack(record.level, record.message@, stack)
    &&& (record.level == Level::Error ==> (e.report_type matches Some(t) && t@ == error_report_type_spec()))
    &&& (record.level != Level::Error ==> e.report_type is None)
    &&& e.operation_id@ == crate_root(record.target@)
    &&& e.operation_producer@ == record.target@
    &&& e.source_file == record.file
    &&& e.source_line == record.line
    &&& e.source_function == record.function
}

/// Whether `out` is what a logger with `format` and `targets` makes of `record`
/// with the stack trace `stack`.
pub open spec fn is_output_of(
    format: LogFormat,
    targets: LogTargets,
    record: LogRecord,
    stack: Seq<char>,
    out: Option<Output>,
) -> bool {
    if !filter_passes(targets.allows_all(), targets.sources(), record.target@) {
        out is None
    } else {
        match format {
            LogFormat::Text => out matches Some(Output::Text(s)) && s@ == text_line(
                record.level,
                record.target@,
                record.message@,
                stack,
            ),
            LogFormat::Json => out matches Some(Output::Structured(e)) && is_entry_of(
                e,
                record,
                stack,
            ),
        }
    }
}

proof fn lemma_crate_root(s: Seq<char>, k: int)
    requires
        0 <= k <= s.len(),
        forall|i: int| 0 <= i < k ==> !is_separator_at(s, i),
        k == s.len() || is_separator_at(s, k),
    ensures
        crate_root(s) == s.subrange(0, k),
    decreases s.len(),
{
    if k == 0 {
        assert(s.subrange(0, 0) =~= Seq::<char>::empty());
        if s.len() > 0 {
            assert(is_separator_at(s, 0));
        }
    } else if s.len() < 2 {
        assert(s.subrange(0, k) =~= s);
    } else {
        assert(!is_separator_at(s, 0));
        let t = s.drop_first();
        assert forall|i: int| 0 <= i < k - 1 implies !is_separator_at(t, i) by {
            assert(!is_separator_at(s, i + 1));
        }
        if k < s.len() {
            assert(is_separator_at(s, k));
            assert(is_separator_at(t, k - 1));
        }
        lemma_crate_root(t, k - 1);
        assert(seq![s[0]] + t.subrange(0, k - 1) =~= s.subrange(0, k));
    }
}

/// The first segment of an origin path: what comes before its first `::`,
/// or the whole path when it has none.
pub fn get_crate_root(target: &str) -> (r: &str)
    ensures
        r@ == crate_root(target@),
{
    let n = target.unicode_len();
    let mut i: usize = 0;
    let mut k: usize = n;
    while k == n && i < n
        invariant
            n == target@.len(),
            i <= n,
            k == n || (k == i && is_separator_at(target@, k as int)),
            forall|j: int| 0 <= j < i ==> !is_separator_at(target@, j),
        decreases n - i, k,
    {
        if i + 1 < n && target.get_char(i) == ':' && target.get_char(i + 1) == ':' {
            k = i;
        } else {
            i = i + 1;
        }
    }
    proof {
        lemma_crate_root(target@, k as int);
    }
    target.substring_char(0, k)
}

/// The marker that tells the error reporting service that an entry is an error event.
pub fn error_report_type() -> (r: &'static str)
    ensures
        r@ == error_report_type_spec(),
{
    proof {
        reveal_strlit("type.googleapis.com/google.devtools.clouderrorreporting.v1beta1.ReportedErrorEvent");
    }
    "type.googleapis.com/google.devtools.clouderrorreporting.v1beta1.ReportedErrorEvent"
}

fn copy_text(o: &Option<String>) -> (r: Option<String>)
    ensures
        r == *o,
{
    match o {
        Some(s) => Some(s.clone()),
        None => None,
    }
}

impl Level {
    /// The label of this level, padded with spaces to five characters.
    pub fn padded_label(self) -> (r: &'static str)
        ensures
            r@ == padded_label_of(self),
    {
        proof {
            reveal_strlit("ERROR");
            reveal_strlit("WARN");
            reveal_strlit("INFO");
            reveal_strlit("DEBUG");
            reveal_strlit("TRACE");
            reveal_strlit("WARN ");
            reveal_strlit("INFO ");
            assert(padded_label_of(Level::Warn) =~= "WARN "@);
            assert(padded_label_of(Level::Info) =~= "INFO "@);
            assert(padded_label_of(Level::Error) =~= "ERROR"@);
            assert(padded_label_of(Level::Debug) =~= "DEBUG"@);
            assert(padded_label_of(Level::Trace) =~= "TRACE"@);
        }
        match self {
            Level::Error => "ERROR",
            Level::Warn => "WARN ",
            Level::Info => "INFO ",
            Level::Debug => "DEBUG",
            Level::Trace => "TRACE",
        }
    }
}

/// The message of a record, followed by a newline and the stack trace for
/// actionable levels.
fn message_with_stack(level: Level, message: &str, stack: &str) -> (r: String)
    ensures
        r@ == with_stack(level, message@, stack@),
{
    let m = String::from_str(message);
    if level.is_actionable() {
        proof {
            reveal_strlit("\n");
        }
        m.concat("\n").concat(stack)
    } else {
        m
    }
}

/// Renders a record as a text line: `LEVEL:origin - message`, the level padded
/// to five characters, and for errors and warnings a newline and the stack trace.
pub fn format_text(level: Level, origin: &str, message: &str, stack: &str) -> (r: String)
    ensures
        r@ == text_line(level, origin@, message@, stack@),
{
    proof {
        reveal_strlit(":");
        reveal_strlit(" - ");
    }
    let tail = message_with_stack(level, message, stack);
    let r = String::from_str(level.padded_label()).concat(":").concat(origin).concat(" - ").concat(
        tail.as_str(),
    );
    r
}

/// Builds the structured entry of a record, with the stack trace `stack` for
/// errors and warnings.
pub fn format_structured(record: &LogRecord, stack: &str) -> (r: CloudLogEntry)
    ensures
        is_entry_of(r, *record, stack@),
{
    let report_type = match record.level {
        Level::Error => Some(String::from_str(error_report_type())),
        _ => None,
    };
    CloudLogEntry {
        severity: record.level.severity(),
        message: message_with_stack(record.level, record.message.as_str(), stack),
        report_type,
        operation_id: String::from_str(get_crate_root(record.target.as_str())),
        operation_producer: record.target.clone(),
        source_file: copy_text(&record.file),
        source_line: record.line,
        source_function: copy_text(&record.function),
    }
}

/// Relies on std::backtrace::Backtrace::capture: the stack trace of the
/// calling thread, as text. What it holds depends on the machine and on
/// the environment, so nothing is stated of it.
#[verifier::external_body]
fn capture_stack() -> (r: String) {
    std::backtrace::Backtrace::capture().to_string()
}

/// The format that a `LOG_FORMAT` setting asks for, and whether the setting
/// was recognised: `text` and `json` are, and an unset value means JSON.
/// Anything else falls back to JSON.
pub open spec fn format_choice(setting: Option<Seq<char>>) -> (LogFormat, bool) {
    match setting {
        None => (LogFormat::Json, true),
        Some(s) => if s == "text"@ {
            (LogFormat::Text, true)
        } else if s == "json"@ {
            (LogFormat::Json, true)
        } else {
            (LogFormat::Json, false)
        },
    }
}

/// The view of an optional text.
pub open spec fn opt_view(o: Option<&str>) -> Option<Seq<char>> {
    match o {
        Some(s) => Some(s@),
        None => None,
    }
}

/// The most verbose level that is let through: everything in a debug build,
/// up to `Info` otherwise.
pub open spec fn max_level_of(debug_build: bool) -> Level {
    if debug_build {
        Level::Trace
    } else {
        Level::Info
    }
}

impl LogFormat {
    /// Chooses the format from the `LOG_FORMAT` setting. The flag is false when
    /// the setting is neither `text` nor `json`; the format is then JSON.
    pub fn get_format(setting: Option<&str>) -> (r: (LogFormat, bool))
        ensures
            r == format_choice(opt_view(setting)),
    {
        match setting {
            None => (LogFormat::Json, true),
            Some(s) => {
                proof {
                    reveal_strlit("text");
                    reveal_strlit("json");
                }
                let given = String::from_str(s);
                if given == String::from_str("text") {
                    (LogFormat::Text, true)
                } else if given == String::from_str("json") {
                    (LogFormat::Json, true)
                } else {
                    (LogFormat::Json, false)
                }
            },
        }
    }
}

/// Filters records by origin and renders those that pass in one format.
pub struct Logger {
    format: LogFormat,
    supported_targets: LogTargets,
}

impl Logger {
    pub closed spec fn spec_format(&self) -> LogFormat {
        self.format
    }

    pub closed spec fn spec_targets(&self) -> LogTargets {
        self.supported_targets
    }

    /// A logger from settings: the `LOG_FORMAT` value, the comma-separated
    /// origin patterns, and the pattern used when none are set. Also returns
    /// whether the format setting was recognised, and the patterns that did
    /// not compile.
    pub fn new(format_setting: Option<&str>, targets_setting: Option<&str>, default_target: &str) -> (r: (Logger, bool, Vec<RejectedPattern>))
        ensures
            (r.0.spec_format(), r.1) == format_choice(opt_view(format_setting)),
            ({
                let es = crate::filter::configured_entries(opt_view(targets_setting), default_target@);
                &&& r.0.spec_targets().allows_all() == crate::filter::has_all_marker(es)
                &&& r.0.spec_targets().sources() == crate::filter::compiled_sources(es)
                &&& r.2@.map_values(|e: RejectedPattern| e.pattern@) == crate::filter::rejected_sources(es)
            }),
    {
        let (format, recognised) = LogFormat::get_format(format_setting);
        let (supported_targets, rejected) = LogTargets::from_config(targets_setting, default_target);
        (Logger { format, supported_targets }, recognised, rejected)
    }

    /// A logger with the given format and filter.
    pub fn custom(format: LogFormat, supported_targets: LogTargets) -> (r: Logger)
        ensures
            r.spec_format() == format,
            r.spec_targets() == supported_targets,
    {
        Logger { format, supported_targets }
    }

    /// The format of this logger.
    pub fn format(&self) -> (r: LogFormat)
        ensures
            r == self.spec_format(),
    {
        self.format
    }

    /// Whether a record from `origin` passes this logger's filter.
    pub fn enabled(&self, origin: &str) -> (r: bool)
        ensures
            r == filter_passes(self.spec_targets().allows_all(), self.spec_targets().sources(), origin@),
    {
        self.supported_targets.enabled(origin)
    }

    /// What this logger makes of `record`, with `stack` as the stack trace:
    /// nothing when the record's origin does not pass the filter, otherwise
    /// the text line or the structured entry.
    pub fn render(&self, record: &LogRecord, stack: &str) -> (r: Option<Output>)
        ensures
            is_output_of(self.spec_format(), self.spec_targets(), *record, stack@, r),
    {
        if !self.enabled(record.target.as_str()) {
            return None;
        }
        match self.format {
            LogFormat::Text => Some(
                Output::Text(
                    format_text(record.level, record.target.as_str(), record.message.as_str(), stack),
                ),
            ),
            LogFormat::Json => Some(Output::Structured(format_structured(record, stack))),
        }
    }

    /// What this logger makes of `record`. The stack trace is captured only
    /// for errors and warnings that pass the filter.
    pub fn log(&self, record: &LogRecord) -> (r: Option<Output>)
        ensures
            exists|stack: Seq<char>| is_output_of(self.spec_format(), self.spec_targets(), *record, stack, r),
            !is_actionable(record.level) ==> is_output_of(
                self.spec_format(),
                self.spec_targets(),
                *record,
                Seq::empty(),
                r,
            ),
    {
        let captured = if record.level.is_actionable() && self.enabled(record.target.as_str()) {
            capture_stack()
        } else {
            String::new()
        };
        let r = self.render(record, captured.as_str());
        assert(is_output_of(self.spec_format(), self.spec_targets(), *record, captured@, r));
        r
    }
}

/// The most verbose level to let through: `Trace` in a debug build, `Info` otherwise.
pub fn max_level(debug_build: bool) -> (r: Level)
    ensures
        r == max_level_of(debug_build),
{
    if debug_build {
        Level::Trace
    } else {
        Level::Info
    }
}

/// The logger for the cloud platform: structured output with the given
/// filter, and the most verbose level to let through.
pub fn setup_gcp_logger(supported_targets: LogTargets, debug_build: bool) -> (r: (Logger, Level))
    ensures
        r.0.spec_format() == LogFormat::Json,
        r.0.spec_targets() == supported_targets,
        r.1 == max_level_of(debug_build),
{
    (Logger::custom(LogFormat::Json, supported_targets), max_level(debug_build))
}

/// Of structured entries, exactly those of errors carry the error-report marker.
pub proof fn lemma_error_marker_only_for_errors(e: CloudLogEntry, record: LogRecord, stack: Seq<char>)
    requires
        is_entry_of(e, record, stack),
    ensures
        e.report_type is Some <==> record.level == Level::Error,
        record.level == Level::Error ==> e.report_type.unwrap()@ == error_report_type_spec(),
{
}

/// A text line carries a stack block, a newline and the stack trace after the
/// message, exactly for errors and warnings; lines of other levels end with
/// the message.
pub proof fn lemma_text_stack_block(l: Level, origin: Seq<char>, message: Seq<char>, stack: Seq<char>)
    ensures
        is_actionable(l) ==> text_line(l, origin, message, stack) == padded_label_of(l) + ":"@ + origin
            + " - "@ + message + "\n"@ + stack,
        !is_actionable(l) ==> text_line(l, origin, message, stack) == padded_label_of(l) + ":"@
            + origin + " - "@ + message,
        !is_actionable(l) ==> text_line(l, origin, message, stack) == text_line(
            l,
            origin,
            message,
            Seq::empty(),
        ),
{
    let head = padded_label_of(l) + ":"@ + origin + " - "@;
    if is_actionable(l) {
        assert(head + (message + "\n"@ + stack) =~= head + message + "\n"@ + stack);
    }
}

} // verus!
