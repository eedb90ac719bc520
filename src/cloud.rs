//! The structured line of an entry: the entry, stamped with the time, as one
//! JSON document in the cloud logging service's schema.

use vstd::prelude::*;
use crate::level::CloudSeverity;
use crate::logger::CloudLogEntry;
use google_cloud_logging::{GCLogSeverity, GCOperation, GCSourceLocation, GoogleCloudStructLog};

verus! {

#[verifier::external_type_specification]
#[verifier::external_body]
pub struct ExGCLogSeverity(google_cloud_logging::GCLogSeverity);

#[verifier::external_type_specification]
#[verifier::external_body]
pub struct ExJsonError(serde_json::Error);

/// The JSON line of a structured record with these fields, stamped with the
/// instant `seconds` and `nanos` past the Unix epoch.
pub uninterp spec fn json_line_of(
    severity: CloudSeverity,
    message: Seq<char>,
    report_type: Option<Seq<char>>,
    operation_id: Seq<char>,
    producer: Seq<char>,
    file: Option<Seq<char>>,
    line: Option<u32>,
    function: Option<Seq<char>>,
    seconds: i64,
    nanos: u32,
) -> Seq<char>;

/// Seconds on either side of the epoch that are well inside the range of
/// instants the JSON schema's time field can carry (about 253,000 years).
pub const MAX_TIMESTAMP_SECONDS: i64 = 8_000_000_000_000;

/// An instant in UTC: whole seconds since the Unix epoch and the nanoseconds
/// past them.
#[derive(Clone, Copy, Debug, PartialEq, Eq, Structural)]
pub struct Timestamp {
    pub seconds: i64,
    pub nanos: u32,
}

impl Timestamp {
    /// Whether this instant can stand in a line's time field: its nanoseconds
    /// stay under a second and its seconds lie within the supported range.
    pub open spec fn valid(self) -> bool {
        &&& self.nanos < 1_000_000_000
        &&& -MAX_TIMESTAMP_SECONDS <= self.seconds <= MAX_TIMESTAMP_SECONDS
    }

    /// Whether this instant can stand in a line's time field.
    pub fn is_valid(self) -> (r: bool)
        ensures
            r == self.valid(),
    {
        self.nanos < 1_000_000_000 && -MAX_TIMESTAMP_SECONDS <= self.seconds
            && self.seconds <= MAX_TIMESTAMP_SECONDS
    }
}

/// The view of an optional text.
pub open spec fn opt_text(o: Option<String>) -> Option<Seq<char>> {
    match o {
        Some(s) => Some(s@),
        None => None,
    }
}

/// The JSON line of an entry stamped with `time`.
pub open spec fn entry_line(e: CloudLogEntry, time: Timestamp) -> Seq<char> {
    json_line_of(
        e.severity,
        e.message@,
        opt_text(e.report_type),
        e.operation_id@,
        e.operation_producer@,
        opt_text(e.source_file),
        e.source_line,
        opt_text(e.source_function),
        time.seconds,
        time.nanos,
    )
}

/// Why no structured line was written.
#[derive(Clone, Copy, Debug, PartialEq, Eq, Structural)]
pub enum LineError {
    /// The system clock read an instant outside the supported range.
    ClockOutOfRange,
}

/// Relies on chrono's conversion of std::time::SystemTime::now into a UTC
/// instant, which also handles a clock before the epoch. Nothing is stated of
/// the instant.
#[verifier::external_body]
fn utc_now() -> (r: Timestamp) {
    let now = chrono::DateTime::<chrono::Utc>::from(std::time::SystemTime::now());
    Timestamp { seconds: now.timestamp(), nanos: now.timestamp_subsec_nanos() }
}

/// Relies on google_cloud_logging::GCLogSeverity: the variant of the same name.
#[verifier::external_body]
fn gc_severity(s: CloudSeverity) -> (r: GCLogSeverity) {
    match s {
        CloudSeverity::Default => GCLogSeverity::Default,
        CloudSeverity::Debug => GCLogSeverity::Debug,
        CloudSeverity::Info => GCLogSeverity::Info,
        CloudSeverity::Warning => GCLogSeverity::Warning,
        CloudSeverity::Error => GCLogSeverity::Error,
    }
}

/// Relies on serde_json::to_string, applied to google_cloud_logging's
/// GoogleCloudStructLog filled from the entry, field by field, and on
/// chrono::DateTime::from_timestamp for its time. The record's fields are
/// strings, options and a map with string keys, which serde_json always writes.
#[verifier::external_body]
fn entry_json(e: &CloudLogEntry, time: Timestamp) -> (r: Result<String, serde_json::Error>)
    ensures
        r is Ok,
        r matches Ok(s) ==> s@ == json_line_of(
            e.severity,
            e.message@,
            opt_text(e.report_type),
            e.operation_id@,
            e.operation_producer@,
            opt_text(e.source_file),
            e.source_line,
            opt_text(e.source_function),
            time.seconds,
            time.nanos,
        ),
{
    let operation = GCOperation { id: Some(&e.operation_id), producer: Some(&e.operation_producer), ..Default::default() };
    let line = e.source_line.map(|l| l.to_string());
    let source_location = GCSourceLocation { file: e.source_file.as_deref(), line, function: e.source_function.as_deref() };
    let log = GoogleCloudStructLog { severity: Some(gc_severity(e.severity)), message: Some(e.message.clone()), report_type: e.report_type.clone(), operation: Some(operation), source_location: Some(source_location), time: chrono::DateTime::from_timestamp(time.seconds, time.nanos), ..Default::default() };
    serde_json::to_string(&log)
}

/// The structured line of an entry, stamped with `time`.
pub fn line_at(e: &CloudLogEntry, time: Timestamp) -> (r: String)
    requires
        time.valid(),
    ensures
        r@ == entry_line(*e, time),
{
    match entry_json(e, time) {
        Ok(line) => line,
        Err(_) => {
            proof {
                assert(false);
            }
            String::new()
        },
    }
}

/// The structured line of an entry, stamped with the current time; an error
/// when the system clock reads an instant outside the supported range.
pub fn structured_line(e: &CloudLogEntry) -> (r: Result<String, LineError>)
    ensures
        r matches Ok(s) ==> exists|t: Timestamp| t.valid() && #[trigger] entry_line(*e, t) == s@,
        r matches Err(err) ==> err == LineError::ClockOutOfRange,
{
    let now = utc_now();
    if now.is_valid() {
        Ok(line_at(e, now))
    } else {
        Err(LineError::ClockOutOfRange)
    }
}

} // verus!
