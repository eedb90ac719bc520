//! Log levels and their mapping to text labels and cloud severities.

use vstd::prelude::*;

verus! {

/// The five levels of a log record, from the most to the least severe.
#[derive(Clone, Copy, Debug, PartialEq, Eq, Structural)]
pub enum Level {
    Error,
    Warn,
    Info,
    Debug,
    Trace,
}

/// The severities of the cloud logging schema that levels map to.
#[derive(Clone, Copy, Debug, PartialEq, Eq, Structural)]
pub enum CloudSeverity {
    Default,
    Debug,
    Info,
    Warning,
    Error,
}

/// Position of a level in its order: the most severe level comes first.
pub open spec fn level_rank(l: Level) -> nat {
    match l {
        Level::Error => 0,
        Level::Warn => 1,
        Level::Info => 2,
        Level::Debug => 3,
        Level::Trace => 4,
    }
}

/// Position of a cloud severity, from the most to the least severe.
pub open spec fn severity_rank(s: CloudSeverity) -> nat {
    match s {
        CloudSeverity::Error => 0,
        CloudSeverity::Warning => 1,
        CloudSeverity::Info => 2,
        CloudSeverity::Debug => 3,
        CloudSeverity::Default => 4,
    }
}

/// The text label of a level.
pub open spec fn label_of(l: Level) -> Seq<char> {
    match l {
        Level::Error => "ERROR"@,
        Level::Warn => "WARN"@,
        Level::Info => "INFO"@,
        Level::Debug => "DEBUG"@,
        Level::Trace => "TRACE"@,
    }
}

/// The cloud severity of a level.
pub open spec fn severity_of(l: Level) -> CloudSeverity {
    match l {
        Level::Error => CloudSeverity::Error,
        Level::Warn => CloudSeverity::Warning,
        Level::Info => CloudSeverity::Info,
        Level::Debug => CloudSeverity::Debug,
        Level::Trace => CloudSeverity::Default,
    }
}

/// Whether a record of this level is actionable, so that it carries a stack trace.
pub open spec fn is_actionable(l: Level) -> bool {
    l == Level::Error || l == Level::Warn
}

impl Level {
    /// The text label of this level.
    pub fn label(self) -> (r: &'static str)
        ensures
            r@ == label_of(self),
    {
        proof {
            reveal_strlit("ERROR");
            reveal_strlit("WARN");
            reveal_strlit("INFO");
            reveal_strlit("DEBUG");
            reveal_strlit("TRACE");
        }
        match self {
            Level::Error => "ERROR",
            Level::Warn => "WARN",
            Level::Info => "INFO",
            Level::Debug => "DEBUG",
            Level::Trace => "TRACE",
        }
    }

    /// The cloud severity of this level.
    pub fn severity(self) -> (r: CloudSeverity)
        ensures
            r == severity_of(self),
    {
        match self {
            Level::Error => CloudSeverity::Error,
            Level::Warn => CloudSeverity::Warning,
            Level::Info => CloudSeverity::Info,
            Level::Debug => CloudSeverity::Debug,
            Level::Trace => CloudSeverity::Default,
        }
    }

    /// Whether a record of this level carries a stack trace.
    pub fn is_actionable(self) -> (r: bool)
        ensures
            r == is_actionable(self),
    {
        match self {
            Level::Error | Level::Warn => true,
            _ => false,
        }
    }
}

/// The mapping from levels to labels and severities keeps the order of levels,
/// and two different levels never share a label or a severity.
pub proof fn lemma_severity_mapping(a: Level, b: Level)
    ensures
        level_rank(a) < level_rank(b) <==> severity_rank(severity_of(a)) < severity_rank(
            severity_of(b),
        ),
        a != b ==> label_of(a) != label_of(b),
        a != b ==> severity_of(a) != severity_of(b),
{
    reveal_strlit("ERROR");
    reveal_strlit("WARN");
    reveal_strlit("INFO");
    reveal_strlit("DEBUG");
    reveal_strlit("TRACE");
    // the labels already differ in their first letter
    assert(label_of(a).len() > 0 && label_of(b).len() > 0);
    if a != b {
        assert(label_of(a)[0] != label_of(b)[0]);
    }
}

} // verus!
