use std::cmp::Ordering;
use vstd::prelude::*;

verus! {

/// The severity of a message, or the threshold a logger is configured with.
/// The scale is ordered `Info < Warning < Error < Off`; `Off` is never the
/// severity of a message and, as a threshold, suppresses every message.
#[derive(Debug, Clone, Copy, PartialEq, Eq, Structural)]
pub enum LogLevel {
    Info,
    Warning,
    Error,
    Off,
}

/// The position of a level on the severity scale.
pub open spec fn rank(l: LogLevel) -> nat {
    match l {
        LogLevel::Info => 0,
        LogLevel::Warning => 1,
        LogLevel::Error => 2,
        LogLevel::Off => 3,
    }
}

/// The level that a numeric configuration code stands for: 0, 1 and 2 name
/// the three message levels, every other code the most restrictive level.
pub open spec fn level_of(code: u8) -> LogLevel {
    match code {
        0 => LogLevel::Info,
        1 => LogLevel::Warning,
        2 => LogLevel::Error,
        _ => LogLevel::Off,
    }
}

impl From<u8> for LogLevel {
    fn from(value: u8) -> (r: Self) {
        match value {
            0 => LogLevel::Info,
            1 => LogLevel::Warning,
            2 => LogLevel::Error,
            _ => LogLevel::Off,
        }
    }
}

impl vstd::std_specs::convert::FromSpecImpl<u8> for LogLevel {
    open spec fn obeys_from_spec() -> bool {
        true
    }

    open spec fn from_spec(v: u8) -> LogLevel {
        level_of(v)
    }
}

impl LogLevel {
    /// The position of this level on the severity scale.
    fn rank_code(&self) -> (r: u8)
        ensures
            r == rank(*self),
    {
        match self {
            LogLevel::Info => 0,
            LogLevel::Warning => 1,
            LogLevel::Error => 2,
            LogLevel::Off => 3,
        }
    }
}

/// How two levels compare: by their place on the severity scale.
pub open spec fn compare(a: LogLevel, b: LogLevel) -> Ordering {
    if rank(a) < rank(b) {
        Ordering::Less
    } else if rank(a) == rank(b) {
        Ordering::Equal
    } else {
        Ordering::Greater
    }
}

impl PartialOrd for LogLevel {
    fn partial_cmp(&self, other: &LogLevel) -> (r: Option<Ordering>) {
        let a = self.rank_code();
        let b = other.rank_code();
        if a < b {
            Some(Ordering::Less)
        } else if a == b {
            Some(Ordering::Equal)
        } else {
            Some(Ordering::Greater)
        }
    }
}

impl vstd::std_specs::cmp::PartialOrdSpecImpl for LogLevel {
    open spec fn obeys_partial_cmp_spec() -> bool {
        true
    }

    open spec fn partial_cmp_spec(&self, other: &LogLevel) -> Option<Ordering> {
        Some(compare(*self, *other))
    }
}

/// Whether a logger whose threshold is `threshold` shows a message of
/// severity `level`: the threshold is at or below the message's level.
pub open spec fn shows(threshold: LogLevel, level: LogLevel) -> bool {
    rank(threshold) <= rank(level)
}

/// The name a message level is printed under.
pub open spec fn level_name(l: LogLevel) -> Seq<char>
    recommends
        l != LogLevel::Off,
{
    match l {
        LogLevel::Info => "INFO"@,
        LogLevel::Warning => "WARNING"@,
        LogLevel::Error => "ERROR"@,
        LogLevel::Off => Seq::empty(),
    }
}

/// The line a message of severity `level` is printed as: the level's name,
/// a space, a pipe, a space and the message, with nothing escaped or added.
pub open spec fn line_of(level: LogLevel, msg: Seq<char>) -> Seq<char> {
    level_name(level) + " | "@ + msg
}

/// How `<`, `<=` and `partial_cmp` order two levels.
pub open spec fn cmp_of(a: LogLevel, b: LogLevel) -> Option<Ordering> {
    <LogLevel as vstd::std_specs::cmp::PartialOrdSpec>::partial_cmp_spec(&a, &b)
}

/// Every numeric code maps to a level without failing: 0, 1 and 2 give
/// `Info`, `Warning` and `Error`, and every other code gives `Off`.
pub proof fn lemma_level_of_code(c: u8)
    ensures
        level_of(0) == LogLevel::Info,
        level_of(1) == LogLevel::Warning,
        level_of(2) == LogLevel::Error,
        c > 2 ==> level_of(c) == LogLevel::Off,
        <LogLevel as vstd::std_specs::convert::FromSpec<u8>>::from_spec(c) == level_of(c),
{
}

/// The comparison of levels orders them `Info < Warning < Error < Off`; it
/// is irreflexive and transitive, any two levels compare, and `<=` is
/// exactly the relation that decides whether a message is shown.
pub proof fn lemma_level_order()
    ensures
        cmp_of(LogLevel::Info, LogLevel::Warning) == Some(Ordering::Less),
        cmp_of(LogLevel::Warning, LogLevel::Error) == Some(Ordering::Less),
        cmp_of(LogLevel::Error, LogLevel::Off) == Some(Ordering::Less),
        forall|a: LogLevel| cmp_of(a, a) == Some(Ordering::Equal),
        forall|a: LogLevel, b: LogLevel|
            (cmp_of(a, b) == Some(Ordering::Less)) <==> (cmp_of(b, a) == Some(
                Ordering::Greater,
            )),
        forall|a: LogLevel, b: LogLevel|
            (cmp_of(a, b) == Some(Ordering::Equal)) <==> a == b,
        forall|a: LogLevel, b: LogLevel, c: LogLevel|
            cmp_of(a, b) == Some(Ordering::Less) && cmp_of(b, c) == Some(Ordering::Less) ==> cmp_of(
                a,
                c,
            ) == Some(Ordering::Less),
        forall|a: LogLevel, b: LogLevel|
            shows(a, b) <==> (cmp_of(a, b) == Some(Ordering::Less) || cmp_of(a, b) == Some(
                Ordering::Equal,
            )),
{
}

/// A logger made from code `t` shows a message of a given level exactly when
/// `level_of(t)` is at or below that level: informational messages only for
/// code 0, warnings for codes 0 and 1, errors for codes 0 to 2, and nothing
/// for any other code.
pub proof fn lemma_gate_by_code(t: u8)
    ensures
        shows(level_of(t), LogLevel::Info) <==> t == 0,
        shows(level_of(t), LogLevel::Warning) <==> t <= 1,
        shows(level_of(t), LogLevel::Error) <==> t <= 2,
{
}

/// A logger that shows the messages at or above its configured level.
pub struct Log {
    pub log_level: LogLevel,
}

impl Log {
    /// A logger whose threshold is the level that `log_level` stands for.
    pub fn new(log_level: u8) -> (r: Self)
        ensures
            r.log_level == level_of(log_level),
    {
        Log { log_level: LogLevel::from(log_level) }
    }

    /// The line for `msg` at severity `level`, when this logger shows it.
    fn gate(&self, level: LogLevel, msg: &str) -> (r: Option<String>)
        requires
            level != LogLevel::Off,
        ensures
            r is Some <==> shows(self.log_level, level),
            r is Some ==> r->0@ == line_of(level, msg@),
    {
        if self.log_level <= level {
            let name = match level {
                LogLevel::Info => "INFO",
                LogLevel::Warning => "WARNING",
                _ => "ERROR",
            };
            let mut line = String::from_str(name);
            line.append(" | ");
            line.append(msg);
            Some(line)
        } else {
            None
        }
    }

    /// The line to print for an informational message, or `None` when the
    /// threshold suppresses it.
    pub fn info(&self, msg: &str) -> (r: Option<String>)
        ensures
            r is Some <==> shows(self.log_level, LogLevel::Info),
            r is Some ==> r->0@ == line_of(LogLevel::Info, msg@),
    {
        self.gate(LogLevel::Info, msg)
    }

    /// The line to print for a warning, or `None` when the threshold
    /// suppresses it.
    pub fn warning(&self, msg: &str) -> (r: Option<String>)
        ensures
            r is Some <==> shows(self.log_level, LogLevel::Warning),
            r is Some ==> r->0@ == line_of(LogLevel::Warning, msg@),
    {
        self.gate(LogLevel::Warning, msg)
    }

    /// The line to print for an error, or `None` when the threshold
    /// suppresses it.
    pub fn error(&self, msg: &str) -> (r: Option<String>)
        ensures
            r is Some <==> shows(self.log_level, LogLevel::Error),
            r is Some ==> r->0@ == line_of(LogLevel::Error, msg@),
    {
        self.gate(LogLevel::Error, msg)
    }
}

} // verus!
