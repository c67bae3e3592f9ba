//! Application severities, syslog priorities and the mapping between them.
use vstd::prelude::*;

verus! {

/// Syslog priority code for system-is-unusable messages.
pub const LOG_EMERG: i32 = 0;

/// Syslog priority code for messages that need action at once.
pub const LOG_ALERT: i32 = 1;

/// Syslog priority code for critical conditions.
pub const LOG_CRIT: i32 = 2;

/// Syslog priority code for error conditions.
pub const LOG_ERR: i32 = 3;

/// Syslog priority code for warning conditions.
pub const LOG_WARNING: i32 = 4;

/// Syslog priority code for normal but significant conditions.
pub const LOG_NOTICE: i32 = 5;

/// Syslog priority code for informational messages.
pub const LOG_INFO: i32 = 6;

/// Syslog priority code for debug-level messages.
pub const LOG_DEBUG: i32 = 7;

/// Severity of an application log record, from the most to the least severe.
#[derive(Clone, Copy, Debug, PartialEq, Eq, Structural)]
pub enum Level {
    Error,
    Warn,
    Info,
    Debug,
    Trace,
}

/// One of the eight syslog priorities.
#[derive(Clone, Copy, Debug, PartialEq, Eq, Structural)]
pub enum Priority {
    Emergency,
    Alert,
    Critical,
    Error,
    Warning,
    Notice,
    Info,
    Debug,
}

impl Priority {
    pub open spec fn spec_code(self) -> i32 {
        match self {
            Priority::Emergency => LOG_EMERG,
            Priority::Alert => LOG_ALERT,
            Priority::Critical => LOG_CRIT,
            Priority::Error => LOG_ERR,
            Priority::Warning => LOG_WARNING,
            Priority::Notice => LOG_NOTICE,
            Priority::Info => LOG_INFO,
            Priority::Debug => LOG_DEBUG,
        }
    }

    /// The integer that the OS syslog call takes for this priority.
    pub fn code(&self) -> (r: i32)
        ensures
            r == self.spec_code(),
    {
        match self {
            Priority::Emergency => LOG_EMERG,
            Priority::Alert => LOG_ALERT,
            Priority::Critical => LOG_CRIT,
            Priority::Error => LOG_ERR,
            Priority::Warning => LOG_WARNING,
            Priority::Notice => LOG_NOTICE,
            Priority::Info => LOG_INFO,
            Priority::Debug => LOG_DEBUG,
        }
    }
}

/// The priority used for a level when no custom mapping is configured.
pub open spec fn spec_default_priority(level: Level) -> i32 {
    match level {
        Level::Error => LOG_ERR,
        Level::Warn => LOG_WARNING,
        Level::Info => LOG_INFO,
        Level::Debug => LOG_DEBUG,
        Level::Trace => LOG_DEBUG,
    }
}

/// Maps a level to its default syslog priority.
pub fn default_priority(level: Level) -> (r: i32)
    ensures
        r == spec_default_priority(level),
{
    match level {
        Level::Error => LOG_ERR,
        Level::Warn => LOG_WARNING,
        Level::Info => LOG_INFO,
        Level::Debug | Level::Trace => LOG_DEBUG,
    }
}

/// A custom mapping from every level to a priority code; total by construction.
#[derive(Clone, Copy, Debug, PartialEq, Eq, Structural)]
pub struct LevelMap {
    pub error: i32,
    pub warn: i32,
    pub info: i32,
    pub debug: i32,
    pub trace: i32,
}

/// Why a level mapping read from configuration was refused.
#[derive(Clone, Copy, Debug, PartialEq, Eq, Structural)]
pub enum ConfigError {
    /// The table gives no priority for this level.
    MissingLevel(Level),
}

/// The priority that a configuration table gives a level: the last entry for it wins.
pub open spec fn table_lookup(entries: Seq<(Level, Priority)>, level: Level) -> Option<Priority>
    decreases entries.len(),
{
    if entries.len() == 0 {
        None
    } else if entries.last().0 == level {
        Some(entries.last().1)
    } else {
        table_lookup(entries.drop_last(), level)
    }
}

/// The code that a table gives a level, where it gives one.
pub open spec fn table_code(entries: Seq<(Level, Priority)>, level: Level) -> i32 {
    match table_lookup(entries, level) {
        Some(p) => p.spec_code(),
        None => 0,
    }
}

/// What building a level map from a configuration table yields: the first level,
/// in order of decreasing severity, that the table leaves out is reported.
pub open spec fn spec_from_table(entries: Seq<(Level, Priority)>) -> Result<LevelMap, ConfigError> {
    if table_lookup(entries, Level::Error) is None {
        Err(ConfigError::MissingLevel(Level::Error))
    } else if table_lookup(entries, Level::Warn) is None {
        Err(ConfigError::MissingLevel(Level::Warn))
    } else if table_lookup(entries, Level::Info) is None {
        Err(ConfigError::MissingLevel(Level::Info))
    } else if table_lookup(entries, Level::Debug) is None {
        Err(ConfigError::MissingLevel(Level::Debug))
    } else if table_lookup(entries, Level::Trace) is None {
        Err(ConfigError::MissingLevel(Level::Trace))
    } else {
        Ok(
            LevelMap {
                error: table_code(entries, Level::Error),
                warn: table_code(entries, Level::Warn),
                info: table_code(entries, Level::Info),
                debug: table_code(entries, Level::Debug),
                trace: table_code(entries, Level::Trace),
            },
        )
    }
}

impl LevelMap {
    pub open spec fn spec_get(self, level: Level) -> i32 {
        match level {
            Level::Error => self.error,
            Level::Warn => self.warn,
            Level::Info => self.info,
            Level::Debug => self.debug,
            Level::Trace => self.trace,
        }
    }

    /// The priority code that this map gives a level.
    pub fn get(&self, level: Level) -> (r: i32)
        ensures
            r == self.spec_get(level),
    {
        match level {
            Level::Error => self.error,
            Level::Warn => self.warn,
            Level::Info => self.info,
            Level::Debug => self.debug,
            Level::Trace => self.trace,
        }
    }

    /// Builds a map from a table of (level, priority) entries, as a configuration
    /// file lists them. Where a level appears twice, its last entry counts. Fails,
    /// naming the level, when the table leaves a level out.
    pub fn from_table(entries: &Vec<(Level, Priority)>) -> (r: Result<LevelMap, ConfigError>)
        ensures
            r == spec_from_table(entries@),
    {
        let mut error: Option<Priority> = None;
        let mut warn: Option<Priority> = None;
        let mut info: Option<Priority> = None;
        let mut debug: Option<Priority> = None;
        let mut trace: Option<Priority> = None;
        let mut i: usize = 0;
        while i < entries.len()
            invariant
                i <= entries@.len(),
                error == table_lookup(entries@.subrange(0, i as int), Level::Error),
                warn == table_lookup(entries@.subrange(0, i as int), Level::Warn),
                info == table_lookup(entries@.subrange(0, i as int), Level::Info),
                debug == table_lookup(entries@.subrange(0, i as int), Level::Debug),
                trace == table_lookup(entries@.subrange(0, i as int), Level::Trace),
            decreases entries@.len() - i,
        {
            let (level, priority) = entries[i];
            match level {
                Level::Error => error = Some(priority),
                Level::Warn => warn = Some(priority),
                Level::Info => info = Some(priority),
                Level::Debug => debug = Some(priority),
                Level::Trace => trace = Some(priority),
            }
            proof {
                assert(entries@.subrange(0, i + 1).drop_last() =~= entries@.subrange(0, i as int));
            }
            i = i + 1;
        }
        proof {
            assert(entries@.subrange(0, i as int) =~= entries@);
        }
        match (error, warn, info, debug, trace) {
            (None, _, _, _, _) => Err(ConfigError::MissingLevel(Level::Error)),
            (_, None, _, _, _) => Err(ConfigError::MissingLevel(Level::Warn)),
            (_, _, None, _, _) => Err(ConfigError::MissingLevel(Level::Info)),
            (_, _, _, None, _) => Err(ConfigError::MissingLevel(Level::Debug)),
            (_, _, _, _, None) => Err(ConfigError::MissingLevel(Level::Trace)),
            (Some(e), Some(w), Some(n), Some(d), Some(t)) => Ok(
                LevelMap {
                    error: e.code(),
                    warn: w.code(),
                    info: n.code(),
                    debug: d.code(),
                    trace: t.code(),
                },
            ),
        }
    }
}

/// A table that leaves a level out is refused, and the level it names is one
/// that the table leaves out; where that is the only level left out, it is the
/// one named.
pub proof fn lemma_missing_level_refused(entries: Seq<(Level, Priority)>, level: Level)
    requires
        table_lookup(entries, level) is None,
    ensures
        spec_from_table(entries) is Err,
        forall|named: Level|
            spec_from_table(entries) == Err::<LevelMap, ConfigError>(ConfigError::MissingLevel(named))
                ==> table_lookup(entries, named) is None,
        (forall|other: Level| other != level ==> table_lookup(entries, other) is Some)
            ==> spec_from_table(entries) == Err::<LevelMap, ConfigError>(ConfigError::MissingLevel(level)),
{
}

/// A table that covers every level is accepted, and the map gives each level the
/// priority that the table gives it.
pub proof fn lemma_complete_table_accepted(entries: Seq<(Level, Priority)>)
    requires
        forall|level: Level| table_lookup(entries, level) is Some,
    ensures
        spec_from_table(entries) is Ok,
        forall|level: Level|
            spec_from_table(entries)->Ok_0.spec_get(level) == (#[trigger] table_lookup(entries, level))->Some_0.spec_code(),
{
    assert(table_lookup(entries, Level::Error) is Some);
    assert(table_lookup(entries, Level::Warn) is Some);
    assert(table_lookup(entries, Level::Info) is Some);
    assert(table_lookup(entries, Level::Debug) is Some);
    assert(table_lookup(entries, Level::Trace) is Some);
}

} // verus!
