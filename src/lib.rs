//! Routes log records into the operating system's syslog facility: the
//! process-wide ident registration, a reusable encoding buffer, and the mapping
//! from application severities to syslog priorities.
mod levels;

pub use levels::{
    default_priority, ConfigError, Level, LevelMap, Priority, LOG_ALERT, LOG_CRIT, LOG_DEBUG,
    LOG_EMERG, LOG_ERR, LOG_INFO, LOG_NOTICE, LOG_WARNING,
};
mod options;

pub use options::{
    Facility, Flag, LogOption, UnknownFlag, LOG_AUTH, LOG_AUTHPRIV, LOG_CONS, LOG_CRON, LOG_DAEMON, LOG_FTP,
    LOG_KERN, LOG_LOCAL0, LOG_LOCAL1, LOG_LOCAL2, LOG_LOCAL3, LOG_LOCAL4, LOG_LOCAL5, LOG_LOCAL6, LOG_LOCAL7, LOG_LPR, LOG_MAIL, LOG_NDELAY, LOG_NEWS, LOG_NOWAIT, LOG_ODELAY,
    LOG_PERROR, LOG_PID, LOG_SYSLOG, LOG_USER, LOG_UUCP,
};
mod buffer;

pub use buffer::{BufWriter, DEFAULT_BUF_SIZE};
mod ident;

pub use ident::{IdentChange, IdentHolder, OpenLogArgs, OsCall};
mod appender;

pub use appender::{SyslogAppender, SyslogAppenderBuilder};
