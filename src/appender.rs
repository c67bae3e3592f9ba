//! The appender and its builder: which encoder renders records, which priority
//! each level is logged under, and which identity the connection is opened with.
use vstd::prelude::*;

use crate::buffer::{spec_terminate, BufWriter};
use crate::ident::{
    opt_bytes, spec_close_calls, spec_open_calls, spec_open_state, IdentChange, IdentHolder,
    OpenLogArgs,
};
use crate::levels::{default_priority, spec_default_priority, Level, LevelMap, LOG_DEBUG, LOG_ERR, LOG_INFO, LOG_WARNING};
use crate::options::{Facility, LogOption};

verus! {

/// An appender that writes log records into syslog. The encoder `E` renders a
/// record into bytes; where none is set, the host's default pattern encoder is
/// meant.
pub struct SyslogAppender<E> {
    encoder: Option<E>,
    level_map: Option<LevelMap>,
}

/// Builder for `SyslogAppender`.
pub struct SyslogAppenderBuilder<E> {
    encoder: Option<E>,
    openlog_args: Option<OpenLogArgs>,
    level_map: Option<LevelMap>,
}

impl<E> SyslogAppender<E> {
    pub closed spec fn spec_encoder(&self) -> Option<E> {
        self.encoder
    }

    pub closed spec fn spec_level_map(&self) -> Option<LevelMap> {
        self.level_map
    }

    /// The priority under which a record of `level` is logged: the custom
    /// mapping's where one is set, else the default.
    pub open spec fn spec_priority(&self, level: Level) -> i32 {
        match self.spec_level_map() {
            Some(map) => map.spec_get(level),
            None => spec_default_priority(level),
        }
    }

    /// A builder with nothing set.
    pub fn builder() -> (r: SyslogAppenderBuilder<E>)
        ensures
            r.spec_encoder() is None,
            r.spec_openlog_args() is None,
            r.spec_level_map() is None,
    {
        SyslogAppenderBuilder { encoder: None, openlog_args: None, level_map: None }
    }

    /// The encoder that was set, if any.
    pub fn encoder(&self) -> (r: Option<&E>)
        ensures
            match r {
                Some(e) => self.spec_encoder() == Some(*e),
                None => self.spec_encoder() is None,
            },
    {
        match &self.encoder {
            Some(e) => Some(e),
            None => None,
        }
    }

    /// Whether a custom level mapping was set.
    pub fn has_level_map(&self) -> (r: bool)
        ensures
            r == self.spec_level_map() is Some,
    {
        self.level_map.is_some()
    }

    /// The priority under which a record of `level` is logged.
    pub fn priority(&self, level: Level) -> (r: i32)
        ensures
            r == self.spec_priority(level),
    {
        match &self.level_map {
            Some(map) => map.get(level),
            None => default_priority(level),
        }
    }

    /// Finishes a record that the encoder has rendered into `buf`: terminates the
    /// rendered bytes and returns the priority for the record's level together
    /// with the null-terminated message, to be handed to the OS syslog call as the
    /// argument of a `%s` conversion.
    pub fn append<'a>(&self, level: Level, buf: &'a mut BufWriter) -> (r: (i32, &'a [u8]))
        ensures
            r.0 == self.spec_priority(level),
            final(buf)@ == spec_terminate(old(buf)@),
            r.1@ == final(buf)@,
    {
        let priority = self.priority(level);
        let message = buf.as_c_str();
        (priority, message)
    }

    /// Nothing is buffered here: each record reaches the OS call at once.
    pub fn flush(&self) {
    }
}

impl<E> SyslogAppenderBuilder<E> {
    pub closed spec fn spec_encoder(&self) -> Option<E> {
        self.encoder
    }

    pub closed spec fn spec_openlog_args(&self) -> Option<OpenLogArgs> {
        self.openlog_args
    }

    pub closed spec fn spec_level_map(&self) -> Option<LevelMap> {
        self.level_map
    }

    /// Sets a custom encoder.
    pub fn encoder(self, encoder: E) -> (r: Self)
        ensures
            r.spec_encoder() == Some(encoder),
            r.spec_openlog_args() == self.spec_openlog_args(),
            r.spec_level_map() == self.spec_level_map(),
    {
        SyslogAppenderBuilder { encoder: Some(encoder), ..self }
    }

    /// Asks for the connection to be opened with this identity, options and
    /// facility when the appender is built.
    pub fn openlog(self, ident: &str, option: LogOption, facility: Facility) -> (r: Self)
        ensures
            r.spec_encoder() == self.spec_encoder(),
            r.spec_openlog_args() matches Some(args) && args.ident@ == ident@
                && args.log_option == option && args.facility == facility,
            r.spec_level_map() == self.spec_level_map(),
    {
        let args = OpenLogArgs { ident: ident.to_owned(), log_option: option, facility };
        SyslogAppenderBuilder { openlog_args: Some(args), ..self }
    }

    /// Sets a custom mapping from levels to priorities.
    pub fn level_map(self, level_map: LevelMap) -> (r: Self)
        ensures
            r.spec_encoder() == self.spec_encoder(),
            r.spec_openlog_args() == self.spec_openlog_args(),
            r.spec_level_map() == Some(level_map),
    {
        SyslogAppenderBuilder { level_map: Some(level_map), ..self }
    }

    /// Consumes the builder and produces the appender. The registry is opened
    /// with the identity that was set or, where none was, cleared; the returned
    /// change lists the OS calls to make for that, while the registry is still
    /// held.
    pub fn build(self, holder: &mut IdentHolder) -> (r: (SyslogAppender<E>, IdentChange))
        ensures
            r.0.spec_encoder() == self.spec_encoder(),
            r.0.spec_level_map() == self.spec_level_map(),
            match self.spec_openlog_args() {
                Some(args) => final(holder)@ == spec_open_state(old(holder)@, args.ident@)
                    && r.1.calls@ == spec_open_calls(old(holder)@, args.log_option.spec_bits(), args.facility.spec_code()),
                None => final(holder)@ == None::<Seq<u8>> && r.1.calls@ == spec_close_calls(old(holder)@),
            },
            opt_bytes(r.1.retired) == old(holder)@,
    {
        let change = match self.openlog_args {
            Some(args) => holder.openlog(args),
            None => holder.no_openlog(),
        };
        (SyslogAppender { encoder: self.encoder, level_map: self.level_map }, change)
    }
}

/// An appender built without a custom mapping logs each level under its default
/// priority: error as err, warn as warning, info as info, debug and trace as debug.
pub proof fn lemma_default_mapping<E>(appender: SyslogAppender<E>)
    requires
        appender.spec_level_map() is None,
    ensures
        appender.spec_priority(Level::Error) == LOG_ERR,
        appender.spec_priority(Level::Warn) == LOG_WARNING,
        appender.spec_priority(Level::Info) == LOG_INFO,
        appender.spec_priority(Level::Debug) == LOG_DEBUG,
        appender.spec_priority(Level::Trace) == LOG_DEBUG,
{
}

/// A custom mapping takes precedence over the default for every level.
pub proof fn lemma_custom_map_overrides<E>(appender: SyslogAppender<E>, map: LevelMap)
    requires
        appender.spec_level_map() == Some(map),
    ensures
        forall|level: Level| #[trigger] appender.spec_priority(level) == map.spec_get(level),
{
}

} // verus!
