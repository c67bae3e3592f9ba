use log4rs_syslog::{
    default_priority, BufWriter, ConfigError, Facility, Flag, IdentHolder, Level, LevelMap,
    LogOption, OpenLogArgs, OsCall, Priority, SyslogAppender, UnknownFlag, DEFAULT_BUF_SIZE,
};

const LEVELS: [Level; 5] = [Level::Error, Level::Warn, Level::Info, Level::Debug, Level::Trace];

fn full_table() -> Vec<(Level, Priority)> {
    vec![
        (Level::Error, Priority::Emergency),
        (Level::Warn, Priority::Alert),
        (Level::Info, Priority::Critical),
        (Level::Debug, Priority::Notice),
        (Level::Trace, Priority::Warning),
    ]
}

fn injective_map() -> LevelMap {
    LevelMap { error: 0, warn: 1, info: 2, debug: 5, trace: 4 }
}

#[test]
fn default_mapping_for_every_level() {
    assert_eq!(default_priority(Level::Error), libc::LOG_ERR);
    assert_eq!(default_priority(Level::Warn), libc::LOG_WARNING);
    assert_eq!(default_priority(Level::Info), libc::LOG_INFO);
    assert_eq!(default_priority(Level::Debug), libc::LOG_DEBUG);
    assert_eq!(default_priority(Level::Trace), libc::LOG_DEBUG);
}

#[test]
fn appender_without_map_uses_default() {
    let mut holder = IdentHolder::new();
    let (appender, _) = SyslogAppender::<()>::builder().build(&mut holder);
    assert!(!appender.has_level_map());
    for level in LEVELS {
        assert_eq!(appender.priority(level), default_priority(level));
    }
}

#[test]
fn custom_map_overrides_default() {
    let map = injective_map();
    let mut holder = IdentHolder::new();
    let (appender, _) = SyslogAppender::<()>::builder().level_map(map).build(&mut holder);
    assert!(appender.has_level_map());
    let mut buf = BufWriter::new();
    for level in LEVELS {
        buf.acquire();
        let _ = buf.write(b"x");
        let (priority, message) = appender.append(level, &mut buf);
        assert_eq!(priority, map.get(level));
        assert_eq!(message, b"x\0");
    }
    assert_eq!(appender.priority(Level::Error), 0);
    assert_eq!(appender.priority(Level::Warn), 1);
    assert_eq!(appender.priority(Level::Info), 2);
    assert_eq!(appender.priority(Level::Debug), 5);
    assert_eq!(appender.priority(Level::Trace), 4);
}

#[test]
fn complete_table_builds_map() {
    let map = LevelMap::from_table(&full_table()).unwrap();
    assert_eq!(map, LevelMap { error: 0, warn: 1, info: 2, debug: 5, trace: 4 });
}

#[test]
fn later_table_entry_wins() {
    let mut table = full_table();
    table.push((Level::Info, Priority::Debug));
    let map = LevelMap::from_table(&table).unwrap();
    assert_eq!(map.info, libc::LOG_DEBUG);
    assert_eq!(map.error, libc::LOG_EMERG);
}

#[test]
fn table_missing_any_level_is_refused() {
    for missing in LEVELS {
        let table: Vec<(Level, Priority)> =
            full_table().into_iter().filter(|(level, _)| *level != missing).collect();
        assert_eq!(LevelMap::from_table(&table), Err(ConfigError::MissingLevel(missing)));
    }
}

#[test]
fn empty_table_names_error_first() {
    assert_eq!(LevelMap::from_table(&Vec::new()), Err(ConfigError::MissingLevel(Level::Error)));
}

#[test]
fn priority_codes_match_libc() {
    assert_eq!(Priority::Emergency.code(), libc::LOG_EMERG);
    assert_eq!(Priority::Alert.code(), libc::LOG_ALERT);
    assert_eq!(Priority::Critical.code(), libc::LOG_CRIT);
    assert_eq!(Priority::Error.code(), libc::LOG_ERR);
    assert_eq!(Priority::Warning.code(), libc::LOG_WARNING);
    assert_eq!(Priority::Notice.code(), libc::LOG_NOTICE);
    assert_eq!(Priority::Info.code(), libc::LOG_INFO);
    assert_eq!(Priority::Debug.code(), libc::LOG_DEBUG);
}

#[test]
fn facility_codes_match_libc() {
    let pairs = [
        (Facility::Auth, libc::LOG_AUTH),
        (Facility::AuthPriv, libc::LOG_AUTHPRIV),
        (Facility::Cron, libc::LOG_CRON),
        (Facility::Daemon, libc::LOG_DAEMON),
        (Facility::Ftp, libc::LOG_FTP),
        (Facility::Kern, libc::LOG_KERN),
        (Facility::Local0, libc::LOG_LOCAL0),
        (Facility::Local1, libc::LOG_LOCAL1),
        (Facility::Local2, libc::LOG_LOCAL2),
        (Facility::Local3, libc::LOG_LOCAL3),
        (Facility::Local4, libc::LOG_LOCAL4),
        (Facility::Local5, libc::LOG_LOCAL5),
        (Facility::Local6, libc::LOG_LOCAL6),
        (Facility::Local7, libc::LOG_LOCAL7),
        (Facility::Lpr, libc::LOG_LPR),
        (Facility::Mail, libc::LOG_MAIL),
        (Facility::News, libc::LOG_NEWS),
        (Facility::Syslog, libc::LOG_SYSLOG),
        (Facility::User, libc::LOG_USER),
        (Facility::Uucp, libc::LOG_UUCP),
    ];
    for (facility, code) in pairs {
        assert_eq!(facility.code(), code);
    }
}

#[test]
fn flag_bits_match_libc() {
    assert_eq!(Flag::Cons.bit(), libc::LOG_CONS);
    assert_eq!(Flag::Ndelay.bit(), libc::LOG_NDELAY);
    assert_eq!(Flag::Nowait.bit(), libc::LOG_NOWAIT);
    assert_eq!(Flag::Odelay.bit(), libc::LOG_ODELAY);
    assert_eq!(Flag::Perror.bit(), libc::LOG_PERROR);
    assert_eq!(Flag::Pid.bit(), libc::LOG_PID);
}

#[test]
fn option_set_operations() {
    let option = LogOption::empty().with(Flag::Pid).union(LogOption::from_flag(Flag::Cons));
    assert_eq!(option.bits(), libc::LOG_PID | libc::LOG_CONS);
    assert!(option.contains(Flag::Pid));
    assert!(option.contains(Flag::Cons));
    assert!(!option.contains(Flag::Perror));
}

#[test]
fn flag_names_round_trip() {
    for flag in [Flag::Cons, Flag::Ndelay, Flag::Nowait, Flag::Odelay, Flag::Perror, Flag::Pid] {
        assert_eq!(Flag::from_name(flag.name()), Some(flag));
    }
    assert_eq!(Flag::from_name("LOG_PI"), None);
    assert_eq!(Flag::from_name(" LOG_PID"), None);
}

#[test]
fn parse_flag_list() {
    let option = LogOption::parse("LOG_PID|LOG_CONS").unwrap();
    assert_eq!(option.bits(), libc::LOG_PID | libc::LOG_CONS);
}

#[test]
fn parse_trims_whitespace() {
    let option = LogOption::parse("  LOG_NDELAY |\tLOG_PERROR  ").unwrap();
    assert_eq!(option.bits(), libc::LOG_NDELAY | libc::LOG_PERROR);
}

#[test]
fn parse_blank_is_empty() {
    assert_eq!(LogOption::parse("").unwrap().bits(), 0);
    assert_eq!(LogOption::parse("   ").unwrap().bits(), 0);
}

#[test]
fn parse_unknown_flag_is_named() {
    let err = LogOption::parse("LOG_PID | LOG_BOGUS | LOG_OTHER").unwrap_err();
    assert_eq!(err, UnknownFlag { name: String::from("LOG_BOGUS") });
}

#[test]
fn parse_empty_piece_is_unknown() {
    let err = LogOption::parse("LOG_PID||LOG_CONS").unwrap_err();
    assert_eq!(err.name, "");
}

#[test]
fn new_buffer_is_empty() {
    let buf = BufWriter::new();
    assert!(buf.as_bytes().is_empty());
    assert_eq!(DEFAULT_BUF_SIZE, 4096);
}

#[test]
fn buffer_reuse_leaks_nothing() {
    let mut buf = BufWriter::new();
    let payloads: [&[u8]; 4] = [b"a much longer first payload", b"short", b"", b"mid-size"];
    for payload in payloads {
        buf.acquire();
        assert_eq!(buf.write(payload), payload.len());
        buf.flush();
        let view = buf.as_c_str();
        assert_eq!(view.last(), Some(&0u8));
        assert_eq!(&view[..view.len() - 1], payload);
    }
}

#[test]
fn buffer_grows_past_reserved_size() {
    let mut buf = BufWriter::new();
    let big = vec![b'x'; DEFAULT_BUF_SIZE];
    buf.acquire();
    let _ = buf.write(&big);
    let view = buf.as_c_str();
    assert_eq!(view.len(), DEFAULT_BUF_SIZE + 1);
    assert_eq!(view[DEFAULT_BUF_SIZE], 0);
}

#[test]
fn buffer_writes_append() {
    let mut buf = BufWriter::new();
    let _ = buf.write(b"INFO");
    let _ = buf.write(b" - ");
    let _ = buf.write(b"ready");
    assert_eq!(buf.as_bytes(), b"INFO - ready");
}

#[test]
fn open_registers_terminated_ident() {
    let mut holder = IdentHolder::new();
    assert!(holder.ident().is_none());
    let args = OpenLogArgs {
        ident: String::from("svc1"),
        log_option: LogOption::from_flag(Flag::Pid),
        facility: Facility::Daemon,
    };
    let change = holder.openlog(args);
    assert_eq!(change.calls, vec![OsCall::OpenLog { option: libc::LOG_PID, facility: libc::LOG_DAEMON }]);
    assert!(change.retired.is_none());
    assert_eq!(holder.ident(), Some(&b"svc1\0"[..]));
}

#[test]
fn open_utf8_ident() {
    let mut holder = IdentHolder::new();
    let args = OpenLogArgs {
        ident: String::from("dæmon"),
        log_option: LogOption::empty(),
        facility: Facility::User,
    };
    let _ = holder.openlog(args);
    assert_eq!(holder.ident(), Some("dæmon\0".as_bytes()));
}

#[test]
fn close_unregistered_is_noop() {
    let mut holder = IdentHolder::new();
    let change = holder.no_openlog();
    assert!(change.calls.is_empty());
    assert!(change.retired.is_none());
    assert!(holder.ident().is_none());
    let change = holder.no_openlog();
    assert!(change.calls.is_empty());
}

#[test]
fn close_registered_closes_and_retires() {
    let mut holder = IdentHolder::new();
    let args = OpenLogArgs {
        ident: String::from("svc"),
        log_option: LogOption::empty(),
        facility: Facility::User,
    };
    let _ = holder.openlog(args);
    let change = holder.no_openlog();
    assert_eq!(change.calls, vec![OsCall::CloseLog]);
    assert_eq!(change.retired, Some(b"svc\0".to_vec()));
    assert!(holder.ident().is_none());
}

#[test]
fn last_of_many_opens_is_registered() {
    let mut holder = IdentHolder::new();
    for name in ["a", "bb", "ccc", "dd"] {
        let args = OpenLogArgs {
            ident: String::from(name),
            log_option: LogOption::empty(),
            facility: Facility::User,
        };
        let _ = holder.openlog(args);
    }
    assert_eq!(holder.ident(), Some(&b"dd\0"[..]));
}

#[test]
fn end_to_end_info_record() {
    let mut holder = IdentHolder::new();
    let (appender, change) = SyslogAppender::<()>::builder()
        .openlog("svc1", LogOption::empty(), Facility::User)
        .build(&mut holder);
    assert!(appender.encoder().is_none());
    assert_eq!(change.calls, vec![OsCall::OpenLog { option: 0, facility: libc::LOG_USER }]);
    assert_eq!(holder.ident(), Some(&b"svc1\0"[..]));
    let mut buf = BufWriter::new();
    buf.acquire();
    let _ = buf.write(b"2026-10-18T11:37:00+00:00 INFO main - ready");
    let (priority, message) = appender.append(Level::Info, &mut buf);
    assert_eq!(priority, libc::LOG_INFO);
    assert!(message.ends_with(b" - ready\0"));
    assert_eq!(message.iter().filter(|b| **b == 0).count(), 1);
}

#[test]
fn reconfigure_closes_before_reopen() {
    let mut holder = IdentHolder::new();
    let (_, first) = SyslogAppender::<()>::builder()
        .openlog("svc1", LogOption::empty(), Facility::User)
        .build(&mut holder);
    assert!(first.retired.is_none());
    let (_, second) = SyslogAppender::<()>::builder()
        .openlog("svc2", LogOption::from_flag(Flag::Ndelay), Facility::Local3)
        .build(&mut holder);
    assert_eq!(
        second.calls,
        vec![
            OsCall::CloseLog,
            OsCall::OpenLog { option: libc::LOG_NDELAY, facility: libc::LOG_LOCAL3 },
        ]
    );
    assert_eq!(second.retired, Some(b"svc1\0".to_vec()));
    assert_eq!(holder.ident(), Some(&b"svc2\0"[..]));
}

#[test]
fn build_without_ident_clears_registry() {
    let mut holder = IdentHolder::new();
    let (_, _) = SyslogAppender::<()>::builder()
        .openlog("svc1", LogOption::empty(), Facility::User)
        .build(&mut holder);
    let (_, change) = SyslogAppender::<()>::builder().build(&mut holder);
    assert_eq!(change.calls, vec![OsCall::CloseLog]);
    assert_eq!(change.retired, Some(b"svc1\0".to_vec()));
    assert!(holder.ident().is_none());
}

#[test]
fn builder_keeps_encoder() {
    let mut holder = IdentHolder::new();
    let (appender, _) = SyslogAppender::builder().encoder(String::from("pattern")).build(&mut holder);
    assert_eq!(appender.encoder(), Some(&String::from("pattern")));
    appender.flush();
}
