//! Facilities and option flags of the syslog connection, and the textual form in
//! which a configuration lists the flags.
use vstd::prelude::*;
use vstd::string::*;

verus! {

/// Option flag: log the process id with each message.
pub const LOG_PID: i32 = 0x01;

/// Option flag: write to the system console when the system logger cannot be reached.
pub const LOG_CONS: i32 = 0x02;

/// Option flag: delay opening the connection until the first message (the default).
pub const LOG_ODELAY: i32 = 0x04;

/// Option flag: open the connection at once.
pub const LOG_NDELAY: i32 = 0x08;

/// Option flag: do not wait for child processes created while logging.
pub const LOG_NOWAIT: i32 = 0x10;

/// Option flag: copy each message to standard error.
pub const LOG_PERROR: i32 = 0x20;

/// Facility code: kernel messages.
pub const LOG_KERN: i32 = 0;

/// Facility code: generic user-level messages.
pub const LOG_USER: i32 = 8;

/// Facility code: mail subsystem.
pub const LOG_MAIL: i32 = 16;

/// Facility code: system daemons.
pub const LOG_DAEMON: i32 = 24;

/// Facility code: security and authorization.
pub const LOG_AUTH: i32 = 32;

/// Facility code: messages of syslogd itself.
pub const LOG_SYSLOG: i32 = 40;

/// Facility code: line printer subsystem.
pub const LOG_LPR: i32 = 48;

/// Facility code: USENET news subsystem.
pub const LOG_NEWS: i32 = 56;

/// Facility code: UUCP subsystem.
pub const LOG_UUCP: i32 = 64;

/// Facility code: clock daemon.
pub const LOG_CRON: i32 = 72;

/// Facility code: private security and authorization.
pub const LOG_AUTHPRIV: i32 = 80;

/// Facility code: FTP daemon.
pub const LOG_FTP: i32 = 88;

/// Facility code: first of the eight facilities reserved for local use.
pub const LOG_LOCAL0: i32 = 128;

/// Facility code reserved for local use.
pub const LOG_LOCAL1: i32 = 136;

/// Facility code reserved for local use.
pub const LOG_LOCAL2: i32 = 144;

/// Facility code reserved for local use.
pub const LOG_LOCAL3: i32 = 152;

/// Facility code reserved for local use.
pub const LOG_LOCAL4: i32 = 160;

/// Facility code reserved for local use.
pub const LOG_LOCAL5: i32 = 168;

/// Facility code reserved for local use.
pub const LOG_LOCAL6: i32 = 176;

/// Facility code reserved for local use.
pub const LOG_LOCAL7: i32 = 184;

/// The type of program that logs.
#[derive(Clone, Copy, Debug, PartialEq, Eq, Structural)]
pub enum Facility {
    /// Security/authorization.
    Auth,
    /// Security/authorization (private).
    AuthPriv,
    /// Clock daemon (cron and at).
    Cron,
    /// System daemons without separate facility value.
    Daemon,
    /// FTP daemon.
    Ftp,
    /// Kernel messages (these can't be generated from user processes).
    Kern,
    /// Reserved for local use.
    Local0,
    /// Reserved for local use.
    Local1,
    /// Reserved for local use.
    Local2,
    /// Reserved for local use.
    Local3,
    /// Reserved for local use.
    Local4,
    /// Reserved for local use.
    Local5,
    /// Reserved for local use.
    Local6,
    /// Reserved for local use.
    Local7,
    /// Line printer subsystem.
    Lpr,
    /// Mail subsystem.
    Mail,
    /// USENET news subsystem.
    News,
    /// Messages generated internally by syslogd.
    Syslog,
    /// Generic user-level messages. This is the default when not calling openlog().
    User,
    /// UUCP subsystem.
    Uucp,
}

impl Facility {
    pub open spec fn spec_code(self) -> i32 {
        match self {
            Facility::Auth => LOG_AUTH,
            Facility::AuthPriv => LOG_AUTHPRIV,
            Facility::Cron => LOG_CRON,
            Facility::Daemon => LOG_DAEMON,
            Facility::Ftp => LOG_FTP,
            Facility::Kern => LOG_KERN,
            Facility::Local0 => LOG_LOCAL0,
            Facility::Local1 => LOG_LOCAL1,
            Facility::Local2 => LOG_LOCAL2,
            Facility::Local3 => LOG_LOCAL3,
            Facility::Local4 => LOG_LOCAL4,
            Facility::Local5 => LOG_LOCAL5,
            Facility::Local6 => LOG_LOCAL6,
            Facility::Local7 => LOG_LOCAL7,
            Facility::Lpr => LOG_LPR,
            Facility::Mail => LOG_MAIL,
            Facility::News => LOG_NEWS,
            Facility::Syslog => LOG_SYSLOG,
            Facility::User => LOG_USER,
            Facility::Uucp => LOG_UUCP,
        }
    }

    /// The integer that the OS open-log call takes for this facility.
    pub fn code(&self) -> (r: i32)
        ensures
            r == self.spec_code(),
    {
        match self {
            Facility::Auth => LOG_AUTH,
            Facility::AuthPriv => LOG_AUTHPRIV,
            Facility::Cron => LOG_CRON,
            Facility::Daemon => LOG_DAEMON,
            Facility::Ftp => LOG_FTP,
            Facility::Kern => LOG_KERN,
            Facility::Local0 => LOG_LOCAL0,
            Facility::Local1 => LOG_LOCAL1,
            Facility::Local2 => LOG_LOCAL2,
            Facility::Local3 => LOG_LOCAL3,
            Facility::Local4 => LOG_LOCAL4,
            Facility::Local5 => LOG_LOCAL5,
            Facility::Local6 => LOG_LOCAL6,
            Facility::Local7 => LOG_LOCAL7,
            Facility::Lpr => LOG_LPR,
            Facility::Mail => LOG_MAIL,
            Facility::News => LOG_NEWS,
            Facility::Syslog => LOG_SYSLOG,
            Facility::User => LOG_USER,
            Facility::Uucp => LOG_UUCP,
        }
    }
}

/// One option flag of the syslog connection.
#[derive(Clone, Copy, Debug, PartialEq, Eq, Structural)]
pub enum Flag {
    Cons,
    Ndelay,
    Nowait,
    Odelay,
    Perror,
    Pid,
}

impl Flag {
    pub open spec fn spec_bit(self) -> i32 {
        match self {
            Flag::Cons => LOG_CONS,
            Flag::Ndelay => LOG_NDELAY,
            Flag::Nowait => LOG_NOWAIT,
            Flag::Odelay => LOG_ODELAY,
            Flag::Perror => LOG_PERROR,
            Flag::Pid => LOG_PID,
        }
    }

    pub open spec fn spec_name(self) -> Seq<char> {
        match self {
            Flag::Cons => seq!['L', 'O', 'G', '_', 'C', 'O', 'N', 'S'],
            Flag::Ndelay => seq!['L', 'O', 'G', '_', 'N', 'D', 'E', 'L', 'A', 'Y'],
            Flag::Nowait => seq!['L', 'O', 'G', '_', 'N', 'O', 'W', 'A', 'I', 'T'],
            Flag::Odelay => seq!['L', 'O', 'G', '_', 'O', 'D', 'E', 'L', 'A', 'Y'],
            Flag::Perror => seq!['L', 'O', 'G', '_', 'P', 'E', 'R', 'R', 'O', 'R'],
            Flag::Pid => seq!['L', 'O', 'G', '_', 'P', 'I', 'D'],
        }
    }

    /// The bit of this flag in the option word.
    pub fn bit(&self) -> (r: i32)
        ensures
            r == self.spec_bit(),
    {
        match self {
            Flag::Cons => LOG_CONS,
            Flag::Ndelay => LOG_NDELAY,
            Flag::Nowait => LOG_NOWAIT,
            Flag::Odelay => LOG_ODELAY,
            Flag::Perror => LOG_PERROR,
            Flag::Pid => LOG_PID,
        }
    }
}

/// The flag that a name denotes, if any.
pub open spec fn flag_named(name: Seq<char>) -> Option<Flag> {
    if name == Flag::Cons.spec_name() {
        Some(Flag::Cons)
    } else if name == Flag::Ndelay.spec_name() {
        Some(Flag::Ndelay)
    } else if name == Flag::Nowait.spec_name() {
        Some(Flag::Nowait)
    } else if name == Flag::Odelay.spec_name() {
        Some(Flag::Odelay)
    } else if name == Flag::Perror.spec_name() {
        Some(Flag::Perror)
    } else if name == Flag::Pid.spec_name() {
        Some(Flag::Pid)
    } else {
        None
    }
}

/// A set of option flags, held as the option word that the OS call takes.
#[derive(Clone, Copy, Debug, PartialEq, Eq, Structural)]
pub struct LogOption {
    bits: i32,
}

impl LogOption {
    pub closed spec fn spec_bits(self) -> i32 {
        self.bits
    }

    /// The set with no flag.
    pub fn empty() -> (r: LogOption)
        ensures
            r.spec_bits() == 0,
    {
        LogOption { bits: 0 }
    }

    /// The set that holds one flag.
    pub fn from_flag(flag: Flag) -> (r: LogOption)
        ensures
            r.spec_bits() == flag.spec_bit(),
    {
        LogOption { bits: flag.bit() }
    }

    /// This set with one more flag.
    pub fn with(self, flag: Flag) -> (r: LogOption)
        ensures
            r.spec_bits() == self.spec_bits() | flag.spec_bit(),
    {
        LogOption { bits: self.bits | flag.bit() }
    }

    /// The union of two sets.
    pub fn union(self, other: LogOption) -> (r: LogOption)
        ensures
            r.spec_bits() == self.spec_bits() | other.spec_bits(),
    {
        LogOption { bits: self.bits | other.bits }
    }

    /// Whether the set holds a flag.
    pub fn contains(&self, flag: Flag) -> (r: bool)
        ensures
            r == (self.spec_bits() & flag.spec_bit() == flag.spec_bit()),
    {
        self.bits & flag.bit() == flag.bit()
    }

    /// The option word that the OS open-log call takes.
    pub fn bits(&self) -> (r: i32)
        ensures
            r == self.spec_bits(),
    {
        self.bits
    }
}

/// What `str::trim` makes of a text.
pub uninterp spec fn trimmed(s: Seq<char>) -> Seq<char>;

/// Relies on `str::trim`: the text without leading and trailing whitespace, which
/// depends on the characters of the text alone.
#[verifier::external_body]
fn trim<'a>(s: &'a str) -> (r: &'a str)
    ensures
        r@ == trimmed(s@),
{
    s.trim()
}

/// Whether two texts hold the same characters.
fn same_chars(a: &str, b: &str) -> (r: bool)
    ensures
        r == (a@ == b@),
{
    let n = a.unicode_len();
    if n != b.unicode_len() {
        return false;
    }
    let mut i: usize = 0;
    while i < n
        invariant
            n == a@.len(),
            n == b@.len(),
            i <= n,
            a@.subrange(0, i as int) == b@.subrange(0, i as int),
        decreases n - i,
    {
        if a.get_char(i) != b.get_char(i) {
            assert(a@[i as int] != b@[i as int]);
            return false;
        }
        assert(a@.subrange(0, i + 1) =~= a@.subrange(0, i as int).push(a@[i as int]));
        assert(b@.subrange(0, i + 1) =~= b@.subrange(0, i as int).push(b@[i as int]));
        i = i + 1;
    }
    assert(a@ =~= a@.subrange(0, n as int));
    assert(b@ =~= b@.subrange(0, n as int));
    true
}

impl Flag {
    /// The name under which a configuration lists this flag.
    pub fn name(&self) -> (r: &'static str)
        ensures
            r@ == self.spec_name(),
    {
        match self {
            Flag::Cons => {
                proof {
                    reveal_strlit("LOG_CONS");
                }
                "LOG_CONS"
            },
            Flag::Ndelay => {
                proof {
                    reveal_strlit("LOG_NDELAY");
                }
                "LOG_NDELAY"
            },
            Flag::Nowait => {
                proof {
                    reveal_strlit("LOG_NOWAIT");
                }
                "LOG_NOWAIT"
            },
            Flag::Odelay => {
                proof {
                    reveal_strlit("LOG_ODELAY");
                }
                "LOG_ODELAY"
            },
            Flag::Perror => {
                proof {
                    reveal_strlit("LOG_PERROR");
                }
                "LOG_PERROR"
            },
            Flag::Pid => {
                proof {
                    reveal_strlit("LOG_PID");
                }
                "LOG_PID"
            },
        }
    }

    /// The flag that an exact name denotes, if any.
    pub fn from_name(name: &str) -> (r: Option<Flag>)
        ensures
            r == flag_named(name@),
    {
        if same_chars(name, Flag::Cons.name()) {
            Some(Flag::Cons)
        } else if same_chars(name, Flag::Ndelay.name()) {
            Some(Flag::Ndelay)
        } else if same_chars(name, Flag::Nowait.name()) {
            Some(Flag::Nowait)
        } else if same_chars(name, Flag::Odelay.name()) {
            Some(Flag::Odelay)
        } else if same_chars(name, Flag::Perror.name()) {
            Some(Flag::Perror)
        } else if same_chars(name, Flag::Pid.name()) {
            Some(Flag::Pid)
        } else {
            None
        }
    }
}

/// The pieces of a text between its `|` separators, empty ones included.
pub open spec fn pieces(s: Seq<char>) -> Seq<Seq<char>>
    decreases s.len(),
{
    if s.len() == 0 {
        seq![Seq::empty()]
    } else {
        let rest = pieces(s.drop_last());
        if s.last() == '|' {
            rest.push(Seq::empty())
        } else {
            rest.update(rest.len() - 1, rest.last().push(s.last()))
        }
    }
}

/// The option word that a list of flag names makes, or the first name, trimmed,
/// that denotes no flag.
pub open spec fn spec_parse_pieces(ps: Seq<Seq<char>>) -> Result<i32, Seq<char>>
    decreases ps.len(),
{
    if ps.len() == 0 {
        Ok(0)
    } else {
        match spec_parse_pieces(ps.drop_last()) {
            Err(name) => Err(name),
            Ok(bits) => match flag_named(trimmed(ps.last())) {
                Some(flag) => Ok(bits | flag.spec_bit()),
                None => Err(trimmed(ps.last())),
            },
        }
    }
}

/// What the textual form of an option set means: flag names separated by `|`,
/// with whitespace around each; a blank text is the empty set.
pub open spec fn spec_parse(text: Seq<char>) -> Result<i32, Seq<char>> {
    let t = trimmed(text);
    if t.len() == 0 {
        Ok(0)
    } else {
        spec_parse_pieces(pieces(t))
    }
}

/// A flag name in an option list that denotes no flag.
#[derive(Clone, Debug, PartialEq, Eq)]
pub struct UnknownFlag {
    pub name: String,
}

/// Adds the flag that one piece of an option list names to an option word.
fn add_piece(bits: i32, piece: &str) -> (r: Result<i32, UnknownFlag>)
    ensures
        match flag_named(trimmed(piece@)) {
            Some(flag) => r == Ok::<i32, UnknownFlag>(bits | flag.spec_bit()),
            None => r is Err && r->Err_0.name@ == trimmed(piece@),
        },
{
    let name = trim(piece);
    match Flag::from_name(name) {
        Some(flag) => Ok(bits | flag.bit()),
        None => Err(UnknownFlag { name: name.to_owned() }),
    }
}

impl LogOption {
    /// Reads an option set in its textual form, as `"LOG_PID | LOG_CONS"`. Fails on
    /// the first name that denotes no flag, and names it.
    pub fn parse(text: &str) -> (r: Result<LogOption, UnknownFlag>)
        ensures
            match r {
                Ok(option) => spec_parse(text@) == Ok::<i32, Seq<char>>(option.spec_bits()),
                Err(unknown) => spec_parse(text@) == Err::<i32, Seq<char>>(unknown.name@),
            },
    {
        let t = trim(text);
        let n = t.unicode_len();
        if n == 0 {
            return Ok(LogOption::empty());
        }
        let mut bits: i32 = 0;
        let mut unknown: Option<UnknownFlag> = None;
        let mut start: usize = 0;
        let mut i: usize = 0;
        let ghost mut done: Seq<Seq<char>> = Seq::empty();
        assert(t@.subrange(0, 0) =~= Seq::<char>::empty());
        assert(pieces(Seq::<char>::empty()) =~= done.push(Seq::<char>::empty()));
        while i < n
            invariant
                n == t@.len(),
                start <= i <= n,
                pieces(t@.subrange(0, i as int)) == done.push(t@.subrange(start as int, i as int)),
                match unknown {
                    None => spec_parse_pieces(done) == Ok::<i32, Seq<char>>(bits),
                    Some(u) => spec_parse_pieces(done) == Err::<i32, Seq<char>>(u.name@),
                },
            decreases n - i,
        {
            let c = t.get_char(i);
            assert(t@.subrange(0, i + 1).drop_last() =~= t@.subrange(0, i as int));
            if c == '|' {
                if unknown.is_none() {
                    match add_piece(bits, t.substring_char(start, i)) {
                        Ok(b) => bits = b,
                        Err(u) => unknown = Some(u),
                    }
                }
                proof {
                    let next = done.push(t@.subrange(start as int, i as int));
                    assert(next.drop_last() =~= done);
                    done = next;
                }
                start = i + 1;
                assert(t@.subrange(start as int, i + 1) =~= Seq::<char>::empty());
            } else {
                assert(t@.subrange(start as int, i + 1) =~= t@.subrange(start as int, i as int).push(c));
            }
            i = i + 1;
        }
        proof {
            assert(t@.subrange(0, n as int) =~= t@);
            let all = done.push(t@.subrange(start as int, n as int));
            assert(all.drop_last() =~= done);
        }
        match unknown {
            Some(u) => Err(u),
            None => match add_piece(bits, t.substring_char(start, n)) {
                Ok(b) => Ok(LogOption { bits: b }),
                Err(u) => Err(u),
            },
        }
    }
}

} // verus!
