//! The ident registry: the one identity string that the OS syslog connection
//! refers to, and the OS calls that opening and closing the connection take.
//!
//! The registry alone releases the identity: dropping an appender leaves the
//! connection as it is, and only building another appender replaces or clears
//! the identity, since several appenders may log under the same one.
use vstd::prelude::*;
use vstd::slice::slice_to_vec;
use vstd::utf8::encode_utf8;

use crate::options::{Facility, LogOption};

verus! {

/// What opening the syslog connection takes: an identity and how to connect.
pub struct OpenLogArgs {
    pub ident: String,
    pub log_option: LogOption,
    pub facility: Facility,
}

/// A call into the OS syslog connection that a change of identity requires.
#[derive(Clone, Copy, Debug, PartialEq, Eq, Structural)]
pub enum OsCall {
    /// Close the connection; the OS drops its pointer to the identity.
    CloseLog,
    /// Open the connection with the registry's current identity.
    OpenLog { option: i32, facility: i32 },
}

/// The OS calls to make, in order, after a change of identity, and the identity
/// string that the change retired. The retired string must outlive those calls.
pub struct IdentChange {
    pub calls: Vec<OsCall>,
    pub retired: Option<Vec<u8>>,
}

/// The identity as the OS reads it: the UTF-8 bytes and a null terminator.
pub open spec fn ident_bytes(ident: Seq<char>) -> Seq<u8> {
    encode_utf8(ident).push(0)
}

/// The bytes that an optional owned string holds.
pub open spec fn opt_bytes(s: Option<Vec<u8>>) -> Option<Seq<u8>> {
    match s {
        Some(v) => Some(v@),
        None => None,
    }
}

/// The registered identity after opening the connection for `ident`.
pub open spec fn spec_open_state(current: Option<Seq<u8>>, ident: Seq<char>) -> Option<Seq<u8>> {
    Some(ident_bytes(ident))
}

/// The calls that opening the connection takes: an earlier identity is closed
/// first.
pub open spec fn spec_open_calls(current: Option<Seq<u8>>, option: i32, facility: i32) -> Seq<OsCall> {
    if current is Some {
        seq![OsCall::CloseLog, OsCall::OpenLog { option, facility }]
    } else {
        seq![OsCall::OpenLog { option, facility }]
    }
}

/// The calls that closing the connection takes: none where nothing is registered.
pub open spec fn spec_close_calls(current: Option<Seq<u8>>) -> Seq<OsCall> {
    if current is Some {
        seq![OsCall::CloseLog]
    } else {
        seq![]
    }
}

/// Owner of the identity string registered with the OS. The OS keeps a pointer
/// to that string without copying it, so it lives here until the connection is
/// closed or opened anew.
pub struct IdentHolder {
    ident: Option<Vec<u8>>,
}

impl View for IdentHolder {
    type V = Option<Seq<u8>>;

    closed spec fn view(&self) -> Option<Seq<u8>> {
        opt_bytes(self.ident)
    }
}

impl IdentHolder {
    /// A registry with no identity registered.
    pub fn new() -> (r: IdentHolder)
        ensures
            r@ == None::<Seq<u8>>,
    {
        IdentHolder { ident: None }
    }

    /// Takes the registered identity out, recording the close call it needs.
    fn closelog(&mut self, calls: &mut Vec<OsCall>) -> (r: Option<Vec<u8>>)
        ensures
            final(self)@ == None::<Seq<u8>>,
            opt_bytes(r) == old(self)@,
            final(calls)@ == old(calls)@ + spec_close_calls(old(self)@),
    {
        let ghost before = calls@;
        let retired = self.ident.take();
        if retired.is_some() {
            calls.push(OsCall::CloseLog);
        }
        assert(calls@ =~= before + spec_close_calls(opt_bytes(retired)));
        retired
    }

    /// Registers `args.ident` as the new identity. The earlier identity, if any,
    /// is closed first and handed back, so that it is freed only after the calls.
    pub fn openlog(&mut self, args: OpenLogArgs) -> (r: IdentChange)
        ensures
            final(self)@ == spec_open_state(old(self)@, args.ident@),
            r.calls@ == spec_open_calls(old(self)@, args.log_option.spec_bits(), args.facility.spec_code()),
            opt_bytes(r.retired) == old(self)@,
    {
        let mut calls: Vec<OsCall> = Vec::new();
        let retired = self.closelog(&mut calls);
        let mut ident = slice_to_vec(args.ident.as_str().as_bytes());
        ident.push(0);
        calls.push(OsCall::OpenLog { option: args.log_option.bits(), facility: args.facility.code() });
        self.ident = Some(ident);
        assert(calls@ =~= spec_open_calls(opt_bytes(retired), args.log_option.spec_bits(), args.facility.spec_code()));
        IdentChange { calls, retired }
    }

    /// Closes the connection and forgets the identity; with nothing registered it
    /// does nothing.
    pub fn no_openlog(&mut self) -> (r: IdentChange)
        ensures
            final(self)@ == None::<Seq<u8>>,
            r.calls@ == spec_close_calls(old(self)@),
            opt_bytes(r.retired) == old(self)@,
    {
        let mut calls: Vec<OsCall> = Vec::new();
        let retired = self.closelog(&mut calls);
        assert(calls@ =~= spec_close_calls(old(self)@));
        IdentChange { calls, retired }
    }

    /// The registered identity, null-terminated, as the OS reads it.
    pub fn ident(&self) -> (r: Option<&[u8]>)
        ensures
            match r {
                Some(s) => self@ == Some(s@),
                None => self@ == None::<Seq<u8>>,
            },
    {
        match &self.ident {
            Some(v) => Some(v.as_slice()),
            None => None,
        }
    }
}

/// The registered identity after a run of opens, one after another.
pub open spec fn after_opens(start: Option<Seq<u8>>, idents: Seq<Seq<char>>) -> Option<Seq<u8>>
    decreases idents.len(),
{
    if idents.len() == 0 {
        start
    } else {
        spec_open_state(after_opens(start, idents.drop_last()), idents.last())
    }
}

/// Opens serialized in any order leave exactly the identity of the last one
/// registered, whole, whatever was registered before; the result is always one
/// of the identities asked for.
pub proof fn lemma_last_open_wins(start: Option<Seq<u8>>, idents: Seq<Seq<char>>)
    requires
        idents.len() > 0,
    ensures
        after_opens(start, idents) == Some(ident_bytes(idents.last())),
        exists|i: int| 0 <= i < idents.len() && after_opens(start, idents) == Some(ident_bytes(#[trigger] idents[i])),
{
    assert(after_opens(start, idents) == Some(ident_bytes(idents[idents.len() - 1])));
}

/// Closing with no identity registered makes no OS call.
pub proof fn lemma_close_unregistered_is_noop()
    ensures
        spec_close_calls(None).len() == 0,
{
}

/// Moving from one identity to another closes the connection of the first
/// before the second is opened.
pub proof fn lemma_reopen_closes_first(previous: Seq<char>, option: i32, facility: i32)
    ensures
        spec_open_calls(Some(ident_bytes(previous)), option, facility).len() == 2,
        spec_open_calls(Some(ident_bytes(previous)), option, facility)[0] == OsCall::CloseLog,
        spec_open_calls(Some(ident_bytes(previous)), option, facility)[1] == (OsCall::OpenLog { option, facility }),
{
}

} // verus!
