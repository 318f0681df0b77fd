//! The operator-facing operations on the driver's rules.
//!
//! Each operation is one round trip: the operation prepares a [`Request`],
//! the caller sends its message and waits for the reply, and
//! [`Admin::complete`] turns what came back into the operation's result.
use vstd::prelude::*;
use vstd::string::StringSliceAdditionalSpecFns;

use crate::channel::{exchange_result, state_after_exchange, ChannelError, Exchange, RuleChannel};
use crate::codec::{
    encoded_command, status_code, CommandView, DecodeError, DriverStatus, Reply, RuleCommand, RuleType,
    MAX_NAME_LEN,
};
use crate::connection::{connect_error_of, released_handle, ConnState, ConnectError};
use crate::version::CoreVersion;

verus! {

/// Major version of the protocol this library speaks.
pub const PROTOCOL_MAJOR: u32 = 1;

/// Why a rule operation was refused before anything was sent.
#[derive(Clone, Copy, Debug, PartialEq, Eq, Structural)]
pub enum RuleError {
    InvalidPath,
    InvalidVolume,
    VersionMismatch,
}

/// Why an operation failed.
#[derive(Clone, Copy, Debug, PartialEq, Eq, Structural)]
pub enum AdminError {
    Connect(ConnectError),
    Channel(ChannelError),
    Rule(RuleError),
    /// The driver refused the request with this status code.
    Rejected(u32),
}

/// What an operation achieved.
#[derive(Clone, Copy, Debug, PartialEq, Eq, Structural)]
pub enum Applied {
    /// The rule is active; it was already before the call when `already_existed`.
    Added { already_existed: bool },
    /// The rule is not active; it was before the call when `was_present`.
    Removed { was_present: bool },
    /// No rule of the volume is active.
    Cleaned,
    /// The driver's version.
    Version(CoreVersion),
}

/// Whether a rule is to be added or removed.
#[derive(Clone, Copy, Debug, PartialEq, Eq, Structural)]
pub enum RuleAction {
    Add,
    Remove,
}

// ----- validation -----

/// The byte that stands for `b` in a normalized path: separators become
/// backslashes and ASCII letters lower case.
pub open spec fn normalize_byte(b: u8) -> u8 {
    if b == 47 {
        92u8
    } else if 65 <= b <= 90 {
        (b + 32) as u8
    } else {
        b
    }
}

/// The normalized form of path `p`.
pub open spec fn normalized(p: Seq<u8>) -> Seq<u8> {
    p.map_values(|b: u8| normalize_byte(b))
}

/// The command for acting on the rule `(path, rule_type)`, where `path` is
/// given as its UTF-8 bytes.
pub open spec fn rule_command_spec(action: RuleAction, path: Seq<u8>, rule_type: RuleType) -> Result<CommandView, RuleError> {
    let n = normalized(path);
    if n.len() == 0 || n.len() > MAX_NAME_LEN {
        Err(RuleError::InvalidPath)
    } else {
        match action {
            RuleAction::Add => Ok(CommandView::Add { path: n, rule_type }),
            RuleAction::Remove => Ok(CommandView::Remove { path: n, rule_type }),
        }
    }
}

/// The command for clearing the rules of volume `volume`, given as its UTF-8 bytes.
pub open spec fn cleanup_command_spec(volume: Seq<u8>) -> Result<CommandView, RuleError> {
    if volume.len() == 0 || volume.len() > MAX_NAME_LEN {
        Err(RuleError::InvalidVolume)
    } else {
        Ok(CommandView::Cleanup { volume })
    }
}

fn normalize_byte_exec(b: u8) -> (r: u8)
    ensures
        r == normalize_byte(b),
{
    if b == 47 {
        92
    } else if 65 <= b && b <= 90 {
        b + 32
    } else {
        b
    }
}

/// Normalizes a path: separators become backslashes and ASCII letters lower case.
pub fn normalize_path(path: &[u8]) -> (r: Vec<u8>)
    ensures
        r@ == normalized(path@),
{
    let mut out: Vec<u8> = Vec::new();
    let mut i: usize = 0;
    while i < path.len()
        invariant
            i <= path@.len(),
            out@ == normalized(path@.subrange(0, i as int)),
        decreases path@.len() - i,
    {
        out.push(normalize_byte_exec(path[i]));
        i += 1;
        assert(out@ =~= normalized(path@.subrange(0, i as int)));
    }
    assert(path@.subrange(0, i as int) =~= path@);
    out
}

/// The command for adding or removing the rule `(path, rule_type)`; the path
/// is normalized, and refused when it is empty or too long.
pub fn rule_command(action: RuleAction, path: &str, rule_type: RuleType) -> (r: Result<RuleCommand, RuleError>)
    ensures
        match r {
            Ok(c) => rule_command_spec(action, path.spec_bytes(), rule_type) == Ok::<CommandView, RuleError>(c@),
            Err(e) => rule_command_spec(action, path.spec_bytes(), rule_type) == Err::<CommandView, RuleError>(e),
        },
{
    let n = normalize_path(path.as_bytes());
    if n.len() == 0 || n.len() > MAX_NAME_LEN {
        return Err(RuleError::InvalidPath);
    }
    match action {
        RuleAction::Add => Ok(RuleCommand::Add { path: n, rule_type }),
        RuleAction::Remove => Ok(RuleCommand::Remove { path: n, rule_type }),
    }
}

/// The command for clearing the rules of `volume`; an empty or too long
/// volume name is refused.
pub fn cleanup_command(volume: &str) -> (r: Result<RuleCommand, RuleError>)
    ensures
        match r {
            Ok(c) => cleanup_command_spec(volume.spec_bytes()) == Ok::<CommandView, RuleError>(c@),
            Err(e) => cleanup_command_spec(volume.spec_bytes()) == Err::<CommandView, RuleError>(e),
        },
{
    let b = volume.as_bytes();
    if b.len() == 0 || b.len() > MAX_NAME_LEN {
        return Err(RuleError::InvalidVolume);
    }
    let mut v: Vec<u8> = Vec::new();
    let mut i: usize = 0;
    while i < b.len()
        invariant
            i <= b@.len(),
            v@ == b@.subrange(0, i as int),
        decreases b@.len() - i,
    {
        v.push(b[i]);
        i += 1;
        assert(v@ =~= b@.subrange(0, i as int));
    }
    assert(b@.subrange(0, i as int) =~= b@);
    Ok(RuleCommand::Cleanup { volume: v })
}

/// Refuses a driver whose major version is not the protocol's.
pub fn check_version(version: &CoreVersion) -> (r: Result<(), RuleError>)
    ensures
        r == (if version.major == PROTOCOL_MAJOR {
            Ok::<(), RuleError>(())
        } else {
            Err(RuleError::VersionMismatch)
        }),
{
    if version.is_compatible(PROTOCOL_MAJOR) {
        Ok(())
    } else {
        Err(RuleError::VersionMismatch)
    }
}

/// ASCII lower case of byte `b`.
pub open spec fn ascii_lower(b: u8) -> u8 {
    if 65 <= b <= 90 {
        (b + 32) as u8
    } else {
        b
    }
}

/// The rule type named by `name` (UTF-8 bytes), in any ASCII letter case.
pub open spec fn rule_type_named(name: Seq<u8>) -> Option<RuleType> {
    let n = name.map_values(|b: u8| ascii_lower(b));
    if n == seq![100u8, 101, 110, 121] {
        Some(RuleType::Deny)
    } else if n == seq![97u8, 108, 108, 111, 119] {
        Some(RuleType::Allow)
    } else if n == seq![97u8, 117, 100, 105, 116] {
        Some(RuleType::Audit)
    } else {
        None
    }
}

fn lower_equals(name: &[u8], word: &[u8]) -> (r: bool)
    ensures
        r == (name@.map_values(|b: u8| ascii_lower(b)) == word@),
{
    if name.len() != word.len() {
        assert(name@.map_values(|b: u8| ascii_lower(b)).len() != word@.len());
        return false;
    }
    let mut i: usize = 0;
    while i < name.len()
        invariant
            i <= name@.len() == word@.len(),
            forall|k: int| 0 <= k < i ==> ascii_lower(#[trigger] name@[k]) == word@[k],
        decreases name@.len() - i,
    {
        let b = name[i];
        let lower = if 65 <= b && b <= 90 {
            b + 32
        } else {
            b
        };
        if lower != word[i] {
            assert(name@.map_values(|b: u8| ascii_lower(b))[i as int] != word@[i as int]);
            return false;
        }
        i += 1;
    }
    assert(name@.map_values(|b: u8| ascii_lower(b)) =~= word@);
    true
}

/// The rule type named by `name` (`deny`, `allow` or `audit`, in any ASCII letter case).
pub fn parse_rule_type(name: &str) -> (r: Option<RuleType>)
    ensures
        r == rule_type_named(name.spec_bytes()),
{
    let b = name.as_bytes();
    let deny: [u8; 4] = [100, 101, 110, 121];
    let allow: [u8; 5] = [97, 108, 108, 111, 119];
    let audit: [u8; 5] = [97, 117, 100, 105, 116];
    assert(deny@ =~= seq![100u8, 101, 110, 121]);
    assert(allow@ =~= seq![97u8, 108, 108, 111, 119]);
    assert(audit@ =~= seq![97u8, 117, 100, 105, 116]);
    if lower_equals(b, deny.as_slice()) {
        Some(RuleType::Deny)
    } else if lower_equals(b, allow.as_slice()) {
        Some(RuleType::Allow)
    } else if lower_equals(b, audit.as_slice()) {
        Some(RuleType::Audit)
    } else {
        None
    }
}

// ----- replies -----

/// What the driver's reply `r` to command `c` means to the operator. An
/// existing rule on add and a missing rule on remove are no errors: the
/// desired end state holds either way.
pub open spec fn outcome_of(c: CommandView, r: Reply) -> Result<Applied, AdminError> {
    match c {
        CommandView::GetVersion => match (r.status, r.version) {
            (DriverStatus::Success, Some(v)) => Ok(Applied::Version(v)),
            _ => Err(AdminError::Rejected(status_code(r.status))),
        },
        CommandView::Add { .. } => match r.status {
            DriverStatus::Success => Ok(Applied::Added { already_existed: false }),
            DriverStatus::AlreadyExists => Ok(Applied::Added { already_existed: true }),
            s => Err(AdminError::Rejected(status_code(s))),
        },
        CommandView::Remove { .. } => match r.status {
            DriverStatus::Success => Ok(Applied::Removed { was_present: true }),
            DriverStatus::NotFound => Ok(Applied::Removed { was_present: false }),
            s => Err(AdminError::Rejected(status_code(s))),
        },
        CommandView::Cleanup { .. } => match r.status {
            DriverStatus::Success => Ok(Applied::Cleaned),
            s => Err(AdminError::Rejected(status_code(s))),
        },
    }
}

/// What the driver's reply to `command` means to the operator.
pub fn interpret(command: &RuleCommand, reply: &Reply) -> (r: Result<Applied, AdminError>)
    ensures
        r == outcome_of(command@, *reply),
{
    let rejected = AdminError::Rejected(reply.status.code());
    match command {
        RuleCommand::GetVersion => match (reply.status, reply.version) {
            (DriverStatus::Success, Some(v)) => Ok(Applied::Version(v)),
            _ => Err(rejected),
        },
        RuleCommand::Add { .. } => match reply.status {
            DriverStatus::Success => Ok(Applied::Added { already_existed: false }),
            DriverStatus::AlreadyExists => Ok(Applied::Added { already_existed: true }),
            _ => Err(rejected),
        },
        RuleCommand::Remove { .. } => match reply.status {
            DriverStatus::Success => Ok(Applied::Removed { was_present: true }),
            DriverStatus::NotFound => Ok(Applied::Removed { was_present: false }),
            _ => Err(rejected),
        },
        RuleCommand::Cleanup { .. } => match reply.status {
            DriverStatus::Success => Ok(Applied::Cleaned),
            _ => Err(rejected),
        },
    }
}

/// What an exchange for command `c` over a connection in state `s` gives the operator.
pub open spec fn operation_result(s: ConnState, c: CommandView, outcome: Exchange) -> Result<Applied, AdminError> {
    match exchange_result(s, c, outcome) {
        Err(e) => Err(AdminError::Channel(e)),
        Ok(r) => outcome_of(c, r),
    }
}

// ----- exit codes -----

pub open spec fn decode_exit_code(e: DecodeError) -> i32 {
    match e {
        DecodeError::Truncated => 8,
        DecodeError::UnknownOpcode => 9,
        DecodeError::BadVersion => 10,
        DecodeError::UnknownRuleType => 11,
    }
}

/// The process exit code for the result of an operation: zero on success,
/// and a code of its own for each kind of error. Code 2 is left to usage
/// errors of the command line.
pub open spec fn exit_code_of(r: Result<Applied, AdminError>) -> i32 {
    match r {
        Ok(_) => 0,
        Err(AdminError::Connect(ConnectError::DriverUnavailable)) => 3,
        Err(AdminError::Connect(ConnectError::PermissionDenied)) => 4,
        Err(AdminError::Connect(ConnectError::AlreadyConnected)) => 5,
        Err(AdminError::Channel(ChannelError::Timeout)) => 6,
        Err(AdminError::Channel(ChannelError::Disconnected)) => 7,
        Err(AdminError::Channel(ChannelError::Codec(e))) => decode_exit_code(e),
        Err(AdminError::Channel(ChannelError::UnexpectedReply)) => 12,
        Err(AdminError::Rule(RuleError::InvalidPath)) => 13,
        Err(AdminError::Rule(RuleError::InvalidVolume)) => 14,
        Err(AdminError::Rule(RuleError::VersionMismatch)) => 15,
        Err(AdminError::Rejected(_)) => 16,
    }
}

/// The process exit code for the result of an operation.
pub fn exit_code(r: &Result<Applied, AdminError>) -> (code: i32)
    ensures
        code == exit_code_of(*r),
        (code == 0) == (r is Ok),
{
    match r {
        Ok(_) => 0,
        Err(AdminError::Connect(ConnectError::DriverUnavailable)) => 3,
        Err(AdminError::Connect(ConnectError::PermissionDenied)) => 4,
        Err(AdminError::Connect(ConnectError::AlreadyConnected)) => 5,
        Err(AdminError::Channel(ChannelError::Timeout)) => 6,
        Err(AdminError::Channel(ChannelError::Disconnected)) => 7,
        Err(AdminError::Channel(ChannelError::Codec(DecodeError::Truncated))) => 8,
        Err(AdminError::Channel(ChannelError::Codec(DecodeError::UnknownOpcode))) => 9,
        Err(AdminError::Channel(ChannelError::Codec(DecodeError::BadVersion))) => 10,
        Err(AdminError::Channel(ChannelError::Codec(DecodeError::UnknownRuleType))) => 11,
        Err(AdminError::Channel(ChannelError::UnexpectedReply)) => 12,
        Err(AdminError::Rule(RuleError::InvalidPath)) => 13,
        Err(AdminError::Rule(RuleError::InvalidVolume)) => 14,
        Err(AdminError::Rule(RuleError::VersionMismatch)) => 15,
        Err(AdminError::Rejected(_)) => 16,
    }
}

// ----- the administrator -----

/// A request ready to be sent: the command and the message that carries it.
pub struct Request {
    command: RuleCommand,
    message: Vec<u8>,
}

impl Request {
    pub closed spec fn command_view(&self) -> CommandView {
        self.command@
    }

    pub closed spec fn message_view(&self) -> Seq<u8> {
        self.message@
    }

    /// The command the request carries.
    pub fn command(&self) -> (r: &RuleCommand)
        ensures
            r@ == self.command_view(),
    {
        &self.command
    }

    /// The bytes to send to the driver.
    pub fn message(&self) -> (r: &Vec<u8>)
        ensures
            r@ == self.message_view(),
    {
        &self.message
    }
}

/// What preparing command `c` over a connection in state `s` gives:
/// the command, unless it was refused or the connection is not usable.
pub open spec fn prepared(s: ConnState, c: Result<CommandView, RuleError>) -> Result<CommandView, AdminError> {
    match c {
        Err(e) => Err(AdminError::Rule(e)),
        Ok(c) => if s is Open {
            Ok(c)
        } else {
            Err(AdminError::Channel(ChannelError::Disconnected))
        },
    }
}

/// `r` is a request for exactly the command `expected` holds, or the error it holds.
pub open spec fn request_matches(r: Result<Request, AdminError>, expected: Result<CommandView, AdminError>) -> bool {
    match r {
        Ok(q) => expected == Ok::<CommandView, AdminError>(q.command_view()) && q.message_view()
            == encoded_command(q.command_view()),
        Err(e) => expected == Err::<CommandView, AdminError>(e),
    }
}

/// The administrator: owns the channel to the driver, and with it the one
/// connection, which it hands back for closing on [`Admin::disconnect`].
pub struct Admin {
    channel: RuleChannel,
}

impl Admin {
    pub closed spec fn state(&self) -> ConnState {
        self.channel.state()
    }

    /// An administrator connected through the port that opening gave: its
    /// handle on success, the operating system's error code on failure.
    pub fn new(opened: Result<u64, u32>) -> (r: Result<Admin, ConnectError>)
        ensures
            match r {
                Ok(a) => opened is Ok && a.state() == ConnState::Open(opened->Ok_0),
                Err(e) => opened is Err && e == connect_error_of(opened->Err_0),
            },
    {
        let mut channel = RuleChannel::new();
        match channel.connect(opened) {
            Ok(()) => Ok(Admin { channel }),
            Err(e) => Err(e),
        }
    }

    /// The channel the administrator owns.
    pub fn channel(&self) -> (r: &RuleChannel)
        ensures
            r.state() == self.state(),
    {
        &self.channel
    }

    /// Whether requests may be sent now.
    pub fn is_connected(&self) -> (r: bool)
        ensures
            r == (self.state() is Open),
    {
        self.channel.connection().is_usable()
    }

    /// Whether the port may be opened again now.
    pub fn ready_to_connect(&self) -> (r: Result<(), ConnectError>)
        ensures
            r == (if !(self.state() is Closed) {
                Err(ConnectError::AlreadyConnected)
            } else {
                Ok::<(), ConnectError>(())
            }),
    {
        self.channel.ready_to_connect()
    }

    /// Records the outcome of opening the port again. After a lost connection
    /// the old handle is first given up with [`Admin::disconnect`]; until then
    /// this is refused as already connected.
    pub fn reconnect(&mut self, opened: Result<u64, u32>) -> (r: Result<(), ConnectError>)
        ensures
            r == crate::connection::connect_result(old(self).state(), opened),
            final(self).state() == crate::connection::state_after_connect(old(self).state(), opened),
    {
        self.channel.connect(opened)
    }

    /// Gives up the handle for closing; afterwards the administrator holds none.
    pub fn disconnect(&mut self) -> (r: Option<u64>)
        ensures
            r == released_handle(old(self).state()),
            final(self).state() == ConnState::Closed,
    {
        self.channel.disconnect()
    }

    fn prepare(&self, c: Result<RuleCommand, RuleError>) -> (r: Result<Request, AdminError>)
        requires
            c is Ok ==> crate::codec::command_fits(c->Ok_0@),
        ensures
            request_matches(
                r,
                prepared(
                    self.state(),
                    match c {
                        Ok(c) => Ok(c@),
                        Err(e) => Err(e),
                    },
                ),
            ),
    {
        match c {
            Err(e) => Err(AdminError::Rule(e)),
            Ok(command) => match self.channel.request(&command) {
                Ok(message) => Ok(Request { command, message }),
                Err(e) => Err(AdminError::Channel(e)),
            },
        }
    }

    /// Prepares adding the rule `(path, rule_type)`.
    pub fn add_rule(&self, path: &str, rule_type: RuleType) -> (r: Result<Request, AdminError>)
        ensures
            request_matches(r, prepared(self.state(), rule_command_spec(RuleAction::Add, path.spec_bytes(), rule_type))),
    {
        self.prepare(rule_command(RuleAction::Add, path, rule_type))
    }

    /// Prepares removing the rule `(path, rule_type)`.
    pub fn remove_rule(&self, path: &str, rule_type: RuleType) -> (r: Result<Request, AdminError>)
        ensures
            request_matches(r, prepared(self.state(), rule_command_spec(RuleAction::Remove, path.spec_bytes(), rule_type))),
    {
        self.prepare(rule_command(RuleAction::Remove, path, rule_type))
    }

    /// Prepares removing every rule of `volume`.
    pub fn cleanup_rules(&self, volume: &str) -> (r: Result<Request, AdminError>)
        ensures
            request_matches(r, prepared(self.state(), cleanup_command_spec(volume.spec_bytes()))),
    {
        self.prepare(cleanup_command(volume))
    }

    /// Prepares asking the driver for its version.
    pub fn query_version(&self) -> (r: Result<Request, AdminError>)
        ensures
            request_matches(r, prepared(self.state(), Ok(CommandView::GetVersion))),
    {
        self.prepare(Ok(RuleCommand::GetVersion))
    }

    /// Turns what came of sending `request` into the operation's result. A
    /// failed exchange leaves the connection lost until it is opened again.
    pub fn complete(&mut self, request: &Request, outcome: Exchange) -> (r: Result<Applied, AdminError>)
        ensures
            r == operation_result(old(self).state(), request.command_view(), outcome),
            final(self).state() == state_after_exchange(old(self).state(), outcome),
    {
        match self.channel.complete(&request.command, outcome) {
            Err(e) => Err(AdminError::Channel(e)),
            Ok(reply) => interpret(&request.command, &reply),
        }
    }
}

} // verus!
