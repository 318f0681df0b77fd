//! Fixed-layout messages exchanged with the core driver.
//!
//! Every message is a header of two little-endian `u32` fields, the opcode
//! and the payload length, followed by exactly that many payload bytes.
use vstd::prelude::*;

use crate::version::CoreVersion;

verus! {

pub const OP_GET_VERSION: u32 = 1;
pub const OP_ADD_RULE: u32 = 2;
pub const OP_REMOVE_RULE: u32 = 3;
pub const OP_CLEANUP_VOLUME: u32 = 4;
pub const OP_GET_VERSION_REPLY: u32 = 0x101;
pub const OP_ADD_RULE_REPLY: u32 = 0x102;
pub const OP_REMOVE_RULE_REPLY: u32 = 0x103;
pub const OP_CLEANUP_VOLUME_REPLY: u32 = 0x104;

pub const STATUS_SUCCESS: u32 = 0;
pub const STATUS_ALREADY_EXISTS: u32 = 1;
pub const STATUS_NOT_FOUND: u32 = 2;

/// Size of the message header in bytes.
pub const HEADER_LEN: usize = 8;

/// Payload size of a version reply: a status and four `u32` version fields.
pub const VERSION_REPLY_PAYLOAD_LEN: u32 = 20;

/// Longest path or volume name, in bytes, that a command may carry.
pub const MAX_NAME_LEN: usize = 65536;

/// Kind of restriction a rule applies.
#[derive(Clone, Copy, Debug, PartialEq, Eq, Structural)]
pub enum RuleType {
    Deny,
    Allow,
    Audit,
}

/// Why a byte sequence is not a message.
#[derive(Clone, Copy, Debug, PartialEq, Eq, Structural)]
pub enum DecodeError {
    /// Fewer bytes than the header and the fixed payload need.
    Truncated,
    /// The opcode is not one this protocol defines.
    UnknownOpcode,
    /// A version payload does not have the size of a version record.
    BadVersion,
    /// A rule payload names a rule type this protocol does not define.
    UnknownRuleType,
}

/// A request to the driver.
#[derive(Clone, Debug, PartialEq, Eq)]
pub enum RuleCommand {
    GetVersion,
    Add { path: Vec<u8>, rule_type: RuleType },
    Remove { path: Vec<u8>, rule_type: RuleType },
    Cleanup { volume: Vec<u8> },
}

/// Mathematical model of a [`RuleCommand`].
pub ghost enum CommandView {
    GetVersion,
    Add { path: Seq<u8>, rule_type: RuleType },
    Remove { path: Seq<u8>, rule_type: RuleType },
    Cleanup { volume: Seq<u8> },
}

impl View for RuleCommand {
    type V = CommandView;

    open spec fn view(&self) -> CommandView {
        match self {
            RuleCommand::GetVersion => CommandView::GetVersion,
            RuleCommand::Add { path, rule_type } => CommandView::Add { path: path@, rule_type: *rule_type },
            RuleCommand::Remove { path, rule_type } => CommandView::Remove { path: path@, rule_type: *rule_type },
            RuleCommand::Cleanup { volume } => CommandView::Cleanup { volume: volume@ },
        }
    }
}

/// Which request a reply answers.
#[derive(Clone, Copy, Debug, PartialEq, Eq, Structural)]
pub enum ReplyKind {
    Version,
    Add,
    Remove,
    Cleanup,
}

/// Status the driver reports for a request.
#[derive(Clone, Copy, Debug, PartialEq, Eq, Structural)]
pub enum DriverStatus {
    Success,
    AlreadyExists,
    NotFound,
    Rejected(u32),
}

/// A reply from the driver.
#[derive(Clone, Copy, Debug, PartialEq, Eq, Structural)]
pub struct Reply {
    pub kind: ReplyKind,
    pub status: DriverStatus,
    pub version: Option<CoreVersion>,
}

// ----- integers on the wire -----

/// The four little-endian bytes of `x`.
pub open spec fn le_bytes(x: u32) -> Seq<u8> {
    seq![(x & 0xff) as u8, ((x >> 8u32) & 0xff) as u8, ((x >> 16u32) & 0xff) as u8, (x >> 24u32) as u8]
}

/// The little-endian `u32` stored in `b` at offset `at`.
pub open spec fn le_value(b: Seq<u8>, at: int) -> u32 {
    (b[at] as u32) | ((b[at + 1] as u32) << 8u32) | ((b[at + 2] as u32) << 16u32) | ((b[at + 3] as u32) << 24u32)
}

proof fn lemma_le_join_split(x: u32)
    by (bit_vector)
    ensures
        ((x & 0xff) as u8 as u32) | ((((x >> 8u32) & 0xff) as u8 as u32) << 8u32)
            | ((((x >> 16u32) & 0xff) as u8 as u32) << 16u32) | (((x >> 24u32) as u8 as u32) << 24u32) == x,
{
}

/// Reading back the bytes of `x` gives `x`.
pub proof fn lemma_le_value(s: Seq<u8>, at: int, x: u32)
    requires
        0 <= at,
        at + 4 <= s.len(),
        s.subrange(at, at + 4) == le_bytes(x),
    ensures
        le_value(s, at) == x,
{
    assert(s[at] == s.subrange(at, at + 4)[0]);
    assert(s[at + 1] == s.subrange(at, at + 4)[1]);
    assert(s[at + 2] == s.subrange(at, at + 4)[2]);
    assert(s[at + 3] == s.subrange(at, at + 4)[3]);
    lemma_le_join_split(x);
}

fn push_u32(out: &mut Vec<u8>, x: u32)
    ensures
        final(out)@ == old(out)@ + le_bytes(x),
{
    out.push((x & 0xff) as u8);
    out.push(((x >> 8u32) & 0xff) as u8);
    out.push(((x >> 16u32) & 0xff) as u8);
    out.push((x >> 24u32) as u8);
    assert(out@ =~= old(out)@ + le_bytes(x));
}

fn push_bytes(out: &mut Vec<u8>, src: &[u8])
    ensures
        final(out)@ == old(out)@ + src@,
{
    let mut i: usize = 0;
    while i < src.len()
        invariant
            i <= src@.len(),
            out@ == old(out)@ + src@.subrange(0, i as int),
        decreases src@.len() - i,
    {
        out.push(src[i]);
        i += 1;
        assert(out@ =~= old(out)@ + src@.subrange(0, i as int));
    }
    assert(src@.subrange(0, i as int) =~= src@);
}

fn read_u32(b: &[u8], at: usize) -> (r: u32)
    requires
        at + 4 <= b@.len(),
    ensures
        r == le_value(b@, at as int),
{
    (b[at] as u32) | ((b[at + 1] as u32) << 8u32) | ((b[at + 2] as u32) << 16u32) | ((b[at + 3] as u32) << 24u32)
}

fn copy_range(b: &[u8], start: usize, end: usize) -> (r: Vec<u8>)
    requires
        start <= end <= b@.len(),
    ensures
        r@ == b@.subrange(start as int, end as int),
{
    let mut out: Vec<u8> = Vec::new();
    let mut i: usize = start;
    while i < end
        invariant
            start <= i <= end <= b@.len(),
            out@ == b@.subrange(start as int, i as int),
        decreases end - i,
    {
        out.push(b[i]);
        i += 1;
        assert(out@ =~= b@.subrange(start as int, i as int));
    }
    out
}

// ----- the wire format as a specification -----

pub open spec fn rule_type_code(t: RuleType) -> u32 {
    match t {
        RuleType::Deny => 1,
        RuleType::Allow => 2,
        RuleType::Audit => 3,
    }
}

pub open spec fn rule_type_of_code(code: u32) -> Option<RuleType> {
    if code == 1 {
        Some(RuleType::Deny)
    } else if code == 2 {
        Some(RuleType::Allow)
    } else if code == 3 {
        Some(RuleType::Audit)
    } else {
        None
    }
}

pub open spec fn status_code(s: DriverStatus) -> u32 {
    match s {
        DriverStatus::Success => STATUS_SUCCESS,
        DriverStatus::AlreadyExists => STATUS_ALREADY_EXISTS,
        DriverStatus::NotFound => STATUS_NOT_FOUND,
        DriverStatus::Rejected(code) => code,
    }
}

pub open spec fn status_of_code(code: u32) -> DriverStatus {
    if code == STATUS_SUCCESS {
        DriverStatus::Success
    } else if code == STATUS_ALREADY_EXISTS {
        DriverStatus::AlreadyExists
    } else if code == STATUS_NOT_FOUND {
        DriverStatus::NotFound
    } else {
        DriverStatus::Rejected(code)
    }
}

/// A status is well formed when it reads back as itself: a rejection never
/// carries one of the codes that have a variant of their own.
pub open spec fn status_well_formed(s: DriverStatus) -> bool {
    match s {
        DriverStatus::Rejected(code) => code != STATUS_SUCCESS && code != STATUS_ALREADY_EXISTS
            && code != STATUS_NOT_FOUND,
        _ => true,
    }
}

pub open spec fn command_opcode(c: CommandView) -> u32 {
    match c {
        CommandView::GetVersion => OP_GET_VERSION,
        CommandView::Add { .. } => OP_ADD_RULE,
        CommandView::Remove { .. } => OP_REMOVE_RULE,
        CommandView::Cleanup { .. } => OP_CLEANUP_VOLUME,
    }
}

pub open spec fn command_payload(c: CommandView) -> Seq<u8> {
    match c {
        CommandView::GetVersion => Seq::empty(),
        CommandView::Add { path, rule_type } => le_bytes(rule_type_code(rule_type)) + path,
        CommandView::Remove { path, rule_type } => le_bytes(rule_type_code(rule_type)) + path,
        CommandView::Cleanup { volume } => volume,
    }
}

/// A command fits on the wire when its names are at most `MAX_NAME_LEN` bytes long.
pub open spec fn command_fits(c: CommandView) -> bool {
    match c {
        CommandView::GetVersion => true,
        CommandView::Add { path, .. } => path.len() <= MAX_NAME_LEN,
        CommandView::Remove { path, .. } => path.len() <= MAX_NAME_LEN,
        CommandView::Cleanup { volume } => volume.len() <= MAX_NAME_LEN,
    }
}

/// A header with opcode `op` followed by `payload`.
pub open spec fn frame(op: u32, payload: Seq<u8>) -> Seq<u8> {
    le_bytes(op) + le_bytes(payload.len() as u32) + payload
}

/// The bytes that encode command `c`.
pub open spec fn encoded_command(c: CommandView) -> Seq<u8> {
    frame(command_opcode(c), command_payload(c))
}

/// The payload of the message in `b`, once its header and length are known to be complete.
pub open spec fn payload_of(b: Seq<u8>) -> Seq<u8> {
    b.subrange(HEADER_LEN as int, HEADER_LEN as int + le_value(b, 4) as int)
}

/// Whether `b` holds a complete header and the whole payload it announces.
pub open spec fn frame_complete(b: Seq<u8>) -> bool {
    b.len() >= HEADER_LEN && b.len() >= HEADER_LEN + le_value(b, 4)
}

/// What decoding the bytes `b` as a command gives.
pub open spec fn parse_command(b: Seq<u8>) -> Result<CommandView, DecodeError> {
    if !frame_complete(b) {
        Err(DecodeError::Truncated)
    } else {
        let op = le_value(b, 0);
        let p = payload_of(b);
        if op == OP_GET_VERSION {
            Ok(CommandView::GetVersion)
        } else if op == OP_CLEANUP_VOLUME {
            Ok(CommandView::Cleanup { volume: p })
        } else if op == OP_ADD_RULE || op == OP_REMOVE_RULE {
            if p.len() < 4 {
                Err(DecodeError::Truncated)
            } else {
                match rule_type_of_code(le_value(p, 0)) {
                    None => Err(DecodeError::UnknownRuleType),
                    Some(t) => if op == OP_ADD_RULE {
                        Ok(CommandView::Add { path: p.subrange(4, p.len() as int), rule_type: t })
                    } else {
                        Ok(CommandView::Remove { path: p.subrange(4, p.len() as int), rule_type: t })
                    },
                }
            }
        } else {
            Err(DecodeError::UnknownOpcode)
        }
    }
}

pub open spec fn reply_opcode(k: ReplyKind) -> u32 {
    match k {
        ReplyKind::Version => OP_GET_VERSION_REPLY,
        ReplyKind::Add => OP_ADD_RULE_REPLY,
        ReplyKind::Remove => OP_REMOVE_RULE_REPLY,
        ReplyKind::Cleanup => OP_CLEANUP_VOLUME_REPLY,
    }
}

pub open spec fn reply_kind_of(op: u32) -> Option<ReplyKind> {
    if op == OP_GET_VERSION_REPLY {
        Some(ReplyKind::Version)
    } else if op == OP_ADD_RULE_REPLY {
        Some(ReplyKind::Add)
    } else if op == OP_REMOVE_RULE_REPLY {
        Some(ReplyKind::Remove)
    } else if op == OP_CLEANUP_VOLUME_REPLY {
        Some(ReplyKind::Cleanup)
    } else {
        None
    }
}

/// The reply kind that answers command `c`.
pub open spec fn expected_reply(c: CommandView) -> ReplyKind {
    match c {
        CommandView::GetVersion => ReplyKind::Version,
        CommandView::Add { .. } => ReplyKind::Add,
        CommandView::Remove { .. } => ReplyKind::Remove,
        CommandView::Cleanup { .. } => ReplyKind::Cleanup,
    }
}

pub open spec fn version_bytes(v: CoreVersion) -> Seq<u8> {
    le_bytes(v.major) + le_bytes(v.minor) + le_bytes(v.patch) + le_bytes(v.build)
}

/// A reply can be encoded when exactly the version replies carry a version
/// and its status reads back as itself.
pub open spec fn reply_well_formed(r: Reply) -> bool {
    &&& (r.kind == ReplyKind::Version) == (r.version is Some)
    &&& status_well_formed(r.status)
}

pub open spec fn reply_payload(r: Reply) -> Seq<u8> {
    match r.version {
        Some(v) => le_bytes(status_code(r.status)) + version_bytes(v),
        None => le_bytes(status_code(r.status)),
    }
}

/// The bytes that encode reply `r`.
pub open spec fn encoded_reply(r: Reply) -> Seq<u8> {
    frame(reply_opcode(r.kind), reply_payload(r))
}

/// What decoding the bytes `b` as a reply gives.
pub open spec fn parse_reply(b: Seq<u8>) -> Result<Reply, DecodeError> {
    if !frame_complete(b) {
        Err(DecodeError::Truncated)
    } else {
        let p = payload_of(b);
        match reply_kind_of(le_value(b, 0)) {
            None => Err(DecodeError::UnknownOpcode),
            Some(ReplyKind::Version) => if p.len() != VERSION_REPLY_PAYLOAD_LEN {
                Err(DecodeError::BadVersion)
            } else {
                Ok(Reply {
                    kind: ReplyKind::Version,
                    status: status_of_code(le_value(p, 0)),
                    version: Some(CoreVersion {
                        major: le_value(p, 4),
                        minor: le_value(p, 8),
                        patch: le_value(p, 12),
                        build: le_value(p, 16),
                    }),
                })
            },
            Some(k) => if p.len() < 4 {
                Err(DecodeError::Truncated)
            } else {
                Ok(Reply { kind: k, status: status_of_code(le_value(p, 0)), version: None })
            },
        }
    }
}

// ----- laws of the wire format -----

/// Decoding the encoding of any command that fits on the wire gives that command back.
pub proof fn lemma_command_round_trip(c: CommandView)
    requires
        command_fits(c),
    ensures
        parse_command(encoded_command(c)) == Ok::<CommandView, DecodeError>(c),
{
    let e = encoded_command(c);
    let p = command_payload(c);
    let op = command_opcode(c);
    assert(e.subrange(0, 4) =~= le_bytes(op));
    assert(e.subrange(4, 8) =~= le_bytes(p.len() as u32));
    lemma_le_value(e, 0, op);
    lemma_le_value(e, 4, p.len() as u32);
    assert(payload_of(e) =~= p);
    match c {
        CommandView::Add { path, rule_type } => {
            assert(p.subrange(0, 4) =~= le_bytes(rule_type_code(rule_type)));
            lemma_le_value(p, 0, rule_type_code(rule_type));
            assert(p.subrange(4, p.len() as int) =~= path);
        },
        CommandView::Remove { path, rule_type } => {
            assert(p.subrange(0, 4) =~= le_bytes(rule_type_code(rule_type)));
            lemma_le_value(p, 0, rule_type_code(rule_type));
            assert(p.subrange(4, p.len() as int) =~= path);
        },
        _ => {},
    }
}

/// Decoding the encoding of any well-formed reply gives that reply back.
pub proof fn lemma_reply_round_trip(r: Reply)
    requires
        reply_well_formed(r),
    ensures
        parse_reply(encoded_reply(r)) == Ok::<Reply, DecodeError>(r),
{
    let e = encoded_reply(r);
    let p = reply_payload(r);
    let op = reply_opcode(r.kind);
    assert(e.subrange(0, 4) =~= le_bytes(op));
    assert(e.subrange(4, 8) =~= le_bytes(p.len() as u32));
    lemma_le_value(e, 0, op);
    lemma_le_value(e, 4, p.len() as u32);
    assert(payload_of(e) =~= p);
    assert(p.subrange(0, 4) =~= le_bytes(status_code(r.status)));
    lemma_le_value(p, 0, status_code(r.status));
    if let Some(v) = r.version {
        assert(p.subrange(4, 8) =~= le_bytes(v.major));
        assert(p.subrange(8, 12) =~= le_bytes(v.minor));
        assert(p.subrange(12, 16) =~= le_bytes(v.patch));
        assert(p.subrange(16, 20) =~= le_bytes(v.build));
        lemma_le_value(p, 4, v.major);
        lemma_le_value(p, 8, v.minor);
        lemma_le_value(p, 12, v.patch);
        lemma_le_value(p, 16, v.build);
    }
}

/// Any input shorter than a header is truncated, as a command and as a reply.
pub proof fn lemma_short_input_truncated(b: Seq<u8>)
    requires
        b.len() < HEADER_LEN,
    ensures
        parse_command(b) == Err::<CommandView, DecodeError>(DecodeError::Truncated),
        parse_reply(b) == Err::<Reply, DecodeError>(DecodeError::Truncated),
{
}

// ----- executable codec -----

impl RuleType {
    /// The code that stands for this rule type on the wire.
    pub fn code(&self) -> (r: u32)
        ensures
            r == rule_type_code(*self),
    {
        match self {
            RuleType::Deny => 1,
            RuleType::Allow => 2,
            RuleType::Audit => 3,
        }
    }

    /// The rule type a wire code stands for, if any.
    pub fn from_code(code: u32) -> (r: Option<RuleType>)
        ensures
            r == rule_type_of_code(code),
    {
        if code == 1 {
            Some(RuleType::Deny)
        } else if code == 2 {
            Some(RuleType::Allow)
        } else if code == 3 {
            Some(RuleType::Audit)
        } else {
            None
        }
    }
}

impl DriverStatus {
    /// The status code that stands for this status on the wire.
    pub fn code(&self) -> (r: u32)
        ensures
            r == status_code(*self),
    {
        match self {
            DriverStatus::Success => STATUS_SUCCESS,
            DriverStatus::AlreadyExists => STATUS_ALREADY_EXISTS,
            DriverStatus::NotFound => STATUS_NOT_FOUND,
            DriverStatus::Rejected(code) => *code,
        }
    }

    /// The status a wire code stands for.
    pub fn from_code(code: u32) -> (r: DriverStatus)
        ensures
            r == status_of_code(code),
    {
        if code == STATUS_SUCCESS {
            DriverStatus::Success
        } else if code == STATUS_ALREADY_EXISTS {
            DriverStatus::AlreadyExists
        } else if code == STATUS_NOT_FOUND {
            DriverStatus::NotFound
        } else {
            DriverStatus::Rejected(code)
        }
    }
}

impl ReplyKind {
    fn opcode(&self) -> (r: u32)
        ensures
            r == reply_opcode(*self),
    {
        match self {
            ReplyKind::Version => OP_GET_VERSION_REPLY,
            ReplyKind::Add => OP_ADD_RULE_REPLY,
            ReplyKind::Remove => OP_REMOVE_RULE_REPLY,
            ReplyKind::Cleanup => OP_CLEANUP_VOLUME_REPLY,
        }
    }

    fn from_opcode(op: u32) -> (r: Option<ReplyKind>)
        ensures
            r == reply_kind_of(op),
    {
        if op == OP_GET_VERSION_REPLY {
            Some(ReplyKind::Version)
        } else if op == OP_ADD_RULE_REPLY {
            Some(ReplyKind::Add)
        } else if op == OP_REMOVE_RULE_REPLY {
            Some(ReplyKind::Remove)
        } else if op == OP_CLEANUP_VOLUME_REPLY {
            Some(ReplyKind::Cleanup)
        } else {
            None
        }
    }
}

impl RuleCommand {
    /// The reply kind that answers this command.
    pub fn expected_reply(&self) -> (r: ReplyKind)
        ensures
            r == expected_reply(self@),
    {
        match self {
            RuleCommand::GetVersion => ReplyKind::Version,
            RuleCommand::Add { .. } => ReplyKind::Add,
            RuleCommand::Remove { .. } => ReplyKind::Remove,
            RuleCommand::Cleanup { .. } => ReplyKind::Cleanup,
        }
    }
}

fn encode_rule(op: u32, path: &Vec<u8>, rule_type: RuleType) -> (r: Vec<u8>)
    requires
        path@.len() <= MAX_NAME_LEN,
    ensures
        r@ == frame(op, le_bytes(rule_type_code(rule_type)) + path@),
{
    let mut out: Vec<u8> = Vec::new();
    push_u32(&mut out, op);
    push_u32(&mut out, (path.len() + 4) as u32);
    push_u32(&mut out, rule_type.code());
    push_bytes(&mut out, path.as_slice());
    assert(out@ =~= frame(op, le_bytes(rule_type_code(rule_type)) + path@));
    out
}

/// Encodes a command as one message.
pub fn encode(command: &RuleCommand) -> (r: Vec<u8>)
    requires
        command_fits(command@),
    ensures
        r@ == encoded_command(command@),
{
    match command {
        RuleCommand::GetVersion => {
            let mut out: Vec<u8> = Vec::new();
            push_u32(&mut out, OP_GET_VERSION);
            push_u32(&mut out, 0);
            assert(out@ =~= encoded_command(command@));
            out
        },
        RuleCommand::Add { path, rule_type } => encode_rule(OP_ADD_RULE, path, *rule_type),
        RuleCommand::Remove { path, rule_type } => encode_rule(OP_REMOVE_RULE, path, *rule_type),
        RuleCommand::Cleanup { volume } => {
            let mut out: Vec<u8> = Vec::new();
            push_u32(&mut out, OP_CLEANUP_VOLUME);
            push_u32(&mut out, volume.len() as u32);
            push_bytes(&mut out, volume.as_slice());
            assert(out@ =~= encoded_command(command@));
            out
        },
    }
}

/// Checks the header of `bytes` and returns the end of the payload it announces.
fn payload_end(bytes: &[u8]) -> (r: Result<usize, DecodeError>)
    ensures
        match r {
            Ok(end) => frame_complete(bytes@) && end == HEADER_LEN + le_value(bytes@, 4),
            Err(e) => !frame_complete(bytes@) && e == DecodeError::Truncated,
        },
{
    if bytes.len() < HEADER_LEN {
        return Err(DecodeError::Truncated);
    }
    let plen = read_u32(bytes, 4);
    if bytes.len() - HEADER_LEN < plen as usize {
        Err(DecodeError::Truncated)
    } else {
        Ok(HEADER_LEN + plen as usize)
    }
}

/// Decodes one message as a command.
pub fn decode_command(bytes: &[u8]) -> (r: Result<RuleCommand, DecodeError>)
    ensures
        match r {
            Ok(c) => parse_command(bytes@) == Ok::<CommandView, DecodeError>(c@),
            Err(e) => parse_command(bytes@) == Err::<CommandView, DecodeError>(e),
        },
{
    let end = match payload_end(bytes) {
        Ok(end) => end,
        Err(e) => return Err(e),
    };
    let op = read_u32(bytes, 0);
    let ghost p = payload_of(bytes@);
    assert(p.len() == end - HEADER_LEN);
    if op == OP_GET_VERSION {
        Ok(RuleCommand::GetVersion)
    } else if op == OP_CLEANUP_VOLUME {
        let volume = copy_range(bytes, HEADER_LEN, end);
        Ok(RuleCommand::Cleanup { volume })
    } else if op == OP_ADD_RULE || op == OP_REMOVE_RULE {
        if end - HEADER_LEN < 4 {
            return Err(DecodeError::Truncated);
        }
        let code = read_u32(bytes, HEADER_LEN);
        assert(p[0] == bytes@[8] && p[1] == bytes@[9] && p[2] == bytes@[10] && p[3] == bytes@[11]);
        assert(le_value(p, 0) == code);
        match RuleType::from_code(code) {
            None => Err(DecodeError::UnknownRuleType),
            Some(rule_type) => {
                let path = copy_range(bytes, HEADER_LEN + 4, end);
                assert(path@ =~= p.subrange(4, p.len() as int));
                if op == OP_ADD_RULE {
                    Ok(RuleCommand::Add { path, rule_type })
                } else {
                    Ok(RuleCommand::Remove { path, rule_type })
                }
            },
        }
    } else {
        Err(DecodeError::UnknownOpcode)
    }
}

/// Encodes a reply as one message.
pub fn encode_reply(reply: &Reply) -> (r: Vec<u8>)
    requires
        reply_well_formed(*reply),
    ensures
        r@ == encoded_reply(*reply),
{
    let mut out: Vec<u8> = Vec::new();
    push_u32(&mut out, reply.kind.opcode());
    match reply.version {
        Some(v) => {
            push_u32(&mut out, VERSION_REPLY_PAYLOAD_LEN);
            push_u32(&mut out, reply.status.code());
            push_u32(&mut out, v.major);
            push_u32(&mut out, v.minor);
            push_u32(&mut out, v.patch);
            push_u32(&mut out, v.build);
        },
        None => {
            push_u32(&mut out, 4);
            push_u32(&mut out, reply.status.code());
        },
    }
    assert(out@ =~= encoded_reply(*reply));
    out
}

/// Decodes one message as a reply.
pub fn decode(bytes: &[u8]) -> (r: Result<Reply, DecodeError>)
    ensures
        r == parse_reply(bytes@),
{
    let end = match payload_end(bytes) {
        Ok(end) => end,
        Err(e) => return Err(e),
    };
    let ghost p = payload_of(bytes@);
    assert(p.len() == end - HEADER_LEN);
    let plen = end - HEADER_LEN;
    match ReplyKind::from_opcode(read_u32(bytes, 0)) {
        None => Err(DecodeError::UnknownOpcode),
        Some(kind) => {
            if kind == ReplyKind::Version && plen != VERSION_REPLY_PAYLOAD_LEN as usize {
                return Err(DecodeError::BadVersion);
            }
            if plen < 4 {
                return Err(DecodeError::Truncated);
            }
            let code = read_u32(bytes, 8);
            assert(p[0] == bytes@[8] && p[1] == bytes@[9] && p[2] == bytes@[10] && p[3] == bytes@[11]);
            let status = DriverStatus::from_code(code);
            if kind == ReplyKind::Version {
                let major = read_u32(bytes, 12);
                let minor = read_u32(bytes, 16);
                let patch = read_u32(bytes, 20);
                let build = read_u32(bytes, 24);
                assert(p[4] == bytes@[12] && p[5] == bytes@[13] && p[6] == bytes@[14] && p[7] == bytes@[15]);
                assert(p[8] == bytes@[16] && p[9] == bytes@[17] && p[10] == bytes@[18] && p[11] == bytes@[19]);
                assert(p[12] == bytes@[20] && p[13] == bytes@[21] && p[14] == bytes@[22] && p[15] == bytes@[23]);
                assert(p[16] == bytes@[24] && p[17] == bytes@[25] && p[18] == bytes@[26] && p[19] == bytes@[27]);
                let version = CoreVersion { major, minor, patch, build };
                Ok(Reply { kind, status, version: Some(version) })
            } else {
                Ok(Reply { kind, status, version: None })
            }
        },
    }
}

} // verus!
