use fileguard_admin::codec::{
    decode, decode_command, encode, encode_reply, DecodeError, DriverStatus, Reply, ReplyKind,
    RuleCommand, RuleType,
};
use fileguard_admin::CoreVersion;

fn round_trip(c: RuleCommand) {
    let bytes = encode(&c);
    assert_eq!(decode_command(&bytes), Ok(c));
}

#[test]
fn command_round_trips() {
    round_trip(RuleCommand::GetVersion);
    round_trip(RuleCommand::Add { path: b"c:\\data".to_vec(), rule_type: RuleType::Deny });
    round_trip(RuleCommand::Remove { path: b"c:\\x\\y".to_vec(), rule_type: RuleType::Audit });
    round_trip(RuleCommand::Add { path: Vec::new(), rule_type: RuleType::Allow });
    round_trip(RuleCommand::Cleanup { volume: b"C:".to_vec() });
}

#[test]
fn add_command_bytes() {
    let bytes = encode(&RuleCommand::Add { path: b"ab".to_vec(), rule_type: RuleType::Allow });
    assert_eq!(bytes, vec![2, 0, 0, 0, 6, 0, 0, 0, 2, 0, 0, 0, b'a', b'b']);
}

#[test]
fn get_version_bytes() {
    assert_eq!(encode(&RuleCommand::GetVersion), vec![1, 0, 0, 0, 0, 0, 0, 0]);
}

#[test]
fn short_input_is_truncated() {
    for n in 0..8 {
        let bytes = vec![1u8; n];
        assert_eq!(decode(&bytes), Err(DecodeError::Truncated));
        assert_eq!(decode_command(&bytes), Err(DecodeError::Truncated));
    }
}

#[test]
fn missing_payload_is_truncated() {
    let bytes = vec![2, 0, 0, 0, 6, 0, 0, 0, 2, 0, 0];
    assert_eq!(decode_command(&bytes), Err(DecodeError::Truncated));
    let reply = vec![0x02, 0x01, 0, 0, 4, 0, 0, 0, 0];
    assert_eq!(decode(&reply), Err(DecodeError::Truncated));
    let short_status = vec![0x02, 0x01, 0, 0, 2, 0, 0, 0, 0, 0];
    assert_eq!(decode(&short_status), Err(DecodeError::Truncated));
}

#[test]
fn unknown_opcode() {
    let bytes = vec![9, 0, 0, 0, 0, 0, 0, 0];
    assert_eq!(decode_command(&bytes), Err(DecodeError::UnknownOpcode));
    assert_eq!(decode(&bytes), Err(DecodeError::UnknownOpcode));
}

#[test]
fn unknown_rule_type() {
    let bytes = vec![2, 0, 0, 0, 5, 0, 0, 0, 7, 0, 0, 0, b'a'];
    assert_eq!(decode_command(&bytes), Err(DecodeError::UnknownRuleType));
}

#[test]
fn version_reply_of_wrong_size() {
    let bytes = vec![0x01, 0x01, 0, 0, 4, 0, 0, 0, 0, 0, 0, 0];
    assert_eq!(decode(&bytes), Err(DecodeError::BadVersion));
}

#[test]
fn version_reply_fields_in_order() {
    let mut bytes = vec![0x01, 0x01, 0, 0, 20, 0, 0, 0, 0, 0, 0, 0];
    for f in [1u32, 2, 3, 0x0102_0304] {
        bytes.extend_from_slice(&f.to_le_bytes());
    }
    let reply = decode(&bytes).unwrap();
    assert_eq!(reply.kind, ReplyKind::Version);
    assert_eq!(reply.status, DriverStatus::Success);
    assert_eq!(reply.version, Some(CoreVersion { major: 1, minor: 2, patch: 3, build: 0x0102_0304 }));
}

#[test]
fn reply_round_trips() {
    let replies = [
        Reply { kind: ReplyKind::Add, status: DriverStatus::AlreadyExists, version: None },
        Reply { kind: ReplyKind::Remove, status: DriverStatus::NotFound, version: None },
        Reply { kind: ReplyKind::Cleanup, status: DriverStatus::Rejected(77), version: None },
        Reply {
            kind: ReplyKind::Version,
            status: DriverStatus::Success,
            version: Some(CoreVersion { major: 4, minor: 3, patch: 2, build: 1 }),
        },
    ];
    for r in replies {
        assert_eq!(decode(&encode_reply(&r)), Ok(r));
    }
}

#[test]
fn trailing_bytes_are_ignored() {
    let mut bytes = encode(&RuleCommand::Cleanup { volume: b"D:".to_vec() });
    bytes.push(0xff);
    assert_eq!(decode_command(&bytes), Ok(RuleCommand::Cleanup { volume: b"D:".to_vec() }));
}
