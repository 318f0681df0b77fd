use fileguard_admin::admin::{
    cleanup_command, exit_code, interpret, normalize_path, parse_rule_type, rule_command, AdminError,
    Applied, Request, RuleAction, RuleError,
};
use fileguard_admin::channel::{ChannelError, Exchange, RuleChannel};
use fileguard_admin::codec::{
    decode_command, encode_reply, DecodeError, DriverStatus, Reply, ReplyKind, RuleCommand, RuleType,
};
use fileguard_admin::connection::{ConnState, ConnectError, E_FILE_NOT_FOUND};
use fileguard_admin::{Admin, CoreVersion};

/// A driver that keeps its rules in memory and answers as the protocol says.
struct FakeDriver {
    rules: Vec<(Vec<u8>, RuleType)>,
}

impl FakeDriver {
    fn new() -> FakeDriver {
        FakeDriver { rules: Vec::new() }
    }

    fn answer(&mut self, message: &[u8]) -> Vec<u8> {
        let reply = match decode_command(message).unwrap() {
            RuleCommand::GetVersion => Reply {
                kind: ReplyKind::Version,
                status: DriverStatus::Success,
                version: Some(CoreVersion { major: 1, minor: 2, patch: 3, build: 4 }),
            },
            RuleCommand::Add { path, rule_type } => {
                let status = if self.rules.contains(&(path.clone(), rule_type)) {
                    DriverStatus::AlreadyExists
                } else {
                    self.rules.push((path, rule_type));
                    DriverStatus::Success
                };
                Reply { kind: ReplyKind::Add, status, version: None }
            }
            RuleCommand::Remove { path, rule_type } => {
                let before = self.rules.len();
                self.rules.retain(|r| *r != (path.clone(), rule_type));
                let status =
                    if self.rules.len() < before { DriverStatus::Success } else { DriverStatus::NotFound };
                Reply { kind: ReplyKind::Remove, status, version: None }
            }
            RuleCommand::Cleanup { volume } => {
                let v = normalize_path(&volume);
                self.rules.retain(|r| !r.0.starts_with(&v));
                Reply { kind: ReplyKind::Cleanup, status: DriverStatus::Success, version: None }
            }
        };
        encode_reply(&reply)
    }
}

fn run(
    admin: &mut Admin,
    driver: &mut FakeDriver,
    prepare: impl FnOnce(&Admin) -> Result<Request, AdminError>,
) -> Result<Applied, AdminError> {
    let request = prepare(admin)?;
    let bytes = driver.answer(request.message());
    admin.complete(&request, Exchange::Replied(bytes))
}

fn connected() -> Admin {
    Admin::new(Ok(5)).unwrap()
}

#[test]
fn operator_scenario_exit_codes() {
    let mut admin = connected();
    let mut driver = FakeDriver::new();
    let deny = parse_rule_type("Deny").unwrap();
    let r = run(&mut admin, &mut driver, |a| a.add_rule("C:\\data", deny));
    assert_eq!(exit_code(&r), 0);
    let r = run(&mut admin, &mut driver, |a| a.add_rule("C:\\data", deny));
    assert_eq!(exit_code(&r), 0);
    assert_eq!(driver.rules.len(), 1);
    let r = run(&mut admin, &mut driver, |a| a.remove_rule("C:\\data", deny));
    assert_eq!(exit_code(&r), 0);
    assert!(driver.rules.is_empty());
    let r = run(&mut admin, &mut driver, |a| a.cleanup_rules("C:"));
    assert_eq!(r, Ok(Applied::Cleaned));
    assert_eq!(exit_code(&r), 0);
}

#[test]
fn add_twice_is_idempotent() {
    let mut admin = connected();
    let mut driver = FakeDriver::new();
    let first = run(&mut admin, &mut driver, |a| a.add_rule("C:/Data", RuleType::Deny));
    assert_eq!(first, Ok(Applied::Added { already_existed: false }));
    let second = run(&mut admin, &mut driver, |a| a.add_rule("c:\\data", RuleType::Deny));
    assert_eq!(second, Ok(Applied::Added { already_existed: true }));
    assert_eq!(driver.rules, vec![(b"c:\\data".to_vec(), RuleType::Deny)]);
}

#[test]
fn remove_twice_is_idempotent() {
    let mut admin = connected();
    let mut driver = FakeDriver::new();
    run(&mut admin, &mut driver, |a| a.add_rule("C:\\data", RuleType::Audit)).unwrap();
    let first = run(&mut admin, &mut driver, |a| a.remove_rule("C:\\data", RuleType::Audit));
    assert_eq!(first, Ok(Applied::Removed { was_present: true }));
    let second = run(&mut admin, &mut driver, |a| a.remove_rule("C:\\data", RuleType::Audit));
    assert_eq!(second, Ok(Applied::Removed { was_present: false }));
}

#[test]
fn cleanup_removes_only_the_volume() {
    let mut admin = connected();
    let mut driver = FakeDriver::new();
    run(&mut admin, &mut driver, |a| a.add_rule("C:\\a", RuleType::Deny)).unwrap();
    run(&mut admin, &mut driver, |a| a.add_rule("C:\\b", RuleType::Allow)).unwrap();
    run(&mut admin, &mut driver, |a| a.add_rule("D:\\a", RuleType::Deny)).unwrap();
    let r = run(&mut admin, &mut driver, |a| a.cleanup_rules("C:"));
    assert_eq!(r, Ok(Applied::Cleaned));
    assert_eq!(driver.rules, vec![(b"d:\\a".to_vec(), RuleType::Deny)]);
}

#[test]
fn failed_cleanup_is_an_error() {
    let mut admin = connected();
    let req = admin.cleanup_rules("C:").unwrap();
    let reply = Reply { kind: ReplyKind::Cleanup, status: DriverStatus::Rejected(31), version: None };
    let r = admin.complete(&req, Exchange::Replied(encode_reply(&reply)));
    assert_eq!(r, Err(AdminError::Rejected(31)));
    assert_eq!(exit_code(&r), 16);
}

#[test]
fn query_version_through_driver() {
    let mut admin = connected();
    let mut driver = FakeDriver::new();
    let r = run(&mut admin, &mut driver, |a| a.query_version());
    assert_eq!(r, Ok(Applied::Version(CoreVersion { major: 1, minor: 2, patch: 3, build: 4 })));
}

#[test]
fn empty_path_and_volume_are_refused() {
    let admin = connected();
    assert_eq!(admin.add_rule("", RuleType::Deny).err(), Some(AdminError::Rule(RuleError::InvalidPath)));
    assert_eq!(admin.remove_rule("", RuleType::Deny).err(), Some(AdminError::Rule(RuleError::InvalidPath)));
    assert_eq!(admin.cleanup_rules("").err(), Some(AdminError::Rule(RuleError::InvalidVolume)));
    assert_eq!(exit_code(&Err(AdminError::Rule(RuleError::InvalidPath))), 13);
    assert_eq!(exit_code(&Err(AdminError::Rule(RuleError::InvalidVolume))), 14);
}

#[test]
fn too_long_path_is_refused() {
    let long = "a".repeat(65537);
    assert_eq!(rule_command(RuleAction::Add, &long, RuleType::Deny), Err(RuleError::InvalidPath));
    assert_eq!(cleanup_command(&long), Err(RuleError::InvalidVolume));
    let longest = "a".repeat(65536);
    assert!(rule_command(RuleAction::Add, &longest, RuleType::Deny).is_ok());
}

#[test]
fn paths_are_normalized() {
    assert_eq!(normalize_path(b"C:/Data\\Sub/X.TXT"), b"c:\\data\\sub\\x.txt".to_vec());
    assert_eq!(
        rule_command(RuleAction::Remove, "D:/Logs", RuleType::Allow),
        Ok(RuleCommand::Remove { path: b"d:\\logs".to_vec(), rule_type: RuleType::Allow })
    );
    assert_eq!(cleanup_command("E:"), Ok(RuleCommand::Cleanup { volume: b"E:".to_vec() }));
}

#[test]
fn rule_type_names() {
    assert_eq!(parse_rule_type("deny"), Some(RuleType::Deny));
    assert_eq!(parse_rule_type("ALLOW"), Some(RuleType::Allow));
    assert_eq!(parse_rule_type("Audit"), Some(RuleType::Audit));
    assert_eq!(parse_rule_type("block"), None);
    assert_eq!(parse_rule_type(""), None);
}

#[test]
fn timeout_keeps_connection() {
    let mut admin = connected();
    let req = admin.add_rule("C:\\x", RuleType::Deny).unwrap();
    let r = admin.complete(&req, Exchange::TimedOut);
    assert_eq!(r, Err(AdminError::Channel(ChannelError::Timeout)));
    assert_eq!(exit_code(&r), 6);
    assert!(admin.is_connected());
}

#[test]
fn io_failure_fails_fast_until_reconnect() {
    let mut admin = connected();
    let mut driver = FakeDriver::new();
    let req = admin.add_rule("C:\\x", RuleType::Deny).unwrap();
    let r = admin.complete(&req, Exchange::Failed);
    assert_eq!(r, Err(AdminError::Channel(ChannelError::Disconnected)));
    assert_eq!(exit_code(&r), 7);
    assert!(!admin.is_connected());
    assert_eq!(admin.add_rule("C:\\x", RuleType::Deny).err(), Some(AdminError::Channel(ChannelError::Disconnected)));
    let late = Reply { kind: ReplyKind::Add, status: DriverStatus::Success, version: None };
    assert_eq!(
        admin.complete(&req, Exchange::Replied(encode_reply(&late))),
        Err(AdminError::Channel(ChannelError::Disconnected))
    );
    assert_eq!(admin.ready_to_connect(), Err(ConnectError::AlreadyConnected));
    assert_eq!(admin.disconnect(), Some(5));
    assert_eq!(admin.ready_to_connect(), Ok(()));
    assert_eq!(admin.reconnect(Ok(6)), Ok(()));
    let r = run(&mut admin, &mut driver, |a| a.add_rule("C:\\x", RuleType::Deny));
    assert_eq!(r, Ok(Applied::Added { already_existed: false }));
}

#[test]
fn mismatched_and_malformed_replies() {
    let mut admin = connected();
    let req = admin.add_rule("C:\\x", RuleType::Deny).unwrap();
    let other = Reply { kind: ReplyKind::Remove, status: DriverStatus::Success, version: None };
    let r = admin.complete(&req, Exchange::Replied(encode_reply(&other)));
    assert_eq!(r, Err(AdminError::Channel(ChannelError::UnexpectedReply)));
    assert_eq!(exit_code(&r), 12);
    let r = admin.complete(&req, Exchange::Replied(vec![1, 2, 3]));
    assert_eq!(r, Err(AdminError::Channel(ChannelError::Codec(DecodeError::Truncated))));
    assert_eq!(exit_code(&r), 8);
    let r = admin.complete(&req, Exchange::Replied(vec![0x01, 0x01, 0, 0, 0, 0, 0, 0]));
    assert_eq!(r, Err(AdminError::Channel(ChannelError::Codec(DecodeError::BadVersion))));
    assert_eq!(exit_code(&r), 10);
}

#[test]
fn rejected_add_is_not_success() {
    let add = RuleCommand::Add { path: b"c:\\x".to_vec(), rule_type: RuleType::Deny };
    let reply = Reply { kind: ReplyKind::Add, status: DriverStatus::NotFound, version: None };
    assert_eq!(interpret(&add, &reply), Err(AdminError::Rejected(2)));
    let remove = RuleCommand::Remove { path: b"c:\\x".to_vec(), rule_type: RuleType::Deny };
    let reply = Reply { kind: ReplyKind::Remove, status: DriverStatus::AlreadyExists, version: None };
    assert_eq!(interpret(&remove, &reply), Err(AdminError::Rejected(1)));
}

#[test]
fn connect_failures() {
    assert_eq!(Admin::new(Err(E_FILE_NOT_FOUND)).err(), Some(ConnectError::DriverUnavailable));
    assert_eq!(exit_code(&Err(AdminError::Connect(ConnectError::DriverUnavailable))), 3);
    assert_eq!(exit_code(&Err(AdminError::Connect(ConnectError::PermissionDenied))), 4);
    assert_eq!(exit_code(&Err(AdminError::Rule(RuleError::VersionMismatch))), 15);
}

#[test]
fn channel_without_connection_fails_fast() {
    let mut ch = RuleChannel::new();
    assert_eq!(ch.request(&RuleCommand::GetVersion), Err(ChannelError::Disconnected));
    assert_eq!(ch.connect(Ok(3)), Ok(()));
    assert_eq!(ch.connection().current(), ConnState::Open(3));
    assert_eq!(ch.request(&RuleCommand::GetVersion), Ok(vec![1, 0, 0, 0, 0, 0, 0, 0]));
}
