//! The behaviour the driver promises for rule requests, as a model of its
//! rule set, and what an operator observes through it.
use vstd::prelude::*;

use crate::admin::{normalized, operation_result, outcome_of, AdminError, Applied};
use crate::channel::Exchange;
use crate::codec::{
    encoded_reply, expected_reply, lemma_reply_round_trip, CommandView, DriverStatus, Reply, ReplyKind,
    RuleType,
};
use crate::connection::ConnState;

verus! {

/// A rule as the driver holds it: a normalized path and a rule type.
pub type RuleEntry = (Seq<u8>, RuleType);

/// Whether a rule on `path` is scoped to `volume`.
pub open spec fn in_volume(path: Seq<u8>, volume: Seq<u8>) -> bool {
    let v = normalized(volume);
    v.len() <= path.len() && path.subrange(0, v.len() as int) == v
}

/// The driver's rule set after command `c`, and the status it replies with.
pub open spec fn driver_step(rules: Set<RuleEntry>, c: CommandView) -> (Set<RuleEntry>, DriverStatus) {
    match c {
        CommandView::Add { path, rule_type } => if rules.contains((path, rule_type)) {
            (rules, DriverStatus::AlreadyExists)
        } else {
            (rules.insert((path, rule_type)), DriverStatus::Success)
        },
        CommandView::Remove { path, rule_type } => if rules.contains((path, rule_type)) {
            (rules.remove((path, rule_type)), DriverStatus::Success)
        } else {
            (rules, DriverStatus::NotFound)
        },
        CommandView::Cleanup { volume } => (rules.filter(|e: RuleEntry| !in_volume(e.0, volume)), DriverStatus::Success),
        CommandView::GetVersion => (rules, DriverStatus::Success),
    }
}

/// The reply the driver sends for a rule command that left it with status `s`.
pub open spec fn rule_reply(c: CommandView, s: DriverStatus) -> Reply {
    Reply { kind: expected_reply(c), status: s, version: None }
}

/// What the operator observes when the driver answers rule command `c`
/// with status `s`, the reply crossing the wire as `bytes`.
proof fn lemma_observed(h: u64, c: CommandView, s: DriverStatus, bytes: Vec<u8>)
    requires
        !(c is GetVersion),
        bytes@ == encoded_reply(rule_reply(c, s)),
        s is Success || s is AlreadyExists || s is NotFound,
    ensures
        operation_result(ConnState::Open(h), c, Exchange::Replied(bytes)) == outcome_of(c, rule_reply(c, s)),
{
    lemma_reply_round_trip(rule_reply(c, s));
}

/// Adding the same rule twice succeeds both times: the first call reports
/// whether the rule was there before, the second that it already existed,
/// and the rule is held once.
pub proof fn lemma_add_idempotent(h: u64, rules: Set<RuleEntry>, path: Seq<u8>, rule_type: RuleType, first: Vec<u8>, second: Vec<u8>)
    requires
        first@ == encoded_reply(rule_reply(CommandView::Add { path, rule_type }, driver_step(rules, CommandView::Add { path, rule_type }).1)),
        second@ == encoded_reply(
            rule_reply(
                CommandView::Add { path, rule_type },
                driver_step(driver_step(rules, CommandView::Add { path, rule_type }).0, CommandView::Add { path, rule_type }).1,
            ),
        ),
    ensures
        ({
            let c = CommandView::Add { path, rule_type };
            let after_first = driver_step(rules, c).0;
            let after_second = driver_step(after_first, c).0;
            &&& operation_result(ConnState::Open(h), c, Exchange::Replied(first)) == Ok::<Applied, AdminError>(
                Applied::Added { already_existed: rules.contains((path, rule_type)) },
            )
            &&& operation_result(ConnState::Open(h), c, Exchange::Replied(second)) == Ok::<Applied, AdminError>(
                Applied::Added { already_existed: true },
            )
            &&& after_first.contains((path, rule_type))
            &&& after_second == after_first
        }),
{
    let c = CommandView::Add { path, rule_type };
    let (after_first, s1) = driver_step(rules, c);
    lemma_observed(h, c, s1, first);
    lemma_observed(h, c, driver_step(after_first, c).1, second);
}

/// Removing the same rule twice succeeds both times: the first call reports
/// whether the rule was there, the second that it was not found, and the rule
/// is gone.
pub proof fn lemma_remove_idempotent(h: u64, rules: Set<RuleEntry>, path: Seq<u8>, rule_type: RuleType, first: Vec<u8>, second: Vec<u8>)
    requires
        first@ == encoded_reply(rule_reply(CommandView::Remove { path, rule_type }, driver_step(rules, CommandView::Remove { path, rule_type }).1)),
        second@ == encoded_reply(
            rule_reply(
                CommandView::Remove { path, rule_type },
                driver_step(driver_step(rules, CommandView::Remove { path, rule_type }).0, CommandView::Remove { path, rule_type }).1,
            ),
        ),
    ensures
        ({
            let c = CommandView::Remove { path, rule_type };
            let after_first = driver_step(rules, c).0;
            let after_second = driver_step(after_first, c).0;
            &&& operation_result(ConnState::Open(h), c, Exchange::Replied(first)) == Ok::<Applied, AdminError>(
                Applied::Removed { was_present: rules.contains((path, rule_type)) },
            )
            &&& operation_result(ConnState::Open(h), c, Exchange::Replied(second)) == Ok::<Applied, AdminError>(
                Applied::Removed { was_present: false },
            )
            &&& !after_first.contains((path, rule_type))
            &&& after_second == after_first
        }),
{
    let c = CommandView::Remove { path, rule_type };
    let (after_first, s1) = driver_step(rules, c);
    lemma_observed(h, c, s1, first);
    lemma_observed(h, c, driver_step(after_first, c).1, second);
}

/// A cleanup the driver carries out is reported as a success, after which no
/// rule scoped to the volume is present and every other rule still is.
pub proof fn lemma_cleanup_removes_volume(h: u64, rules: Set<RuleEntry>, volume: Seq<u8>, reply: Vec<u8>)
    requires
        reply@ == encoded_reply(rule_reply(CommandView::Cleanup { volume }, driver_step(rules, CommandView::Cleanup { volume }).1)),
    ensures
        ({
            let c = CommandView::Cleanup { volume };
            let after = driver_step(rules, c).0;
            &&& operation_result(ConnState::Open(h), c, Exchange::Replied(reply)) == Ok::<Applied, AdminError>(Applied::Cleaned)
            &&& forall|e: RuleEntry| #[trigger] after.contains(e) ==> !in_volume(e.0, volume)
            &&& forall|e: RuleEntry| #[trigger] rules.contains(e) && !in_volume(e.0, volume) ==> after.contains(e)
        }),
{
    let c = CommandView::Cleanup { volume };
    lemma_observed(h, c, DriverStatus::Success, reply);
}

/// A cleanup that did not complete is never reported as a success, whatever
/// the driver or the connection did: it removed no subset the caller may rely on.
pub proof fn lemma_failed_cleanup_not_success(s: ConnState, volume: Seq<u8>, outcome: Exchange)
    requires
        !(match outcome {
            Exchange::Replied(b) => crate::codec::parse_reply(b@) matches Ok(r) && r.kind == ReplyKind::Cleanup
                && r.status is Success,
            _ => false,
        }) || !(s is Open),
    ensures
        operation_result(s, CommandView::Cleanup { volume }, outcome) is Err,
{
}

} // verus!
