use circulum::address::{check_record_address, find_record_address, PLAN_SEED, SUBSCRIPTION_SEED};
use circulum::error::ErrorCode;
use circulum::guard::TokenAccount;
use circulum::key::Key;
use circulum::plan::{
    create_subscription_plan, deactivate_plan, pause_plan, unpause_plan, update_subscription_plan,
    CreateSubscriptionPlan, PlanAuthority, SubscriptionPlan,
};
use circulum::schedule::{check_payment_window, next_due, GRACE_PERIOD_SECONDS};
use circulum::subscription::{
    cancel_subscription, close_subscription, count_active_subscriptions, counter_reconciles,
    process_payment, subscribe, CancelSubscription,
    CloseSubscription, ProcessPayment, Subscribe, Subscription,
};

const DAY: i64 = 86400;
const NOW: i64 = 1_700_000_000;

fn key(n: u8) -> Key {
    Key::new([n; 32])
}

fn program() -> Key {
    key(200)
}

fn creator() -> Key {
    key(1)
}

fn mint() -> Key {
    key(50)
}

fn plan_address(creator: &Key, plan_id: u64) -> Key {
    find_record_address(PLAN_SEED, creator, plan_id, &program()).unwrap().0
}

fn subscription_address(subscriber: &Key, plan_id: u64) -> Key {
    find_record_address(SUBSCRIPTION_SEED, subscriber, plan_id, &program()).unwrap().0
}

fn new_plan(plan_id: u64, price: u64, interval: i64, max: u32) -> SubscriptionPlan {
    let ctx = CreateSubscriptionPlan {
        program_id: program(),
        subscription_plan: plan_address(&creator(), plan_id),
        creator: creator(),
    };
    create_subscription_plan(&ctx, plan_id, price, interval, max, "ipfs://plan".to_string(), NOW)
        .unwrap()
        .0
}

fn authority(plan: &SubscriptionPlan) -> PlanAuthority {
    PlanAuthority {
        program_id: program(),
        subscription_plan_address: plan_address(&creator(), plan.plan_id),
        subscription_plan: plan.clone(),
        creator: creator(),
    }
}

fn wallet(owner: &Key, n: u8) -> TokenAccount {
    TokenAccount { address: key(n), mint: mint(), owner: *owner }
}

fn subscribe_ctx(plan: &SubscriptionPlan, subscriber: &Key) -> Subscribe {
    Subscribe {
        program_id: program(),
        subscription_plan_address: plan_address(&plan.creator, plan.plan_id),
        subscription_plan: plan.clone(),
        subscription_address: subscription_address(subscriber, plan.plan_id),
        subscriber: *subscriber,
        subscriber_token_account: wallet(subscriber, 100),
        creator_token_account: wallet(&plan.creator, 101),
    }
}

fn enroll(plan: &mut SubscriptionPlan, subscriber: &Key, now: i64) -> Subscription {
    let mut ctx = subscribe_ctx(plan, subscriber);
    let e = subscribe(&mut ctx, plan.plan_id, now).unwrap();
    *plan = ctx.subscription_plan;
    e.subscription
}

fn payment_ctx(plan: &SubscriptionPlan, sub: &Subscription) -> ProcessPayment {
    ProcessPayment {
        program_id: program(),
        subscription_plan_address: plan_address(&plan.creator, plan.plan_id),
        subscription_plan: plan.clone(),
        subscription_address: subscription_address(&sub.subscriber, plan.plan_id),
        subscription: *sub,
        subscriber: sub.subscriber,
        subscriber_token_account: wallet(&sub.subscriber, 100),
        creator_token_account: wallet(&plan.creator, 101),
    }
}

fn cancel_ctx(plan: &SubscriptionPlan, sub: &Subscription) -> CancelSubscription {
    CancelSubscription {
        program_id: program(),
        subscription_plan_address: plan_address(&plan.creator, plan.plan_id),
        subscription_plan: plan.clone(),
        subscription_address: subscription_address(&sub.subscriber, plan.plan_id),
        subscription: *sub,
        subscriber: sub.subscriber,
    }
}

fn close_ctx(sub: &Subscription) -> CloseSubscription {
    CloseSubscription {
        program_id: program(),
        subscription_address: subscription_address(&sub.subscriber, sub.plan_id),
        subscription: *sub,
        subscriber: sub.subscriber,
    }
}

#[test]
fn create_plan_sets_fields() {
    let ctx = CreateSubscriptionPlan {
        program_id: program(),
        subscription_plan: plan_address(&creator(), 7),
        creator: creator(),
    };
    let (plan, ev) =
        create_subscription_plan(&ctx, 7, 1000, DAY, 10, "ipfs://x".to_string(), NOW).unwrap();
    assert_eq!(plan.price, 1000);
    assert_eq!(plan.interval_seconds, DAY);
    assert_eq!(plan.max_subscribers, 10);
    assert_eq!(plan.current_subscribers, 0);
    assert!(plan.is_active);
    assert!(!plan.is_paused);
    assert_eq!(plan.metadata_uri, "ipfs://x");
    assert_eq!(plan.created_at, NOW);
    assert_eq!(plan.creator, creator());
    let found = find_record_address(PLAN_SEED, &creator(), 7, &program()).unwrap();
    assert_eq!(plan.bump, found.1);
    assert_eq!(ev.price, 1000);
    assert_eq!(ev.plan_id, 7);
    assert_eq!(ev.timestamp, NOW);
}

#[test]
fn create_plan_rejects_bad_parameters() {
    let ctx = CreateSubscriptionPlan {
        program_id: program(),
        subscription_plan: plan_address(&creator(), 1),
        creator: creator(),
    };
    let uri = || "u".to_string();
    assert_eq!(create_subscription_plan(&ctx, 1, 0, DAY, 1, uri(), NOW).unwrap_err(), ErrorCode::InvalidPrice);
    assert_eq!(create_subscription_plan(&ctx, 1, 5, 59, 1, uri(), NOW).unwrap_err(), ErrorCode::IntervalTooShort);
    assert!(create_subscription_plan(&ctx, 1, 5, 60, 1, uri(), NOW).is_ok());
    assert_eq!(create_subscription_plan(&ctx, 1, 5, DAY, 0, uri(), NOW).unwrap_err(), ErrorCode::InvalidMaxSubscribers);
    assert_eq!(
        create_subscription_plan(&ctx, 1, 5, DAY, 1, "a".repeat(201), NOW).unwrap_err(),
        ErrorCode::MetadataUriTooLong
    );
    assert!(create_subscription_plan(&ctx, 1, 5, DAY, 1, "a".repeat(200), NOW).is_ok());
}

#[test]
fn create_plan_rejects_wrong_address() {
    let ctx = CreateSubscriptionPlan {
        program_id: program(),
        subscription_plan: plan_address(&creator(), 2),
        creator: creator(),
    };
    let r = create_subscription_plan(&ctx, 3, 5, DAY, 1, "u".to_string(), NOW);
    assert_eq!(r.unwrap_err(), ErrorCode::AddressMismatch);
}

#[test]
fn derived_addresses_are_stable_and_distinct() {
    let a = find_record_address(PLAN_SEED, &creator(), 1, &program()).unwrap();
    let b = find_record_address(PLAN_SEED, &creator(), 1, &program()).unwrap();
    assert_eq!(a.0, b.0);
    assert_eq!(a.1, b.1);
    assert_ne!(a.0, creator());
    let c = find_record_address(PLAN_SEED, &creator(), 2, &program()).unwrap();
    assert_ne!(a.0, c.0);
    let d = find_record_address(SUBSCRIPTION_SEED, &creator(), 1, &program()).unwrap();
    assert_ne!(a.0, d.0);
    assert!(check_record_address(&a.0, PLAN_SEED, &creator(), 1, a.1, &program()).is_ok());
    assert_eq!(
        check_record_address(&c.0, PLAN_SEED, &creator(), 1, a.1, &program()).unwrap_err(),
        ErrorCode::AddressMismatch
    );
}

#[test]
fn capacity_one_plan_fills() {
    let mut plan = new_plan(1, 1000, 86400, 1);
    let alice = key(10);
    let mut ctx = subscribe_ctx(&plan, &alice);
    let e = subscribe(&mut ctx, 1, NOW).unwrap();
    assert_eq!(ctx.subscription_plan.current_subscribers, 1);
    assert_eq!(e.subscription.total_payments, 1);
    assert_eq!(e.subscription.last_payment, NOW);
    assert_eq!(e.subscription.next_payment, NOW + 86400);
    assert!(e.subscription.is_active);
    assert_eq!(e.transfer.amount, 1000);
    assert_eq!(e.transfer.from, key(100));
    assert_eq!(e.transfer.to, key(101));
    assert_eq!(e.transfer.authority, alice);
    plan = ctx.subscription_plan;
    let mut second = subscribe_ctx(&plan, &key(11));
    assert_eq!(subscribe(&mut second, 1, NOW).unwrap_err(), ErrorCode::PlanFull);
    assert_eq!(second.subscription_plan.current_subscribers, 1);
}

#[test]
fn subscribe_checks_plan_state() {
    let plan = new_plan(1, 1000, DAY, 5);
    let mut auth = authority(&plan);
    pause_plan(&mut auth, 1, NOW).unwrap();
    let mut ctx = subscribe_ctx(&auth.subscription_plan, &key(10));
    assert_eq!(subscribe(&mut ctx, 1, NOW).unwrap_err(), ErrorCode::PlanPaused);
    deactivate_plan(&mut auth, 1, NOW).unwrap();
    let mut ctx = subscribe_ctx(&auth.subscription_plan, &key(10));
    assert_eq!(subscribe(&mut ctx, 1, NOW).unwrap_err(), ErrorCode::PlanInactive);
}

#[test]
fn subscribe_checks_token_accounts() {
    let plan = new_plan(1, 1000, DAY, 5);
    let alice = key(10);
    let mut ctx = subscribe_ctx(&plan, &alice);
    ctx.subscriber_token_account.owner = key(12);
    assert_eq!(subscribe(&mut ctx, 1, NOW).unwrap_err(), ErrorCode::InvalidTokenAccountOwner);
    let mut ctx = subscribe_ctx(&plan, &alice);
    ctx.creator_token_account.mint = key(51);
    assert_eq!(subscribe(&mut ctx, 1, NOW).unwrap_err(), ErrorCode::MintMismatch);
    let mut ctx = subscribe_ctx(&plan, &alice);
    ctx.creator_token_account.owner = alice;
    assert_eq!(subscribe(&mut ctx, 1, NOW).unwrap_err(), ErrorCode::InvalidTokenAccountOwner);
    let mut ctx = subscribe_ctx(&plan, &alice);
    ctx.subscription_address = subscription_address(&key(12), 1);
    assert_eq!(subscribe(&mut ctx, 1, NOW).unwrap_err(), ErrorCode::AddressMismatch);
    assert_eq!(ctx.subscription_plan.current_subscribers, 0);
}

#[test]
fn subscribe_due_time_overflow() {
    let plan = new_plan(1, 1000, DAY, 5);
    let mut ctx = subscribe_ctx(&plan, &key(10));
    assert_eq!(subscribe(&mut ctx, 1, i64::MAX - DAY + 1).unwrap_err(), ErrorCode::Overflow);
    assert_eq!(ctx.subscription_plan.current_subscribers, 0);
}

#[test]
fn subscriber_count_at_maximum_does_not_wrap() {
    let mut plan = new_plan(1, 1000, DAY, u32::MAX);
    plan.current_subscribers = u32::MAX;
    let mut ctx = subscribe_ctx(&plan, &key(10));
    assert_eq!(subscribe(&mut ctx, 1, NOW).unwrap_err(), ErrorCode::PlanFull);
    assert_eq!(ctx.subscription_plan.current_subscribers, u32::MAX);
}

#[test]
fn payment_window_edges() {
    let t = NOW + DAY;
    let mut plan = new_plan(1, 1000, DAY, 5);
    let sub = enroll(&mut plan, &key(10), NOW);
    assert_eq!(sub.next_payment, t);
    let mut ctx = payment_ctx(&plan, &sub);
    assert_eq!(process_payment(&mut ctx, 1, t - 1).unwrap_err(), ErrorCode::PaymentNotDue);
    assert_eq!(ctx.subscription.total_payments, 1);
    let mut late = payment_ctx(&plan, &sub);
    assert_eq!(process_payment(&mut late, 1, t + 7 * 86400 + 1).unwrap_err(), ErrorCode::PaymentTooLate);
    assert_eq!(late.subscription.next_payment, t);
    let mut last = payment_ctx(&plan, &sub);
    assert!(process_payment(&mut last, 1, t + 7 * 86400).is_ok());
    let c = process_payment(&mut ctx, 1, t).unwrap();
    assert_eq!(c.event.payment_number, 2);
    assert_eq!(c.transfer.amount, 1000);
    assert_eq!(ctx.subscription.total_payments, 2);
    assert_eq!(ctx.subscription.last_payment, t);
    assert_eq!(ctx.subscription.next_payment, t + DAY);
    assert_eq!(process_payment(&mut ctx, 1, t).unwrap_err(), ErrorCode::PaymentNotDue);
}

#[test]
fn payment_advances_from_late_charge() {
    let mut plan = new_plan(1, 1000, DAY, 5);
    let sub = enroll(&mut plan, &key(10), NOW);
    let mut ctx = payment_ctx(&plan, &sub);
    let at = sub.next_payment + 3600;
    process_payment(&mut ctx, 1, at).unwrap();
    assert_eq!(ctx.subscription.next_payment, at + DAY);
    assert_eq!(ctx.subscription.next_payment, ctx.subscription.last_payment + plan.interval_seconds);
    assert!(ctx.subscription.next_payment > sub.next_payment);
}

#[test]
fn payment_checks_records() {
    let mut plan = new_plan(1, 1000, DAY, 5);
    let sub = enroll(&mut plan, &key(10), NOW);
    let due = sub.next_payment;
    let mut ctx = payment_ctx(&plan, &sub);
    ctx.subscription.plan_id = 2;
    assert_eq!(process_payment(&mut ctx, 1, due).unwrap_err(), ErrorCode::InvalidPlanId);
    let mut ctx = payment_ctx(&plan, &sub);
    ctx.subscription.subscriber = key(11);
    assert_eq!(process_payment(&mut ctx, 1, due).unwrap_err(), ErrorCode::InvalidSubscriber);
    let mut ctx = payment_ctx(&plan, &sub);
    ctx.subscription.is_active = false;
    assert_eq!(process_payment(&mut ctx, 1, due).unwrap_err(), ErrorCode::SubscriptionInactive);
    let mut ctx = payment_ctx(&plan, &sub);
    ctx.subscription_plan.is_paused = true;
    assert_eq!(process_payment(&mut ctx, 1, due).unwrap_err(), ErrorCode::PlanPaused);
    let mut ctx = payment_ctx(&plan, &sub);
    ctx.subscription_plan.is_active = false;
    assert_eq!(process_payment(&mut ctx, 1, due).unwrap_err(), ErrorCode::PlanInactive);
    let mut ctx = payment_ctx(&plan, &sub);
    ctx.subscription_address = key(3);
    assert_eq!(process_payment(&mut ctx, 1, due).unwrap_err(), ErrorCode::AddressMismatch);
}

#[test]
fn payment_count_at_maximum_overflows() {
    let mut plan = new_plan(1, 1000, DAY, 5);
    let mut sub = enroll(&mut plan, &key(10), NOW);
    sub.total_payments = u64::MAX;
    let mut ctx = payment_ctx(&plan, &sub);
    assert_eq!(process_payment(&mut ctx, 1, sub.next_payment).unwrap_err(), ErrorCode::Overflow);
    assert_eq!(ctx.subscription.total_payments, u64::MAX);
    assert_eq!(ctx.subscription.last_payment, NOW);
}

#[test]
fn enroll_then_cancel_restores_count() {
    let mut plan = new_plan(1, 1000, DAY, 5);
    let _ = enroll(&mut plan, &key(11), NOW);
    assert_eq!(plan.current_subscribers, 1);
    let sub = enroll(&mut plan, &key(10), NOW);
    assert_eq!(plan.current_subscribers, 2);
    let mut ctx = cancel_ctx(&plan, &sub);
    let ev = cancel_subscription(&mut ctx, 1, NOW + 5).unwrap();
    assert_eq!(ctx.subscription_plan.current_subscribers, 1);
    assert!(!ctx.subscription.is_active);
    assert_eq!(ev.subscriber, key(10));
    assert_eq!(ev.timestamp, NOW + 5);
}

#[test]
fn cancel_and_close_lifecycle() {
    let mut plan = new_plan(1, 1000, DAY, 5);
    let sub = enroll(&mut plan, &key(10), NOW);
    assert_eq!(close_subscription(&close_ctx(&sub), 1).unwrap_err(), ErrorCode::SubscriptionStillActive);
    let mut ctx = cancel_ctx(&plan, &sub);
    cancel_subscription(&mut ctx, 1, NOW).unwrap();
    let cancelled = ctx.subscription;
    let mut again = cancel_ctx(&ctx.subscription_plan, &cancelled);
    assert_eq!(cancel_subscription(&mut again, 1, NOW).unwrap_err(), ErrorCode::SubscriptionInactive);
    assert_eq!(again.subscription_plan.current_subscribers, 0);
    assert_eq!(close_subscription(&close_ctx(&cancelled), 1).unwrap(), key(10));
    let mut other = close_ctx(&cancelled);
    other.subscriber = key(11);
    assert_eq!(close_subscription(&other, 1).unwrap_err(), ErrorCode::AddressMismatch);
}

#[test]
fn cancel_with_zero_count_underflows() {
    let mut plan = new_plan(1, 1000, DAY, 5);
    let sub = enroll(&mut plan, &key(10), NOW);
    plan.current_subscribers = 0;
    let mut ctx = cancel_ctx(&plan, &sub);
    assert_eq!(cancel_subscription(&mut ctx, 1, NOW).unwrap_err(), ErrorCode::Underflow);
    assert!(ctx.subscription.is_active);
}

#[test]
fn cancel_by_other_signer_fails() {
    let mut plan = new_plan(1, 1000, DAY, 5);
    let sub = enroll(&mut plan, &key(10), NOW);
    let mut ctx = cancel_ctx(&plan, &sub);
    ctx.subscription.subscriber = key(11);
    assert_eq!(cancel_subscription(&mut ctx, 1, NOW).unwrap_err(), ErrorCode::InvalidSubscriber);
}

#[test]
fn update_plan_applies_all_or_nothing() {
    let mut plan = new_plan(1, 1000, DAY, 5);
    let _ = enroll(&mut plan, &key(10), NOW);
    let _ = enroll(&mut plan, &key(11), NOW);
    let mut auth = authority(&plan);
    let r = update_subscription_plan(&mut auth, 1, Some(2000), Some(2 * DAY), Some(1), None, NOW);
    assert_eq!(r.unwrap_err(), ErrorCode::MaxSubscribersTooLow);
    assert_eq!(auth.subscription_plan.price, 1000);
    assert_eq!(auth.subscription_plan.interval_seconds, DAY);
    let ev = update_subscription_plan(&mut auth, 1, Some(2000), None, Some(2), Some("new".to_string()), NOW + 1)
        .unwrap();
    assert_eq!(ev.timestamp, NOW + 1);
    assert_eq!(auth.subscription_plan.price, 2000);
    assert_eq!(auth.subscription_plan.interval_seconds, DAY);
    assert_eq!(auth.subscription_plan.max_subscribers, 2);
    assert_eq!(auth.subscription_plan.metadata_uri, "new");
    let e = |r: Result<_, ErrorCode>| r.unwrap_err();
    assert_eq!(e(update_subscription_plan(&mut auth, 1, Some(0), None, None, None, NOW)), ErrorCode::InvalidPrice);
    assert_eq!(e(update_subscription_plan(&mut auth, 1, None, Some(10), None, None, NOW)), ErrorCode::IntervalTooShort);
    assert_eq!(e(update_subscription_plan(&mut auth, 1, None, None, Some(0), None, NOW)), ErrorCode::InvalidMaxSubscribers);
    assert_eq!(
        e(update_subscription_plan(&mut auth, 1, None, None, None, Some("x".repeat(201)), NOW)),
        ErrorCode::MetadataUriTooLong
    );
}

#[test]
fn plan_operations_require_creator() {
    let plan = new_plan(1, 1000, DAY, 5);
    let mut auth = authority(&plan);
    auth.subscription_plan.creator = key(2);
    assert_eq!(pause_plan(&mut auth, 1, NOW).unwrap_err(), ErrorCode::AddressMismatch);
    let mut auth = authority(&plan);
    auth.creator = key(2);
    assert_eq!(pause_plan(&mut auth, 1, NOW).unwrap_err(), ErrorCode::InvalidCreator);
    assert!(!auth.subscription_plan.is_paused);
    assert_eq!(
        update_subscription_plan(&mut auth, 1, Some(1), None, None, None, NOW).unwrap_err(),
        ErrorCode::InvalidCreator
    );
    assert_eq!(unpause_plan(&mut auth, 1, NOW).unwrap_err(), ErrorCode::InvalidCreator);
    assert_eq!(deactivate_plan(&mut auth, 1, NOW).unwrap_err(), ErrorCode::InvalidCreator);
    assert!(auth.subscription_plan.is_active);
    assert_eq!(auth.subscription_plan.price, 1000);
}

#[test]
fn pause_unpause_and_deactivate() {
    let plan = new_plan(1, 1000, DAY, 5);
    let mut auth = authority(&plan);
    assert_eq!(unpause_plan(&mut auth, 1, NOW).unwrap_err(), ErrorCode::PlanNotPaused);
    let ev = pause_plan(&mut auth, 1, NOW).unwrap();
    assert_eq!(ev.plan_id, 1);
    assert!(auth.subscription_plan.is_paused);
    assert_eq!(pause_plan(&mut auth, 1, NOW).unwrap_err(), ErrorCode::PlanAlreadyPaused);
    unpause_plan(&mut auth, 1, NOW).unwrap();
    assert!(!auth.subscription_plan.is_paused);
    deactivate_plan(&mut auth, 1, NOW).unwrap();
    assert!(!auth.subscription_plan.is_active);
    assert_eq!(deactivate_plan(&mut auth, 1, NOW).unwrap_err(), ErrorCode::PlanAlreadyInactive);
}

#[test]
fn deactivation_survives_every_operation() {
    let mut plan = new_plan(1, 1000, DAY, 5);
    let sub = enroll(&mut plan, &key(10), NOW);
    let mut auth = authority(&plan);
    deactivate_plan(&mut auth, 1, NOW).unwrap();
    pause_plan(&mut auth, 1, NOW).unwrap();
    unpause_plan(&mut auth, 1, NOW).unwrap();
    update_subscription_plan(&mut auth, 1, Some(5), Some(DAY), Some(9), None, NOW).unwrap();
    assert!(!auth.subscription_plan.is_active);
    let mut pay = payment_ctx(&auth.subscription_plan, &sub);
    assert_eq!(process_payment(&mut pay, 1, sub.next_payment).unwrap_err(), ErrorCode::PlanInactive);
    let mut c = cancel_ctx(&auth.subscription_plan, &sub);
    cancel_subscription(&mut c, 1, NOW).unwrap();
    assert!(!c.subscription_plan.is_active);
}

#[test]
fn subscriber_count_stays_within_capacity() {
    let mut plan = new_plan(1, 1000, DAY, 3);
    let mut subs = Vec::new();
    for n in 10..16u8 {
        let mut ctx = subscribe_ctx(&plan, &key(n));
        if let Ok(e) = subscribe(&mut ctx, 1, NOW) {
            subs.push(e.subscription);
        }
        plan = ctx.subscription_plan;
        assert!(plan.current_subscribers <= plan.max_subscribers);
    }
    assert_eq!(subs.len(), 3);
    for s in subs.iter() {
        let mut ctx = cancel_ctx(&plan, s);
        cancel_subscription(&mut ctx, 1, NOW).unwrap();
        plan = ctx.subscription_plan;
        assert!(plan.current_subscribers <= plan.max_subscribers);
    }
    assert_eq!(plan.current_subscribers, 0);
}

#[test]
fn schedule_functions() {
    assert_eq!(check_payment_window(99, 100), Err(ErrorCode::PaymentNotDue));
    assert_eq!(check_payment_window(100, 100), Ok(()));
    assert_eq!(check_payment_window(100 + GRACE_PERIOD_SECONDS, 100), Ok(()));
    assert_eq!(check_payment_window(101 + GRACE_PERIOD_SECONDS, 100), Err(ErrorCode::PaymentTooLate));
    assert_eq!(check_payment_window(i64::MAX, i64::MAX - 5), Err(ErrorCode::Overflow));
    assert_eq!(GRACE_PERIOD_SECONDS, 7 * 24 * 3600);
    assert_eq!(next_due(10, 60), Ok(70));
    assert_eq!(next_due(i64::MAX, 60), Err(ErrorCode::Overflow));
}

#[test]
fn error_codes_and_messages() {
    assert_eq!(ErrorCode::PlanInactive.code(), 6000);
    assert_eq!(ErrorCode::PlanAlreadyInactive.code(), 6021);
    assert_eq!(ErrorCode::AddressMismatch.code(), 6022);
    assert_eq!(ErrorCode::PlanFull.message(), "Subscription plan is full");
}

#[test]
fn counter_matches_full_scan() {
    let mut plan = new_plan(1, 1000, DAY, 5);
    let a = enroll(&mut plan, &key(10), NOW);
    let b = enroll(&mut plan, &key(11), NOW);
    let mut other = new_plan(2, 1000, DAY, 5);
    let c = enroll(&mut other, &key(10), NOW);
    let mut ctx = cancel_ctx(&plan, &a);
    cancel_subscription(&mut ctx, 1, NOW).unwrap();
    plan = ctx.subscription_plan;
    let records = vec![ctx.subscription, b, c];
    assert_eq!(count_active_subscriptions(&records, &creator(), 1), 1);
    assert_eq!(count_active_subscriptions(&records, &creator(), 2), 1);
    assert!(counter_reconciles(&plan, &records));
    let mut wrong = plan.clone();
    wrong.current_subscribers = 2;
    assert!(!counter_reconciles(&wrong, &records));
}

fn plan_of(owner: &Key, plan_id: u64) -> SubscriptionPlan {
    let ctx = CreateSubscriptionPlan {
        program_id: program(),
        subscription_plan: plan_address(owner, plan_id),
        creator: *owner,
    };
    create_subscription_plan(&ctx, plan_id, 1000, DAY, 5, "u".to_string(), NOW).unwrap().0
}

#[test]
fn enrollment_is_bound_to_its_plan_creator() {
    let mut plan_a = new_plan(1, 1000, DAY, 5);
    let mut plan_b = plan_of(&key(2), 1);
    let _ = enroll(&mut plan_b, &key(11), NOW);
    let sub = enroll(&mut plan_a, &key(10), NOW);
    let mut pay = payment_ctx(&plan_b, &sub);
    pay.creator_token_account.owner = key(2);
    assert_eq!(process_payment(&mut pay, 1, sub.next_payment).unwrap_err(), ErrorCode::InvalidPlanId);
    assert_eq!(pay.subscription.total_payments, 1);
    let mut cancel = cancel_ctx(&plan_b, &sub);
    assert_eq!(cancel_subscription(&mut cancel, 1, NOW).unwrap_err(), ErrorCode::InvalidPlanId);
    assert_eq!(cancel.subscription_plan.current_subscribers, 1);
    assert!(cancel.subscription.is_active);
}

#[test]
fn plan_record_must_carry_the_named_id() {
    let mut plan = new_plan(1, 1000, DAY, 5);
    let sub = enroll(&mut plan, &key(10), NOW);
    let mut ctx = subscribe_ctx(&plan, &key(11));
    ctx.subscription_plan.plan_id = 9;
    assert_eq!(subscribe(&mut ctx, 1, NOW).unwrap_err(), ErrorCode::InvalidPlanId);
    let mut pay = payment_ctx(&plan, &sub);
    pay.subscription_plan.plan_id = 9;
    assert_eq!(process_payment(&mut pay, 1, sub.next_payment).unwrap_err(), ErrorCode::InvalidPlanId);
    let mut cancel = cancel_ctx(&plan, &sub);
    cancel.subscription.plan_id = 9;
    assert_eq!(cancel_subscription(&mut cancel, 1, NOW).unwrap_err(), ErrorCode::InvalidPlanId);
}
