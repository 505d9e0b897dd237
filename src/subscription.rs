//! Enrollments: a subscriber joins a plan with a first charge, is charged
//! once per interval when the charge falls due, cancels, and reclaims the
//! record once cancelled.
//!
//! A charge is a token transfer that the caller performs: an operation that
//! returns one succeeds only together with that transfer. Where the transfer
//! fails, the caller drops the changed records, as the host ledger rolls back
//! the whole operation.
use vstd::prelude::*;
use crate::key::Key;
use crate::error::{outcome_matches, ErrorCode};
use crate::events::{PaymentProcessed, SubscriptionCancelled, SubscriptionCreated};
use crate::address::{
    check_new_record_address, is_fresh_address, is_plan_address, is_subscription_address,
    subscription_seeds, SUBSCRIPTION_SEED,
};
use crate::guard::{
    check_plan_address, check_subscription_address, check_token_accounts, token_accounts_check,
    TokenAccount,
};
use crate::plan::{plan_evolves, SubscriptionPlan};
use crate::schedule::{check_payment_window, next_due, payment_window, GRACE_PERIOD_SECONDS};

verus! {

#[derive(Clone, Copy, Debug)]
pub struct Subscription {
    /// The enrolled principal.
    pub subscriber: Key,
    /// The plan, for the record's whole life.
    pub plan_id: u64,
    /// The plan's creator.
    pub creator: Key,
    /// False once cancelled.
    pub is_active: bool,
    /// Time of the last successful charge.
    pub last_payment: i64,
    /// Time at which the next charge falls due.
    pub next_payment: i64,
    /// Number of successful charges.
    pub total_payments: u64,
    /// Salt of the record's derived address.
    pub bump: u8,
}

/// A transfer of `amount` units from the account `from` to the account `to`,
/// authorized by the principal `authority`.
#[derive(Clone, Copy, Debug)]
pub struct TokenTransfer {
    pub from: Key,
    pub to: Key,
    pub authority: Key,
    pub amount: u64,
}

/// The accounts of an enrollment.
#[derive(Clone, Debug)]
pub struct Subscribe {
    pub program_id: Key,
    pub subscription_plan_address: Key,
    pub subscription_plan: SubscriptionPlan,
    /// The address presented for the new enrollment record.
    pub subscription_address: Key,
    /// The signing subscriber.
    pub subscriber: Key,
    pub subscriber_token_account: TokenAccount,
    pub creator_token_account: TokenAccount,
}

/// What a successful enrollment yields: the new record, the first charge and
/// the event.
#[derive(Clone, Copy, Debug)]
pub struct Enrollment {
    pub subscription: Subscription,
    pub transfer: TokenTransfer,
    pub event: SubscriptionCreated,
}

/// The accounts of a recurring charge.
#[derive(Clone, Debug)]
pub struct ProcessPayment {
    pub program_id: Key,
    pub subscription_plan_address: Key,
    pub subscription_plan: SubscriptionPlan,
    pub subscription_address: Key,
    pub subscription: Subscription,
    /// The signing subscriber.
    pub subscriber: Key,
    pub subscriber_token_account: TokenAccount,
    pub creator_token_account: TokenAccount,
}

/// What a successful recurring charge yields: the transfer and the event.
#[derive(Clone, Copy, Debug)]
pub struct Charge {
    pub transfer: TokenTransfer,
    pub event: PaymentProcessed,
}

/// The accounts of a cancellation.
#[derive(Clone, Debug)]
pub struct CancelSubscription {
    pub program_id: Key,
    pub subscription_plan_address: Key,
    pub subscription_plan: SubscriptionPlan,
    pub subscription_address: Key,
    pub subscription: Subscription,
    /// The signing subscriber.
    pub subscriber: Key,
}

/// The accounts of the reclamation of a cancelled enrollment.
#[derive(Clone, Copy, Debug)]
pub struct CloseSubscription {
    pub program_id: Key,
    pub subscription_address: Key,
    pub subscription: Subscription,
    /// The signing subscriber, to whom the record's storage returns.
    pub subscriber: Key,
}

/// The plan with one more subscriber.
pub open spec fn enrolled(p: SubscriptionPlan) -> SubscriptionPlan {
    SubscriptionPlan { current_subscribers: (p.current_subscribers + 1) as u32, ..p }
}

/// The plan with one subscriber less.
pub open spec fn unenrolled(p: SubscriptionPlan) -> SubscriptionPlan {
    SubscriptionPlan { current_subscribers: (p.current_subscribers - 1) as u32, ..p }
}

/// Enrolling in a plan and then cancelling that enrollment leaves the plan
/// as it was, its subscriber count included.
pub proof fn lemma_enroll_then_cancel(p: SubscriptionPlan)
    requires
        p.current_subscribers < u32::MAX,
    ensures
        unenrolled(enrolled(p)) == p,
        unenrolled(enrolled(p)).current_subscribers == p.current_subscribers,
{
}

/// The checks of an enrollment once the records' addresses are known good,
/// in the order in which they are made.
pub open spec fn enrollment_check(
    plan: SubscriptionPlan,
    plan_id: u64,
    subscriber: Key,
    from: TokenAccount,
    to: TokenAccount,
    now: i64,
) -> Result<(), ErrorCode> {
    if plan.plan_id != plan_id {
        Err(ErrorCode::InvalidPlanId)
    } else if token_accounts_check(subscriber, plan.creator, from, to) is Err {
        token_accounts_check(subscriber, plan.creator, from, to)
    } else if !plan.is_active {
        Err(ErrorCode::PlanInactive)
    } else if plan.is_paused {
        Err(ErrorCode::PlanPaused)
    } else if plan.current_subscribers >= plan.max_subscribers {
        Err(ErrorCode::PlanFull)
    } else if now + plan.interval_seconds > i64::MAX || now + plan.interval_seconds < i64::MIN {
        Err(ErrorCode::Overflow)
    } else if plan.current_subscribers + 1 > u32::MAX {
        Err(ErrorCode::Overflow)
    } else {
        Ok(())
    }
}

/// Enrolls the signer in the plan at time `now`. The first charge, of the
/// plan's price, is part of the enrollment.
pub fn subscribe(ctx: &mut Subscribe, plan_id: u64, now: i64) -> (r: Result<Enrollment, ErrorCode>)
    ensures
        !is_plan_address(
            old(ctx).subscription_plan_address,
            old(ctx).subscription_plan.creator,
            plan_id,
            old(ctx).subscription_plan.bump,
            old(ctx).program_id,
        ) ==> r == Err::<Enrollment, ErrorCode>(ErrorCode::AddressMismatch),
        (forall|b: u8| !is_fresh_address(
            subscription_seeds(old(ctx).subscriber@, plan_id),
            old(ctx).program_id,
            old(ctx).subscription_address,
            b,
        )) ==> r == Err::<Enrollment, ErrorCode>(ErrorCode::AddressMismatch),
        is_plan_address(
            old(ctx).subscription_plan_address,
            old(ctx).subscription_plan.creator,
            plan_id,
            old(ctx).subscription_plan.bump,
            old(ctx).program_id,
        ) && (exists|b: u8| is_fresh_address(
            subscription_seeds(old(ctx).subscriber@, plan_id),
            old(ctx).program_id,
            old(ctx).subscription_address,
            b,
        )) ==> outcome_matches(
            r,
            enrollment_check(
                old(ctx).subscription_plan,
                plan_id,
                old(ctx).subscriber,
                old(ctx).subscriber_token_account,
                old(ctx).creator_token_account,
                now,
            ),
        ),
        r is Ok ==> final(ctx).subscription_plan == enrolled(old(ctx).subscription_plan),
        r is Ok ==> final(ctx).subscription_plan.current_subscribers
            == old(ctx).subscription_plan.current_subscribers + 1,
        r is Err ==> *final(ctx) == *old(ctx),
        final(ctx).program_id == old(ctx).program_id,
        final(ctx).subscription_plan_address == old(ctx).subscription_plan_address,
        final(ctx).subscription_address == old(ctx).subscription_address,
        final(ctx).subscriber == old(ctx).subscriber,
        final(ctx).subscriber_token_account == old(ctx).subscriber_token_account,
        final(ctx).creator_token_account == old(ctx).creator_token_account,
        plan_evolves(old(ctx).subscription_plan, final(ctx).subscription_plan),
        r matches Ok(e) ==> {
            let s = e.subscription;
            let plan = old(ctx).subscription_plan;
            &&& is_fresh_address(
                subscription_seeds(old(ctx).subscriber@, plan_id),
                old(ctx).program_id,
                old(ctx).subscription_address,
                s.bump,
            )
            &&& s.subscriber == old(ctx).subscriber
            &&& s.plan_id == plan_id
            &&& s.creator == plan.creator
            &&& s.is_active
            &&& s.last_payment == now
            &&& s.next_payment == now + plan.interval_seconds
            &&& s.total_payments == 1
            &&& e.transfer.from == old(ctx).subscriber_token_account.address
            &&& e.transfer.to == old(ctx).creator_token_account.address
            &&& e.transfer.authority == old(ctx).subscriber
            &&& e.transfer.amount == plan.price
            &&& e.event.subscriber == old(ctx).subscriber
            &&& e.event.creator == plan.creator
            &&& e.event.plan_id == plan_id
            &&& e.event.timestamp == now
        },
{
    check_plan_address(
        &ctx.subscription_plan_address,
        &ctx.subscription_plan.creator,
        plan_id,
        ctx.subscription_plan.bump,
        &ctx.program_id,
    )?;
    let bump = check_new_record_address(
        &ctx.subscription_address,
        SUBSCRIPTION_SEED,
        &ctx.subscriber,
        plan_id,
        &ctx.program_id,
    )?;
    assert(is_fresh_address(
        subscription_seeds(ctx.subscriber@, plan_id),
        ctx.program_id,
        ctx.subscription_address,
        bump,
    ));
    if ctx.subscription_plan.plan_id != plan_id {
        return Err(ErrorCode::InvalidPlanId);
    }
    check_token_accounts(
        &ctx.subscriber,
        &ctx.subscription_plan.creator,
        &ctx.subscriber_token_account,
        &ctx.creator_token_account,
    )?;
    if !ctx.subscription_plan.is_active {
        return Err(ErrorCode::PlanInactive);
    }
    if ctx.subscription_plan.is_paused {
        return Err(ErrorCode::PlanPaused);
    }
    if ctx.subscription_plan.current_subscribers >= ctx.subscription_plan.max_subscribers {
        return Err(ErrorCode::PlanFull);
    }
    let transfer = TokenTransfer {
        from: ctx.subscriber_token_account.address,
        to: ctx.creator_token_account.address,
        authority: ctx.subscriber,
        amount: ctx.subscription_plan.price,
    };
    let next_payment = next_due(now, ctx.subscription_plan.interval_seconds)?;
    let count = match ctx.subscription_plan.current_subscribers.checked_add(1) {
        Some(c) => c,
        None => return Err(ErrorCode::Overflow),
    };
    let subscription = Subscription {
        subscriber: ctx.subscriber,
        plan_id,
        creator: ctx.subscription_plan.creator,
        is_active: true,
        last_payment: now,
        next_payment,
        total_payments: 1,
        bump,
    };
    ctx.subscription_plan.current_subscribers = count;
    let event = SubscriptionCreated {
        subscriber: ctx.subscriber,
        creator: ctx.subscription_plan.creator,
        plan_id,
        timestamp: now,
    };
    Ok(Enrollment { subscription, transfer, event })
}

/// The checks of a recurring charge that concern the records and accounts
/// alone, in the order in which they are made.
pub open spec fn payment_records_check(ctx: ProcessPayment, plan_id: u64) -> Result<(), ErrorCode> {
    let plan = ctx.subscription_plan;
    let sub = ctx.subscription;
    if !is_plan_address(ctx.subscription_plan_address, plan.creator, plan_id, plan.bump, ctx.program_id) {
        Err(ErrorCode::AddressMismatch)
    } else if !is_subscription_address(ctx.subscription_address, ctx.subscriber, plan_id, sub.bump, ctx.program_id) {
        Err(ErrorCode::AddressMismatch)
    } else if sub.plan_id != plan_id || plan.plan_id != plan_id || sub.creator@ != plan.creator@ {
        Err(ErrorCode::InvalidPlanId)
    } else if sub.subscriber@ != ctx.subscriber@ {
        Err(ErrorCode::InvalidSubscriber)
    } else {
        token_accounts_check(ctx.subscriber, plan.creator, ctx.subscriber_token_account, ctx.creator_token_account)
    }
}

/// The checks of a recurring charge, in the order in which they are made.
pub open spec fn payment_check(ctx: ProcessPayment, plan_id: u64, now: i64) -> Result<(), ErrorCode> {
    let plan = ctx.subscription_plan;
    let sub = ctx.subscription;
    if payment_records_check(ctx, plan_id) is Err {
        payment_records_check(ctx, plan_id)
    } else if payment_window(now, sub.next_payment) is Err {
        payment_window(now, sub.next_payment)
    } else if !sub.is_active {
        Err(ErrorCode::SubscriptionInactive)
    } else if !plan.is_active {
        Err(ErrorCode::PlanInactive)
    } else if plan.is_paused {
        Err(ErrorCode::PlanPaused)
    } else if now + plan.interval_seconds > i64::MAX || now + plan.interval_seconds < i64::MIN {
        Err(ErrorCode::Overflow)
    } else if sub.total_payments + 1 > u64::MAX {
        Err(ErrorCode::Overflow)
    } else {
        Ok(())
    }
}

/// A plan whose subscriber count is at its largest value takes no further
/// enrollment: the count is never wrapped. (The capacity check refuses it
/// first, since no maximum exceeds that value.)
pub proof fn lemma_subscriber_count_never_wraps(
    plan: SubscriptionPlan,
    plan_id: u64,
    subscriber: Key,
    from: TokenAccount,
    to: TokenAccount,
    now: i64,
)
    requires
        plan.current_subscribers == u32::MAX,
    ensures
        enrollment_check(plan, plan_id, subscriber, from, to, now) is Err,
        plan.plan_id == plan_id && token_accounts_check(subscriber, plan.creator, from, to) is Ok
            && plan.is_active && !plan.is_paused
            ==> enrollment_check(plan, plan_id, subscriber, from, to, now)
            == Err::<(), ErrorCode>(ErrorCode::PlanFull),
{
}

/// An enrollment whose payment count is at its largest value takes no
/// further charge: where every other check passes, the count fails with
/// `Overflow` rather than wrap.
pub proof fn lemma_payment_count_never_wraps(ctx: ProcessPayment, plan_id: u64, now: i64)
    requires
        ctx.subscription.total_payments == u64::MAX,
    ensures
        payment_check(ctx, plan_id, now) is Err,
{
}

/// The enrollment after a charge at `now`.
pub open spec fn charged(s: Subscription, now: i64, interval_seconds: i64) -> Subscription {
    Subscription {
        last_payment: now,
        next_payment: (now + interval_seconds) as i64,
        total_payments: (s.total_payments + 1) as u64,
        ..s
    }
}

/// Collects the charge that has fallen due, at time `now`. A charge is due
/// from the due time to the end of the grace window; collecting it moves the
/// due time one interval past `now`.
pub fn process_payment(ctx: &mut ProcessPayment, plan_id: u64, now: i64) -> (r: Result<Charge, ErrorCode>)
    ensures
        outcome_matches(r, payment_check(*old(ctx), plan_id, now)),
        r is Ok ==> final(ctx).subscription == charged(
            old(ctx).subscription, now, old(ctx).subscription_plan.interval_seconds),
        r is Ok ==> {
            &&& final(ctx).subscription.last_payment == now
            &&& final(ctx).subscription.next_payment == now + old(ctx).subscription_plan.interval_seconds
            &&& final(ctx).subscription.total_payments == old(ctx).subscription.total_payments + 1
            &&& old(ctx).subscription_plan.interval_seconds > 0
                ==> final(ctx).subscription.next_payment > old(ctx).subscription.next_payment
        },
        r is Err ==> *final(ctx) == *old(ctx),
        final(ctx).program_id == old(ctx).program_id,
        final(ctx).subscription_plan_address == old(ctx).subscription_plan_address,
        final(ctx).subscription_plan == old(ctx).subscription_plan,
        final(ctx).subscription_address == old(ctx).subscription_address,
        final(ctx).subscriber == old(ctx).subscriber,
        final(ctx).subscriber_token_account == old(ctx).subscriber_token_account,
        final(ctx).creator_token_account == old(ctx).creator_token_account,
        r matches Ok(c) ==> {
            &&& c.transfer.from == old(ctx).subscriber_token_account.address
            &&& c.transfer.to == old(ctx).creator_token_account.address
            &&& c.transfer.authority == old(ctx).subscriber
            &&& c.transfer.amount == old(ctx).subscription_plan.price
            &&& c.event.subscriber == old(ctx).subscription.subscriber
            &&& c.event.creator == old(ctx).subscription.creator
            &&& c.event.plan_id == plan_id
            &&& c.event.amount == old(ctx).subscription_plan.price
            &&& c.event.payment_number == final(ctx).subscription.total_payments
            &&& c.event.timestamp == now
        },
{
    check_plan_address(
        &ctx.subscription_plan_address,
        &ctx.subscription_plan.creator,
        plan_id,
        ctx.subscription_plan.bump,
        &ctx.program_id,
    )?;
    check_subscription_address(
        &ctx.subscription_address,
        &ctx.subscriber,
        plan_id,
        ctx.subscription.bump,
        &ctx.program_id,
    )?;
    if ctx.subscription.plan_id != plan_id || ctx.subscription_plan.plan_id != plan_id
        || !(ctx.subscription.creator == ctx.subscription_plan.creator) {
        return Err(ErrorCode::InvalidPlanId);
    }
    if !(ctx.subscription.subscriber == ctx.subscriber) {
        return Err(ErrorCode::InvalidSubscriber);
    }
    check_token_accounts(
        &ctx.subscriber,
        &ctx.subscription_plan.creator,
        &ctx.subscriber_token_account,
        &ctx.creator_token_account,
    )?;
    check_payment_window(now, ctx.subscription.next_payment)?;
    if !ctx.subscription.is_active {
        return Err(ErrorCode::SubscriptionInactive);
    }
    if !ctx.subscription_plan.is_active {
        return Err(ErrorCode::PlanInactive);
    }
    if ctx.subscription_plan.is_paused {
        return Err(ErrorCode::PlanPaused);
    }
    let transfer = TokenTransfer {
        from: ctx.subscriber_token_account.address,
        to: ctx.creator_token_account.address,
        authority: ctx.subscriber,
        amount: ctx.subscription_plan.price,
    };
    let next_payment = next_due(now, ctx.subscription_plan.interval_seconds)?;
    let total = match ctx.subscription.total_payments.checked_add(1) {
        Some(t) => t,
        None => return Err(ErrorCode::Overflow),
    };
    ctx.subscription.last_payment = now;
    ctx.subscription.next_payment = next_payment;
    ctx.subscription.total_payments = total;
    let event = PaymentProcessed {
        subscriber: ctx.subscription.subscriber,
        creator: ctx.subscription.creator,
        plan_id,
        amount: ctx.subscription_plan.price,
        payment_number: total,
        timestamp: now,
    };
    Ok(Charge { transfer, event })
}

/// For an enrollment due at `t` whose records and accounts pass their
/// checks: a charge one second before `t` is not due, a charge one second
/// past the grace window is too late, and a charge at `t` goes through when
/// the enrollment and the plan are active, the plan is not paused and the
/// counters have room.
pub proof fn lemma_due_window_edges(ctx: ProcessPayment, plan_id: u64)
    requires
        payment_records_check(ctx, plan_id) is Ok,
        ctx.subscription.next_payment > i64::MIN,
        ctx.subscription.next_payment + GRACE_PERIOD_SECONDS < i64::MAX,
    ensures
        payment_check(ctx, plan_id, (ctx.subscription.next_payment - 1) as i64)
            == Err::<(), ErrorCode>(ErrorCode::PaymentNotDue),
        payment_check(ctx, plan_id, (ctx.subscription.next_payment + GRACE_PERIOD_SECONDS + 1) as i64)
            == Err::<(), ErrorCode>(ErrorCode::PaymentTooLate),
        ctx.subscription.is_active && ctx.subscription_plan.is_active && !ctx.subscription_plan.is_paused
            && ctx.subscription.total_payments < u64::MAX
            && ctx.subscription.next_payment + ctx.subscription_plan.interval_seconds <= i64::MAX
            && ctx.subscription.next_payment + ctx.subscription_plan.interval_seconds >= i64::MIN
            ==> payment_check(ctx, plan_id, ctx.subscription.next_payment) is Ok,
{
}

/// The checks of a cancellation, in the order in which they are made.
pub open spec fn cancel_check(ctx: CancelSubscription, plan_id: u64) -> Result<(), ErrorCode> {
    let plan = ctx.subscription_plan;
    let sub = ctx.subscription;
    if !is_plan_address(ctx.subscription_plan_address, plan.creator, plan_id, plan.bump, ctx.program_id) {
        Err(ErrorCode::AddressMismatch)
    } else if !is_subscription_address(ctx.subscription_address, ctx.subscriber, plan_id, sub.bump, ctx.program_id) {
        Err(ErrorCode::AddressMismatch)
    } else if sub.subscriber@ != ctx.subscriber@ {
        Err(ErrorCode::InvalidSubscriber)
    } else if sub.plan_id != plan_id || plan.plan_id != plan_id || sub.creator@ != plan.creator@ {
        Err(ErrorCode::InvalidPlanId)
    } else if !sub.is_active {
        Err(ErrorCode::SubscriptionInactive)
    } else if plan.current_subscribers == 0 {
        Err(ErrorCode::Underflow)
    } else {
        Ok(())
    }
}

/// Cancels an enrollment: it stays on record, inactive, and the plan counts
/// one subscriber less.
pub fn cancel_subscription(ctx: &mut CancelSubscription, plan_id: u64, now: i64) -> (r: Result<
    SubscriptionCancelled,
    ErrorCode,
>)
    ensures
        outcome_matches(r, cancel_check(*old(ctx), plan_id)),
        r is Ok ==> final(ctx).subscription_plan == unenrolled(old(ctx).subscription_plan),
        r is Ok ==> final(ctx).subscription_plan.current_subscribers
            == old(ctx).subscription_plan.current_subscribers - 1,
        r is Ok ==> final(ctx).subscription == (Subscription { is_active: false, ..old(ctx).subscription }),
        r is Err ==> *final(ctx) == *old(ctx),
        final(ctx).program_id == old(ctx).program_id,
        final(ctx).subscription_plan_address == old(ctx).subscription_plan_address,
        final(ctx).subscription_address == old(ctx).subscription_address,
        final(ctx).subscriber == old(ctx).subscriber,
        plan_evolves(old(ctx).subscription_plan, final(ctx).subscription_plan),
        r matches Ok(ev) ==> {
            &&& ev.subscriber == old(ctx).subscription.subscriber
            &&& ev.creator == old(ctx).subscription.creator
            &&& ev.plan_id == old(ctx).subscription.plan_id
            &&& ev.timestamp == now
        },
{
    check_plan_address(
        &ctx.subscription_plan_address,
        &ctx.subscription_plan.creator,
        plan_id,
        ctx.subscription_plan.bump,
        &ctx.program_id,
    )?;
    check_subscription_address(
        &ctx.subscription_address,
        &ctx.subscriber,
        plan_id,
        ctx.subscription.bump,
        &ctx.program_id,
    )?;
    if !(ctx.subscription.subscriber == ctx.subscriber) {
        return Err(ErrorCode::InvalidSubscriber);
    }
    if ctx.subscription.plan_id != plan_id || ctx.subscription_plan.plan_id != plan_id
        || !(ctx.subscription.creator == ctx.subscription_plan.creator) {
        return Err(ErrorCode::InvalidPlanId);
    }
    if !ctx.subscription.is_active {
        return Err(ErrorCode::SubscriptionInactive);
    }
    let count = match ctx.subscription_plan.current_subscribers.checked_sub(1) {
        Some(c) => c,
        None => return Err(ErrorCode::Underflow),
    };
    ctx.subscription.is_active = false;
    ctx.subscription_plan.current_subscribers = count;
    Ok(SubscriptionCancelled {
        subscriber: ctx.subscription.subscriber,
        creator: ctx.subscription.creator,
        plan_id: ctx.subscription.plan_id,
        timestamp: now,
    })
}

/// The checks of a reclamation, in the order in which they are made.
pub open spec fn close_check(ctx: CloseSubscription, plan_id: u64) -> Result<(), ErrorCode> {
    let sub = ctx.subscription;
    if !is_subscription_address(ctx.subscription_address, ctx.subscriber, plan_id, sub.bump, ctx.program_id) {
        Err(ErrorCode::AddressMismatch)
    } else if sub.subscriber@ != ctx.subscriber@ {
        Err(ErrorCode::InvalidSubscriber)
    } else if sub.is_active {
        Err(ErrorCode::SubscriptionStillActive)
    } else {
        Ok(())
    }
}

/// For an enrollment whose records match the signer and the plan: a second
/// cancellation fails with `SubscriptionInactive`, reclaiming it while it is
/// active fails with `SubscriptionStillActive`, and reclaiming it once it is
/// cancelled succeeds.
pub proof fn lemma_cancel_then_close(ctx: CancelSubscription, plan_id: u64)
    requires
        is_plan_address(
            ctx.subscription_plan_address,
            ctx.subscription_plan.creator,
            plan_id,
            ctx.subscription_plan.bump,
            ctx.program_id,
        ),
        is_subscription_address(ctx.subscription_address, ctx.subscriber, plan_id, ctx.subscription.bump, ctx.program_id),
        ctx.subscription.subscriber@ == ctx.subscriber@,
        ctx.subscription.plan_id == plan_id,
        ctx.subscription_plan.plan_id == plan_id,
        ctx.subscription.creator@ == ctx.subscription_plan.creator@,
    ensures
        !ctx.subscription.is_active ==> cancel_check(ctx, plan_id)
            == Err::<(), ErrorCode>(ErrorCode::SubscriptionInactive),
        ctx.subscription.is_active ==> close_check(
            (CloseSubscription {
                program_id: ctx.program_id,
                subscription_address: ctx.subscription_address,
                subscription: ctx.subscription,
                subscriber: ctx.subscriber,
            }),
            plan_id,
        ) == Err::<(), ErrorCode>(ErrorCode::SubscriptionStillActive),
        close_check(
            (CloseSubscription {
                program_id: ctx.program_id,
                subscription_address: ctx.subscription_address,
                subscription: Subscription { is_active: false, ..ctx.subscription },
                subscriber: ctx.subscriber,
            }),
            plan_id,
        ) is Ok,
{
}

/// Reclaims a cancelled enrollment record. On success it returns the
/// principal to whom the record's storage goes back; the record is then
/// released and can no longer be addressed.
pub fn close_subscription(ctx: &CloseSubscription, plan_id: u64) -> (r: Result<Key, ErrorCode>)
    ensures
        outcome_matches(r, close_check(*ctx, plan_id)),
        r matches Ok(k) ==> k == ctx.subscriber,
{
    check_subscription_address(
        &ctx.subscription_address,
        &ctx.subscriber,
        plan_id,
        ctx.subscription.bump,
        &ctx.program_id,
    )?;
    if !(ctx.subscription.subscriber == ctx.subscriber) {
        return Err(ErrorCode::InvalidSubscriber);
    }
    if ctx.subscription.is_active {
        return Err(ErrorCode::SubscriptionStillActive);
    }
    Ok(ctx.subscriber)
}

/// The number of active enrollments in plan `plan_id` of `creator` among
/// `subs`.
pub open spec fn active_count(subs: Seq<Subscription>, creator: Key, plan_id: u64) -> nat
    decreases subs.len(),
{
    if subs.len() == 0 {
        0
    } else {
        let last = subs.last();
        active_count(subs.drop_last(), creator, plan_id) + if last.is_active && last.plan_id == plan_id
            && last.creator@ == creator@ {
            1nat
        } else {
            0nat
        }
    }
}

/// Counts the active enrollments in plan `plan_id` of `creator` among
/// `subs`.
pub fn count_active_subscriptions(subs: &Vec<Subscription>, creator: &Key, plan_id: u64) -> (r: usize)
    ensures
        r == active_count(subs@, *creator, plan_id),
{
    let mut n: usize = 0;
    let mut i: usize = 0;
    while i < subs.len()
        invariant
            i <= subs@.len(),
            n == active_count(subs@.take(i as int), *creator, plan_id),
            n <= i,
        decreases subs@.len() - i,
    {
        let s = subs[i];
        assert(subs@.take(i as int + 1).drop_last() =~= subs@.take(i as int));
        if s.is_active && s.plan_id == plan_id && s.creator == *creator {
            n = n + 1;
        }
        i = i + 1;
    }
    assert(subs@.take(subs@.len() as int) =~= subs@);
    n
}

/// Whether the plan's subscriber count agrees with a full scan of the
/// enrollment records `subs`.
pub fn counter_reconciles(plan: &SubscriptionPlan, subs: &Vec<Subscription>) -> (r: bool)
    ensures
        r == (plan.current_subscribers as nat == active_count(subs@, plan.creator, plan.plan_id)),
{
    let n = count_active_subscriptions(subs, &plan.creator, plan.plan_id);
    n == plan.current_subscribers as usize
}

} // verus!
