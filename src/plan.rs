//! Plans: billable offerings published by one authority (the creator), and
//! the operations by which the creator configures them.
use vstd::prelude::*;
use crate::key::Key;
use crate::error::{outcome_matches, ErrorCode};
use crate::events::{
    SubscriptionPlanCreated, SubscriptionPlanDeactivated, SubscriptionPlanPaused,
    SubscriptionPlanUnpaused, SubscriptionPlanUpdated,
};
use crate::address::{check_new_record_address, is_fresh_address, plan_seeds, PLAN_SEED};
use crate::guard::{check_plan_authority, plan_authority_check};

verus! {

/// The shortest billing interval, in seconds.
pub const MIN_INTERVAL_SECONDS: i64 = 60;

/// The longest metadata URI, in bytes.
pub const MAX_METADATA_URI_LEN: usize = 200;

/// The length of a string in bytes, as `str::len` gives it.
pub open spec fn byte_len(s: Seq<char>) -> usize {
    vstd::utf8::encode_utf8(s).len() as usize
}

#[derive(Clone, Debug)]
pub struct SubscriptionPlan {
    /// The authority that created the plan and alone administers it.
    pub creator: Key,
    /// Identifies the plan among those of its creator.
    pub plan_id: u64,
    /// Price per billing cycle, in the smallest unit of the currency.
    pub price: u64,
    /// Billing interval in seconds.
    pub interval_seconds: i64,
    /// Most subscribers that the plan admits.
    pub max_subscribers: u32,
    /// Subscribers now enrolled.
    pub current_subscribers: u32,
    /// False once the plan is deactivated, for good.
    pub is_active: bool,
    /// Whether the plan is paused: no enrollments and no charges.
    pub is_paused: bool,
    /// URI of the plan's metadata.
    pub metadata_uri: String,
    /// Creation time.
    pub created_at: i64,
    /// Salt of the plan's derived address.
    pub bump: u8,
}

impl SubscriptionPlan {
    /// The invariant of every plan record.
    pub open spec fn wf(&self) -> bool {
        &&& self.price > 0
        &&& self.interval_seconds >= MIN_INTERVAL_SECONDS
        &&& self.max_subscribers > 0
        &&& self.current_subscribers <= self.max_subscribers
        &&& byte_len(self.metadata_uri@) <= MAX_METADATA_URI_LEN
    }
}

/// What every operation keeps of a plan: its invariant, its identity, and
/// deactivation, which is never undone.
pub open spec fn plan_evolves(p: SubscriptionPlan, q: SubscriptionPlan) -> bool {
    &&& p.wf() ==> q.wf()
    &&& !p.is_active ==> !q.is_active
    &&& q.creator == p.creator
    &&& q.plan_id == p.plan_id
    &&& q.created_at == p.created_at
    &&& q.bump == p.bump
}

/// A plan that starts out well formed stays so along any sequence of
/// operations: in particular its subscriber count never exceeds its maximum.
pub proof fn lemma_invariant_along_history(states: Seq<SubscriptionPlan>)
    requires
        states.len() > 0,
        states[0].wf(),
        forall|i: int| 0 <= i < states.len() - 1 ==> #[trigger] plan_evolves(states[i], states[i + 1]),
    ensures
        forall|i: int| 0 <= i < states.len() ==> (#[trigger] states[i]).wf(),
        forall|i: int| 0 <= i < states.len() ==> #[trigger] states[i].current_subscribers <= states[i].max_subscribers,
    decreases states.len(),
{
    if states.len() > 1 {
        let prefix = states.drop_last();
        assert forall|i: int| 0 <= i < prefix.len() - 1 implies #[trigger] plan_evolves(prefix[i], prefix[i + 1]) by {
            assert(prefix[i] == states[i]);
            assert(prefix[i + 1] == states[i + 1]);
            assert(plan_evolves(states[i], states[i + 1]));
        }
        lemma_invariant_along_history(prefix);
        let n = states.len() - 2;
        assert(plan_evolves(states[n], states[n + 1]));
        assert(prefix[n] == states[n]);
        assert forall|i: int| 0 <= i < states.len() implies (#[trigger] states[i]).wf() by {
            if i < states.len() - 1 {
                assert(prefix[i].wf());
            }
        }
    }
}

/// Deactivation is final: once a plan is inactive, no sequence of operations
/// makes it active again.
pub proof fn lemma_deactivation_is_final(states: Seq<SubscriptionPlan>)
    requires
        states.len() > 0,
        !states[0].is_active,
        forall|i: int| 0 <= i < states.len() - 1 ==> #[trigger] plan_evolves(states[i], states[i + 1]),
    ensures
        forall|i: int| 0 <= i < states.len() ==> !(#[trigger] states[i]).is_active,
    decreases states.len(),
{
    if states.len() > 1 {
        let prefix = states.drop_last();
        assert forall|i: int| 0 <= i < prefix.len() - 1 implies #[trigger] plan_evolves(prefix[i], prefix[i + 1]) by {
            assert(prefix[i] == states[i]);
            assert(prefix[i + 1] == states[i + 1]);
            assert(plan_evolves(states[i], states[i + 1]));
        }
        lemma_deactivation_is_final(prefix);
        let n = states.len() - 2;
        assert(plan_evolves(states[n], states[n + 1]));
        assert(prefix[n] == states[n]);
        assert forall|i: int| 0 <= i < states.len() implies !(#[trigger] states[i]).is_active by {
            if i < states.len() - 1 {
                assert(!prefix[i].is_active);
            }
        }
    }
}

/// The first parameter that a plan may not have, in the order in which they
/// are checked.
pub open spec fn plan_params_check(price: u64, interval_seconds: i64, max_subscribers: u32, uri: Seq<char>)
    -> Result<(), ErrorCode> {
    if price == 0 {
        Err(ErrorCode::InvalidPrice)
    } else if interval_seconds < MIN_INTERVAL_SECONDS {
        Err(ErrorCode::IntervalTooShort)
    } else if max_subscribers == 0 {
        Err(ErrorCode::InvalidMaxSubscribers)
    } else if byte_len(uri) > MAX_METADATA_URI_LEN {
        Err(ErrorCode::MetadataUriTooLong)
    } else {
        Ok(())
    }
}

fn uri_len(uri: &String) -> (r: usize)
    ensures
        r == byte_len(uri@),
{
    uri.as_str().len()
}

/// The accounts of a plan's creation.
#[derive(Clone, Copy, Debug)]
pub struct CreateSubscriptionPlan {
    /// The engine's program identifier, under which addresses are derived.
    pub program_id: Key,
    /// The address presented for the new plan.
    pub subscription_plan: Key,
    /// The signing creator.
    pub creator: Key,
}

/// The accounts of an operation of a plan's creator on the plan.
#[derive(Clone, Debug)]
pub struct PlanAuthority {
    pub program_id: Key,
    /// The address of the plan record.
    pub subscription_plan_address: Key,
    /// The plan record.
    pub subscription_plan: SubscriptionPlan,
    /// The signer, who must be the plan's creator.
    pub creator: Key,
}

pub type UpdateSubscriptionPlan = PlanAuthority;

pub type PausePlan = PlanAuthority;

pub type UnpausePlan = PlanAuthority;

pub type DeactivatePlan = PlanAuthority;

pub open spec fn authority_check(ctx: PlanAuthority, plan_id: u64) -> Result<(), ErrorCode> {
    plan_authority_check(
        ctx.subscription_plan_address,
        ctx.subscription_plan.creator,
        ctx.subscription_plan.bump,
        ctx.creator,
        plan_id,
        ctx.program_id,
    )
}

fn check_authority(ctx: &PlanAuthority, plan_id: u64) -> (r: Result<(), ErrorCode>)
    ensures
        r == authority_check(*ctx, plan_id),
{
    check_plan_authority(
        &ctx.subscription_plan_address,
        &ctx.subscription_plan.creator,
        ctx.subscription_plan.bump,
        &ctx.creator,
        plan_id,
        &ctx.program_id,
    )
}

/// Publishes a new plan at time `now`, with no subscribers, active and not
/// paused.
pub fn create_subscription_plan(
    ctx: &CreateSubscriptionPlan,
    plan_id: u64,
    price: u64,
    interval_seconds: i64,
    max_subscribers: u32,
    metadata_uri: String,
    now: i64,
) -> (r: Result<(SubscriptionPlan, SubscriptionPlanCreated), ErrorCode>)
    ensures
        (forall|b: u8| !is_fresh_address(plan_seeds(ctx.creator@, plan_id), ctx.program_id, ctx.subscription_plan, b))
            ==> r == Err::<(SubscriptionPlan, SubscriptionPlanCreated), ErrorCode>(ErrorCode::AddressMismatch),
        (exists|b: u8| is_fresh_address(plan_seeds(ctx.creator@, plan_id), ctx.program_id, ctx.subscription_plan, b))
            ==> outcome_matches(r, plan_params_check(price, interval_seconds, max_subscribers, metadata_uri@)),
        r matches Ok((p, ev)) ==> {
            &&& is_fresh_address(plan_seeds(ctx.creator@, plan_id), ctx.program_id, ctx.subscription_plan, p.bump)
            &&& p.wf()
            &&& p.creator == ctx.creator
            &&& p.plan_id == plan_id
            &&& p.price == price
            &&& p.interval_seconds == interval_seconds
            &&& p.max_subscribers == max_subscribers
            &&& p.current_subscribers == 0
            &&& p.is_active
            &&& !p.is_paused
            &&& p.metadata_uri@ == metadata_uri@
            &&& p.created_at == now
            &&& ev.creator == ctx.creator
            &&& ev.plan_id == plan_id
            &&& ev.price == price
            &&& ev.interval_seconds == interval_seconds
            &&& ev.timestamp == now
        },
{
    let bump = check_new_record_address(&ctx.subscription_plan, PLAN_SEED, &ctx.creator, plan_id, &ctx.program_id)?;
    assert(is_fresh_address(plan_seeds(ctx.creator@, plan_id), ctx.program_id, ctx.subscription_plan, bump));
    if price == 0 {
        return Err(ErrorCode::InvalidPrice);
    }
    if interval_seconds < MIN_INTERVAL_SECONDS {
        return Err(ErrorCode::IntervalTooShort);
    }
    if max_subscribers == 0 {
        return Err(ErrorCode::InvalidMaxSubscribers);
    }
    if uri_len(&metadata_uri) > MAX_METADATA_URI_LEN {
        return Err(ErrorCode::MetadataUriTooLong);
    }
    let plan = SubscriptionPlan {
        creator: ctx.creator,
        plan_id,
        price,
        interval_seconds,
        max_subscribers,
        current_subscribers: 0,
        is_active: true,
        is_paused: false,
        metadata_uri,
        created_at: now,
        bump,
    };
    let event = SubscriptionPlanCreated {
        creator: ctx.creator,
        plan_id,
        price,
        interval_seconds,
        timestamp: now,
    };
    Ok((plan, event))
}

/// The first of the requested changes that the plan may not take, in the
/// order in which they are checked.
pub open spec fn update_check(
    plan: SubscriptionPlan,
    new_price: Option<u64>,
    new_interval: Option<i64>,
    new_max_subscribers: Option<u32>,
    new_metadata_uri: Option<String>,
) -> Result<(), ErrorCode> {
    if new_price matches Some(p) && p == 0 {
        Err(ErrorCode::InvalidPrice)
    } else if new_interval matches Some(i) && i < MIN_INTERVAL_SECONDS {
        Err(ErrorCode::IntervalTooShort)
    } else if new_max_subscribers matches Some(m) && m == 0 {
        Err(ErrorCode::InvalidMaxSubscribers)
    } else if new_max_subscribers matches Some(m) && m < plan.current_subscribers {
        Err(ErrorCode::MaxSubscribersTooLow)
    } else if new_metadata_uri matches Some(u) && byte_len(u@) > MAX_METADATA_URI_LEN {
        Err(ErrorCode::MetadataUriTooLong)
    } else {
        Ok(())
    }
}

/// The plan with each requested change applied and every other field kept.
pub open spec fn updated_plan(
    plan: SubscriptionPlan,
    new_price: Option<u64>,
    new_interval: Option<i64>,
    new_max_subscribers: Option<u32>,
    new_metadata_uri: Option<String>,
) -> SubscriptionPlan {
    SubscriptionPlan {
        price: match new_price { Some(p) => p, None => plan.price },
        interval_seconds: match new_interval { Some(i) => i, None => plan.interval_seconds },
        max_subscribers: match new_max_subscribers { Some(m) => m, None => plan.max_subscribers },
        metadata_uri: match new_metadata_uri { Some(u) => u, None => plan.metadata_uri },
        ..plan
    }
}

/// Changes the parameters of a plan, all together or none. A change of
/// price applies to the next charge of every subscriber.
pub fn update_subscription_plan(
    ctx: &mut UpdateSubscriptionPlan,
    plan_id: u64,
    new_price: Option<u64>,
    new_interval: Option<i64>,
    new_max_subscribers: Option<u32>,
    new_metadata_uri: Option<String>,
    now: i64,
) -> (r: Result<SubscriptionPlanUpdated, ErrorCode>)
    ensures
        match authority_check(*old(ctx), plan_id) {
            Err(e) => r == Err::<SubscriptionPlanUpdated, ErrorCode>(e),
            Ok(()) => outcome_matches(
                r,
                update_check(old(ctx).subscription_plan, new_price, new_interval, new_max_subscribers, new_metadata_uri),
            ),
        },
        r is Ok ==> final(ctx).subscription_plan == updated_plan(
            old(ctx).subscription_plan, new_price, new_interval, new_max_subscribers, new_metadata_uri),
        r is Err ==> *final(ctx) == *old(ctx),
        final(ctx).program_id == old(ctx).program_id,
        final(ctx).subscription_plan_address == old(ctx).subscription_plan_address,
        final(ctx).creator == old(ctx).creator,
        plan_evolves(old(ctx).subscription_plan, final(ctx).subscription_plan),
        r matches Ok(ev) ==> ev.creator == old(ctx).subscription_plan.creator && ev.plan_id == plan_id
            && ev.timestamp == now,
{
    check_authority(ctx, plan_id)?;
    if let Some(p) = new_price {
        if p == 0 {
            return Err(ErrorCode::InvalidPrice);
        }
    }
    if let Some(i) = new_interval {
        if i < MIN_INTERVAL_SECONDS {
            return Err(ErrorCode::IntervalTooShort);
        }
    }
    if let Some(m) = new_max_subscribers {
        if m == 0 {
            return Err(ErrorCode::InvalidMaxSubscribers);
        }
        if m < ctx.subscription_plan.current_subscribers {
            return Err(ErrorCode::MaxSubscribersTooLow);
        }
    }
    if let Some(u) = &new_metadata_uri {
        if uri_len(u) > MAX_METADATA_URI_LEN {
            return Err(ErrorCode::MetadataUriTooLong);
        }
    }
    if let Some(p) = new_price {
        ctx.subscription_plan.price = p;
    }
    if let Some(i) = new_interval {
        ctx.subscription_plan.interval_seconds = i;
    }
    if let Some(m) = new_max_subscribers {
        ctx.subscription_plan.max_subscribers = m;
    }
    if let Some(u) = new_metadata_uri {
        ctx.subscription_plan.metadata_uri = u;
    }
    Ok(SubscriptionPlanUpdated { creator: ctx.subscription_plan.creator, plan_id, timestamp: now })
}

/// Pauses a plan: no enrollments and no charges until it is unpaused.
pub fn pause_plan(ctx: &mut PausePlan, plan_id: u64, now: i64) -> (r: Result<SubscriptionPlanPaused, ErrorCode>)
    ensures
        match authority_check(*old(ctx), plan_id) {
            Err(e) => r == Err::<SubscriptionPlanPaused, ErrorCode>(e),
            Ok(()) => if old(ctx).subscription_plan.is_paused {
                r == Err::<SubscriptionPlanPaused, ErrorCode>(ErrorCode::PlanAlreadyPaused)
            } else {
                r is Ok
            },
        },
        r is Ok ==> final(ctx).subscription_plan == (SubscriptionPlan { is_paused: true, ..old(ctx).subscription_plan }),
        r is Err ==> *final(ctx) == *old(ctx),
        final(ctx).program_id == old(ctx).program_id,
        final(ctx).subscription_plan_address == old(ctx).subscription_plan_address,
        final(ctx).creator == old(ctx).creator,
        plan_evolves(old(ctx).subscription_plan, final(ctx).subscription_plan),
        r matches Ok(ev) ==> ev.creator == old(ctx).subscription_plan.creator
            && ev.plan_id == old(ctx).subscription_plan.plan_id && ev.timestamp == now,
{
    check_authority(ctx, plan_id)?;
    if ctx.subscription_plan.is_paused {
        return Err(ErrorCode::PlanAlreadyPaused);
    }
    ctx.subscription_plan.is_paused = true;
    Ok(SubscriptionPlanPaused {
        creator: ctx.subscription_plan.creator,
        plan_id: ctx.subscription_plan.plan_id,
        timestamp: now,
    })
}

/// Lifts the pause of a plan.
pub fn unpause_plan(ctx: &mut UnpausePlan, plan_id: u64, now: i64) -> (r: Result<SubscriptionPlanUnpaused, ErrorCode>)
    ensures
        match authority_check(*old(ctx), plan_id) {
            Err(e) => r == Err::<SubscriptionPlanUnpaused, ErrorCode>(e),
            Ok(()) => if !old(ctx).subscription_plan.is_paused {
                r == Err::<SubscriptionPlanUnpaused, ErrorCode>(ErrorCode::PlanNotPaused)
            } else {
                r is Ok
            },
        },
        r is Ok ==> final(ctx).subscription_plan == (SubscriptionPlan { is_paused: false, ..old(ctx).subscription_plan }),
        r is Err ==> *final(ctx) == *old(ctx),
        final(ctx).program_id == old(ctx).program_id,
        final(ctx).subscription_plan_address == old(ctx).subscription_plan_address,
        final(ctx).creator == old(ctx).creator,
        plan_evolves(old(ctx).subscription_plan, final(ctx).subscription_plan),
        r matches Ok(ev) ==> ev.creator == old(ctx).subscription_plan.creator
            && ev.plan_id == old(ctx).subscription_plan.plan_id && ev.timestamp == now,
{
    check_authority(ctx, plan_id)?;
    if !ctx.subscription_plan.is_paused {
        return Err(ErrorCode::PlanNotPaused);
    }
    ctx.subscription_plan.is_paused = false;
    Ok(SubscriptionPlanUnpaused {
        creator: ctx.subscription_plan.creator,
        plan_id: ctx.subscription_plan.plan_id,
        timestamp: now,
    })
}

/// Deactivates a plan for good: it takes no new subscribers and no charges.
pub fn deactivate_plan(ctx: &mut DeactivatePlan, plan_id: u64, now: i64) -> (r: Result<
    SubscriptionPlanDeactivated,
    ErrorCode,
>)
    ensures
        match authority_check(*old(ctx), plan_id) {
            Err(e) => r == Err::<SubscriptionPlanDeactivated, ErrorCode>(e),
            Ok(()) => if !old(ctx).subscription_plan.is_active {
                r == Err::<SubscriptionPlanDeactivated, ErrorCode>(ErrorCode::PlanAlreadyInactive)
            } else {
                r is Ok
            },
        },
        r is Ok ==> final(ctx).subscription_plan == (SubscriptionPlan { is_active: false, ..old(ctx).subscription_plan }),
        r is Err ==> *final(ctx) == *old(ctx),
        final(ctx).program_id == old(ctx).program_id,
        final(ctx).subscription_plan_address == old(ctx).subscription_plan_address,
        final(ctx).creator == old(ctx).creator,
        plan_evolves(old(ctx).subscription_plan, final(ctx).subscription_plan),
        r matches Ok(ev) ==> ev.creator == old(ctx).subscription_plan.creator
            && ev.plan_id == old(ctx).subscription_plan.plan_id && ev.timestamp == now,
{
    check_authority(ctx, plan_id)?;
    if !ctx.subscription_plan.is_active {
        return Err(ErrorCode::PlanAlreadyInactive);
    }
    ctx.subscription_plan.is_active = false;
    Ok(SubscriptionPlanDeactivated {
        creator: ctx.subscription_plan.creator,
        plan_id: ctx.subscription_plan.plan_id,
        timestamp: now,
    })
}

} // verus!
