//! The events that successful operations append to the log, one each.
use vstd::prelude::*;
use crate::key::Key;

verus! {

#[derive(Clone, Copy, Debug)]
pub struct SubscriptionPlanCreated {
    pub creator: Key,
    pub plan_id: u64,
    pub price: u64,
    pub interval_seconds: i64,
    pub timestamp: i64,
}

#[derive(Clone, Copy, Debug)]
pub struct SubscriptionCreated {
    pub subscriber: Key,
    pub creator: Key,
    pub plan_id: u64,
    pub timestamp: i64,
}

#[derive(Clone, Copy, Debug)]
pub struct PaymentProcessed {
    pub subscriber: Key,
    pub creator: Key,
    pub plan_id: u64,
    pub amount: u64,
    pub payment_number: u64,
    pub timestamp: i64,
}

#[derive(Clone, Copy, Debug)]
pub struct SubscriptionCancelled {
    pub subscriber: Key,
    pub creator: Key,
    pub plan_id: u64,
    pub timestamp: i64,
}

#[derive(Clone, Copy, Debug)]
pub struct SubscriptionPlanUpdated {
    pub creator: Key,
    pub plan_id: u64,
    pub timestamp: i64,
}

#[derive(Clone, Copy, Debug)]
pub struct SubscriptionPlanPaused {
    pub creator: Key,
    pub plan_id: u64,
    pub timestamp: i64,
}

#[derive(Clone, Copy, Debug)]
pub struct SubscriptionPlanUnpaused {
    pub creator: Key,
    pub plan_id: u64,
    pub timestamp: i64,
}

#[derive(Clone, Copy, Debug)]
pub struct SubscriptionPlanDeactivated {
    pub creator: Key,
    pub plan_id: u64,
    pub timestamp: i64,
}

} // verus!
