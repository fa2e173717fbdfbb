//! The rules of a subscription marketplace kept on a shared ledger: creators
//! publish plans, subscribers pay for subscriptions that last a fixed number of
//! days, and anyone may ask whether a subscription is still live.

use crate::errors::SubscriptionsDappError;
use crate::instructions::check_subscription::{CheckSubscription, _check_subscription};
use crate::instructions::create_subscription_plan::{
    CreateSubscriptionPlan, _create_subscription_plan,
};
use crate::instructions::subscribe::{Subscribe, _subscribe};
use crate::state::{CreatorProfile, Subscription};
use vstd::prelude::*;

pub mod address;
pub mod arith;
pub mod errors;
pub mod identity;
pub mod instructions;
pub mod laws;
pub mod state;
pub mod text;

verus! {

/// Largest price, in value units, that a plan may ask.
pub const MAX_PLAN_PRICE: u64 = 1_000_000_000_000;

/// Longest duration, in days, that a plan may run.
pub const MAX_DURATION_DAYS: u32 = 365;

/// Reserve that a subscriber must hold beyond price and rent.
pub const TRANSACTION_FEE_BUFFER: u64 = 10_000_000;

/// Longest name of a plan, in bytes.
pub const MAX_PLAN_NAME_LEN: usize = 200;

/// Publishes a plan of `ctx.creator` under the number `plan_id`, where
/// keeping its record costs `required_rent` and the time is `now`, and gives
/// the record of the plan.
pub fn create_subscription_plan(
    ctx: &CreateSubscriptionPlan,
    plan_id: u64,
    name: String,
    price: u64,
    duration_days: u32,
    required_rent: u64,
    now: i64,
) -> (r: Result<CreatorProfile, SubscriptionsDappError>)
    ensures
        match ctx.refusal(name@, price, duration_days, required_rent) {
            Some(e) => r == Err::<CreatorProfile, SubscriptionsDappError>(e),
            None => {
                &&& r is Ok
                &&& r->Ok_0@ == ctx.published(plan_id, name@, price, duration_days, now)
                &&& r->Ok_0@.well_formed()
            },
        },
{
    _create_subscription_plan(ctx, plan_id, name, price, duration_days, required_rent, now)
}

/// Subscribes `ctx.subscriber` to the plan `ctx.creator_profile`, where
/// keeping the subscription record costs `subscription_rent` and the time is
/// `now`: moves the price and gives the record of the subscription.
pub fn subscribe(ctx: &mut Subscribe, subscription_rent: u64, now: i64) -> (r: Result<
    Subscription,
    SubscriptionsDappError,
>)
    ensures
        match old(ctx).refusal(subscription_rent, now) {
            Some(e) => r == Err::<Subscription, SubscriptionsDappError>(e) && *final(ctx) == *old(
                ctx,
            ),
            None => {
                &&& r is Ok
                &&& r->Ok_0@ == old(ctx).taken(now)
                &&& final(ctx).paid_from(*old(ctx))
            },
        },
{
    _subscribe(ctx, subscription_rent, now)
}

/// Tells whether the subscription `ctx.subscription` is live at the moment
/// `now`.
pub fn check_subscription(ctx: &CheckSubscription, now: i64) -> (active: bool)
    ensures
        active == ctx.subscription@.active_at(now as int),
{
    _check_subscription(ctx, now)
}

} // verus!
