//! What holds of the operations together, proved from what they ensure.

use crate::address::{
    law_plan_seeds_injective, law_subscription_seeds_injective, seed_bytes, spec_plan_seeds,
    spec_subscription_seeds,
};
use crate::arith::{duration_seconds, expiry};
use crate::errors::SubscriptionsDappError;
use crate::instructions::create_subscription_plan::{terms_refusal, CreateSubscriptionPlan};
use crate::instructions::subscribe::Subscribe;
use crate::state::{CreatorProfile, Subscription};
use crate::text::{byte_len, trimmed};
use vstd::prelude::*;

verus! {

/// Terms within their bounds are accepted: a price from 1 to the highest
/// price, a duration from 1 day to the longest, and a name that is not blank
/// and takes no more bytes than a name may.
pub proof fn law_terms_within_bounds_accepted(name: Seq<char>, price: u64, duration_days: u32)
    requires
        0 < price <= crate::MAX_PLAN_PRICE,
        0 < duration_days <= crate::MAX_DURATION_DAYS,
        trimmed(name).len() > 0,
        byte_len(name) <= crate::MAX_PLAN_NAME_LEN,
    ensures
        terms_refusal(name, price, duration_days) is None,
{
}

/// A creator who can pay the rent publishes every plan whose terms are
/// accepted. The plan then has the seeds of that creator and that number,
/// and holds the creator and exactly the number, name, price and duration
/// that were given.
pub proof fn law_plan_published_as_given(
    ctx: CreateSubscriptionPlan,
    plan: CreatorProfile,
    plan_id: u64,
    name: Seq<char>,
    price: u64,
    duration_days: u32,
    rent: u64,
    now: i64,
)
    requires
        terms_refusal(name, price, duration_days) is None,
        ctx.creator.balance >= rent,
        plan@ == ctx.published(plan_id, name, price, duration_days, now),
    ensures
        ctx.refusal(name, price, duration_days, rent) is None,
        plan@.seeds() == spec_plan_seeds(ctx.creator.key@, plan_id),
        plan.creator == ctx.creator.key,
        plan.plan_id == plan_id,
        plan.name@ == name,
        plan.price == price,
        plan.duration_days == duration_days,
        plan.created_at == now,
        plan@.well_formed(),
{
    plan.creator.lemma_same_bytes(ctx.creator.key);
}

/// Plans have the same seed bytes exactly when they have the same creator
/// and the same number, whatever else they say. So a ledger that keeps one
/// record at most for given seeds keeps one plan at most of a creator under
/// a number: a second one can only meet the first, never another plan.
pub proof fn law_one_address_per_plan(a: CreatorProfile, b: CreatorProfile)
    ensures
        seed_bytes(a@.seeds()) == seed_bytes(b@.seeds()) <==> a.creator == b.creator && a.plan_id
            == b.plan_id,
{
    if seed_bytes(a@.seeds()) == seed_bytes(b@.seeds()) {
        law_plan_seeds_injective(a.creator, a.plan_id, b.creator, b.plan_id);
    }
}

/// Subscriptions have the same seed bytes exactly when they have the same
/// subscriber, the same creator and the same number. So a ledger that keeps
/// one record at most for given seeds keeps one subscription at most of a
/// subscriber to a plan.
pub proof fn law_one_address_per_subscription(a: Subscription, b: Subscription)
    ensures
        seed_bytes(a@.seeds()) == seed_bytes(b@.seeds()) <==> a.subscriber == b.subscriber
            && a.creator == b.creator && a.plan_id == b.plan_id,
{
    if seed_bytes(a@.seeds()) == seed_bytes(b@.seeds()) {
        law_subscription_seeds_injective(
            a.subscriber,
            a.creator,
            a.plan_id,
            b.subscriber,
            b.creator,
            b.plan_id,
        );
    }
}

/// Nobody subscribes to a plan of their own.
pub proof fn law_own_plan_refused(ctx: Subscribe, rent: u64, now: i64)
    requires
        ctx.subscriber.key == ctx.creator_profile.creator,
    ensures
        ctx.refusal(rent, now) == Some(SubscriptionsDappError::CannotSubscribeToOwnPlan),
{
}

/// Payment goes to the plan's creator and to nobody else.
pub proof fn law_other_payee_refused(ctx: Subscribe, rent: u64, now: i64)
    requires
        ctx.subscriber.key != ctx.creator_profile.creator,
        ctx.creator_account.key != ctx.creator_profile.creator,
    ensures
        ctx.refusal(rent, now) == Some(SubscriptionsDappError::CreatorMismatch),
{
    ctx.subscriber.key.lemma_same_bytes(ctx.creator_profile.creator);
    ctx.creator_account.key.lemma_same_bytes(ctx.creator_profile.creator);
}

/// A subscriber who holds less than price, rent and fee reserve together is
/// refused for want of funds, where the subscriber is not the creator, the
/// account to be paid is the creator's, and that sum fits.
pub proof fn law_short_of_funds_refused(ctx: Subscribe, rent: u64, now: i64)
    requires
        ctx.subscriber.key != ctx.creator_profile.creator,
        ctx.creator_account.key == ctx.creator_profile.creator,
        ctx.creator_profile.price + rent + 10_000_000 <= u64::MAX,
        ctx.subscriber.balance < ctx.creator_profile.price + rent + 10_000_000,
    ensures
        ctx.refusal(rent, now) == Some(SubscriptionsDappError::InsufficientFunds),
{
    ctx.subscriber.key.lemma_same_bytes(ctx.creator_profile.creator);
}

/// A subscriber who holds exactly price, rent and fee reserve together, or
/// more, subscribes, where the subscriber is not the creator, the account to
/// be paid is the creator's and can take the price, and the subscription runs
/// out at a time that fits.
pub proof fn law_enough_funds_accepted(ctx: Subscribe, rent: u64, now: i64)
    requires
        ctx.subscriber.key != ctx.creator_profile.creator,
        ctx.creator_account.key == ctx.creator_profile.creator,
        ctx.subscriber.balance >= ctx.creator_profile.price + rent + 10_000_000,
        ctx.creator_account.balance + ctx.creator_profile.price <= u64::MAX,
        expiry(now as int, ctx.creator_profile.duration_days as int) <= i64::MAX,
    ensures
        ctx.refusal(rent, now) is None,
{
    ctx.subscriber.key.lemma_same_bytes(ctx.creator_profile.creator);
}

/// A subscription moves exactly the plan's price: the creator's account
/// gains it, the subscriber loses it, together they hold what they held, and
/// the plan is as it was.
pub proof fn law_price_moves(before: Subscribe, after: Subscribe)
    requires
        after.paid_from(before),
    ensures
        after.creator_account.balance == before.creator_account.balance
            + before.creator_profile.price,
        after.subscriber.balance == before.subscriber.balance - before.creator_profile.price,
        after.subscriber.balance + after.creator_account.balance == before.subscriber.balance
            + before.creator_account.balance,
        after.creator_profile == before.creator_profile,
{
}

/// A subscription names its subscriber and the plan that was paid for, has
/// the seeds of that subscriber and that plan, and lasts the plan's
/// duration, day for day.
pub proof fn law_subscription_follows_plan(ctx: Subscribe, subscription: Subscription, now: i64)
    requires
        subscription@ == ctx.taken(now),
    ensures
        subscription@.seeds() == spec_subscription_seeds(
            ctx.subscriber.key@,
            ctx.creator_profile.creator@,
            ctx.creator_profile.plan_id,
        ),
        subscription.subscriber == ctx.subscriber.key,
        subscription.creator == ctx.creator_profile.creator,
        subscription.plan_id == ctx.creator_profile.plan_id,
        subscription.created_at == now,
        subscription.expires_at - subscription.created_at == duration_seconds(
            ctx.creator_profile.duration_days as int,
        ),
{
    subscription.subscriber.lemma_same_bytes(ctx.subscriber.key);
    subscription.creator.lemma_same_bytes(ctx.creator_profile.creator);
}

/// A subscription to a plan of at least one day is live at the moment it is
/// taken, and at any moment it is live exactly while the plan's duration has
/// not passed since: it is over once the time has reached the moment of
/// subscribing and 86 400 seconds for each day of the plan.
pub proof fn law_live_until_expiry(ctx: Subscribe, subscription: Subscription, now: i64, later: i64)
    requires
        ctx.creator_profile.duration_days > 0,
        subscription@ == ctx.taken(now),
    ensures
        subscription@.active_at(now as int),
        subscription@.active_at(later as int) <==> later < subscription.created_at
            + ctx.creator_profile.duration_days * 86_400,
{
}

} // verus!
