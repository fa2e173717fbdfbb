use crate::arith::{checked_add_u64, expiry, expiry_time, required_balance, total_required};
use crate::errors::SubscriptionsDappError;
use crate::state::{CreatorProfile, Subscription, SubscriptionView, Wallet};
use vstd::prelude::*;

verus! {

/// What taking a subscription touches: the plan, which is only read, and the
/// two accounts between which the price moves. The record of the
/// subscription is what subscribing gives; where it is kept, and that
/// nothing is kept there yet, is for the ledger to see to.
#[derive(Clone, Debug, PartialEq, Eq)]
pub struct Subscribe {
    /// The plan subscribed to.
    pub creator_profile: CreatorProfile,
    /// The party that subscribes, and pays. Whoever hands it in has seen to
    /// it that this party authorized the call.
    pub subscriber: Wallet,
    /// The account that is paid. It must be that of the plan's creator.
    pub creator_account: Wallet,
}

impl Subscribe {
    /// What taking a subscription to `creator_profile` touches, where
    /// `subscriber` subscribes and `creator_account` is to be paid.
    pub fn new(creator_profile: CreatorProfile, subscriber: Wallet, creator_account: Wallet) -> (ctx:
        Subscribe)
        ensures
            ctx.creator_profile == creator_profile,
            ctx.subscriber == subscriber,
            ctx.creator_account == creator_account,
    {
        Subscribe { creator_profile, subscriber, creator_account }
    }

    /// Why subscribing is refused, if it is: the first of the conditions, in
    /// this order, that is not met. `rent` is what keeping the subscription
    /// record costs, `now` the time.
    ///
    /// The subscriber is not the plan's creator. The account to be paid is
    /// the creator's. Price, rent and fee reserve together fit an amount, and
    /// the subscriber holds as much. The account to be paid can take the
    /// price. The moment at which the subscription runs out fits a time.
    pub open spec fn refusal(self, rent: u64, now: i64) -> Option<SubscriptionsDappError> {
        let plan = self.creator_profile@;
        let needed = total_required(plan.price as int, rent as int);
        if self.subscriber.key@ == plan.creator {
            Some(SubscriptionsDappError::CannotSubscribeToOwnPlan)
        } else if self.creator_account.key@ != plan.creator {
            Some(SubscriptionsDappError::CreatorMismatch)
        } else if needed > u64::MAX {
            Some(SubscriptionsDappError::MathOverflow)
        } else if self.subscriber.balance < needed {
            Some(SubscriptionsDappError::InsufficientFunds)
        } else if self.creator_account.balance + plan.price > u64::MAX {
            Some(SubscriptionsDappError::MathOverflow)
        } else if expiry(now as int, plan.duration_days as int) > i64::MAX {
            Some(SubscriptionsDappError::MathOverflow)
        } else {
            None
        }
    }

    /// What paying for a subscription leaves of `before`: the plan as it
    /// was, and the plan's price moved from the subscriber to the creator's
    /// account.
    pub open spec fn paid_from(self, before: Subscribe) -> bool {
        let price = before.creator_profile.price;
        &&& self.creator_profile == before.creator_profile
        &&& self.subscriber.key == before.subscriber.key
        &&& self.subscriber.balance == before.subscriber.balance - price
        &&& self.creator_account.key == before.creator_account.key
        &&& self.creator_account.balance == before.creator_account.balance + price
    }

    /// The subscription that the subscriber takes at `now`.
    pub open spec fn taken(self, now: i64) -> SubscriptionView {
        SubscriptionView::taken(self.subscriber.key@, self.creator_profile@, now as int)
    }
}

/// Takes a subscription: checks that the subscriber may and can subscribe,
/// moves the plan's price from the subscriber to the creator's account, and
/// gives the record of the subscription, which runs from `now` for the
/// plan's duration. `subscription_rent` is what keeping the record costs. No
/// record that exists is touched.
///
/// It succeeds exactly where [`Subscribe::refusal`] finds nothing; it then
/// gives the subscription that [`Subscribe::taken`] says and leaves what
/// [`Subscribe::paid_from`] says. Where it fails, nothing has changed.
pub fn _subscribe(ctx: &mut Subscribe, subscription_rent: u64, now: i64) -> (r: Result<
    Subscription,
    SubscriptionsDappError,
>)
    ensures
        match old(ctx).refusal(subscription_rent, now) {
            Some(e) => r == Err::<Subscription, SubscriptionsDappError>(e) && *final(ctx) == *old(
                ctx,
            ),
            None => {
                &&& r is Ok
                &&& r->Ok_0@ == old(ctx).taken(now)
                &&& final(ctx).paid_from(*old(ctx))
            },
        },
{
    if ctx.subscriber.key == ctx.creator_profile.creator {
        return Err(SubscriptionsDappError::CannotSubscribeToOwnPlan);
    }
    if ctx.creator_account.key != ctx.creator_profile.creator {
        return Err(SubscriptionsDappError::CreatorMismatch);
    }
    let price: u64 = ctx.creator_profile.price;
    let needed: u64 = required_balance(price, subscription_rent)?;
    if ctx.subscriber.balance < needed {
        return Err(SubscriptionsDappError::InsufficientFunds);
    }
    let credited: u64 = checked_add_u64(ctx.creator_account.balance, price)?;
    let expires_at: i64 = expiry_time(now, ctx.creator_profile.duration_days)?;

    ctx.subscriber.balance = ctx.subscriber.balance - price;
    ctx.creator_account.balance = credited;
    Ok(
        Subscription {
            subscriber: ctx.subscriber.key,
            creator: ctx.creator_account.key,
            plan_id: ctx.creator_profile.plan_id,
            created_at: now,
            expires_at,
        },
    )
}

} // verus!
