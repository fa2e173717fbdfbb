use crate::state::Subscription;
use vstd::prelude::*;

verus! {

/// What asking after a subscription touches: the record, which is only read.
#[derive(Clone, Copy, Debug, PartialEq, Eq)]
pub struct CheckSubscription {
    /// The subscription asked after.
    pub subscription: Subscription,
}

impl CheckSubscription {
    /// What asking after `subscription` touches.
    pub fn new(subscription: Subscription) -> (ctx: CheckSubscription)
        ensures
            ctx.subscription == subscription,
    {
        CheckSubscription { subscription }
    }
}

/// Tells whether the subscription is live at the moment `now`: whether `now`
/// is before the moment at which it runs out.
pub fn _check_subscription(ctx: &CheckSubscription, now: i64) -> (active: bool)
    ensures
        active == ctx.subscription@.active_at(now as int),
{
    ctx.subscription.is_active(now)
}

} // verus!
