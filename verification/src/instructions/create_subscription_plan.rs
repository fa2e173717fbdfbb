use crate::errors::SubscriptionsDappError;
use crate::state::{CreatorProfile, PlanView, Wallet};
use crate::text::{byte_len, byte_length, is_blank, trimmed};
use vstd::prelude::*;

verus! {

/// What publishing a plan touches: the account of the party that publishes
/// it. The record of the plan is what publishing gives; where it is kept, and
/// that nothing is kept there yet, is for the ledger to see to.
#[derive(Clone, Copy, Debug, PartialEq, Eq)]
pub struct CreateSubscriptionPlan {
    /// The party that publishes the plan, and pays for keeping its record.
    /// Whoever hands it in has seen to it that this party authorized the
    /// call.
    pub creator: Wallet,
}

/// Why a plan with these terms is refused, if it is: the first of the
/// conditions, in this order, that is not met.
///
/// The price is not zero, and not above the highest price. The duration is
/// not zero days, and not above the longest duration. Something is left of
/// the name once the whitespace round it is taken away. The name as given,
/// untrimmed, takes no more bytes than a name may.
pub open spec fn terms_refusal(name: Seq<char>, price: u64, duration_days: u32) -> Option<
    SubscriptionsDappError,
> {
    if price == 0 {
        Some(SubscriptionsDappError::InvalidPrice)
    } else if price > crate::MAX_PLAN_PRICE {
        Some(SubscriptionsDappError::PriceTooHigh)
    } else if duration_days == 0 {
        Some(SubscriptionsDappError::InvalidDuration)
    } else if duration_days > crate::MAX_DURATION_DAYS {
        Some(SubscriptionsDappError::DurationTooLong)
    } else if trimmed(name).len() == 0 {
        Some(SubscriptionsDappError::EmptyPlanName)
    } else if byte_len(name) > crate::MAX_PLAN_NAME_LEN {
        Some(SubscriptionsDappError::PlanNameTooLong)
    } else {
        None
    }
}

impl CreateSubscriptionPlan {
    /// What publishing a plan of `creator` touches.
    pub fn new(creator: Wallet) -> (ctx: CreateSubscriptionPlan)
        ensures
            ctx.creator == creator,
    {
        CreateSubscriptionPlan { creator }
    }

    /// Why publishing a plan with these terms is refused, if it is: what
    /// [`terms_refusal`] finds, or else that the creator cannot pay `rent`,
    /// the cost of keeping the plan record.
    pub open spec fn refusal(
        self,
        name: Seq<char>,
        price: u64,
        duration_days: u32,
        rent: u64,
    ) -> Option<SubscriptionsDappError> {
        if terms_refusal(name, price, duration_days) is Some {
            terms_refusal(name, price, duration_days)
        } else if self.creator.balance < rent {
            Some(SubscriptionsDappError::InsufficientFundsToCreatePlan)
        } else {
            None
        }
    }

    /// The plan that the creator publishes with these terms at `now`.
    pub open spec fn published(
        self,
        plan_id: u64,
        name: Seq<char>,
        price: u64,
        duration_days: u32,
        now: i64,
    ) -> PlanView {
        PlanView {
            creator: self.creator.key@,
            plan_id,
            name,
            price: price as nat,
            duration_days: duration_days as nat,
            created_at: now as int,
        }
    }
}

/// Checks the terms of a plan: price, duration and name, in this order.
pub fn check_terms(name: &str, price: u64, duration_days: u32) -> (r: Result<
    (),
    SubscriptionsDappError,
>)
    ensures
        match terms_refusal(name@, price, duration_days) {
            Some(e) => r == Err::<(), SubscriptionsDappError>(e),
            None => r is Ok,
        },
{
    if price == 0 {
        return Err(SubscriptionsDappError::InvalidPrice);
    }
    if price > crate::MAX_PLAN_PRICE {
        return Err(SubscriptionsDappError::PriceTooHigh);
    }
    if duration_days == 0 {
        return Err(SubscriptionsDappError::InvalidDuration);
    }
    if duration_days > crate::MAX_DURATION_DAYS {
        return Err(SubscriptionsDappError::DurationTooLong);
    }
    if is_blank(name) {
        return Err(SubscriptionsDappError::EmptyPlanName);
    }
    if byte_length(name) > crate::MAX_PLAN_NAME_LEN {
        return Err(SubscriptionsDappError::PlanNameTooLong);
    }
    Ok(())
}

/// Publishes a plan: checks its terms and that the creator can pay
/// `required_rent` for keeping the record, and gives the record, stamped
/// with `now`. No value moves, and no record that exists is touched.
///
/// It succeeds exactly where [`CreateSubscriptionPlan::refusal`] finds
/// nothing, and then gives the plan that
/// [`CreateSubscriptionPlan::published`] says, which meets the invariant of
/// plans.
pub fn _create_subscription_plan(
    ctx: &CreateSubscriptionPlan,
    plan_id: u64,
    name: String,
    price: u64,
    duration_days: u32,
    required_rent: u64,
    now: i64,
) -> (r: Result<CreatorProfile, SubscriptionsDappError>)
    ensures
        match ctx.refusal(name@, price, duration_days, required_rent) {
            Some(e) => r == Err::<CreatorProfile, SubscriptionsDappError>(e),
            None => {
                &&& r is Ok
                &&& r->Ok_0@ == ctx.published(plan_id, name@, price, duration_days, now)
                &&& r->Ok_0@.well_formed()
            },
        },
{
    check_terms(name.as_str(), price, duration_days)?;
    if ctx.creator.balance < required_rent {
        return Err(SubscriptionsDappError::InsufficientFundsToCreatePlan);
    }
    Ok(CreatorProfile {
        creator: ctx.creator.key,
        plan_id,
        name,
        price,
        duration_days,
        created_at: now,
    })
}

} // verus!
