use vstd::prelude::*;

verus! {

/// Every way in which an operation of the marketplace can end without effect.
///
/// Each variant is final for the invocation that met it: nothing is retried,
/// and the records and balances that the invocation touched are left as they
/// were.
#[derive(Clone, Copy, Debug, PartialEq, Eq, Structural)]
pub enum SubscriptionsDappError {
    /// An operation that needs a live subscription met one that has run out.
    SubscriptionExpired,
    /// The price of a plan is zero.
    InvalidPrice,
    /// The price of a plan is above [`crate::MAX_PLAN_PRICE`].
    PriceTooHigh,
    /// The duration of a plan is zero days.
    InvalidDuration,
    /// The duration of a plan is above [`crate::MAX_DURATION_DAYS`].
    DurationTooLong,
    /// The name of a plan holds nothing but whitespace.
    EmptyPlanName,
    /// The name of a plan is longer than [`crate::MAX_PLAN_NAME_LEN`] bytes.
    PlanNameTooLong,
    /// The creator cannot pay for the storage of the plan record.
    InsufficientFundsToCreatePlan,
    /// The subscriber is the creator of the plan.
    CannotSubscribeToOwnPlan,
    /// The subscriber cannot pay price, storage and fee reserve together.
    InsufficientFunds,
    /// The account to be paid is not that of the plan's creator.
    CreatorMismatch,
    /// A sum or product of amounts or of times does not fit its type.
    MathOverflow,
}

} // verus!
