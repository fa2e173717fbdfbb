use crate::address::{
    derived_address, plan_address, spec_plan_seeds, spec_subscription_seeds, subscription_address,
};
use crate::arith::expiry;
use crate::identity::Identity;
use crate::text::{byte_len, trimmed};
use vstd::prelude::*;

verus! {

/// What a plan record says, as mathematical values.
pub struct PlanView {
    pub creator: Seq<u8>,
    pub plan_id: u64,
    pub name: Seq<char>,
    pub price: nat,
    pub duration_days: nat,
    pub created_at: int,
}

impl PlanView {
    /// The seeds of the plan's address: those of its creator and number.
    pub open spec fn seeds(self) -> Seq<Seq<u8>> {
        spec_plan_seeds(self.creator, self.plan_id)
    }

    /// The invariant of a published plan: a price and a duration within their
    /// bounds, and a name that is neither blank nor too long.
    pub open spec fn well_formed(self) -> bool {
        &&& 0 < self.price <= crate::MAX_PLAN_PRICE
        &&& 0 < self.duration_days <= crate::MAX_DURATION_DAYS
        &&& trimmed(self.name).len() > 0
        &&& byte_len(self.name) <= crate::MAX_PLAN_NAME_LEN
    }
}

/// A subscription plan, as its creator published it. Once written it is
/// never changed.
#[derive(Clone, Debug, PartialEq, Eq)]
pub struct CreatorProfile {
    /// Who published the plan.
    pub creator: Identity,
    /// The number that the creator gave the plan; with the creator it makes
    /// the plan's address.
    pub plan_id: u64,
    /// The plan's name.
    pub name: String,
    /// What one subscription costs, in value units.
    pub price: u64,
    /// How many days one subscription lasts.
    pub duration_days: u32,
    /// When the plan was published, in seconds since the epoch.
    pub created_at: i64,
}

impl View for CreatorProfile {
    type V = PlanView;

    open spec fn view(&self) -> PlanView {
        PlanView {
            creator: self.creator@,
            plan_id: self.plan_id,
            name: self.name@,
            price: self.price as nat,
            duration_days: self.duration_days as nat,
            created_at: self.created_at as int,
        }
    }
}

impl CreatorProfile {
    /// Finds the address at which the ledger keeps this plan under the
    /// program `program_id`, and the bump seed that goes with it.
    pub fn address(&self, program_id: &Identity) -> (found: Option<(Identity, u8)>)
        ensures
            match found {
                Some((address, bump)) => derived_address(self@.seeds(), program_id@) == Some(
                    (address@, bump),
                ),
                None => derived_address(self@.seeds(), program_id@) is None,
            },
    {
        plan_address(program_id, &self.creator, self.plan_id)
    }
}

/// What a subscription record says, as mathematical values.
pub struct SubscriptionView {
    pub subscriber: Seq<u8>,
    pub creator: Seq<u8>,
    pub plan_id: u64,
    pub created_at: int,
    pub expires_at: int,
}

impl SubscriptionView {
    /// The seeds of the subscription's address: those of its subscriber and
    /// of the creator and number of its plan.
    pub open spec fn seeds(self) -> Seq<Seq<u8>> {
        spec_subscription_seeds(self.subscriber, self.creator, self.plan_id)
    }

    /// Whether the subscription is live at the moment `now`.
    pub open spec fn active_at(self, now: int) -> bool {
        now < self.expires_at
    }

    /// The subscription that `subscriber` gets to `plan` at the moment `now`.
    pub open spec fn taken(subscriber: Seq<u8>, plan: PlanView, now: int) -> SubscriptionView {
        SubscriptionView {
            subscriber,
            creator: plan.creator,
            plan_id: plan.plan_id,
            created_at: now,
            expires_at: expiry(now, plan.duration_days as int),
        }
    }
}

/// One party's subscription to one plan. Once written it is never changed;
/// that it has run out is not stored but follows from the time.
#[derive(Clone, Copy, Debug, PartialEq, Eq)]
pub struct Subscription {
    /// Who pays and holds the subscription.
    pub subscriber: Identity,
    /// Who published the plan.
    pub creator: Identity,
    /// The plan's number.
    pub plan_id: u64,
    /// When the subscription was taken, in seconds since the epoch.
    pub created_at: i64,
    /// When the subscription runs out, in seconds since the epoch.
    pub expires_at: i64,
}

impl View for Subscription {
    type V = SubscriptionView;

    open spec fn view(&self) -> SubscriptionView {
        SubscriptionView {
            subscriber: self.subscriber@,
            creator: self.creator@,
            plan_id: self.plan_id,
            created_at: self.created_at as int,
            expires_at: self.expires_at as int,
        }
    }
}

impl Subscription {
    /// Finds the address at which the ledger keeps this subscription under
    /// the program `program_id`, and the bump seed that goes with it.
    pub fn address(&self, program_id: &Identity) -> (found: Option<(Identity, u8)>)
        ensures
            match found {
                Some((address, bump)) => derived_address(self@.seeds(), program_id@) == Some(
                    (address@, bump),
                ),
                None => derived_address(self@.seeds(), program_id@) is None,
            },
    {
        subscription_address(program_id, &self.subscriber, &self.creator, self.plan_id)
    }

    /// Tells whether the subscription is live at the moment `now`: whether
    /// `now` is before the moment at which it runs out.
    pub fn is_active(&self, now: i64) -> (active: bool)
        ensures
            active == self@.active_at(now as int),
    {
        now < self.expires_at
    }
}

/// An account that holds value: its identity and what it can spend.
#[derive(Clone, Copy, Debug, PartialEq, Eq)]
pub struct Wallet {
    /// Whose account it is.
    pub key: Identity,
    /// What the account holds, in value units.
    pub balance: u64,
}

impl Wallet {
    /// The account of `key` with `balance` to spend.
    pub fn new(key: Identity, balance: u64) -> (wallet: Wallet)
        ensures
            wallet.key == key,
            wallet.balance == balance,
    {
        Wallet { key, balance }
    }
}

} // verus!
