use subscriptions_core::errors::SubscriptionsDappError;
use subscriptions_core::identity::Identity;
use subscriptions_core::instructions::check_subscription::{CheckSubscription, _check_subscription};
use subscriptions_core::instructions::create_subscription_plan::CreateSubscriptionPlan;
use subscriptions_core::instructions::subscribe::{Subscribe, _subscribe};
use subscriptions_core::state::{CreatorProfile, Subscription, Wallet};
use subscriptions_core::{
    check_subscription, create_subscription_plan, subscribe, TRANSACTION_FEE_BUFFER,
};

const RENT: u64 = 1_559_040;
const NOW: i64 = 1_700_000_000;

fn creator() -> Identity {
    Identity::new([1u8; 32])
}

fn subscriber() -> Identity {
    Identity::new([2u8; 32])
}

fn stranger() -> Identity {
    let mut bytes = [1u8; 32];
    bytes[31] = 0;
    Identity::new(bytes)
}

fn plan(price: u64, duration_days: u32) -> CreatorProfile {
    CreatorProfile {
        creator: creator(),
        plan_id: 1,
        name: "Gold".to_string(),
        price,
        duration_days,
        created_at: NOW - 500,
    }
}

fn context(price: u64, duration_days: u32, subscriber_balance: u64, creator_balance: u64) -> Subscribe {
    Subscribe::new(
        plan(price, duration_days),
        Wallet::new(subscriber(), subscriber_balance),
        Wallet::new(creator(), creator_balance),
    )
}

#[test]
fn fee_buffer_has_its_value() {
    assert_eq!(TRANSACTION_FEE_BUFFER, 10_000_000);
}

#[test]
fn month_long_plan_from_publishing_to_expiry() {
    let publishing = CreateSubscriptionPlan::new(Wallet::new(creator(), 50_000_000));
    let published =
        create_subscription_plan(&publishing, 1, "Monthly".to_string(), 1000, 30, 2_784_000, NOW)
            .unwrap();
    let creator_before: u64 = 50_000_000;
    let subscriber_before: u64 = 1000 + RENT + 10_000_000 + 123;
    let mut ctx = Subscribe::new(
        published.clone(),
        Wallet::new(subscriber(), subscriber_before),
        publishing.creator,
    );
    let s = subscribe(&mut ctx, RENT, NOW + 60).unwrap();
    assert_eq!(ctx.creator_account.balance - creator_before, 1000);
    assert_eq!(subscriber_before - ctx.subscriber.balance, 1000);
    assert_eq!(ctx.creator_profile, published);
    assert_eq!(s.subscriber, subscriber());
    assert_eq!(s.creator, creator());
    assert_eq!(s.plan_id, 1);
    assert_eq!(s.created_at, NOW + 60);
    assert_eq!(s.expires_at - s.created_at, 2_592_000);

    let asked = CheckSubscription::new(s);
    assert!(check_subscription(&asked, s.created_at));
    assert!(check_subscription(&asked, s.created_at + 2_591_999));
    assert!(!check_subscription(&asked, s.created_at + 2_592_000));
    assert!(!check_subscription(&asked, s.created_at + 2_592_001));
}

#[test]
fn own_plan_is_refused() {
    let mut ctx = Subscribe::new(
        plan(1000, 30),
        Wallet::new(creator(), 100_000_000),
        Wallet::new(creator(), 0),
    );
    let before = ctx.clone();
    assert_eq!(subscribe(&mut ctx, RENT, NOW), Err(SubscriptionsDappError::CannotSubscribeToOwnPlan));
    assert_eq!(ctx, before);
}

#[test]
fn own_plan_is_refused_before_anything_else() {
    let mut ctx = Subscribe::new(
        plan(u64::MAX, u32::MAX),
        Wallet::new(creator(), 0),
        Wallet::new(stranger(), u64::MAX),
    );
    assert_eq!(
        subscribe(&mut ctx, u64::MAX, i64::MAX),
        Err(SubscriptionsDappError::CannotSubscribeToOwnPlan)
    );
}

#[test]
fn another_payee_is_refused() {
    let mut ctx = Subscribe::new(
        plan(1000, 30),
        Wallet::new(subscriber(), 100_000_000),
        Wallet::new(stranger(), 0),
    );
    let before = ctx.clone();
    assert_eq!(subscribe(&mut ctx, RENT, NOW), Err(SubscriptionsDappError::CreatorMismatch));
    assert_eq!(ctx, before);
    // The subscriber's own account as payee is another payee too.
    let mut ctx = Subscribe::new(
        plan(1000, 30),
        Wallet::new(subscriber(), 100_000_000),
        Wallet::new(subscriber(), 100_000_000),
    );
    assert_eq!(subscribe(&mut ctx, RENT, NOW), Err(SubscriptionsDappError::CreatorMismatch));
}

#[test]
fn another_payee_is_refused_before_funds_are_looked_at() {
    let mut ctx = Subscribe::new(
        plan(u64::MAX, 30),
        Wallet::new(subscriber(), 0),
        Wallet::new(stranger(), u64::MAX),
    );
    assert_eq!(subscribe(&mut ctx, u64::MAX, i64::MAX), Err(SubscriptionsDappError::CreatorMismatch));
}

#[test]
fn one_unit_short_is_insufficient() {
    let needed = 1000 + RENT + 10_000_000;
    let mut ctx = context(1000, 30, needed - 1, 0);
    let before = ctx.clone();
    assert_eq!(subscribe(&mut ctx, RENT, NOW), Err(SubscriptionsDappError::InsufficientFunds));
    assert_eq!(ctx, before);
    let mut ctx = context(1000, 30, 0, 0);
    assert_eq!(subscribe(&mut ctx, RENT, NOW), Err(SubscriptionsDappError::InsufficientFunds));
}

#[test]
fn exactly_the_required_sum_is_enough() {
    let needed = 1000 + RENT + 10_000_000;
    assert_eq!(needed, 11_560_040);
    let mut ctx = context(1000, 30, needed, 7);
    let s = subscribe(&mut ctx, RENT, NOW);
    assert_eq!(
        s,
        Ok(Subscription {
            subscriber: subscriber(),
            creator: creator(),
            plan_id: 1,
            created_at: NOW,
            expires_at: NOW + 30 * 86_400,
        })
    );
    assert_eq!(ctx.subscriber, Wallet::new(subscriber(), RENT + 10_000_000));
    assert_eq!(ctx.creator_account, Wallet::new(creator(), 1007));
    assert_eq!(ctx.creator_profile, plan(1000, 30));
}

#[test]
fn required_sum_that_does_not_fit_overflows() {
    let mut ctx = context(u64::MAX - 10_000_000, 30, u64::MAX, 0);
    let before = ctx.clone();
    assert_eq!(subscribe(&mut ctx, 1, NOW), Err(SubscriptionsDappError::MathOverflow));
    assert_eq!(ctx, before);
    // Price and fee reserve just fit, with no rent.
    let mut ctx = context(u64::MAX - 10_000_000, 30, u64::MAX, 0);
    assert!(subscribe(&mut ctx, 0, NOW).is_ok());
    assert_eq!(ctx.subscriber.balance, 10_000_000);
    let mut ctx = context(1, 30, u64::MAX, 0);
    assert_eq!(subscribe(&mut ctx, u64::MAX, NOW), Err(SubscriptionsDappError::MathOverflow));
}

#[test]
fn payee_balance_that_does_not_fit_overflows() {
    let mut ctx = context(1000, 30, 100_000_000, u64::MAX - 999);
    let before = ctx.clone();
    assert_eq!(subscribe(&mut ctx, RENT, NOW), Err(SubscriptionsDappError::MathOverflow));
    assert_eq!(ctx, before);
    let mut ctx = context(1000, 30, 100_000_000, u64::MAX - 1000);
    assert!(subscribe(&mut ctx, RENT, NOW).is_ok());
    assert_eq!(ctx.creator_account.balance, u64::MAX);
}

#[test]
fn expiry_that_does_not_fit_overflows() {
    let mut ctx = context(1000, 1, 100_000_000, 0);
    let before = ctx.clone();
    assert_eq!(subscribe(&mut ctx, RENT, i64::MAX - 86_399), Err(SubscriptionsDappError::MathOverflow));
    assert_eq!(ctx, before);
    let mut ctx = context(1000, 1, 100_000_000, 0);
    let s = subscribe(&mut ctx, RENT, i64::MAX - 86_400).unwrap();
    assert_eq!(s.expires_at, i64::MAX);
    assert_eq!(s.created_at, i64::MAX - 86_400);
}

#[test]
fn longest_duration_of_any_record_fits() {
    let mut ctx = context(1000, u32::MAX, 100_000_000, 0);
    let s = subscribe(&mut ctx, RENT, -5).unwrap();
    assert_eq!(s.expires_at, 4_294_967_295i64 * 86_400 - 5);
}

#[test]
fn year_long_plan_runs_365_days() {
    let mut ctx = context(5, 365, 100_000_000, 0);
    assert_eq!(subscribe(&mut ctx, RENT, 0).unwrap().expires_at, 31_536_000);
}

#[test]
fn value_is_conserved() {
    let mut ctx = context(123_456, 30, 900_000_000, 4_000);
    assert!(subscribe(&mut ctx, RENT, NOW).is_ok());
    assert_eq!(ctx.subscriber.balance + ctx.creator_account.balance, 900_000_000 + 4_000);
    assert_eq!(ctx.creator_account.balance, 127_456);
}

#[test]
fn subscribing_again_leaves_the_first_subscription_alone() {
    let mut ctx = context(1000, 30, 100_000_000, 0);
    let first = subscribe(&mut ctx, RENT, NOW).unwrap();
    let kept = first;
    let second = subscribe(&mut ctx, RENT, NOW + 1_000).unwrap();
    assert_eq!(first, kept);
    assert_eq!(second.created_at, NOW + 1_000);
    // Both are subscriptions of one subscriber to one plan: the ledger keeps them at one
    // address, and so keeps only one of them.
    let program = Identity::new([9u8; 32]);
    assert_eq!(first.address(&program), second.address(&program));
    assert!(first.address(&program).is_some());
    assert_ne!(first.address(&program), plan(1000, 30).address(&program));
}

#[test]
fn live_strictly_before_expiry() {
    let s = Subscription {
        subscriber: subscriber(),
        creator: creator(),
        plan_id: 9,
        created_at: 100,
        expires_at: 200,
    };
    assert!(s.is_active(i64::MIN));
    assert!(s.is_active(100));
    assert!(s.is_active(199));
    assert!(!s.is_active(200));
    assert!(!s.is_active(201));
    assert!(!s.is_active(i64::MAX));
    let asked = CheckSubscription::new(s);
    assert_eq!(asked.subscription, s);
    assert!(_check_subscription(&asked, 199));
    assert!(!_check_subscription(&asked, 200));
}

#[test]
fn inner_and_outer_subscribe_agree() {
    let mut a = context(1000, 30, 100_000_000, 0);
    let mut b = a.clone();
    assert_eq!(subscribe(&mut a, RENT, NOW), _subscribe(&mut b, RENT, NOW));
    assert_eq!(a, b);
    let mut a = context(1000, 30, 10, 0);
    let mut b = a.clone();
    assert_eq!(subscribe(&mut a, RENT, NOW), _subscribe(&mut b, RENT, NOW));
    assert_eq!(a, b);
}
