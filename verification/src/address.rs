use crate::identity::Identity;
use anchor_lang::prelude::Pubkey;
use vstd::bytes::{
    lemma_auto_spec_u64_to_from_le_bytes, spec_u64_from_le_bytes, spec_u64_to_le_bytes,
    u64_to_le_bytes,
};
use vstd::prelude::*;
use vstd::slice::slice_to_vec;

verus! {

/// The bytes of `plan`, the tag of the plans' namespace.
pub open spec fn spec_plan_tag() -> Seq<u8> {
    seq![0x70u8, 0x6c, 0x61, 0x6e]
}

/// The bytes of `subscription`, the tag of the subscriptions' namespace.
pub open spec fn spec_subscription_tag() -> Seq<u8> {
    seq![0x73u8, 0x75, 0x62, 0x73, 0x63, 0x72, 0x69, 0x70, 0x74, 0x69, 0x6f, 0x6e]
}

/// The seeds of a plan's address: the tag of the namespace, the creator, and
/// the plan's number as eight bytes, the lowest first.
pub open spec fn spec_plan_seeds(creator: Seq<u8>, plan_id: u64) -> Seq<Seq<u8>> {
    seq![spec_plan_tag(), creator, spec_u64_to_le_bytes(plan_id)]
}

/// The seeds of a subscription's address: the tag of the namespace, the
/// subscriber, the creator, and the plan's number as eight bytes, the lowest
/// first.
pub open spec fn spec_subscription_seeds(
    subscriber: Seq<u8>,
    creator: Seq<u8>,
    plan_id: u64,
) -> Seq<Seq<u8>> {
    seq![spec_subscription_tag(), subscriber, creator, spec_u64_to_le_bytes(plan_id)]
}

/// The bytes that seeds put, one seed after the other, into the hash that
/// makes the address.
pub open spec fn seed_bytes(seeds: Seq<Seq<u8>>) -> Seq<u8> {
    seeds.flatten()
}

/// The address that a program derives from seeds, with the bump seed that
/// goes with it, or `None` where the seeds give none.
pub uninterp spec fn derived_address(seeds: Seq<Seq<u8>>, program_id: Seq<u8>) -> Option<
    (Seq<u8>, u8),
>;

/// Calls `Pubkey::try_find_program_address` of `anchor_lang` on these seeds
/// and this program, and hands back what it found as an [`Identity`] and a
/// bump seed.
///
/// Taken on trust, from that function's source: it hashes the seeds in their
/// order, then a bump seed, the program's identity and a fixed marker, tries
/// the bump seeds from 255 down, and returns the first hash that is no point
/// of the curve, with its bump seed; it returns `None` where no bump seed
/// gives one, and where the seeds are too many or one is too long. It does
/// not panic, and nothing but its arguments enters into it: so what it
/// returns is [`derived_address`] of the seeds' and the program's bytes.
#[verifier::external_body]
fn try_find_program_address(seeds: &Vec<Vec<u8>>, program_id: &Identity) -> (found: Option<
    (Identity, u8),
>)
    ensures
        match found {
            Some((address, bump)) => derived_address(seeds.deep_view(), program_id@) == Some(
                (address@, bump),
            ),
            None => derived_address(seeds.deep_view(), program_id@) is None,
        },
{
    let parts: Vec<&[u8]> = seeds.iter().map(|seed| seed.as_slice()).collect();
    let program = Pubkey::new_from_array(program_id.bytes);
    match Pubkey::try_find_program_address(&parts, &program) {
        Some((address, bump)) => Some((Identity { bytes: address.to_bytes() }, bump)),
        None => None,
    }
}

/// The tag of the plans' namespace.
pub fn plan_tag() -> (tag: Vec<u8>)
    ensures
        tag@ == spec_plan_tag(),
{
    let tag: Vec<u8> = vec![0x70u8, 0x6c, 0x61, 0x6e];
    assert(tag@ =~= spec_plan_tag());
    tag
}

/// The tag of the subscriptions' namespace.
pub fn subscription_tag() -> (tag: Vec<u8>)
    ensures
        tag@ == spec_subscription_tag(),
{
    let tag: Vec<u8> = vec![0x73u8, 0x75, 0x62, 0x73, 0x63, 0x72, 0x69, 0x70, 0x74, 0x69, 0x6f, 0x6e];
    assert(tag@ =~= spec_subscription_tag());
    tag
}

/// Builds the seeds of the address of the plan that `creator` numbered
/// `plan_id`.
pub fn plan_seeds(creator: &Identity, plan_id: u64) -> (seeds: Vec<Vec<u8>>)
    ensures
        seeds.deep_view() == spec_plan_seeds(creator@, plan_id),
{
    let mut seeds: Vec<Vec<u8>> = Vec::new();
    seeds.push(plan_tag());
    seeds.push(slice_to_vec(creator.bytes.as_slice()));
    seeds.push(u64_to_le_bytes(plan_id));
    assert(seeds.deep_view() =~~= spec_plan_seeds(creator@, plan_id));
    seeds
}

/// Builds the seeds of the address of the subscription of `subscriber` to the
/// plan that `creator` numbered `plan_id`.
pub fn subscription_seeds(subscriber: &Identity, creator: &Identity, plan_id: u64) -> (seeds: Vec<
    Vec<u8>,
>)
    ensures
        seeds.deep_view() == spec_subscription_seeds(subscriber@, creator@, plan_id),
{
    let mut seeds: Vec<Vec<u8>> = Vec::new();
    seeds.push(subscription_tag());
    seeds.push(slice_to_vec(subscriber.bytes.as_slice()));
    seeds.push(slice_to_vec(creator.bytes.as_slice()));
    seeds.push(u64_to_le_bytes(plan_id));
    assert(seeds.deep_view() =~~= spec_subscription_seeds(subscriber@, creator@, plan_id));
    seeds
}

/// Finds the address, under the program `program_id`, of the plan that
/// `creator` numbered `plan_id`, and the bump seed that goes with it.
pub fn plan_address(program_id: &Identity, creator: &Identity, plan_id: u64) -> (found: Option<
    (Identity, u8),
>)
    ensures
        match found {
            Some((address, bump)) => derived_address(
                spec_plan_seeds(creator@, plan_id),
                program_id@,
            ) == Some((address@, bump)),
            None => derived_address(spec_plan_seeds(creator@, plan_id), program_id@) is None,
        },
{
    let seeds = plan_seeds(creator, plan_id);
    try_find_program_address(&seeds, program_id)
}

/// Finds the address, under the program `program_id`, of the subscription of
/// `subscriber` to the plan that `creator` numbered `plan_id`, and the bump
/// seed that goes with it.
pub fn subscription_address(
    program_id: &Identity,
    subscriber: &Identity,
    creator: &Identity,
    plan_id: u64,
) -> (found: Option<(Identity, u8)>)
    ensures
        match found {
            Some((address, bump)) => derived_address(
                spec_subscription_seeds(subscriber@, creator@, plan_id),
                program_id@,
            ) == Some((address@, bump)),
            None => derived_address(
                spec_subscription_seeds(subscriber@, creator@, plan_id),
                program_id@,
            ) is None,
        },
{
    let seeds = subscription_seeds(subscriber, creator, plan_id);
    try_find_program_address(&seeds, program_id)
}

/// The bytes of a plan's seeds are the tag, the creator and the number, in
/// this order: 44 bytes.
pub proof fn lemma_plan_seed_bytes(creator: Identity, plan_id: u64)
    ensures
        seed_bytes(spec_plan_seeds(creator@, plan_id)) == spec_plan_tag() + creator@
            + spec_u64_to_le_bytes(plan_id),
        seed_bytes(spec_plan_seeds(creator@, plan_id)).len() == 44,
{
    lemma_auto_spec_u64_to_from_le_bytes();
    let seeds = spec_plan_seeds(creator@, plan_id);
    reveal_with_fuel(Seq::flatten, 4);
    assert(seeds.drop_first() =~= seq![creator@, spec_u64_to_le_bytes(plan_id)]);
    assert(seeds.drop_first().drop_first() =~= seq![spec_u64_to_le_bytes(plan_id)]);
    assert(seeds.drop_first().drop_first().drop_first() =~= Seq::<Seq<u8>>::empty());
    assert(seed_bytes(seeds) =~= spec_plan_tag() + creator@ + spec_u64_to_le_bytes(plan_id));
}

/// The bytes of a subscription's seeds are the tag, the subscriber, the
/// creator and the number, in this order: 84 bytes.
pub proof fn lemma_subscription_seed_bytes(subscriber: Identity, creator: Identity, plan_id: u64)
    ensures
        seed_bytes(spec_subscription_seeds(subscriber@, creator@, plan_id))
            == spec_subscription_tag() + subscriber@ + creator@ + spec_u64_to_le_bytes(plan_id),
        seed_bytes(spec_subscription_seeds(subscriber@, creator@, plan_id)).len() == 84,
{
    lemma_auto_spec_u64_to_from_le_bytes();
    let seeds = spec_subscription_seeds(subscriber@, creator@, plan_id);
    let number = spec_u64_to_le_bytes(plan_id);
    reveal_with_fuel(Seq::flatten, 5);
    assert(seeds.drop_first() =~= seq![subscriber@, creator@, number]);
    assert(seeds.drop_first().drop_first() =~= seq![creator@, number]);
    assert(seeds.drop_first().drop_first().drop_first() =~= seq![number]);
    assert(seeds.drop_first().drop_first().drop_first().drop_first() =~= Seq::<Seq<u8>>::empty());
    assert(seed_bytes(seeds) =~= spec_subscription_tag() + subscriber@ + creator@ + number);
}

/// Two plans whose seeds have the same bytes are one plan: they have the same
/// creator and the same number.
pub proof fn law_plan_seeds_injective(
    creator_a: Identity,
    plan_id_a: u64,
    creator_b: Identity,
    plan_id_b: u64,
)
    requires
        seed_bytes(spec_plan_seeds(creator_a@, plan_id_a)) == seed_bytes(
            spec_plan_seeds(creator_b@, plan_id_b),
        ),
    ensures
        creator_a == creator_b,
        plan_id_a == plan_id_b,
{
    lemma_auto_spec_u64_to_from_le_bytes();
    lemma_plan_seed_bytes(creator_a, plan_id_a);
    lemma_plan_seed_bytes(creator_b, plan_id_b);
    let bytes_a = seed_bytes(spec_plan_seeds(creator_a@, plan_id_a));
    let bytes_b = seed_bytes(spec_plan_seeds(creator_b@, plan_id_b));
    assert(creator_a@ =~= bytes_a.subrange(4, 36));
    assert(creator_b@ =~= bytes_b.subrange(4, 36));
    assert(spec_u64_to_le_bytes(plan_id_a) =~= bytes_a.subrange(36, 44));
    assert(spec_u64_to_le_bytes(plan_id_b) =~= bytes_b.subrange(36, 44));
    assert(spec_u64_from_le_bytes(spec_u64_to_le_bytes(plan_id_a)) == plan_id_a);
    assert(spec_u64_from_le_bytes(spec_u64_to_le_bytes(plan_id_b)) == plan_id_b);
    creator_a.lemma_same_bytes(creator_b);
}

/// Two subscriptions whose seeds have the same bytes are one subscription:
/// they have the same subscriber, the same creator and the same number.
pub proof fn law_subscription_seeds_injective(
    subscriber_a: Identity,
    creator_a: Identity,
    plan_id_a: u64,
    subscriber_b: Identity,
    creator_b: Identity,
    plan_id_b: u64,
)
    requires
        seed_bytes(spec_subscription_seeds(subscriber_a@, creator_a@, plan_id_a)) == seed_bytes(
            spec_subscription_seeds(subscriber_b@, creator_b@, plan_id_b),
        ),
    ensures
        subscriber_a == subscriber_b,
        creator_a == creator_b,
        plan_id_a == plan_id_b,
{
    lemma_auto_spec_u64_to_from_le_bytes();
    lemma_subscription_seed_bytes(subscriber_a, creator_a, plan_id_a);
    lemma_subscription_seed_bytes(subscriber_b, creator_b, plan_id_b);
    let bytes_a = seed_bytes(spec_subscription_seeds(subscriber_a@, creator_a@, plan_id_a));
    let bytes_b = seed_bytes(spec_subscription_seeds(subscriber_b@, creator_b@, plan_id_b));
    assert(subscriber_a@ =~= bytes_a.subrange(12, 44));
    assert(subscriber_b@ =~= bytes_b.subrange(12, 44));
    assert(creator_a@ =~= bytes_a.subrange(44, 76));
    assert(creator_b@ =~= bytes_b.subrange(44, 76));
    assert(spec_u64_to_le_bytes(plan_id_a) =~= bytes_a.subrange(76, 84));
    assert(spec_u64_to_le_bytes(plan_id_b) =~= bytes_b.subrange(76, 84));
    assert(spec_u64_from_le_bytes(spec_u64_to_le_bytes(plan_id_a)) == plan_id_a);
    assert(spec_u64_from_le_bytes(spec_u64_to_le_bytes(plan_id_b)) == plan_id_b);
    subscriber_a.lemma_same_bytes(subscriber_b);
    creator_a.lemma_same_bytes(creator_b);
}

/// The seeds of a plan and the seeds of a subscription never have the same
/// bytes, whatever the parties and the numbers.
pub proof fn law_namespaces_apart(
    plan_creator: Identity,
    plan_id: u64,
    subscriber: Identity,
    creator: Identity,
    subscribed_plan_id: u64,
)
    ensures
        seed_bytes(spec_plan_seeds(plan_creator@, plan_id)) != seed_bytes(
            spec_subscription_seeds(subscriber@, creator@, subscribed_plan_id),
        ),
{
    lemma_plan_seed_bytes(plan_creator, plan_id);
    lemma_subscription_seed_bytes(subscriber, creator, subscribed_plan_id);
}

} // verus!
