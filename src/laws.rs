use near_sdk::AccountId;
use vstd::prelude::*;

use crate::shelter::{claim_outcome, donation_outcome, registration_error, Field, Pet, ShelterError};

verus! {

/// A registration by the owner with an empty name, picture, breed or
/// location, or with age zero, is rejected as invalid input.
pub proof fn lemma_invalid_registration_rejected(
    owner: Seq<char>,
    name: Seq<char>,
    picture: Seq<char>,
    age: u64,
    breed: Seq<char>,
    location: Seq<char>,
)
    requires
        name.len() == 0 || picture.len() == 0 || age == 0 || breed.len() == 0 || location.len()
            == 0,
    ensures
        registration_error(owner, owner, name, picture, age, breed, location) matches Some(
            ShelterError::InvalidInput(_),
        ),
{
}

/// The donation total after the calls in `calls` (each a donor and an amount)
/// are made in order, starting from `start`; a rejected call leaves the total.
pub open spec fn replay_donations(start: u128, owner: Seq<char>, calls: Seq<(Seq<char>, u128)>) -> u128
    decreases calls.len(),
{
    if calls.len() == 0 {
        start
    } else {
        let before = replay_donations(start, owner, calls.drop_last());
        match donation_outcome(before, calls.last().0, owner, calls.last().1) {
            Ok(total) => total,
            Err(_) => before,
        }
    }
}

/// The sum of the amounts in `calls` that are positive and come from a donor
/// other than `owner`.
pub open spec fn accepted_sum(owner: Seq<char>, calls: Seq<(Seq<char>, u128)>) -> int
    decreases calls.len(),
{
    if calls.len() == 0 {
        0
    } else {
        let rest = accepted_sum(owner, calls.drop_last());
        if calls.last().1 > 0 && calls.last().0 != owner {
            rest + calls.last().1
        } else {
            rest
        }
    }
}

proof fn lemma_accepted_sum_nonnegative(owner: Seq<char>, calls: Seq<(Seq<char>, u128)>)
    ensures
        accepted_sum(owner, calls) >= 0,
    decreases calls.len(),
{
    if calls.len() > 0 {
        lemma_accepted_sum_nonnegative(owner, calls.drop_last());
    }
}

/// Donations add up: as long as the total stays within 128 bits, the total
/// after a run of donations is the starting total plus exactly the amounts of
/// the accepted calls; zero amounts and the owner's own calls add nothing.
pub proof fn lemma_donations_add_up(start: u128, owner: Seq<char>, calls: Seq<(Seq<char>, u128)>)
    requires
        start + accepted_sum(owner, calls) <= u128::MAX,
    ensures
        replay_donations(start, owner, calls) == start + accepted_sum(owner, calls),
    decreases calls.len(),
{
    if calls.len() > 0 {
        let prefix = calls.drop_last();
        lemma_accepted_sum_nonnegative(owner, prefix);
        lemma_donations_add_up(start, owner, prefix);
    }
}

/// A donation of zero is rejected, whoever makes it, and the total stays.
pub proof fn lemma_zero_donation_rejected(donations: u128, caller: Seq<char>, owner: Seq<char>)
    ensures
        donation_outcome(donations, caller, owner, 0) == Err::<u128, ShelterError>(
            ShelterError::InvalidInput(Field::Amount),
        ),
{
}

/// The owner's own donation of a positive amount is always rejected as a
/// self-donation.
pub proof fn lemma_self_donation_rejected(donations: u128, owner: Seq<char>, amount: u128)
    requires
        amount > 0,
    ensures
        donation_outcome(donations, owner, owner, amount) == Err::<u128, ShelterError>(
            ShelterError::SelfDonation,
        ),
{
}

/// Adoption is first-claim-wins: after a successful claim by `first`, the pet
/// has `first` as its adopter and any further claim of it, by anyone, is
/// rejected with `AlreadyAdopted`.
pub proof fn lemma_second_claim_rejected(pets: Seq<Pet>, first: AccountId, second: AccountId, pet_id: u64)
    requires
        claim_outcome(pets, first, pet_id) is Ok,
    ensures
        ({
            let after = claim_outcome(pets, first, pet_id)->Ok_0;
            &&& after[pet_id as int].adopter == Some(first)
            &&& claim_outcome(after, second, pet_id) == Err::<Seq<Pet>, ShelterError>(
                ShelterError::AlreadyAdopted,
            )
        }),
{
}

/// A recorded adopter is never overwritten: whatever a claim does, a pet
/// that already had an adopter keeps all its fields.
pub proof fn lemma_adopter_kept(pets: Seq<Pet>, caller: AccountId, pet_id: u64, j: int)
    requires
        0 <= j < pets.len(),
        pets[j].adopter is Some,
    ensures
        match claim_outcome(pets, caller, pet_id) {
            Ok(after) => after.len() == pets.len() && after[j] == pets[j],
            Err(_) => true,
        },
{
}

} // verus!
