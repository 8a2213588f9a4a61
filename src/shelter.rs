use near_sdk::AccountId;
use vstd::prelude::*;

verus! {

/// The input that failed validation: a registration field or a donation amount.
#[derive(Debug, Clone, Copy, PartialEq, Eq, Structural)]
pub enum Field {
    Name,
    Picture,
    Age,
    Breed,
    Location,
    /// The amount attached to a donation.
    Amount,
}

/// Why a transition of the shelter was rejected.
#[derive(Debug, Clone, Copy, PartialEq, Eq, Structural)]
pub enum ShelterError {
    /// The caller is not the owner of the shelter.
    Unauthorized,
    /// A registration field is empty, the age is zero, or a donation is zero.
    InvalidInput(Field),
    /// No pet has the given id.
    NotFound,
    /// The pet already has an adopter.
    AlreadyAdopted,
    /// The owner tried to donate to the shelter.
    SelfDonation,
    /// The donation total would exceed its range.
    Overflow,
}

/// An adoptable pet.
pub struct Pet {
    pub name: String,
    pub picture: String,
    pub age: u64,
    pub breed: String,
    pub location: String,
    pub adopter: Option<AccountId>,
}

impl Clone for Pet {
    fn clone(&self) -> (r: Self)
        ensures
            r == *self,
    {
        let adopter = match &self.adopter {
            Some(a) => Some(a.clone()),
            None => None,
        };
        Pet {
            name: self.name.clone(),
            picture: self.picture.clone(),
            age: self.age,
            breed: self.breed.clone(),
            location: self.location.clone(),
            adopter,
        }
    }
}

impl Pet {
    /// Records `adopter_id` as the pet's adopter.
    fn update_adopter(&mut self, adopter_id: AccountId)
        ensures
            final(self).adopter == Some(adopter_id),
            final(self).same_description(*old(self)),
    {
        self.adopter = Some(adopter_id);
    }

    /// The five descriptive fields agree with those of `other`.
    pub open spec fn same_description(self, other: Pet) -> bool {
        &&& self.name == other.name
        &&& self.picture == other.picture
        &&& self.age == other.age
        &&& self.breed == other.breed
        &&& self.location == other.location
    }

    /// This pet with `adopter` recorded as its adopter.
    pub open spec fn with_adopter(self, adopter: AccountId) -> Pet {
        Pet { adopter: Some(adopter), ..self }
    }
}

/// The first rule that a registration breaks, if any: the caller must be the
/// owner, then name, picture, age, breed and location are checked in that order.
pub open spec fn registration_error(
    caller: Seq<char>,
    owner: Seq<char>,
    name: Seq<char>,
    picture: Seq<char>,
    age: u64,
    breed: Seq<char>,
    location: Seq<char>,
) -> Option<ShelterError> {
    if caller != owner {
        Some(ShelterError::Unauthorized)
    } else if name.len() == 0 {
        Some(ShelterError::InvalidInput(Field::Name))
    } else if picture.len() == 0 {
        Some(ShelterError::InvalidInput(Field::Picture))
    } else if age == 0 {
        Some(ShelterError::InvalidInput(Field::Age))
    } else if breed.len() == 0 {
        Some(ShelterError::InvalidInput(Field::Breed))
    } else if location.len() == 0 {
        Some(ShelterError::InvalidInput(Field::Location))
    } else {
        None
    }
}

/// What a claim of pet `pet_id` by `caller` makes of `pets`: the pet must
/// exist and have no adopter yet; it then gets `caller` as its adopter.
pub open spec fn claim_outcome(pets: Seq<Pet>, caller: AccountId, pet_id: u64) -> Result<
    Seq<Pet>,
    ShelterError,
> {
    if pet_id >= pets.len() {
        Err(ShelterError::NotFound)
    } else if pets[pet_id as int].adopter is Some {
        Err(ShelterError::AlreadyAdopted)
    } else {
        Ok(pets.update(pet_id as int, pets[pet_id as int].with_adopter(caller)))
    }
}

/// What a donation of `amount` by `caller` makes of the total `donations`:
/// the amount must be positive, the donor must not be the owner, and the new
/// total must fit in 128 bits.
pub open spec fn donation_outcome(
    donations: u128,
    caller: Seq<char>,
    owner: Seq<char>,
    amount: u128,
) -> Result<u128, ShelterError> {
    if amount == 0 {
        Err(ShelterError::InvalidInput(Field::Amount))
    } else if caller == owner {
        Err(ShelterError::SelfDonation)
    } else if donations + amount > u128::MAX {
        Err(ShelterError::Overflow)
    } else {
        Ok((donations + amount) as u128)
    }
}

/// The registry of pets and the running total of donations.
///
/// A pet's id is its position in `pets`: ids are assigned densely from zero in
/// order of registration and never reused.
pub struct PetShelter {
    pub pets: Vec<Pet>,
    pub donations: u128,
}

impl Default for PetShelter {
    /// An empty shelter with no donations.
    fn default() -> (r: Self)
        ensures
            r.pets@ == Seq::<Pet>::empty(),
            r.donations == 0,
    {
        PetShelter { pets: Vec::new(), donations: 0 }
    }
}

impl PetShelter {
    /// Both shelters hold the same pets and the same donation total.
    pub open spec fn same_state(self, other: PetShelter) -> bool {
        &&& self.pets@ == other.pets@
        &&& self.donations == other.donations
    }

    /// Registers a new pet on behalf of `caller`; only `owner` may do so.
    ///
    /// On success the pet gets the next id, the number of pets registered
    /// before it, and no adopter. On failure nothing changes and the error
    /// names the first rule broken.
    pub fn add_pet(
        &mut self,
        caller: &AccountId,
        owner: &AccountId,
        name: String,
        picture: String,
        age: u64,
        breed: String,
        location: String,
    ) -> (r: Result<u64, ShelterError>)
        requires
            old(self).pets@.len() < u64::MAX,
        ensures
            match registration_error(caller@, owner@, name@, picture@, age, breed@, location@) {
                None => {
                    &&& r == Ok::<u64, ShelterError>(old(self).pets@.len() as u64)
                    &&& final(self).pets@.len() == old(self).pets@.len() + 1
                    &&& final(self).pets@ == old(self).pets@.push(
                        Pet { name, picture, age, breed, location, adopter: None },
                    )
                    &&& final(self).donations == old(self).donations
                },
                Some(e) => {
                    &&& r == Err::<u64, ShelterError>(e)
                    &&& final(self).same_state(*old(self))
                },
            },
    {
        if !caller.eq(owner) {
            return Err(ShelterError::Unauthorized);
        }
        if name.as_str().is_empty() {
            return Err(ShelterError::InvalidInput(Field::Name));
        }
        if picture.as_str().is_empty() {
            return Err(ShelterError::InvalidInput(Field::Picture));
        }
        if age == 0 {
            return Err(ShelterError::InvalidInput(Field::Age));
        }
        if breed.as_str().is_empty() {
            return Err(ShelterError::InvalidInput(Field::Breed));
        }
        if location.as_str().is_empty() {
            return Err(ShelterError::InvalidInput(Field::Location));
        }
        let id = self.pets.len() as u64;
        let new_pet = Pet { name, picture, age, breed, location, adopter: None };
        self.pets.push(new_pet);
        Ok(id)
    }

    /// Records `caller` as the adopter of pet `pet_id`. Any caller may adopt,
    /// the owner included, and one caller may adopt several pets.
    ///
    /// Fails with `NotFound` when no pet has that id and with `AlreadyAdopted`
    /// when it has an adopter already; then nothing changes.
    pub fn adopt(&mut self, caller: AccountId, pet_id: u64) -> (r: Result<(), ShelterError>)
        ensures
            match claim_outcome(old(self).pets@, caller, pet_id) {
                Ok(pets) => {
                    &&& r == Ok::<(), ShelterError>(())
                    &&& final(self).pets@ == pets
                    &&& final(self).donations == old(self).donations
                },
                Err(e) => {
                    &&& r == Err::<(), ShelterError>(e)
                    &&& final(self).same_state(*old(self))
                },
            },
    {
        let mut pet = match self.get_pet(pet_id) {
            Ok(p) => p,
            Err(e) => return Err(e),
        };
        if pet.adopter.is_some() {
            return Err(ShelterError::AlreadyAdopted);
        }
        pet.update_adopter(caller);
        let n = self.pets.len();
        assert(pet_id < n);
        self.pets.set(pet_id as usize, pet);
        Ok(())
    }

    /// Adds `amount`, attached by `caller`, to the donation total.
    ///
    /// Fails, leaving the total as it was, when the amount is zero, when the
    /// caller is the owner, or when the total would exceed 128 bits.
    pub fn donate(&mut self, caller: &AccountId, owner: &AccountId, amount: u128) -> (r: Result<
        (),
        ShelterError,
    >)
        ensures
            final(self).pets@ == old(self).pets@,
            match donation_outcome(old(self).donations, caller@, owner@, amount) {
                Ok(total) => {
                    &&& r == Ok::<(), ShelterError>(())
                    &&& final(self).donations == total
                },
                Err(e) => {
                    &&& r == Err::<(), ShelterError>(e)
                    &&& final(self).donations == old(self).donations
                },
            },
    {
        if amount == 0 {
            return Err(ShelterError::InvalidInput(Field::Amount));
        }
        if caller.eq(owner) {
            return Err(ShelterError::SelfDonation);
        }
        match self.donations.checked_add(amount) {
            Some(total) => {
                self.donations = total;
                Ok(())
            },
            None => Err(ShelterError::Overflow),
        }
    }

    /// All pets with their ids, in order of registration.
    pub fn get_pets(&self) -> (r: Vec<(u64, Pet)>)
        ensures
            r@.len() == self.pets@.len(),
            forall|i: int| 0 <= i < r@.len() ==> r@[i] == (i as u64, self.pets@[i]),
    {
        let mut r: Vec<(u64, Pet)> = Vec::new();
        let mut i: usize = 0;
        while i < self.pets.len()
            invariant
                i <= self.pets@.len(),
                r@.len() == i,
                forall|j: int| 0 <= j < i ==> r@[j] == (j as u64, self.pets@[j]),
            decreases self.pets@.len() - i,
        {
            r.push((i as u64, self.pets[i].clone()));
            i = i + 1;
        }
        r
    }

    /// The pet with id `pet_id`, or `NotFound` when there is none.
    pub fn get_pet(&self, pet_id: u64) -> (r: Result<Pet, ShelterError>)
        ensures
            pet_id < self.pets@.len() ==> r == Ok::<Pet, ShelterError>(self.pets@[pet_id as int]),
            pet_id >= self.pets@.len() ==> r == Err::<Pet, ShelterError>(ShelterError::NotFound),
    {
        if pet_id < self.pets.len() as u64 {
            Ok(self.pets[pet_id as usize].clone())
        } else {
            Err(ShelterError::NotFound)
        }
    }

    /// The total of all accepted donations.
    pub fn get_donations(&self) -> (r: u128)
        ensures
            r == self.donations,
    {
        self.donations
    }
}

} // verus!
