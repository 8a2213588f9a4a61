use pet_shelter::shelter::{Field, PetShelter, ShelterError};

fn add(contract: &mut PetShelter, caller: &str, owner: &str, name: &str) -> Result<u64, ShelterError> {
    contract.add_pet(
        &caller.to_string(),
        &owner.to_string(),
        name.to_string(),
        "img://1".to_string(),
        3,
        "Lab".to_string(),
        "NYC".to_string(),
    )
}

#[test]
fn ids_are_assigned_densely() {
    let mut contract = PetShelter::default();
    for expected in 0..4u64 {
        let before = contract.get_pets().len();
        assert_eq!(add(&mut contract, "owner", "owner", "Rex"), Ok(expected));
        assert_eq!(contract.get_pets().len(), before + 1);
    }
    let pets = contract.get_pets();
    for (i, (pet_id, pet)) in pets.iter().enumerate() {
        assert_eq!(*pet_id, i as u64);
        assert_eq!(pet.name, "Rex");
        assert_eq!(pet.adopter, None);
    }
}

#[test]
fn registration_reports_first_broken_rule() {
    let mut contract = PetShelter::default();
    let r = contract.add_pet(
        &"eve".to_string(),
        &"owner".to_string(),
        "".to_string(),
        "".to_string(),
        0,
        "".to_string(),
        "".to_string(),
    );
    assert_eq!(r, Err(ShelterError::Unauthorized));
    let r = contract.add_pet(
        &"owner".to_string(),
        &"owner".to_string(),
        "Rex".to_string(),
        "".to_string(),
        0,
        "".to_string(),
        "".to_string(),
    );
    assert_eq!(r, Err(ShelterError::InvalidInput(Field::Picture)));
    assert!(contract.get_pets().is_empty());
}

#[test]
fn claim_of_missing_pet_is_not_found() {
    let mut contract = PetShelter::default();
    assert_eq!(contract.adopt("carol".to_string(), 0), Err(ShelterError::NotFound));
    add(&mut contract, "owner", "owner", "Rex").unwrap();
    assert_eq!(contract.adopt("carol".to_string(), 1), Err(ShelterError::NotFound));
    assert_eq!(contract.get_pet(0).unwrap().adopter, None);
    assert_eq!(contract.get_pet(7).err(), Some(ShelterError::NotFound));
}

#[test]
fn owner_may_adopt() {
    let mut contract = PetShelter::default();
    add(&mut contract, "owner", "owner", "Rex").unwrap();
    assert_eq!(contract.adopt("owner".to_string(), 0), Ok(()));
    assert_eq!(contract.get_pet(0).unwrap().adopter, Some("owner".to_string()));
}

#[test]
fn first_claim_wins() {
    let mut contract = PetShelter::default();
    add(&mut contract, "owner", "owner", "Rex").unwrap();
    add(&mut contract, "owner", "owner", "Max").unwrap();
    assert_eq!(contract.adopt("carol".to_string(), 1), Ok(()));
    assert_eq!(contract.adopt("dave".to_string(), 1), Err(ShelterError::AlreadyAdopted));
    let pet = contract.get_pet(1).unwrap();
    assert_eq!(pet.adopter, Some("carol".to_string()));
    assert_eq!(pet.name, "Max");
    assert_eq!(pet.age, 3);
    assert_eq!(contract.get_pet(0).unwrap().adopter, None);
}

#[test]
fn donations_sum_and_zero_is_rejected() {
    let mut contract = PetShelter::default();
    let owner = "owner".to_string();
    contract.donate(&"carol".to_string(), &owner, 5).unwrap();
    assert_eq!(
        contract.donate(&"carol".to_string(), &owner, 0),
        Err(ShelterError::InvalidInput(Field::Amount))
    );
    contract.donate(&"dave".to_string(), &owner, 7).unwrap();
    assert_eq!(contract.donate(&owner, &owner, 9), Err(ShelterError::SelfDonation));
    contract.donate(&"carol".to_string(), &owner, 30).unwrap();
    assert_eq!(contract.get_donations(), 42);
}

#[test]
fn donation_overflow_is_rejected() {
    let mut contract = PetShelter::default();
    let owner = "owner".to_string();
    contract.donate(&"carol".to_string(), &owner, u128::MAX - 1).unwrap();
    assert_eq!(contract.donate(&"carol".to_string(), &owner, 2), Err(ShelterError::Overflow));
    assert_eq!(contract.get_donations(), u128::MAX - 1);
    contract.donate(&"carol".to_string(), &owner, 1).unwrap();
    assert_eq!(contract.get_donations(), u128::MAX);
}

#[test]
fn shelter_scenario() {
    let mut contract = PetShelter::default();
    assert_eq!(add(&mut contract, "owner", "owner", "Rex"), Ok(0));
    assert_eq!(add(&mut contract, "mallory", "owner", "Rex"), Err(ShelterError::Unauthorized));
    assert_eq!(contract.get_pets().len(), 1);
    assert_eq!(contract.adopt("carol".to_string(), 0), Ok(()));
    assert_eq!(contract.get_pet(0).unwrap().adopter, Some("carol".to_string()));
    assert_eq!(contract.adopt("dave".to_string(), 0), Err(ShelterError::AlreadyAdopted));
    assert_eq!(contract.donate(&"carol".to_string(), &"owner".to_string(), 5), Ok(()));
    assert_eq!(contract.get_donations(), 5);
    assert_eq!(
        contract.donate(&"owner".to_string(), &"owner".to_string(), 5),
        Err(ShelterError::SelfDonation)
    );
    assert_eq!(contract.get_donations(), 5);
}

#[test]
fn cloned_pet_keeps_its_fields() {
    let mut contract = PetShelter::default();
    add(&mut contract, "owner", "owner", "Rex").unwrap();
    contract.adopt("carol".to_string(), 0).unwrap();
    let pet = contract.get_pet(0).unwrap();
    let copy = pet.clone();
    assert_eq!(copy.name, "Rex");
    assert_eq!(copy.picture, "img://1");
    assert_eq!(copy.breed, "Lab");
    assert_eq!(copy.location, "NYC");
    assert_eq!(copy.adopter, Some("carol".to_string()));
}
