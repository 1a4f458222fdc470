use dog_api::breed_service::BreedService;
use dog_api::dog_service::DogService;
use dog_api::error::{ServiceError, ValidationError};
use dog_api::model::{Breed, BreedPayload, DogPayload, DogWithBreed};
use dog_api::store::{BreedTable, DogTable};

fn breed(name: &str) -> BreedPayload {
    BreedPayload { name: name.to_string() }
}

#[test]
fn breed_create_list_get_update() {
    let mut s = BreedService::new();
    let a = s.create_breed(breed("Collie")).unwrap();
    let b = s.create_breed(breed("Beagle")).unwrap();
    assert_eq!(s.list_breeds(), Ok(vec![a.clone(), b.clone()]));
    assert_eq!(s.get_breed(b.id), Ok(b.clone()));
    let renamed = s.update_breed(a.id, breed("Border Collie")).unwrap();
    assert_eq!(renamed, Breed { id: a.id, name: "Border Collie".to_string() });
    assert_eq!(s.get_breed(a.id), Ok(renamed));
}

#[test]
fn breed_blank_name_refused() {
    let mut s = BreedService::new();
    assert_eq!(s.create_breed(breed(" ")), Err(ServiceError::Validation(ValidationError::EmptyName)));
    assert_eq!(s.list_breeds(), Ok(vec![]));
    let a = s.create_breed(breed("Pug")).unwrap();
    assert_eq!(
        s.update_breed(a.id, breed("")),
        Err(ServiceError::Validation(ValidationError::EmptyName))
    );
}

#[test]
fn breed_update_missing_is_not_found() {
    let mut s = BreedService::new();
    assert_eq!(s.update_breed(4, breed("Pug")), Err(ServiceError::NotFound));
    assert_eq!(s.get_breed(4), Err(ServiceError::NotFound));
}

#[test]
fn join_gives_null_breed_name_without_breed() {
    let mut breeds = BreedTable::new();
    let collie = breeds.create(&breed("Collie")).unwrap();
    let mut dogs = DogTable::new();
    let a = dogs.create(&DogPayload { name: "Rex".to_string(), age: 2, breed_id: None }).unwrap();
    let b = dogs
        .create(&DogPayload { name: "Lassie".to_string(), age: 5, breed_id: Some(collie.id) })
        .unwrap();
    let joined = dogs.find_all_with_breed(&breeds);
    assert_eq!(
        joined,
        vec![
            DogWithBreed { id: a.id, name: "Rex".to_string(), age: 2, breed_id: None, breed_name: None },
            DogWithBreed {
                id: b.id,
                name: "Lassie".to_string(),
                age: 5,
                breed_id: Some(collie.id),
                breed_name: Some("Collie".to_string()),
            },
        ]
    );
}

#[test]
fn join_gives_null_breed_name_after_breed_deleted() {
    let mut breeds = BreedTable::new();
    let collie = breeds.create(&breed("Collie")).unwrap();
    let mut dogs = DogTable::new();
    let b = dogs
        .create(&DogPayload { name: "Lassie".to_string(), age: 5, breed_id: Some(collie.id) })
        .unwrap();
    assert!(breeds.delete(collie.id));
    let one = dogs.find_by_id_with_breed(b.id, &breeds).unwrap();
    assert_eq!(one.breed_id, Some(collie.id));
    assert_eq!(one.breed_name, None);
    assert_eq!(dogs.find_all_with_breed(&breeds)[0].breed_name, None);
    assert_eq!(dogs.find_by_id_with_breed(b.id + 1, &breeds), None);
}

#[test]
fn find_by_breed_id_keeps_order() {
    let mut dogs = DogTable::new();
    for (i, br) in [Some(1), None, Some(1), Some(2)].iter().enumerate() {
        dogs.create(&DogPayload { name: format!("d{}", i), age: 1, breed_id: *br }).unwrap();
    }
    let ids: Vec<i32> = dogs.find_by_breed_id(1).iter().map(|d| d.id).collect();
    assert_eq!(ids, vec![1, 3]);
    assert!(dogs.find_by_breed_id(9).is_empty());
}

#[test]
fn service_table_lists_created_dogs() {
    let mut s = DogService::new();
    let d = s.create_dog(DogPayload { name: "Rex".to_string(), age: 1, breed_id: Some(3) }).unwrap();
    assert_eq!(s.table().find_all(), vec![d]);
}
