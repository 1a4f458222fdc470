use dog_api::error::{Operation, ServiceError, ValidationError};
use dog_api::model::{Breed, BreedPayload, Dog, DogPatchPayload, DogPayload, FieldPatch};
use dog_api::pagination::{paginate, PaginationParams};
use dog_api::patch::{apply_field_patch, merge_patch};
use dog_api::rules::{check_age, check_name, is_blank, validate_dog_payload};
use dog_api::service::{
    delete_status, list_page, plan_create_breed, plan_full_update, plan_partial_update,
    plan_update_breed, require_found,
};

fn rex() -> Dog {
    Dog { id: 4, name: "Rex".to_string(), age: 3, breed_id: Some(2) }
}

#[test]
fn blank_detects_unicode_white_space() {
    assert!(is_blank(""));
    assert!(is_blank("   "));
    assert!(is_blank("\t\r\n\u{a0}\u{3000}"));
    assert!(!is_blank(" a "));
    assert!(!is_blank("x"));
}

#[test]
fn name_and_age_checks() {
    assert_eq!(check_name("Rex"), Ok(()));
    assert_eq!(check_name(" "), Err(ValidationError::EmptyName));
    assert_eq!(check_age(0), Ok(()));
    assert_eq!(check_age(30), Ok(()));
    assert_eq!(check_age(-1), Err(ValidationError::AgeOutOfRange));
    assert_eq!(check_age(31), Err(ValidationError::AgeOutOfRange));
    assert_eq!(
        validate_dog_payload(&DogPayload { name: "".to_string(), age: 40, breed_id: None }),
        Err(ValidationError::EmptyName)
    );
}

#[test]
fn field_patch_three_states() {
    assert_eq!(apply_field_patch(Some(1), FieldPatch::Unset), Some(1));
    assert_eq!(apply_field_patch(None::<i32>, FieldPatch::Unset), None);
    assert_eq!(apply_field_patch(Some(1), FieldPatch::Null), None);
    assert_eq!(apply_field_patch(None, FieldPatch::Value(7)), Some(7));
}

#[test]
fn merge_patch_overrides_present_fields() {
    let p = DogPatchPayload { name: Some("Max".to_string()), age: None, breed_id: FieldPatch::Null };
    assert_eq!(merge_patch(&rex(), &p), DogPayload { name: "Max".to_string(), age: 3, breed_id: None });
}

#[test]
fn plan_partial_update_orders_checks() {
    let bad = DogPatchPayload { name: None, age: Some(-3), breed_id: FieldPatch::Unset };
    assert_eq!(
        plan_partial_update(&None, &bad),
        Err(ServiceError::Validation(ValidationError::AgeOutOfRange))
    );
    let ok = DogPatchPayload { name: None, age: Some(5), breed_id: FieldPatch::Unset };
    assert_eq!(plan_partial_update(&None, &ok), Err(ServiceError::NotFound));
    assert_eq!(
        plan_partial_update(&Some(rex()), &ok),
        Ok(DogPayload { name: "Rex".to_string(), age: 5, breed_id: Some(2) })
    );
}

#[test]
fn plan_full_update_checks_existence_first() {
    let p = DogPayload { name: " ".to_string(), age: 3, breed_id: None };
    assert_eq!(plan_full_update(&None, &p), Err(ServiceError::NotFound));
    assert_eq!(
        plan_full_update(&Some(rex()), &p),
        Err(ServiceError::Validation(ValidationError::EmptyName))
    );
    let q = DogPayload { name: "Rex".to_string(), age: 3, breed_id: None };
    assert_eq!(plan_full_update(&Some(rex()), &q), Ok(()));
}

#[test]
fn breed_plans() {
    let b = Breed { id: 1, name: "Pug".to_string() };
    assert_eq!(plan_create_breed(&BreedPayload { name: "Pug".to_string() }), Ok(()));
    assert_eq!(
        plan_create_breed(&BreedPayload { name: "".to_string() }),
        Err(ServiceError::Validation(ValidationError::EmptyName))
    );
    assert_eq!(plan_update_breed(&None, &BreedPayload { name: "Pug".to_string() }), Err(ServiceError::NotFound));
    assert_eq!(plan_update_breed(&Some(b), &BreedPayload { name: "Pug".to_string() }), Ok(()));
}

#[test]
fn require_found_maps_absence() {
    assert_eq!(require_found(Some(3)), Ok(3));
    assert_eq!(require_found(None::<i32>), Err(ServiceError::NotFound));
}

#[test]
fn paginate_windows() {
    let items: Vec<i32> = (1..=25).collect();
    let params = PaginationParams { page: Some(2), limit: Some(10) };
    assert_eq!(paginate(items.clone(), &params), Ok((11..=20).collect::<Vec<i32>>()));
    let params = PaginationParams { page: Some(4), limit: Some(10) };
    assert_eq!(paginate(items.clone(), &params), Ok(vec![]));
    let params = PaginationParams { page: None, limit: Some(7) };
    assert_eq!(paginate(items.clone(), &params), Ok((1..=7).collect::<Vec<i32>>()));
    let params = PaginationParams { page: Some(0), limit: None };
    assert_eq!(paginate(items, &params), Err(ValidationError::InvalidPagination));
    assert_eq!(paginate(Vec::<i32>::new(), &PaginationParams { page: None, limit: None }), Ok(vec![]));
}

#[test]
fn list_page_maps_pagination_error() {
    assert_eq!(
        list_page(vec![1, 2, 3], Some(1), Some(0)),
        Err(ServiceError::Validation(ValidationError::InvalidPagination))
    );
    assert_eq!(list_page(vec![1, 2, 3], Some(2), Some(2)), Ok(vec![3]));
}

#[test]
fn error_kinds_map_to_statuses() {
    assert_eq!(ServiceError::Validation(ValidationError::EmptyName).status(), 400);
    assert_eq!(ServiceError::Validation(ValidationError::AgeOutOfRange).status(), 400);
    assert_eq!(ServiceError::Validation(ValidationError::InvalidPagination).status(), 400);
    assert_eq!(ServiceError::NotFound.status(), 404);
    assert_eq!(ServiceError::Store.status(), 500);
}

#[test]
fn operations_map_to_statuses() {
    assert_eq!(Operation::Create.status_of(None), 201);
    assert_eq!(Operation::List.status_of(None), 200);
    assert_eq!(Operation::Get.status_of(None), 200);
    assert_eq!(Operation::UpdateFull.status_of(None), 200);
    assert_eq!(Operation::UpdatePartial.status_of(None), 200);
    assert_eq!(Operation::Delete.status_of(None), 204);
    assert_eq!(Operation::List.status_of(Some(ServiceError::NotFound)), 500);
    assert_eq!(Operation::List.status_of(Some(ServiceError::Store)), 500);
    assert_eq!(
        Operation::List.status_of(Some(ServiceError::Validation(ValidationError::InvalidPagination))),
        400
    );
    assert_eq!(Operation::Get.status_of(Some(ServiceError::NotFound)), 404);
    assert_eq!(
        Operation::UpdatePartial.status_of(Some(ServiceError::Validation(ValidationError::EmptyName))),
        400
    );
    assert_eq!(Operation::Create.status_of(Some(ServiceError::Store)), 500);
}

#[test]
fn delete_statuses() {
    assert_eq!(delete_status(&Ok(true)), 204);
    assert_eq!(delete_status(&Ok(false)), 404);
    assert_eq!(delete_status(&Err(ServiceError::NotFound)), 404);
    assert_eq!(delete_status(&Err(ServiceError::Store)), 500);
}

#[test]
fn messages_hide_store_detail() {
    assert_eq!(ServiceError::Store.message(), "internal server error");
    assert_eq!(ServiceError::NotFound.message(), "not found");
    assert_eq!(ServiceError::Validation(ValidationError::EmptyName).message(), "name cannot be empty");
    assert_eq!(ServiceError::Validation(ValidationError::AgeOutOfRange).message(), "age out of range");
}
