use course_catalog::catalog::CategoryRecord;
use course_catalog::catalog::CreateCategoryRequest;
use course_catalog::catalog::CreateCityRequest;
use course_catalog::catalog::CreateDistrictRequest;
use course_catalog::catalog::CreateSubcategoryRequest;
use course_catalog::catalog::LocationRecord;
use course_catalog::catalog::parse_id_text;
use course_catalog::catalog::plan_category_creation;
use course_catalog::catalog::plan_city_creation;
use course_catalog::catalog::plan_district_creation;
use course_catalog::catalog::plan_subcategory_creation;
use course_catalog::errors::CatalogError;

#[test]
fn id_text_parses_to_the_uuid_value() {
    let text = "67e55044-10b1-426f-9247-bb680e5fe0c8";
    let expected = uuid::Uuid::parse_str(text).unwrap().as_u128();
    assert_eq!(parse_id_text(text), Ok(expected));
}

#[test]
fn mangled_id_text_refused() {
    assert_eq!(parse_id_text("not-an-id"), Err(CatalogError::BadId));
    assert_eq!(parse_id_text(""), Err(CatalogError::BadId));
}

#[test]
fn district_is_minted_as_a_root() {
    let req = CreateDistrictRequest { name: "North".to_string(), code: 17 };
    let district = plan_district_creation(&req);
    assert_eq!(district.name, "North");
    assert_eq!(district.code, 17);
    assert_eq!(district.parent_id, None);
}

#[test]
fn city_under_existing_district_admitted() {
    let req = CreateCityRequest {
        name: "Rivertown".to_string(),
        district_id: "ignored-here".to_string(),
        code: 4,
    };
    let district = LocationRecord {
        id: 900,
        name: "North".to_string(),
        parent_id: None,
        code: 17,
    };
    let city = plan_city_creation(&req, &Some(district), false).expect("admissible");
    assert_eq!(city.name, "Rivertown");
    assert_eq!(city.code, 4);
    assert_eq!(city.parent_id, Some(900));
}

#[test]
fn city_without_district_refused() {
    let req = CreateCityRequest {
        name: "Rivertown".to_string(),
        district_id: "whatever".to_string(),
        code: 4,
    };
    assert_eq!(
        plan_city_creation(&req, &None, false).unwrap_err(),
        CatalogError::ParentMissing
    );
}

#[test]
fn city_under_city_refused() {
    // The supplied parent is itself a child: a third level is never allowed.
    let req = CreateCityRequest {
        name: "Rivertown".to_string(),
        district_id: "whatever".to_string(),
        code: 4,
    };
    let city_parent = LocationRecord {
        id: 901,
        name: "Laketown".to_string(),
        parent_id: Some(900),
        code: 5,
    };
    assert_eq!(
        plan_city_creation(&req, &Some(city_parent), false).unwrap_err(),
        CatalogError::ParentNotRoot
    );
}

#[test]
fn duplicate_city_name_refused() {
    let req = CreateCityRequest {
        name: "Rivertown".to_string(),
        district_id: "whatever".to_string(),
        code: 4,
    };
    let district = LocationRecord {
        id: 900,
        name: "North".to_string(),
        parent_id: None,
        code: 17,
    };
    assert_eq!(
        plan_city_creation(&req, &Some(district), true).unwrap_err(),
        CatalogError::DuplicateName
    );
}

#[test]
fn category_minted_unless_name_taken() {
    let req = CreateCategoryRequest { category_name: "Crafts".to_string() };
    let category = plan_category_creation(&req, false).expect("fresh name");
    assert_eq!(category.category_name, "Crafts");
    assert_eq!(category.parent_id, None);
    assert_eq!(
        plan_category_creation(&req, true).unwrap_err(),
        CatalogError::DuplicateName
    );
}

#[test]
fn subcategory_checks_mirror_city_checks() {
    let req = CreateSubcategoryRequest {
        category_name: "Carving".to_string(),
        parent_id: "whatever".to_string(),
    };
    assert_eq!(
        plan_subcategory_creation(&req, &None, false).unwrap_err(),
        CatalogError::ParentMissing
    );
    let nested_parent = CategoryRecord {
        id: 31,
        category_name: "Whittling".to_string(),
        parent_id: Some(30),
    };
    assert_eq!(
        plan_subcategory_creation(&req, &Some(nested_parent), false).unwrap_err(),
        CatalogError::ParentNotRoot
    );
    let root = CategoryRecord {
        id: 30,
        category_name: "Crafts".to_string(),
        parent_id: None,
    };
    assert_eq!(
        plan_subcategory_creation(&req, &Some(root), true).unwrap_err(),
        CatalogError::DuplicateName
    );
    let root_again = CategoryRecord {
        id: 30,
        category_name: "Crafts".to_string(),
        parent_id: None,
    };
    let sub = plan_subcategory_creation(&req, &Some(root_again), false).expect("admissible");
    assert_eq!(sub.category_name, "Carving");
    assert_eq!(sub.parent_id, Some(30));
}
