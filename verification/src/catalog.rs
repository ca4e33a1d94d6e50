//! Locations and categories.
//!
//! Both hierarchies are strictly two-level: a root (district, category) has
//! no parent, a child (city, subcategory) names a root as its parent, and
//! nothing may nest below a child.  Creating a child checks that the
//! declared parent exists, that it really is a root, and that no sibling of
//! the same name exists yet; all three refusals are client errors.
use vstd::prelude::*;

use crate::errors::CatalogError;
use crate::ids::fresh_id;
use crate::ids::parse_uuid_text;
use crate::ids::uuid_value_of;

verus! {

/// A location row: a district when `parent_id` is absent, a city when it
/// names the district it belongs to.
#[derive(Debug)]
pub struct LocationRecord {
    pub id: u128,
    pub name: String,
    pub parent_id: Option<u128>,
    pub code: i32,
}

/// A category row: a root category when `parent_id` is absent, a
/// subcategory when it names the category it belongs to.
#[derive(Debug)]
pub struct CategoryRecord {
    pub id: u128,
    pub category_name: String,
    pub parent_id: Option<u128>,
}

/// A request to create a district.
pub struct CreateDistrictRequest {
    pub name: String,
    pub code: i32,
}

/// A request to create a city under a district, the district given as a
/// UUID text.
pub struct CreateCityRequest {
    pub name: String,
    pub district_id: String,
    pub code: i32,
}

/// A request to create a subcategory under a category, the category given
/// as a UUID text.
pub struct CreateSubcategoryRequest {
    pub category_name: String,
    pub parent_id: String,
}

/// A request to create a root category.
pub struct CreateCategoryRequest {
    pub category_name: String,
}

/// Parse an identifier text from a request or a path segment.  Returns the
/// identifier exactly when the text is a well-formed UUID.
pub fn parse_id_text(s: &str) -> (r: Result<u128, CatalogError>)
    ensures
        match uuid_value_of(s@) {
            Some(v) => r == Ok::<u128, CatalogError>(v),
            None => r == Err::<u128, CatalogError>(CatalogError::BadId),
        },
{
    match parse_uuid_text(s) {
        Some(v) => Ok(v),
        None => Err(CatalogError::BadId),
    }
}

/// The admission rule for creating a second-level entity, shared by cities
/// and subcategories.  `parent` is the looked-up parent's own parent link:
/// absent entirely when no parent entity was found.  Admission requires an
/// existing parent, a parent that is itself a root (two levels only, never
/// a third), and a name not yet taken under that parent.
pub open spec fn spec_child_creation(
    parent: Option<Option<u128>>,
    name_taken: bool,
) -> Result<(), CatalogError> {
    match parent {
        None => Err(CatalogError::ParentMissing),
        Some(grandparent) => if grandparent is Some {
            Err(CatalogError::ParentNotRoot)
        } else if name_taken {
            Err(CatalogError::DuplicateName)
        } else {
            Ok(())
        },
    }
}

/// The parent shape that the admission rule inspects, for a location.
pub open spec fn location_parent_shape(parent: Option<LocationRecord>) -> Option<Option<u128>> {
    match parent {
        None => None,
        Some(p) => Some(p.parent_id),
    }
}

/// The parent shape that the admission rule inspects, for a category.
pub open spec fn category_parent_shape(parent: Option<CategoryRecord>) -> Option<Option<u128>> {
    match parent {
        None => None,
        Some(p) => Some(p.parent_id),
    }
}

/// Mint the district row for a creation request.  Districts are roots:
/// their parent link is always absent.
pub fn plan_district_creation(req: &CreateDistrictRequest) -> (r: LocationRecord)
    ensures
        r.name == req.name,
        r.code == req.code,
        r.parent_id is None,
{
    LocationRecord {
        id: fresh_id(),
        name: req.name.clone(),
        parent_id: None,
        code: req.code,
    }
}

/// Admit or refuse a city-creation request and, when admitted, mint the
/// city row.  The caller passes the parent district as looked up by the
/// request's district id, and whether a city of this name already exists
/// under it.  The minted city names that district, a root, as its parent.
pub fn plan_city_creation(
    req: &CreateCityRequest,
    parent: &Option<LocationRecord>,
    name_taken: bool,
) -> (r: Result<LocationRecord, CatalogError>)
    ensures
        match spec_child_creation(location_parent_shape(*parent), name_taken) {
            Err(e) => r == Err::<LocationRecord, CatalogError>(e),
            Ok(_) => r matches Ok(city) && parent matches Some(district) && city.name == req.name
                && city.code == req.code && city.parent_id == Some(district.id)
                && district.parent_id is None,
        },
{
    match parent {
        None => Err(CatalogError::ParentMissing),
        Some(district) => {
            match district.parent_id {
                Some(_) => Err(CatalogError::ParentNotRoot),
                None => {
                    if name_taken {
                        Err(CatalogError::DuplicateName)
                    } else {
                        Ok(
                            LocationRecord {
                                id: fresh_id(),
                                name: req.name.clone(),
                                parent_id: Some(district.id),
                                code: req.code,
                            },
                        )
                    }
                },
            }
        },
    }
}

/// Admit or refuse a root-category creation request and, when admitted,
/// mint the category row.  Only a taken name refuses it.
pub fn plan_category_creation(req: &CreateCategoryRequest, name_taken: bool) -> (r: Result<
    CategoryRecord,
    CatalogError,
>)
    ensures
        name_taken ==> r == Err::<CategoryRecord, CatalogError>(CatalogError::DuplicateName),
        !name_taken ==> (r matches Ok(c) && c.category_name == req.category_name
            && c.parent_id is None),
{
    if name_taken {
        Err(CatalogError::DuplicateName)
    } else {
        Ok(
            CategoryRecord {
                id: fresh_id(),
                category_name: req.category_name.clone(),
                parent_id: None,
            },
        )
    }
}

/// Admit or refuse a subcategory-creation request and, when admitted, mint
/// the subcategory row.  The caller passes the parent category as looked up
/// by the request's parent id, and whether a subcategory of this name
/// already exists under it.
pub fn plan_subcategory_creation(
    req: &CreateSubcategoryRequest,
    parent: &Option<CategoryRecord>,
    name_taken: bool,
) -> (r: Result<CategoryRecord, CatalogError>)
    ensures
        match spec_child_creation(category_parent_shape(*parent), name_taken) {
            Err(e) => r == Err::<CategoryRecord, CatalogError>(e),
            Ok(_) => r matches Ok(sub) && parent matches Some(cat)
                && sub.category_name == req.category_name && sub.parent_id == Some(cat.id)
                && cat.parent_id is None,
        },
{
    match parent {
        None => Err(CatalogError::ParentMissing),
        Some(cat) => {
            match cat.parent_id {
                Some(_) => Err(CatalogError::ParentNotRoot),
                None => {
                    if name_taken {
                        Err(CatalogError::DuplicateName)
                    } else {
                        Ok(
                            CategoryRecord {
                                id: fresh_id(),
                                category_name: req.category_name.clone(),
                                parent_id: Some(cat.id),
                            },
                        )
                    }
                },
            }
        },
    }
}

} // verus!
