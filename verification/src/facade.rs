//! The composite catalog read.
//!
//! One endpoint returns the course list together with both assembled trees.
//! A failed course fetch fails the whole response; a failed tree read
//! degrades to an empty forest, documented behaviour rather than silent
//! loss, since the response always carries both fields.
use vstd::prelude::*;

use crate::courses::CourseRecord;
use crate::hierarchy::TreeNode;
use crate::hierarchy::TreeRow;
use crate::hierarchy::assemble_forest_or_empty;
use crate::hierarchy::is_assembled_forest;

verus! {

/// The aggregate response: the courses plus both nested hierarchies.
pub struct CatalogOverview {
    pub courses: Vec<CourseRecord>,
    pub categories: Vec<TreeNode>,
    pub districts: Vec<TreeNode>,
}

/// Compose the aggregate response from the three reads, each given as
/// `None` when its fetch failed.  No courses means no response; either
/// tree degrades to empty on failure, never shifting or dropping the other
/// fields.
pub fn catalog_overview(
    courses: Option<Vec<CourseRecord>>,
    category_rows: Option<Vec<TreeRow>>,
    district_rows: Option<Vec<TreeRow>>,
) -> (r: Option<CatalogOverview>)
    ensures
        courses is None <==> r is None,
        match courses {
            Some(cs) => r matches Some(overview) && overview.courses == cs && (match category_rows {
                Some(rows) => is_assembled_forest(rows@, overview.categories@),
                None => overview.categories@ == Seq::<TreeNode>::empty(),
            }) && (match district_rows {
                Some(rows) => is_assembled_forest(rows@, overview.districts@),
                None => overview.districts@ == Seq::<TreeNode>::empty(),
            }),
            None => r is None,
        },
{
    match courses {
        None => None,
        Some(cs) => {
            let categories = assemble_forest_or_empty(category_rows);
            let districts = assemble_forest_or_empty(district_rows);
            Some(CatalogOverview { courses: cs, categories, districts })
        },
    }
}

} // verus!
