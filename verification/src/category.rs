use vstd::prelude::*;

verus! {

/// One stweem category of the synthetic catalog.
#[derive(Debug, Clone)]
pub struct Category {
    pub category_id: u64,
    pub category_name: String,
}

/// The list of all booies stweem categories.
#[derive(Debug)]
pub struct BooiesCategories(pub Vec<Category>);

} // verus!
