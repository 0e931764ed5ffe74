//! The lists returned by the listing tools.
use vstd::prelude::*;
use crate::items::Item;
use crate::projects::Project;

verus! {

/// The projects that are not deleted.
#[derive(Debug)]
pub struct ProjectList {
    pub projects: Vec<Project>,
}

/// The tasks that matched a listing.
#[derive(Debug)]
pub struct ItemList {
    pub items: Vec<Item>,
}

} // verus!
