//! The arguments that clients send with each tool request.
use vstd::prelude::*;

verus! {

/// Filters for listing tasks; each one that is given narrows the list.
#[derive(Debug)]
pub struct ListItemsParameters {
    pub project_id: Option<String>,
    pub completed: Option<bool>,
    pub priority: Option<i64>,
}

/// A task to create.
#[derive(Debug, Default)]
pub struct CreateItemParams {
    pub content: String,
    pub project_id: String,
    pub description: Option<String>,
    pub priority: Option<i64>,
    pub due: Option<String>,
    pub labels: Option<String>,
    pub parent_id: Option<String>,
}

/// The task to mark done.
#[derive(Debug, Default)]
pub struct CompleteItemParams {
    pub item_id: String,
}

/// The task to soft-delete.
#[derive(Debug, Default)]
pub struct DeleteItemParams {
    pub item_id: String,
}

/// The task to change, and the fields to replace.
#[derive(Debug, Default)]
pub struct UpdateItemParams {
    pub item_id: String,
    pub content: Option<String>,
    pub description: Option<String>,
    pub priority: Option<i64>,
    pub due: Option<String>,
    pub labels: Option<String>,
}

/// A project to create.
#[derive(Debug, Default)]
pub struct CreateProjectParams {
    pub name: String,
    pub description: Option<String>,
}

/// The project to change, and the fields to replace.
#[derive(Debug, Default)]
pub struct UpdateProjectParams {
    pub project_id: String,
    pub name: Option<String>,
    pub description: Option<String>,
}

/// The project to soft-delete.
#[derive(Debug, Default)]
pub struct DeleteProjectParams {
    pub project_id: String,
}

} // verus!
