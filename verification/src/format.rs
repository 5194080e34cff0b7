//! Typed records for showing an issue with everything that hangs on it.

use vstd::prelude::*;
use crate::model::{Comment, Event, Issue, Priority, Status};

verus! {

/// An issue at the other end of a dependency edge, with what a listing shows
/// of it.
#[derive(Debug, Clone)]
pub struct IssueWithDependencyMetadata {
    pub id: String,
    pub title: String,
    pub status: Status,
    pub priority: Priority,
    pub dep_type: String,
}

/// The mathematical content of an [`IssueWithDependencyMetadata`].
pub struct DependencyMetadataData {
    pub id: Seq<char>,
    pub title: Seq<char>,
    pub status: Status,
    pub priority: Priority,
    pub dep_type: Seq<char>,
}

impl View for IssueWithDependencyMetadata {
    type V = DependencyMetadataData;

    open spec fn view(&self) -> DependencyMetadataData {
        DependencyMetadataData {
            id: self.id@,
            title: self.title@,
            status: self.status,
            priority: self.priority,
            dep_type: self.dep_type@,
        }
    }
}

/// An issue with its labels, the issues it depends on, the issues that depend
/// on it, its comments, its events and its parent.
#[derive(Debug, Clone)]
pub struct IssueDetails {
    pub issue: Issue,
    pub labels: Vec<String>,
    pub dependencies: Vec<IssueWithDependencyMetadata>,
    pub dependents: Vec<IssueWithDependencyMetadata>,
    pub comments: Vec<Comment>,
    pub events: Vec<Event>,
    pub parent: Option<String>,
}

} // verus!
