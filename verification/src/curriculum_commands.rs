//! Curriculum transfer objects.

use vstd::prelude::*;

verus! {

#[derive(Clone, Debug)]
pub struct SubjectDto {
    pub id: i64,
    pub curriculum_version_id: i64,
    pub code: String,
    pub name: String,
    pub display_order: i64,
}

#[derive(Clone, Debug)]
pub struct TopicDto {
    pub id: i64,
    pub subject_id: i64,
    pub parent_topic_id: Option<i64>,
    pub code: Option<String>,
    pub name: String,
    pub node_type: String,
    pub display_order: i64,
}

} // verus!
