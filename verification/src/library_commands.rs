//! Library and glossary transfer objects.

use vstd::prelude::*;

verus! {

#[derive(Clone, Debug)]
pub struct LibraryShelfDto {
    pub shelf_type: String,
    pub title: String,
    pub item_count: usize,
}

#[derive(Clone, Debug)]
pub struct LibraryItemDto {
    pub id: i64,
    pub item_type: String,
    pub title: String,
    pub topic_id: Option<i64>,
    pub topic_name: Option<String>,
}

#[derive(Clone, Debug)]
pub struct GlossaryEntryDto {
    pub id: i64,
    pub title: String,
    pub entry_type: String,
    pub short_text: Option<String>,
    pub topic_id: Option<i64>,
}

} // verus!
