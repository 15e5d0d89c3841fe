//! Memory and spaced-recheck transfer objects.

use vstd::prelude::*;

verus! {

#[derive(Clone, Debug)]
pub struct RecheckItemDto {
    pub id: i64,
    pub node_id: Option<i64>,
    pub topic_name: Option<String>,
    pub node_title: Option<String>,
    pub memory_state: Option<String>,
    pub memory_strength: Option<i64>,
    pub decay_risk: Option<i64>,
    pub due_at: String,
    pub schedule_type: String,
}

#[derive(Clone, Debug)]
pub struct MemoryStateDto {
    pub id: i64,
    pub topic_id: Option<i64>,
    pub node_id: Option<i64>,
    pub memory_state: String,
    pub memory_strength: i64,
    pub recall_fluency: i64,
    pub decay_risk: i64,
    pub review_due_at: Option<String>,
}

#[derive(Clone, Debug)]
pub struct MemoryDashboardDto {
    pub total_items: i64,
    pub healthy_count: i64,
    pub at_risk_count: i64,
    pub fading_count: i64,
    pub collapsed_count: i64,
    pub overdue_reviews: i64,
    pub average_strength: i64,
    pub next_review_due: Option<String>,
}

#[derive(Clone, Debug)]
pub struct DecayBatchResultDto {
    pub items_processed: usize,
    pub items_decayed: usize,
    pub items_collapsed: usize,
    pub new_rechecks_scheduled: usize,
}

} // verus!
