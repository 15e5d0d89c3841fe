//! Learning-game transfer objects.

use vstd::prelude::*;

verus! {

#[derive(Clone, Debug)]
pub struct GameSessionDto {
    pub id: i64,
    pub game_type: String,
    pub session_state: String,
    pub score: i64,
    pub rounds_total: i64,
    pub rounds_played: i64,
    pub streak: i64,
    pub best_streak: i64,
}

#[derive(Clone, Debug)]
pub struct GameAnswerResultDto {
    pub is_correct: bool,
    pub points_earned: i64,
    pub new_score: i64,
    pub streak: i64,
    pub effect_type: String,
    pub round_number: i64,
    pub session_complete: bool,
    pub explanation: Option<String>,
    pub misconception_triggered: bool,
}

#[derive(Clone, Debug)]
pub struct GameSummaryDto {
    pub session_id: i64,
    pub game_type: String,
    pub score: i64,
    pub accuracy_bp: i64,
    pub rounds_played: i64,
    pub best_streak: i64,
    pub average_response_time_ms: i64,
    pub misconception_hits: i64,
    pub performance_label: String,
    pub focus_signals: Vec<String>,
    pub recommended_next_step: Option<String>,
}

#[derive(Clone, Debug)]
pub struct LeaderboardEntryDto {
    pub student_id: i64,
    pub display_name: String,
    pub best_score: i64,
    pub games_played: i64,
}

#[derive(Clone, Debug)]
pub struct MindstackStateDto {
    pub board_height: i64,
    pub cleared_rows: i64,
    pub pending_block_type: String,
}

#[derive(Clone, Debug)]
pub struct TugOfWarStateDto {
    pub position: i64,
    pub opponent_difficulty: i64,
}

} // verus!
