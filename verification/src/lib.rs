//! Verified core of the eCoach command layer: the decisions, validations and
//! read-model assembly that sit between the application's storage and its
//! user-facing data transfer objects.

pub mod text;
pub mod error;
pub mod attempt_commands;
pub mod coach_commands;
pub mod clock;
pub mod diagnostic_commands;
pub mod product_commands;
pub mod product_surfaces;
pub mod product_vault;
pub mod question_commands;
pub mod assessment_commands;
pub mod seed_papers;
pub mod content_commands;
pub mod curriculum_commands;
pub mod dtos;
pub mod game_commands;
pub mod library_commands;
pub mod memory_commands;
pub mod mock_commands;
pub mod premium_commands;
pub mod readiness_commands;
pub mod intake_commands;
