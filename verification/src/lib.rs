//! Verified command and storage logic of the StoryOS PostgreSQL adapter.

pub mod text;
pub mod tree_order;
pub mod json;
pub mod digest;
pub mod storage_activation;
pub mod activation_proof;
pub mod command;
pub mod ids;
pub mod set_current_chapter;
pub mod update_chapter;
pub mod update_volume;
pub mod update_project_assistance;
pub mod takeover;
pub mod snapshot;
pub mod stream_proposal;
pub mod structural_authority;
pub mod undo;
pub mod reopen;
