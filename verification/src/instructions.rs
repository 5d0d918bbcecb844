pub mod report_drainer;
pub mod update_ai_metadata;
