pub mod clock;
pub mod drainer_report;
pub mod history;
pub mod layout;
pub mod pubkey;
pub mod text;
