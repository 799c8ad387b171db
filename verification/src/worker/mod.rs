pub mod exchange;
pub mod guarantees;
pub mod messages;
pub mod session;
pub mod transfer;
pub mod update;
